use manga_reader::mapper::map_offset;

#[test]
fn zero_offset_maps_to_first_page() {
    assert_eq!(map_offset(0, 100), 0);
}

#[test]
fn offsets_inside_first_page_map_to_zero() {
    assert_eq!(map_offset(1, 100), 0);
    assert_eq!(map_offset(99, 100), 0);
}

#[test]
fn page_boundaries() {
    assert_eq!(map_offset(100, 100), 1);
    assert_eq!(map_offset(199, 100), 1);
    assert_eq!(map_offset(200, 100), 2);
}

#[test]
fn exact_division() {
    assert_eq!(map_offset(1764, 1764), 1);
    assert_eq!(map_offset(5 * 1764 + 3, 1764), 5);
}

#[test]
fn monotonic_on_samples() {
    let mut previous = 0;
    for offset in 0..1000 {
        let index = map_offset(offset, 37);
        assert!(previous <= index);
        previous = index;
    }
}
