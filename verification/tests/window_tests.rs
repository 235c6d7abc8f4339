use manga_reader::window::WindowBuffer;
use manga_reader::WINDOW_CAPACITY;

#[test]
fn a_new_buffer_is_empty() {
    let window = WindowBuffer::new();
    assert_eq!(window.slot_count(), 0);
    assert!(!window.filled());
    assert_eq!(window.contents(), Vec::<Vec<u8>>::new());
}

#[test]
fn initial_fill_tags_the_first_pages() {
    let mut window = WindowBuffer::new();
    window.fill_initial(vec![vec![10], vec![11], vec![12]]);
    assert!(window.filled());
    assert_eq!(window.indices(), vec![0, 1, 2]);
    assert_eq!(window.contents(), vec![vec![10], vec![11], vec![12]]);
    assert_eq!(window.front_index(), 0);
    assert_eq!(window.back_index(), WINDOW_CAPACITY - 1);
}

#[test]
fn advance_forward_evicts_the_front() {
    let mut window = WindowBuffer::new();
    window.fill_initial(vec![vec![10], vec![11], vec![12]]);
    window.advance_forward(vec![13]);
    assert_eq!(window.indices(), vec![1, 2, 3]);
    assert_eq!(window.contents(), vec![vec![11], vec![12], vec![13]]);
}

#[test]
fn advance_backward_evicts_the_back() {
    let mut window = WindowBuffer::new();
    window.fill_initial(vec![vec![10], vec![11], vec![12]]);
    window.advance_forward(vec![13]);
    window.advance_forward(vec![14]);
    window.advance_backward(vec![21]);
    assert_eq!(window.indices(), vec![1, 2, 3]);
    assert_eq!(window.contents(), vec![vec![21], vec![12], vec![13]]);
}

#[test]
fn advances_keep_the_window_contiguous() {
    let mut window = WindowBuffer::new();
    window.fill_initial(vec![vec![0], vec![1], vec![2]]);
    for step in 0..5u8 {
        window.advance_forward(vec![3 + step]);
        let indices = window.indices();
        assert_eq!(indices.len(), WINDOW_CAPACITY);
        for position in 1..indices.len() {
            assert_eq!(indices[position], indices[position - 1] + 1);
        }
    }
}
