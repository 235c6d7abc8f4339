use manga_reader::composer::{compose, Slot};

fn window_contents() -> Vec<Vec<u8>> {
    vec![vec![101], vec![102], vec![103]]
}

fn height_of(slot: &Slot) -> usize {
    match slot {
        Slot::Spacer { height } => *height,
        Slot::Image { height, .. } => *height,
    }
}

fn is_spacer(slot: &Slot) -> bool {
    matches!(slot, Slot::Spacer { .. })
}

/// The positions of the three image slots, in order.
fn image_positions(slots: &[Slot]) -> Vec<usize> {
    let mut positions = Vec::new();
    for (position, slot) in slots.iter().enumerate() {
        if !is_spacer(slot) {
            positions.push(position);
        }
    }
    positions
}

#[test]
fn slot_count_and_total_height_match_the_document() {
    // One slot per page; heights always sum to page_count * page_height.
    for anchor in 0..10 {
        let slots = compose(window_contents(), anchor, 10, 7);
        assert_eq!(slots.len(), 10);
        let total: usize = slots.iter().map(height_of).sum();
        assert_eq!(total, 10 * 7);
    }
}

#[test]
fn near_start_puts_the_images_first() {
    let slots = compose(window_contents(), 0, 10, 7);
    assert_eq!(image_positions(&slots), vec![0, 1, 2]);
    assert_eq!(slots[0], Slot::Image { content: vec![101], height: 7 });
    assert_eq!(slots[1], Slot::Image { content: vec![102], height: 7 });
    assert_eq!(slots[2], Slot::Image { content: vec![103], height: 7 });
    for slot in &slots[3..] {
        assert_eq!(*slot, Slot::Spacer { height: 7 });
    }
}

#[test]
fn middle_centers_the_images_on_the_anchor() {
    let slots = compose(window_contents(), 5, 10, 7);
    assert_eq!(image_positions(&slots), vec![4, 5, 6]);
    assert_eq!(slots[4], Slot::Image { content: vec![101], height: 7 });
    assert_eq!(slots[6], Slot::Image { content: vec![103], height: 7 });
}

#[test]
fn near_end_puts_the_images_last() {
    let slots = compose(window_contents(), 9, 10, 7);
    assert_eq!(image_positions(&slots), vec![7, 8, 9]);
    for slot in &slots[..7] {
        assert_eq!(*slot, Slot::Spacer { height: 7 });
    }
}

#[test]
fn smallest_document_has_no_spacers() {
    let slots = compose(window_contents(), 1, 3, 7);
    assert_eq!(image_positions(&slots), vec![0, 1, 2]);
}

#[test]
fn next_to_last_anchor_leaves_no_trailing_spacers() {
    // For 20 pages, anchor 18 sits in the middle branch but its trailing
    // spacer count is already zero.
    let slots = compose(window_contents(), 18, 20, 7);
    assert_eq!(slots.len(), 20);
    assert_eq!(image_positions(&slots), vec![17, 18, 19]);
}

#[test]
fn last_anchor_leaves_no_trailing_spacers() {
    // Anchor 19 takes the near-end branch and composes the same list.
    let slots = compose(window_contents(), 19, 20, 7);
    assert_eq!(slots.len(), 20);
    assert_eq!(image_positions(&slots), vec![17, 18, 19]);
    assert_eq!(slots, compose(window_contents(), 18, 20, 7));
}
