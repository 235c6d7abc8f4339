use manga_reader::controller::{Decision, PrefetchController};

#[test]
fn starts_at_zero() {
    let controller = PrefetchController::new();
    assert_eq!(controller.anchor, 0);
}

#[test]
fn unchanged_candidate_is_noop() {
    let mut controller = PrefetchController { anchor: 5 };
    assert_eq!(controller.on_position_changed(5, 20), Decision::NoOp);
    assert_eq!(controller.anchor, 5);
}

#[test]
fn forward_move_fetches_past_the_window() {
    let mut controller = PrefetchController { anchor: 0 };
    assert_eq!(controller.on_position_changed(5, 20), Decision::FetchForward { target: 6 });
    assert_eq!(controller.anchor, 5);
}

#[test]
fn backward_move_fetches_before_the_window() {
    let mut controller = PrefetchController { anchor: 5 };
    assert_eq!(controller.on_position_changed(1, 10), Decision::FetchBackward { target: 0 });
    assert_eq!(controller.anchor, 1);
}

#[test]
fn repeated_candidate_is_noop_the_second_time() {
    let mut controller = PrefetchController { anchor: 5 };
    assert_eq!(controller.on_position_changed(3, 20), Decision::FetchBackward { target: 2 });
    assert_eq!(controller.on_position_changed(3, 20), Decision::NoOp);
}

#[test]
fn candidate_zero_is_outside_both_guards() {
    // 0 is below the forward guard's lower bound of 2 and below the
    // backward guard's lower bound of 1, so a move to 0 never fetches.
    let mut controller = PrefetchController { anchor: 1 };
    assert_eq!(controller.on_position_changed(0, 10), Decision::NoOp);
    assert_eq!(controller.anchor, 0);
}

#[test]
fn forward_guard_boundaries() {
    // Guard is [2, page_count - 2); for 10 pages that is [2, 8).
    let mut controller = PrefetchController { anchor: 0 };
    assert_eq!(controller.on_position_changed(1, 10), Decision::NoOp);
    let mut controller = PrefetchController { anchor: 0 };
    assert_eq!(controller.on_position_changed(2, 10), Decision::FetchForward { target: 3 });
    let mut controller = PrefetchController { anchor: 0 };
    assert_eq!(controller.on_position_changed(7, 10), Decision::FetchForward { target: 8 });
    let mut controller = PrefetchController { anchor: 0 };
    assert_eq!(controller.on_position_changed(8, 10), Decision::NoOp);
}

#[test]
fn backward_guard_boundaries() {
    // Guard is [1, page_count - 3); for 10 pages that is [1, 7).
    let mut controller = PrefetchController { anchor: 9 };
    assert_eq!(controller.on_position_changed(0, 10), Decision::NoOp);
    let mut controller = PrefetchController { anchor: 9 };
    assert_eq!(controller.on_position_changed(1, 10), Decision::FetchBackward { target: 0 });
    let mut controller = PrefetchController { anchor: 9 };
    assert_eq!(controller.on_position_changed(6, 10), Decision::FetchBackward { target: 5 });
    let mut controller = PrefetchController { anchor: 9 };
    assert_eq!(controller.on_position_changed(7, 10), Decision::NoOp);
}

#[test]
fn tiny_documents_never_fetch() {
    for pages in 0..5 {
        for candidate in 0..pages {
            let mut forward = PrefetchController { anchor: 0 };
            let mut backward = PrefetchController { anchor: pages };
            assert_eq!(forward.on_position_changed(candidate, pages), Decision::NoOp);
            assert_eq!(backward.on_position_changed(candidate, pages), Decision::NoOp);
        }
    }
}
