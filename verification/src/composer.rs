//! View Composer: rebuilds, from the window and the anchor, the full
//! ordered list of renderable slots. Pages outside the window become
//! placeholder spacers of the fixed per-page height, so the total height of
//! the list always equals `page_count * page_height` and the scrollbar
//! arithmetic of the Scroll Mapper stays valid across re-composition.

use crate::HALF_WINDOW;
use crate::WINDOW_CAPACITY;
use vstd::prelude::*;

verus! {

/// One renderable unit: a real page image or a placeholder spacer. Both
/// occupy the same fixed display height.
#[derive(Debug, Clone, PartialEq, Eq)]
pub enum Slot {
    Spacer { height: usize },
    Image { content: Vec<u8>, height: usize },
}

/// The display height a slot occupies.
pub open spec fn slot_height(slot: Slot) -> usize {
    match slot {
        Slot::Spacer { height } => height,
        Slot::Image { content, height } => height,
    }
}

/// Whether `slot` is a real image holding exactly `bytes`, of height `h`.
pub open spec fn is_image_of(slot: Slot, bytes: Seq<u8>, h: usize) -> bool {
    &&& slot matches Slot::Image { content, height }
    &&& content@ == bytes
    &&& height == h
}

/// The summed display height of a slot list.
pub open spec fn height_sum(slots: Seq<Slot>) -> int
    decreases slots.len(),
{
    if slots.len() == 0 {
        0
    } else {
        height_sum(slots.drop_last()) + slot_height(slots.last())
    }
}

/// A list whose slots all have height `h` sums to `len * h`.
proof fn lemma_height_sum_uniform(slots: Seq<Slot>, h: usize)
    requires
        forall|i: int| 0 <= i < slots.len() ==> slot_height(#[trigger] slots[i]) == h,
    ensures
        height_sum(slots) == slots.len() * h,
    decreases slots.len(),
{
    if slots.len() > 0 {
        lemma_height_sum_uniform(slots.drop_last(), h);
        assert((slots.len() - 1) * h + h == slots.len() * h) by (nonlinear_arith);
    }
}

/// How many spacers precede the window's images, by case on the anchor:
/// none near the start, all non-window pages near the end, and
/// `anchor - HALF_WINDOW` in the middle.
pub open spec fn lead_spacer_count(anchor: int, page_count: int) -> int
    recommends
        WINDOW_CAPACITY <= page_count,
        0 <= anchor < page_count,
{
    if anchor < HALF_WINDOW {
        0
    } else if anchor >= page_count - HALF_WINDOW {
        page_count - WINDOW_CAPACITY
    } else {
        anchor - HALF_WINDOW
    }
}

fn lead_spacers(anchor: usize, page_count: usize) -> (count: usize)
    requires
        WINDOW_CAPACITY <= page_count,
        anchor < page_count,
    ensures
        count == lead_spacer_count(anchor as int, page_count as int),
        count + WINDOW_CAPACITY <= page_count,
{
    if anchor < HALF_WINDOW {
        0
    } else if anchor >= page_count - HALF_WINDOW {
        page_count - WINDOW_CAPACITY
    } else {
        anchor - HALF_WINDOW
    }
}

/// Produces the ordered slot list for the whole document: the window's
/// contents as images, in buffer order, preceded and followed by one spacer
/// per page outside the window. The result always holds exactly
/// `page_count` slots of height `page_height` each, so its total height is
/// `page_count * page_height`. Stateless: re-derived on every render.
pub fn compose(
    window_contents: Vec<Vec<u8>>,
    anchor: usize,
    page_count: usize,
    page_height: usize,
) -> (slots: Vec<Slot>)
    requires
        window_contents@.len() == WINDOW_CAPACITY,
        WINDOW_CAPACITY <= page_count,
        anchor < page_count,
    ensures
        slots@.len() == page_count,
        forall|i: int|
            0 <= i < page_count ==> slot_height(#[trigger] slots@[i]) == page_height,
        ({
            let lead = lead_spacer_count(anchor as int, page_count as int);
            &&& forall|i: int|
                0 <= i < lead ==> (#[trigger] slots@[i]) == (Slot::Spacer { height: page_height })
            &&& forall|i: int|
                lead <= i < lead + WINDOW_CAPACITY ==> is_image_of(
                    #[trigger] slots@[i],
                    window_contents@[i - lead]@,
                    page_height,
                )
            &&& forall|i: int|
                lead + WINDOW_CAPACITY <= i < page_count ==> (#[trigger] slots@[i]) == (
                Slot::Spacer { height: page_height })
        }),
        height_sum(slots@) == page_count * page_height,
{
    let ghost all_contents = window_contents@;
    let mut window_contents = window_contents;
    let lead = lead_spacers(anchor, page_count);
    let mut slots: Vec<Slot> = Vec::new();
    let mut position: usize = 0;
    while position < lead
        invariant
            position <= lead,
            slots@.len() == position,
            forall|i: int|
                0 <= i < position ==> (#[trigger] slots@[i]) == (Slot::Spacer {
                    height: page_height,
                }),
        decreases lead - position,
    {
        slots.push(Slot::Spacer { height: page_height });
        position += 1;
    }
    let mut taken: usize = 0;
    while taken < WINDOW_CAPACITY
        invariant
            taken <= WINDOW_CAPACITY,
            all_contents.len() == WINDOW_CAPACITY,
            taken + window_contents@.len() == WINDOW_CAPACITY,
            window_contents@ =~= all_contents.skip(taken as int),
            slots@.len() == lead + taken,
            forall|i: int|
                0 <= i < lead ==> (#[trigger] slots@[i]) == (Slot::Spacer {
                    height: page_height,
                }),
            forall|i: int|
                lead <= i < lead + taken ==> is_image_of(
                    #[trigger] slots@[i],
                    all_contents[i - lead]@,
                    page_height,
                ),
        decreases WINDOW_CAPACITY - taken,
    {
        let content = window_contents.remove(0);
        proof {
            assert(content@ == all_contents[taken as int]@);
            assert(window_contents@ =~= all_contents.skip(taken as int + 1));
        }
        slots.push(Slot::Image { content, height: page_height });
        taken += 1;
    }
    while slots.len() < page_count
        invariant
            lead + WINDOW_CAPACITY <= slots@.len() <= page_count,
            forall|i: int|
                0 <= i < lead ==> (#[trigger] slots@[i]) == (Slot::Spacer {
                    height: page_height,
                }),
            forall|i: int|
                lead <= i < lead + WINDOW_CAPACITY ==> is_image_of(
                    #[trigger] slots@[i],
                    all_contents[i - lead]@,
                    page_height,
                ),
            forall|i: int|
                lead + WINDOW_CAPACITY <= i < slots@.len() ==> (#[trigger] slots@[i]) == (
                Slot::Spacer { height: page_height }),
        decreases page_count - slots@.len(),
    {
        slots.push(Slot::Spacer { height: page_height });
    }
    proof {
        assert forall|i: int| 0 <= i < page_count implies slot_height(#[trigger] slots@[i])
            == page_height by {
            let lead_g = lead_spacer_count(anchor as int, page_count as int);
            if i < lead_g {
            } else if i < lead_g + WINDOW_CAPACITY {
            } else {
            }
        }
        lemma_height_sum_uniform(slots@, page_height);
    }
    slots
}

} // verus!
