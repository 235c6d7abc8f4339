//! Prefetch Controller: a pure decision rule that maps a position change to
//! at most one fetch request and the side of the window to evict from,
//! subject to the document's boundary guards.

use crate::HALF_WINDOW;
use vstd::prelude::*;

verus! {

/// What the controller asks for after a position change: nothing, one page
/// beyond the forward edge of the window, or one page beyond its backward
/// edge. The carried `target` is the document index to fetch.
#[derive(Debug, Clone, Copy, PartialEq, Eq, Structural)]
pub enum Decision {
    NoOp,
    FetchForward { target: usize },
    FetchBackward { target: usize },
}

/// The decision the controller takes when its anchor is `anchor` and the
/// reader's position becomes `candidate`, in a document of `page_count`
/// pages. Evaluated in order:
///
/// 1. an unchanged position decides nothing;
/// 2. a move toward higher indices with `candidate` strictly inside
///    `[2, page_count - 2)` fetches `candidate + HALF_WINDOW` forward;
/// 3. a move toward lower indices with `candidate` strictly inside
///    `[1, page_count - 3)` fetches `candidate - HALF_WINDOW` backward;
/// 4. anything else decides nothing.
///
/// The asymmetric bounds leave `HALF_WINDOW` pages of headroom at the tail
/// for forward motion and at the head for backward motion, so a target is
/// never negative and never at or past `page_count`.
pub open spec fn decision_spec(anchor: usize, candidate: usize, page_count: usize) -> Decision {
    if candidate == anchor {
        Decision::NoOp
    } else if candidate > anchor && 2 <= candidate && candidate + 2 < page_count {
        Decision::FetchForward { target: (candidate + HALF_WINDOW) as usize }
    } else if candidate < anchor && 1 <= candidate && candidate + 3 < page_count {
        Decision::FetchBackward { target: (candidate - HALF_WINDOW) as usize }
    } else {
        Decision::NoOp
    }
}

/// Holds the index of the last position a fetch decision was made for. It
/// starts at 0 and is reset to 0 when the window is first filled.
pub struct PrefetchController {
    pub anchor: usize,
}

impl PrefetchController {
    pub fn new() -> (controller: PrefetchController)
        ensures
            controller.anchor == 0,
    {
        PrefetchController { anchor: 0 }
    }

    /// Decides on a new reader position, then moves the anchor to that
    /// position immediately — not when the fetch completes — so a later
    /// position change is compared against the newest candidate.
    pub fn on_position_changed(&mut self, candidate: usize, page_count: usize) -> (decision:
        Decision)
        ensures
            decision == decision_spec(old(self).anchor, candidate, page_count),
            final(self).anchor == candidate,
    {
        let anchor = self.anchor;
        self.anchor = candidate;
        if candidate == anchor {
            Decision::NoOp
        } else if candidate > anchor && candidate >= 2 && page_count >= 2 && candidate
            < page_count - 2 {
            Decision::FetchForward { target: candidate + HALF_WINDOW }
        } else if candidate < anchor && candidate >= 1 && page_count >= 3 && candidate
            < page_count - 3 {
            Decision::FetchBackward { target: candidate - HALF_WINDOW }
        } else {
            Decision::NoOp
        }
    }
}

/// Decisions are idempotent on a repeated candidate: every call moves the
/// anchor to its candidate, and deciding on the anchor itself is a `NoOp`,
/// so a second call with the same candidate decides nothing.
pub proof fn lemma_repeated_candidate_is_noop(candidate: usize, page_count: usize)
    ensures
        decision_spec(candidate, candidate, page_count) == Decision::NoOp,
{
}

} // verus!
