//! Windowed prefetch and virtualization engine for a paginated remote image
//! document.
//!
//! A reader scrolls through a document whose pages are fetched over the
//! network one at a time, while only a small bounded window of pages is kept
//! in memory. This crate holds the state and the decision logic of that
//! engine:
//!
//! - [`mapper`]: converts a continuous scroll offset into a page index;
//! - [`window`]: the fixed-capacity sliding buffer of loaded pages;
//! - [`controller`]: decides, from a position change, which single page to
//!   fetch next and on which side to evict;
//! - [`composer`]: rebuilds the full-height list of renderable slots (real
//!   page or placeholder spacer) from the window;
//! - [`session`]: the reactor that drives all of the above from a stream of
//!   events, emitting the fetches to perform.
//!
//! Actual network transport, rendering and the event loop live outside this
//! crate; they hand plain values in and take plain values back.

use vstd::prelude::*;

pub mod composer;
pub mod controller;
pub mod mapper;
pub mod session;
pub mod window;

verus! {

/// Number of pages the sliding window holds once it has been filled.
pub const WINDOW_CAPACITY: usize = 3;

/// Pages of headroom kept on either side of the anchor; the distance from a
/// candidate position to the page the controller asks for next.
pub const HALF_WINDOW: usize = WINDOW_CAPACITY / 2;

} // verus!
