//! Scroll Mapper: converts a continuous vertical scroll offset into the
//! discrete page index that offset falls in, given a fixed per-page display
//! height.

use vstd::arithmetic::div_mod::lemma_div_is_ordered;
use vstd::arithmetic::div_mod::lemma_div_pos_is_pos;
use vstd::prelude::*;

verus! {

/// The page index a vertical offset falls in, for a fixed per-page height.
pub open spec fn map_offset_spec(offset: usize, page_height: usize) -> int
    recommends
        page_height > 0,
{
    if offset == 0 {
        0
    } else {
        offset as int / page_height as int
    }
}

/// Maps a scroll offset to a candidate page index.
///
/// No clamping to the document's page range happens here: the result can be
/// at or past the last page of a short document, and callers guard against
/// that themselves. Total and stateless.
pub fn map_offset(offset: usize, page_height: usize) -> (index: usize)
    requires
        page_height > 0,
    ensures
        index == map_offset_spec(offset, page_height),
{
    if offset == 0 {
        0
    } else {
        offset / page_height
    }
}

/// The Scroll Mapper is monotonic: a larger scroll offset never maps to a
/// smaller page index.
pub proof fn lemma_map_offset_monotonic(offset1: usize, offset2: usize, page_height: usize)
    requires
        page_height > 0,
        offset1 <= offset2,
    ensures
        map_offset_spec(offset1, page_height) <= map_offset_spec(offset2, page_height),
{
    if offset1 == 0 {
        if offset2 != 0 {
            lemma_div_pos_is_pos(offset2 as int, page_height as int);
        }
    } else {
        lemma_div_is_ordered(offset1 as int, offset2 as int, page_height as int);
    }
}

} // verus!
