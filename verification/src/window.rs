//! Window Buffer: a fixed-capacity ordered sequence of the pages currently
//! materialized in memory.
//!
//! Each slot is tagged with the document index its content belongs to, so
//! the correspondence between buffer positions and document pages is carried
//! explicitly rather than inferred from the push/evict discipline alone. The
//! buffer never holds non-contiguous indices: once filled, slot `i` holds
//! the page at `first_index() + i`.

use crate::WINDOW_CAPACITY;
use std::collections::VecDeque;
use vstd::prelude::*;

verus! {

/// One materialized page: its document index and its raw image bytes.
pub struct PageSlot {
    pub index: usize,
    pub content: Vec<u8>,
}

/// The sliding buffer of loaded pages. It is empty until the initial fill
/// and holds exactly [`WINDOW_CAPACITY`] contiguous pages ever after.
pub struct WindowBuffer {
    slots: VecDeque<PageSlot>,
}

impl WindowBuffer {
    /// How many pages the buffer currently holds.
    pub closed spec fn len(self) -> int {
        self.slots@.len() as int
    }

    /// The document index of the page held at buffer position `i`.
    pub closed spec fn index_at(self, i: int) -> usize {
        self.slots@[i].index
    }

    /// The bytes of the page held at buffer position `i`.
    pub closed spec fn content_at(self, i: int) -> Seq<u8> {
        self.slots@[i].content@
    }

    /// The document index of the front (lowest) page.
    pub open spec fn first_index(self) -> usize {
        self.index_at(0)
    }

    /// The document index of the back (highest) page.
    pub open spec fn last_index(self) -> usize {
        self.index_at(self.len() - 1)
    }

    pub open spec fn is_full(self) -> bool {
        self.len() == WINDOW_CAPACITY
    }

    /// The buffer never exceeds its capacity and always holds contiguous
    /// document indices.
    pub closed spec fn wf(self) -> bool {
        &&& self.slots@.len() <= WINDOW_CAPACITY
        &&& forall|i: int|
            0 <= i < self.slots@.len() ==> (#[trigger] self.slots@[i].index) == self.slots@[0].index
                + i
    }

    /// Contiguity, stated over the public accessors: in a well-formed
    /// buffer, position `i` holds the page at `first_index() + i`.
    pub proof fn lemma_contiguous(self)
        requires
            self.wf(),
        ensures
            forall|i: int| 0 <= i < self.len() ==> (#[trigger] self.index_at(i)) == self.first_index() + i,
    {
    }

    /// A new buffer is empty.
    pub fn new() -> (window: WindowBuffer)
        ensures
            window.wf(),
            window.len() == 0,
    {
        WindowBuffer { slots: VecDeque::new() }
    }

    pub fn slot_count(&self) -> (n: usize)
        ensures
            n == self.len(),
    {
        self.slots.len()
    }

    pub fn filled(&self) -> (full: bool)
        ensures
            full == self.is_full(),
    {
        self.slots.len() == WINDOW_CAPACITY
    }

    pub fn front_index(&self) -> (index: usize)
        requires
            self.len() > 0,
        ensures
            index == self.first_index(),
    {
        self.slots[0].index
    }

    pub fn back_index(&self) -> (index: usize)
        requires
            self.len() > 0,
        ensures
            index == self.last_index(),
    {
        self.slots[self.slots.len() - 1].index
    }

    /// Populates an empty buffer with the given contents in order, tagging
    /// them with document indices `0 .. WINDOW_CAPACITY`. Only valid when
    /// the buffer is empty.
    pub fn fill_initial(&mut self, pages: Vec<Vec<u8>>)
        requires
            old(self).len() == 0,
            pages@.len() == WINDOW_CAPACITY,
        ensures
            final(self).wf(),
            final(self).is_full(),
            forall|i: int| 0 <= i < WINDOW_CAPACITY ==> (#[trigger] final(self).index_at(i)) == i,
            forall|i: int|
                0 <= i < WINDOW_CAPACITY ==> (#[trigger] final(self).content_at(i)) == pages@[i]@,
    {
        let ghost all_pages = pages@;
        let mut pages = pages;
        let mut index: usize = 0;
        while index < WINDOW_CAPACITY
            invariant
                index <= WINDOW_CAPACITY,
                all_pages.len() == WINDOW_CAPACITY,
                index + pages@.len() == WINDOW_CAPACITY,
                pages@ =~= all_pages.skip(index as int),
                self.slots@.len() == index,
                forall|i: int| 0 <= i < index ==> (#[trigger] self.slots@[i].index) == i,
                forall|i: int|
                    0 <= i < index ==> (#[trigger] self.slots@[i].content@) == all_pages[i]@,
            decreases WINDOW_CAPACITY - index,
        {
            let content = pages.remove(0);
            proof {
                assert(content@ == all_pages[index as int]@);
                assert(pages@ =~= all_pages.skip(index as int + 1));
            }
            self.slots.push_back(PageSlot { index, content });
            index += 1;
        }
    }

    /// Evicts the front page and appends `content` at the back, tagged with
    /// the next higher document index: the window shifts forward by one.
    pub fn advance_forward(&mut self, content: Vec<u8>)
        requires
            old(self).wf(),
            old(self).is_full(),
            old(self).last_index() < usize::MAX,
        ensures
            final(self).wf(),
            final(self).is_full(),
            final(self).first_index() == old(self).first_index() + 1,
            forall|i: int|
                0 <= i < WINDOW_CAPACITY - 1 ==> (#[trigger] final(self).index_at(i)) == old(
                    self,
                ).index_at(i + 1),
            forall|i: int|
                0 <= i < WINDOW_CAPACITY - 1 ==> (#[trigger] final(self).content_at(i)) == old(
                    self,
                ).content_at(i + 1),
            final(self).index_at(WINDOW_CAPACITY - 1) == old(self).last_index() + 1,
            final(self).content_at(WINDOW_CAPACITY - 1) == content@,
    {
        self.slots.pop_front();
        let index = self.slots[self.slots.len() - 1].index + 1;
        self.slots.push_back(PageSlot { index, content });
    }

    /// Evicts the back page and inserts `content` at the front, tagged with
    /// the next lower document index: the window shifts backward by one.
    pub fn advance_backward(&mut self, content: Vec<u8>)
        requires
            old(self).wf(),
            old(self).is_full(),
            old(self).first_index() >= 1,
        ensures
            final(self).wf(),
            final(self).is_full(),
            final(self).first_index() == old(self).first_index() - 1,
            forall|i: int|
                1 <= i < WINDOW_CAPACITY ==> (#[trigger] final(self).index_at(i)) == old(
                    self,
                ).index_at(i - 1),
            forall|i: int|
                1 <= i < WINDOW_CAPACITY ==> (#[trigger] final(self).content_at(i)) == old(
                    self,
                ).content_at(i - 1),
            final(self).index_at(0) == old(self).first_index() - 1,
            final(self).content_at(0) == content@,
    {
        self.slots.pop_back();
        let index = self.slots[0].index - 1;
        self.slots.push_front(PageSlot { index, content });
    }

    /// The held page contents, front to back, as owned copies.
    pub fn contents(&self) -> (contents: Vec<Vec<u8>>)
        ensures
            contents@.len() == self.len(),
            forall|i: int| 0 <= i < self.len() ==> (#[trigger] contents@[i]@) == self.content_at(i),
    {
        let mut contents: Vec<Vec<u8>> = Vec::new();
        let mut position: usize = 0;
        while position < self.slots.len()
            invariant
                position <= self.slots@.len(),
                contents@.len() == position,
                forall|i: int|
                    0 <= i < position ==> (#[trigger] contents@[i]@) == self.slots@[i].content@,
            decreases self.slots@.len() - position,
        {
            contents.push(copy_bytes(&self.slots[position].content));
            position += 1;
        }
        contents
    }

    /// The document indices of the held pages, front to back.
    pub fn indices(&self) -> (indices: Vec<usize>)
        ensures
            indices@.len() == self.len(),
            forall|i: int| 0 <= i < self.len() ==> (#[trigger] indices@[i]) == self.index_at(i),
    {
        let mut indices: Vec<usize> = Vec::new();
        let mut position: usize = 0;
        while position < self.slots.len()
            invariant
                position <= self.slots@.len(),
                indices@.len() == position,
                forall|i: int| 0 <= i < position ==> (#[trigger] indices@[i]) == self.slots@[i].index,
            decreases self.slots@.len() - position,
        {
            indices.push(self.slots[position].index);
            position += 1;
        }
        indices
    }
}

/// An owned copy of a byte vector.
fn copy_bytes(bytes: &Vec<u8>) -> (copy: Vec<u8>)
    ensures
        copy@ == bytes@,
{
    let mut copy: Vec<u8> = Vec::new();
    let mut position: usize = 0;
    while position < bytes.len()
        invariant
            position <= bytes@.len(),
            copy@ =~= bytes@.take(position as int),
        decreases bytes@.len() - position,
    {
        copy.push(bytes[position]);
        position += 1;
    }
    assert(copy@ =~= bytes@);
    copy
}

} // verus!
