//! The reading session's reactor: a single state owner that consumes
//! heterogeneous events (connection ready, metadata, fetched pages, scroll
//! motion, view switches) and answers each with the list of fetches to
//! perform. All state mutation is confined here; the network and the
//! rendering surface live outside and only exchange plain values with it.

use crate::composer::compose;
use crate::composer::height_sum;
use crate::composer::is_image_of;
use crate::composer::lead_spacer_count;
use crate::composer::slot_height;
use crate::composer::Slot;
use crate::controller::decision_spec;
use crate::controller::Decision;
use crate::controller::PrefetchController;
use crate::mapper::map_offset;
use crate::mapper::map_offset_spec;
use crate::window::WindowBuffer;
use crate::WINDOW_CAPACITY;
use vstd::prelude::*;

verus! {

/// Document metadata, immutable once fetched.
#[derive(Debug)]
pub struct MangaInfo {
    pub id: u32,
    pub english_name: String,
    pub japanese_name: String,
    pub cover: Vec<u8>,
    pub tags: Vec<String>,
    pub artists: Vec<String>,
    pub pages: u32,
    pub uploaded: String,
}

/// Which of the two screens is shown. Orthogonal to the window engine.
#[derive(Debug, Clone, Copy, PartialEq, Eq, Structural)]
pub enum ViewKind {
    Info,
    Reading,
}

/// Which side of the window a fetched page extends: the initial fill, a
/// forward advance, or a backward advance.
#[derive(Debug, Clone, Copy, PartialEq, Eq, Structural)]
pub enum Direction {
    Initial,
    Forward,
    Backward,
}

/// Why a fetch came back empty-handed.
#[derive(Debug, Clone, Copy, PartialEq, Eq, Structural)]
pub enum FetchError {
    NotFound,
    TransportFailure,
    DecodeFailure,
}

/// One completion or input event, as observed by the state owner, in
/// arrival order.
#[derive(Debug)]
pub enum Event {
    /// The remote connection is ready.
    Connected,
    /// Document metadata arrived.
    MetadataArrived { info: MangaInfo },
    /// A page's bytes arrived, echoing the request's index and direction.
    PageArrived { index: usize, direction: Direction, content: Vec<u8> },
    /// A fetch failed; the window and the anchor are left as they are, so a
    /// later scroll in the same direction computes a fresh target.
    PageFailed { error: FetchError },
    /// The reader toggled between the metadata screen and the pages.
    ViewChanged { view: ViewKind },
    /// The display surface reports a new vertical scroll offset.
    ScrolledTo { offset: usize },
}

/// One fetch for the outside to perform; its completion comes back as an
/// [`Event`].
#[derive(Debug, Clone, Copy, PartialEq, Eq, Structural)]
pub enum Fetch {
    Metadata,
    Page { index: usize, direction: Direction },
}

/// The fetches a controller decision asks for: none, or the one page that
/// keeps the window contiguous on the chosen side.
pub open spec fn fetches_for(decision: Decision) -> Seq<Fetch> {
    match decision {
        Decision::NoOp => Seq::<Fetch>::empty(),
        Decision::FetchForward { target } => seq![
            Fetch::Page { index: target, direction: Direction::Forward },
        ],
        Decision::FetchBackward { target } => seq![
            Fetch::Page { index: target, direction: Direction::Backward },
        ],
    }
}

/// A forward decision pairs with a forward advance: when the window is
/// full and centered on the anchor (its front page is `anchor -
/// HALF_WINDOW`), a one-step forward scroll that decides to fetch asks
/// exactly for the page past the window's back edge, so applying the
/// completion keeps the window contiguous and centered on the candidate.
pub proof fn lemma_single_step_forward_extends_window(
    window: WindowBuffer,
    anchor: usize,
    candidate: usize,
    page_count: usize,
)
    requires
        window.wf(),
        window.is_full(),
        anchor == window.first_index() + crate::HALF_WINDOW,
        candidate == anchor + 1,
        decision_spec(anchor, candidate, page_count) is FetchForward,
    ensures
        decision_spec(anchor, candidate, page_count)->FetchForward_target == window.last_index()
            + 1,
{
    window.lemma_contiguous();
}

/// The backward counterpart: a one-step backward scroll that decides to
/// fetch asks exactly for the page before the window's front edge.
pub proof fn lemma_single_step_backward_extends_window(
    window: WindowBuffer,
    anchor: usize,
    candidate: usize,
    page_count: usize,
)
    requires
        window.wf(),
        window.is_full(),
        anchor == window.first_index() + crate::HALF_WINDOW,
        anchor >= 1,
        candidate == anchor - 1,
        decision_spec(anchor, candidate, page_count) is FetchBackward,
    ensures
        window.first_index() >= 1,
        decision_spec(anchor, candidate, page_count)->FetchBackward_target == window.first_index()
            - 1,
{
    window.lemma_contiguous();
}

/// The whole state the reactor owns.
pub struct ReaderCore {
    pub view: ViewKind,
    pub info: Option<MangaInfo>,
    /// Pages of the initial fill that arrived before the window was filled.
    pub pending_initial: Vec<Vec<u8>>,
    pub window: WindowBuffer,
    pub controller: PrefetchController,
    /// Fixed display height of every page slot.
    pub page_height: usize,
}

impl ReaderCore {
    /// The window is only ever empty or full, staged initial pages exist
    /// only while it is empty, and the page height is positive.
    pub open spec fn wf(self) -> bool {
        &&& self.window.wf()
        &&& (self.window.len() == 0 || self.window.is_full())
        &&& self.pending_initial@.len() < WINDOW_CAPACITY
        &&& (self.window.len() != 0 ==> self.pending_initial@.len() == 0)
        &&& self.page_height > 0
    }

    /// The document's page count, once metadata is present.
    pub open spec fn page_count_spec(self) -> int
        recommends
            self.info is Some,
    {
        match self.info {
            Option::Some(info) => info.pages as int,
            Option::None => 0,
        }
    }

    /// The composer runs only once metadata is known, the window is full,
    /// the document is at least window-sized and the anchor is in range.
    pub open spec fn ready_to_compose(self) -> bool {
        &&& self.info is Some
        &&& self.window.is_full()
        &&& WINDOW_CAPACITY <= self.page_count_spec()
        &&& (self.controller.anchor as int) < self.page_count_spec()
    }

    pub fn new(page_height: usize) -> (core: ReaderCore)
        requires
            page_height > 0,
        ensures
            core.wf(),
            core.view is Info,
            core.info is None,
            core.window.len() == 0,
            core.pending_initial@.len() == 0,
            core.controller.anchor == 0,
            core.page_height == page_height,
    {
        ReaderCore {
            view: ViewKind::Info,
            info: Option::None,
            pending_initial: Vec::new(),
            window: WindowBuffer::new(),
            controller: PrefetchController::new(),
            page_height,
        }
    }

    /// Applies one event to the state and returns the fetches to perform:
    ///
    /// - `Connected` asks for the metadata and the initial fill, touching
    ///   nothing;
    /// - `MetadataArrived` stores the metadata;
    /// - an `Initial` page extends the staged fill when it is the next one
    ///   owed, and the window fills, with the anchor back at 0, when the
    ///   last of them arrives;
    /// - a `Forward` or `Backward` page advances the full window by one when
    ///   its index extends it contiguously on that side, and is dropped
    ///   otherwise, so an out-of-order completion can never corrupt the
    ///   window;
    /// - `PageFailed` changes nothing;
    /// - `ViewChanged` switches the screen;
    /// - `ScrolledTo` maps the offset to a candidate page, lets the
    ///   controller decide, moves the anchor to the candidate, and asks for
    ///   the page the decision names, if any.
    pub fn on_event(&mut self, event: Event) -> (cmds: Vec<Fetch>)
        requires
            old(self).wf(),
        ensures
            final(self).wf(),
            final(self).page_height == old(self).page_height,
            event is Connected ==> ({
                &&& *final(self) == *old(self)
                &&& cmds@.len() == WINDOW_CAPACITY + 1
                &&& cmds@[0] == Fetch::Metadata
                &&& forall|j: int|
                    1 <= j < cmds@.len() ==> (#[trigger] cmds@[j]) == (Fetch::Page {
                        index: (j - 1) as usize,
                        direction: Direction::Initial,
                    })
            }),
            event matches Event::MetadataArrived { info } ==> ({
                &&& final(self).info == Option::Some(info)
                &&& final(self).view == old(self).view
                &&& final(self).window == old(self).window
                &&& final(self).pending_initial == old(self).pending_initial
                &&& final(self).controller == old(self).controller
                &&& cmds@.len() == 0
            }),
            event matches Event::PageFailed { .. } ==> ({
                &&& *final(self) == *old(self)
                &&& cmds@.len() == 0
            }),
            event matches Event::ViewChanged { view } ==> ({
                &&& final(self).view == view
                &&& final(self).info == old(self).info
                &&& final(self).window == old(self).window
                &&& final(self).pending_initial == old(self).pending_initial
                &&& final(self).controller == old(self).controller
                &&& cmds@.len() == 0
            }),
            event matches Event::PageArrived { index, direction: Direction::Initial, content }
                ==> ({
                &&& final(self).view == old(self).view
                &&& final(self).info == old(self).info
                &&& cmds@.len() == 0
                &&& if old(self).window.len() == 0 && index == old(self).pending_initial@.len() {
                    if index + 1 == WINDOW_CAPACITY {
                        &&& final(self).window.is_full()
                        &&& forall|i: int|
                            0 <= i < WINDOW_CAPACITY ==> (#[trigger] final(self).window.index_at(i)) == i
                        &&& forall|i: int|
                            0 <= i < WINDOW_CAPACITY - 1 ==> (#[trigger] final(self).window.content_at(i)) == old(self).pending_initial@[i]@
                        &&& final(self).window.content_at(WINDOW_CAPACITY - 1) == content@
                        &&& final(self).pending_initial@.len() == 0
                        &&& final(self).controller.anchor == 0
                    } else {
                        &&& final(self).window == old(self).window
                        &&& final(self).pending_initial@ == old(self).pending_initial@.push(
                            content,
                        )
                        &&& final(self).controller == old(self).controller
                    }
                } else {
                    &&& final(self).window == old(self).window
                    &&& final(self).pending_initial == old(self).pending_initial
                    &&& final(self).controller == old(self).controller
                }
            }),
            event matches Event::PageArrived { index, direction: Direction::Forward, content }
                ==> ({
                &&& final(self).view == old(self).view
                &&& final(self).info == old(self).info
                &&& final(self).pending_initial == old(self).pending_initial
                &&& final(self).controller == old(self).controller
                &&& cmds@.len() == 0
                &&& if old(self).window.is_full() && index == old(self).window.last_index() + 1 {
                    &&& final(self).window.is_full()
                    &&& final(self).window.first_index() == old(self).window.first_index() + 1
                    &&& forall|i: int|
                        0 <= i < WINDOW_CAPACITY - 1 ==> (#[trigger] final(self).window.content_at(i)) == old(self).window.content_at(i + 1)
                    &&& final(self).window.content_at(WINDOW_CAPACITY - 1) == content@
                    &&& final(self).window.index_at(WINDOW_CAPACITY - 1) == index
                } else {
                    final(self).window == old(self).window
                }
            }),
            event matches Event::PageArrived { index, direction: Direction::Backward, content }
                ==> ({
                &&& final(self).view == old(self).view
                &&& final(self).info == old(self).info
                &&& final(self).pending_initial == old(self).pending_initial
                &&& final(self).controller == old(self).controller
                &&& cmds@.len() == 0
                &&& if old(self).window.is_full() && old(self).window.first_index() >= 1 && index
                    == old(self).window.first_index() - 1 {
                    &&& final(self).window.is_full()
                    &&& final(self).window.first_index() == old(self).window.first_index() - 1
                    &&& forall|i: int|
                        1 <= i < WINDOW_CAPACITY ==> (#[trigger] final(self).window.content_at(i))
                            == old(self).window.content_at(i - 1)
                    &&& final(self).window.content_at(0) == content@
                    &&& final(self).window.index_at(0) == index
                } else {
                    final(self).window == old(self).window
                }
            }),
            event matches Event::ScrolledTo { offset } ==> ({
                &&& final(self).view == old(self).view
                &&& final(self).info == old(self).info
                &&& final(self).window == old(self).window
                &&& final(self).pending_initial == old(self).pending_initial
                &&& match old(self).info {
                    Option::None => final(self).controller == old(self).controller && cmds@.len()
                        == 0,
                    Option::Some(info) => {
                        let candidate = map_offset_spec(offset, old(self).page_height) as usize;
                        &&& final(self).controller.anchor == candidate
                        &&& cmds@ == fetches_for(
                            decision_spec(
                                old(self).controller.anchor,
                                candidate,
                                info.pages as usize,
                            ),
                        )
                    },
                }
            }),
    {
        match event {
            Event::Connected => {
                let mut cmds: Vec<Fetch> = Vec::new();
                cmds.push(Fetch::Metadata);
                let mut i: usize = 0;
                while i < WINDOW_CAPACITY
                    invariant
                        i <= WINDOW_CAPACITY,
                        cmds@.len() == i + 1,
                        cmds@[0] == Fetch::Metadata,
                        forall|j: int|
                            1 <= j < cmds@.len() ==> (#[trigger] cmds@[j]) == (Fetch::Page {
                                index: (j - 1) as usize,
                                direction: Direction::Initial,
                            }),
                    decreases WINDOW_CAPACITY - i,
                {
                    cmds.push(Fetch::Page { index: i, direction: Direction::Initial });
                    i += 1;
                }
                cmds
            }
            Event::MetadataArrived { info } => {
                self.info = Option::Some(info);
                Vec::new()
            }
            Event::PageArrived { index, direction, content } => {
                match direction {
                    Direction::Initial => {
                        if self.window.slot_count() == 0 && index == self.pending_initial.len() {
                            self.pending_initial.push(content);
                            if self.pending_initial.len() == WINDOW_CAPACITY {
                                let mut pages: Vec<Vec<u8>> = Vec::new();
                                std::mem::swap(&mut pages, &mut self.pending_initial);
                                self.window.fill_initial(pages);
                                self.controller = PrefetchController::new();
                            }
                        }
                    }
                    Direction::Forward => {
                        if self.window.filled() && index >= 1 && self.window.back_index() == index
                            - 1 {
                            self.window.advance_forward(content);
                        }
                    }
                    Direction::Backward => {
                        if self.window.filled() && self.window.front_index() >= 1
                            && self.window.front_index() - 1 == index {
                            self.window.advance_backward(content);
                        }
                    }
                }
                Vec::new()
            }
            Event::PageFailed { error: _ } => Vec::new(),
            Event::ViewChanged { view } => {
                self.view = view;
                Vec::new()
            }
            Event::ScrolledTo { offset } => {
                let page_count: usize = match &self.info {
                    Option::None => {
                        return Vec::new();
                    }
                    Option::Some(info) => info.pages as usize,
                };
                let candidate = map_offset(offset, self.page_height);
                let decision = self.controller.on_position_changed(candidate, page_count);
                let mut cmds: Vec<Fetch> = Vec::new();
                match decision {
                    Decision::NoOp => {}
                    Decision::FetchForward { target } => {
                        cmds.push(Fetch::Page { index: target, direction: Direction::Forward });
                    }
                    Decision::FetchBackward { target } => {
                        cmds.push(Fetch::Page { index: target, direction: Direction::Backward });
                    }
                }
                proof {
                    assert(cmds@ =~= fetches_for(
                        decision_spec(old(self).controller.anchor, candidate, page_count),
                    ));
                }
                cmds
            }
        }
    }

    /// The current slot list for layout, once the session is ready for it:
    /// exactly one slot per document page, the window's pages as images at
    /// the anchor's position and spacers everywhere else, every slot of the
    /// fixed page height. Before readiness (no metadata yet, window not
    /// full, document smaller than the window, or anchor out of range) the
    /// caller renders an empty placeholder instead.
    pub fn compose_view(&self) -> (result: Option<Vec<Slot>>)
        requires
            self.wf(),
        ensures
            result is Some <==> self.ready_to_compose(),
            result matches Some(slots) ==> ({
                let page_count = self.page_count_spec();
                let lead = lead_spacer_count(self.controller.anchor as int, page_count);
                &&& slots@.len() == page_count
                &&& forall|i: int|
                    0 <= i < page_count ==> slot_height(#[trigger] slots@[i]) == self.page_height
                &&& forall|i: int|
                    0 <= i < lead ==> (#[trigger] slots@[i]) == (Slot::Spacer {
                        height: self.page_height,
                    })
                &&& forall|i: int|
                    lead <= i < lead + WINDOW_CAPACITY ==> is_image_of(
                        #[trigger] slots@[i],
                        self.window.content_at(i - lead),
                        self.page_height,
                    )
                &&& forall|i: int|
                    lead + WINDOW_CAPACITY <= i < page_count ==> (#[trigger] slots@[i]) == (
                    Slot::Spacer { height: self.page_height })
                &&& height_sum(slots@) == page_count * self.page_height
            }),
    {
        let page_count: usize = match &self.info {
            Option::None => {
                return Option::None;
            }
            Option::Some(info) => info.pages as usize,
        };
        if !self.window.filled() {
            return Option::None;
        }
        if page_count < WINDOW_CAPACITY {
            return Option::None;
        }
        if self.controller.anchor >= page_count {
            return Option::None;
        }
        let contents = self.window.contents();
        Option::Some(compose(contents, self.controller.anchor, page_count, self.page_height))
    }
}

} // verus!
