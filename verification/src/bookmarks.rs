//! The bookmark list manager: an ordered list of at most ten distinct panes
//! with a selection cursor, and the operations that toggle, walk, remove and
//! pick bookmarks.

use crate::pane::PaneId;
use vstd::prelude::*;

verus! {

/// The most bookmarks the list ever holds.
pub const MAX_BOOKMARKS: usize = 10;

/// Which bookmark to bring into focus.
#[derive(Clone, Copy, Debug, PartialEq, Eq, Structural)]
pub enum Target {
    /// The bookmark under the cursor.
    Selected,
    /// The bookmark at the given place in the list, counted from zero.
    Index(usize),
}

/// The bookmark list as mathematical values.
pub struct BookmarksView {
    /// The bookmarked panes, oldest first.
    pub panes: Seq<PaneId>,
    /// The place of the cursor.
    pub selected: nat,
}

impl BookmarksView {
    /// The invariant of the list: no pane is bookmarked twice, there are at
    /// most [`MAX_BOOKMARKS`] bookmarks, and the cursor points at a bookmark
    /// or, where there is none, at zero.
    pub open spec fn wf(self) -> bool {
        &&& self.panes.no_duplicates()
        &&& self.panes.len() <= MAX_BOOKMARKS
        &&& (self.selected < self.panes.len() || self.selected == 0)
    }

    /// The list without bookmarks.
    pub open spec fn empty() -> BookmarksView {
        BookmarksView { panes: Seq::empty(), selected: 0 }
    }

    /// The list with the cursor moved down by one where it lies beyond the
    /// last bookmark, and never below zero.
    pub open spec fn settled(self) -> BookmarksView {
        if self.selected >= self.panes.len() && self.selected > 0 {
            BookmarksView { selected: (self.selected - 1) as nat, ..self }
        } else {
            self
        }
    }

    /// The bookmarks after `pane` was toggled: without it where it was
    /// bookmarked; else with it at the end, after the oldest bookmark has
    /// made room where the list was full.
    pub open spec fn toggled_panes(self, pane: PaneId) -> Seq<PaneId> {
        if self.panes.contains(pane) {
            self.panes.remove(self.panes.index_of(pane))
        } else if self.panes.len() >= MAX_BOOKMARKS {
            self.panes.drop_first().push(pane)
        } else {
            self.panes.push(pane)
        }
    }

    /// The list after the focused pane, if there is one, was toggled.
    pub open spec fn toggle(self, focused: Option<PaneId>) -> BookmarksView {
        match focused {
            Some(pane) => BookmarksView { panes: self.toggled_panes(pane), ..self }.settled(),
            None => self,
        }
    }

    /// The list after the cursor was moved by `delta`, stopping at the first
    /// and at the last bookmark.
    pub open spec fn move_selection(self, delta: int) -> BookmarksView {
        let target = self.selected + delta;
        let last = self.panes.len() - 1;
        let selected: nat = if target <= 0 || last <= 0 {
            0
        } else if target >= last {
            last as nat
        } else {
            target as nat
        };
        BookmarksView { selected, ..self }
    }

    /// The list after the bookmark under the cursor was removed.
    pub open spec fn remove_selected(self) -> BookmarksView {
        if self.selected < self.panes.len() {
            BookmarksView { panes: self.panes.remove(self.selected as int), ..self }.settled()
        } else {
            self
        }
    }

    /// The pane that `target` stands for, if it stands for one.
    pub open spec fn resolve(self, target: Target) -> Option<PaneId> {
        let index = match target {
            Target::Selected => self.selected,
            Target::Index(index) => index as nat,
        };
        if index < self.panes.len() {
            Some(self.panes[index as int])
        } else {
            None
        }
    }
}

/// The bookmark list.
pub struct BookmarkList {
    marked_panes: Vec<PaneId>,
    selected_index: usize,
}

impl View for BookmarkList {
    type V = BookmarksView;

    closed spec fn view(&self) -> BookmarksView {
        BookmarksView { panes: self.marked_panes@, selected: self.selected_index as nat }
    }
}

impl Default for BookmarkList {
    fn default() -> (list: BookmarkList)
        ensures
            list@ == BookmarksView::empty(),
            list.wf(),
    {
        BookmarkList::new()
    }
}

impl BookmarkList {
    /// Whether the list keeps its invariant. Every list made and changed
    /// through this module's functions does.
    pub open spec fn wf(&self) -> bool {
        self@.wf()
    }

    /// A list without bookmarks.
    pub fn new() -> (list: Self)
        ensures
            list@ == BookmarksView::empty(),
            list.wf(),
    {
        BookmarkList { marked_panes: Vec::new(), selected_index: 0 }
    }

    /// The bookmarked panes, oldest first.
    pub fn panes(&self) -> (panes: &Vec<PaneId>)
        ensures
            panes@ == self@.panes,
    {
        &self.marked_panes
    }

    /// The number of bookmarks.
    pub fn len(&self) -> (len: usize)
        ensures
            len == self@.panes.len(),
    {
        self.marked_panes.len()
    }

    /// The place of the cursor.
    pub fn selected_index(&self) -> (selected: usize)
        ensures
            selected == self@.selected,
    {
        self.selected_index
    }

    /// The place of `pane` among the bookmarks.
    fn position(&self, pane: PaneId) -> (found: Option<usize>)
        ensures
            match found {
                Some(index) => index < self@.panes.len() && self@.panes[index as int] == pane,
                None => !self@.panes.contains(pane),
            },
    {
        let mut index: usize = 0;
        while index < self.marked_panes.len()
            invariant
                index <= self.marked_panes.len(),
                forall|j: int| 0 <= j < index ==> self.marked_panes@[j] != pane,
            decreases self.marked_panes.len() - index,
        {
            if self.marked_panes[index] == pane {
                return Some(index);
            }
            index += 1;
        }
        None
    }

    /// Moves the cursor down by one where it lies beyond the last bookmark.
    fn settle(&mut self)
        ensures
            final(self)@ == old(self)@.settled(),
    {
        if self.selected_index >= self.marked_panes.len() && self.selected_index > 0 {
            self.selected_index = self.selected_index - 1;
        }
    }

    /// Toggles the bookmark of the focused pane. Without a focused pane
    /// nothing changes and the answer is `false`. A pane that was bookmarked
    /// loses its bookmark; one that was not gets one at the end of the list,
    /// and where the list was full its oldest bookmark goes first.
    pub fn toggle_focused(&mut self, focused: Option<PaneId>) -> (changed: bool)
        requires
            old(self).wf(),
        ensures
            final(self)@ == old(self)@.toggle(focused),
            final(self).wf(),
            changed == focused.is_some(),
    {
        match focused {
            Some(pane) => {
                proof {
                    lemma_toggle_keeps_wf(self@, focused);
                }
                match self.position(pane) {
                    Some(existing_position) => {
                        assert(self@.panes.index_of(pane) == existing_position);
                        self.marked_panes.remove(existing_position);
                    },
                    None => {
                        if self.marked_panes.len() >= MAX_BOOKMARKS {
                            self.marked_panes.remove(0);
                            assert(self.marked_panes@ =~= old(self)@.panes.drop_first());
                        }
                        self.marked_panes.push(pane);
                    },
                }
                self.settle();
                true
            },
            None => false,
        }
    }

    /// Moves the cursor by `delta` places, stopping at the first and at the
    /// last bookmark. The answer says whether the cursor moved.
    pub fn move_selection(&mut self, delta: i32) -> (changed: bool)
        requires
            old(self).wf(),
        ensures
            final(self)@ == old(self)@.move_selection(delta as int),
            final(self).wf(),
            changed == (final(self)@.selected != old(self)@.selected),
    {
        let len = self.marked_panes.len();
        let target: i64 = self.selected_index as i64 + delta as i64;
        let selected: usize = if target <= 0 || len <= 1 {
            0
        } else if target >= (len - 1) as i64 {
            len - 1
        } else {
            target as usize
        };
        let changed = selected != self.selected_index;
        self.selected_index = selected;
        changed
    }

    /// Removes the bookmark under the cursor. The answer says whether there
    /// was one. The cursor moves down by one where it would else lie beyond
    /// the last bookmark.
    pub fn remove_selected(&mut self) -> (changed: bool)
        requires
            old(self).wf(),
        ensures
            final(self)@ == old(self)@.remove_selected(),
            final(self).wf(),
            changed == (old(self)@.panes.len() > 0),
    {
        if self.selected_index < self.marked_panes.len() {
            proof {
                lemma_remove_selected_keeps_wf(self@);
            }
            self.marked_panes.remove(self.selected_index);
            self.settle();
            true
        } else {
            false
        }
    }

    /// The pane to bring into focus for `target`: the bookmark it points at,
    /// or none where it points at no bookmark.
    pub fn activate(&self, target: Target) -> (pane: Option<PaneId>)
        ensures
            pane == self@.resolve(target),
    {
        let index = match target {
            Target::Selected => self.selected_index,
            Target::Index(index) => index,
        };
        if index < self.marked_panes.len() {
            Some(self.marked_panes[index])
        } else {
            None
        }
    }
}

/// Toggling keeps the invariant of the list.
pub proof fn lemma_toggle_keeps_wf(list: BookmarksView, focused: Option<PaneId>)
    requires
        list.wf(),
    ensures
        list.toggle(focused).wf(),
{
    match focused {
        Some(pane) => {
            let panes = list.toggled_panes(pane);
            if list.panes.contains(pane) {
                let at = list.panes.index_of(pane);
                assert forall|i: int, j: int| 0 <= i < panes.len() && 0 <= j < panes.len() && i
                    != j implies panes[i] != panes[j] by {
                    let from_i = if i < at { i } else { i + 1 };
                    let from_j = if j < at { j } else { j + 1 };
                    assert(panes[i] == list.panes[from_i]);
                    assert(panes[j] == list.panes[from_j]);
                }
            } else if list.panes.len() >= MAX_BOOKMARKS {
                assert forall|i: int, j: int| 0 <= i < panes.len() && 0 <= j < panes.len() && i
                    != j implies panes[i] != panes[j] by {
                    if i < panes.len() - 1 {
                        assert(panes[i] == list.panes[i + 1]);
                    }
                    if j < panes.len() - 1 {
                        assert(panes[j] == list.panes[j + 1]);
                    }
                }
            } else {
                assert forall|i: int, j: int| 0 <= i < panes.len() && 0 <= j < panes.len() && i
                    != j implies panes[i] != panes[j] by {
                    if i < panes.len() - 1 {
                        assert(panes[i] == list.panes[i]);
                    }
                    if j < panes.len() - 1 {
                        assert(panes[j] == list.panes[j]);
                    }
                }
            }
        },
        None => {},
    }
}

/// Removing the selected bookmark keeps the invariant of the list.
pub proof fn lemma_remove_selected_keeps_wf(list: BookmarksView)
    requires
        list.wf(),
    ensures
        list.remove_selected().wf(),
{
    if list.selected < list.panes.len() {
        let at = list.selected as int;
        let panes = list.panes.remove(at);
        assert forall|i: int, j: int| 0 <= i < panes.len() && 0 <= j < panes.len() && i
            != j implies panes[i] != panes[j] by {
            let from_i = if i < at { i } else { i + 1 };
            let from_j = if j < at { j } else { j + 1 };
            assert(panes[i] == list.panes[from_i]);
            assert(panes[j] == list.panes[from_j]);
        }
    }
}

/// Moving the cursor keeps the invariant of the list.
pub proof fn lemma_move_selection_keeps_wf(list: BookmarksView, delta: int)
    requires
        list.wf(),
    ensures
        list.move_selection(delta).wf(),
{
}

/// One operation on the list, as mathematical values.
pub enum BookmarkOp {
    /// Toggle the bookmark of the focused pane, if a pane is focused.
    Toggle { focused: Option<PaneId> },
    /// Move the cursor by `delta` places.
    MoveSelection { delta: int },
    /// Remove the bookmark under the cursor.
    RemoveSelected,
}

impl BookmarksView {
    /// The list after one operation.
    pub open spec fn apply(self, op: BookmarkOp) -> BookmarksView {
        match op {
            BookmarkOp::Toggle { focused } => self.toggle(focused),
            BookmarkOp::MoveSelection { delta } => self.move_selection(delta),
            BookmarkOp::RemoveSelected => self.remove_selected(),
        }
    }

    /// The list after a run of operations, taken in order.
    pub open spec fn apply_all(self, ops: Seq<BookmarkOp>) -> BookmarksView
        decreases ops.len(),
    {
        if ops.len() == 0 {
            self
        } else {
            self.apply_all(ops.drop_last()).apply(ops.last())
        }
    }
}

/// Whatever run of toggles, cursor moves and removals a list goes through,
/// it keeps its invariant: it never holds more than [`MAX_BOOKMARKS`]
/// bookmarks nor one pane twice, and its cursor points at a bookmark, or at
/// zero while there is none.
pub proof fn lemma_operations_keep_wf(list: BookmarksView, ops: Seq<BookmarkOp>)
    requires
        list.wf(),
    ensures
        list.apply_all(ops).wf(),
        list.apply_all(ops).panes.len() <= MAX_BOOKMARKS,
        list.apply_all(ops).panes.len() > 0 ==> list.apply_all(ops).selected < list.apply_all(
            ops,
        ).panes.len(),
        list.apply_all(ops).panes.len() == 0 ==> list.apply_all(ops).selected == 0,
    decreases ops.len(),
{
    if ops.len() > 0 {
        let before = list.apply_all(ops.drop_last());
        lemma_operations_keep_wf(list, ops.drop_last());
        match ops.last() {
            BookmarkOp::Toggle { focused } => lemma_toggle_keeps_wf(before, focused),
            BookmarkOp::MoveSelection { delta } => lemma_move_selection_keeps_wf(before, delta),
            BookmarkOp::RemoveSelected => lemma_remove_selected_keeps_wf(before),
        }
    }
}

/// Toggling a pane that is not bookmarked on a full list drops the oldest
/// bookmark: every other bookmark moves one place towards the front, the new
/// one comes last, and the cursor stays where it was.
pub proof fn lemma_toggle_on_full_list_evicts_oldest(list: BookmarksView, pane: PaneId)
    requires
        list.wf(),
        list.panes.len() == MAX_BOOKMARKS,
        !list.panes.contains(pane),
    ensures
        list.toggle(Some(pane)).panes.len() == MAX_BOOKMARKS,
        forall|i: int|
            0 <= i < MAX_BOOKMARKS - 1 ==> list.toggle(Some(pane)).panes[i] == list.panes[i + 1],
        list.toggle(Some(pane)).panes[MAX_BOOKMARKS - 1] == pane,
        !list.toggle(Some(pane)).panes.contains(list.panes[0]),
        list.toggle(Some(pane)).selected == list.selected,
{
    let after = list.toggle(Some(pane)).panes;
    assert(after == list.panes.drop_first().push(pane));
    assert forall|i: int| 0 <= i < after.len() implies after[i] != list.panes[0] by {
        if i < MAX_BOOKMARKS - 1 {
            assert(after[i] == list.panes[i + 1]);
        }
    }
}

/// Toggling the same pane twice in a row gives the bookmarks back. Where the
/// pane was not bookmarked and the list had room, the list is exactly as it
/// was. Where the pane was bookmarked, the same panes are bookmarked as
/// before, with that pane now last.
///
/// A full list without the pane is left out: there the first toggle drops
/// the oldest bookmark for good.
pub proof fn lemma_toggle_twice(list: BookmarksView, pane: PaneId)
    requires
        list.wf(),
        list.panes.contains(pane) || list.panes.len() < MAX_BOOKMARKS,
    ensures
        !list.panes.contains(pane) ==> list.toggle(Some(pane)).toggle(Some(pane)) == list,
        list.panes.contains(pane) ==> list.toggle(Some(pane)).toggle(Some(pane)).panes
            == list.panes.remove(list.panes.index_of(pane)).push(pane),
        list.toggle(Some(pane)).toggle(Some(pane)).panes.to_multiset()
            == list.panes.to_multiset(),
{
    broadcast use vstd::seq_lib::group_to_multiset_ensures;

    let once = list.toggle(Some(pane));
    let twice = once.toggle(Some(pane));
    lemma_toggle_keeps_wf(list, Some(pane));
    if list.panes.contains(pane) {
        let at = list.panes.index_of(pane);
        let rest = list.panes.remove(at);
        assert(once.panes == rest);
        assert forall|i: int| 0 <= i < rest.len() implies rest[i] != pane by {
            let from = if i < at { i } else { i + 1 };
            assert(rest[i] == list.panes[from]);
        }
        assert(!rest.contains(pane));
        assert(twice.panes == rest.push(pane));
        assert(rest.to_multiset() == list.panes.to_multiset().remove(pane));
        assert(rest.push(pane).to_multiset() == rest.to_multiset().insert(pane));
        assert(list.panes.to_multiset().count(pane) > 0);
        assert(list.panes.to_multiset().remove(pane).insert(pane) =~= list.panes.to_multiset());
    } else {
        let grown = list.panes.push(pane);
        let last = list.panes.len() as int;
        assert(once.panes == grown);
        assert(grown[last] == pane);
        assert(grown.contains(pane));
        assert(grown.index_of(pane) == last);
        assert(grown.remove(last) =~= list.panes);
        assert(twice.panes == list.panes);
    }
}

} // verus!
