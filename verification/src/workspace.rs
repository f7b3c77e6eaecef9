//! The workspace state tracker: it takes in tab and pane topology
//! notifications and keeps, from the latest of each, which pane has the
//! focus and what title each pane was last seen with.

use crate::pane::{PaneEntry, PaneId, PaneManifest, TabInfo, TabPanes};
use std::collections::HashMap;
use vstd::prelude::*;
use vstd::std_specs::hash::*;

verus! {

/// The active tab as the tracker stores it: its position, and whether its
/// floating panes are visible.
pub type ActiveTab = Option<(usize, bool)>;

/// What the tracker knows, as mathematical values.
pub struct WorkspaceView {
    /// The pane that has the focus, if any has.
    pub focused_pane: Option<PaneId>,
    /// The active tab of the latest tab notification that named one.
    pub active_tab: ActiveTab,
    /// The title each pane was last seen with.
    pub pane_titles: Map<PaneId, Seq<char>>,
    /// The latest pane notification, if one came.
    pub last_pane_topology: Option<Seq<PaneEntry>>,
    /// The id the host gave to this plugin.
    pub own_plugin_id: Option<u32>,
}

/// Whether `entry` is a pane that takes the focus while `active_tab` is the
/// active tab: it is not suppressed, it sits in the active tab, it is focused
/// within its tab, and it is floating exactly if the tab shows its floating
/// panes.
pub open spec fn is_focus_candidate(entry: PaneEntry, active_tab: ActiveTab) -> bool {
    match active_tab {
        Some((position, floating_panes_visible)) => {
            &&& !entry.is_suppressed
            &&& entry.tab == position
            &&& entry.is_focused
            &&& entry.is_floating == floating_panes_visible
        },
        None => false,
    }
}

/// The focused pane that `entries` and `active_tab` determine: the last
/// entry that is a focus candidate, or none where there is no candidate.
pub open spec fn focus_of(entries: Seq<PaneEntry>, active_tab: ActiveTab) -> Option<PaneId>
    decreases entries.len(),
{
    if entries.len() == 0 {
        None
    } else if is_focus_candidate(entries.last(), active_tab) {
        Some(entries.last().id)
    } else {
        focus_of(entries.drop_last(), active_tab)
    }
}

/// The titles on record once `entries` have been read on top of `titles`:
/// every entry that is not suppressed sets the title of its pane, a later
/// one over an earlier one.
pub open spec fn titles_after(titles: Map<PaneId, Seq<char>>, entries: Seq<PaneEntry>) -> Map<
    PaneId,
    Seq<char>,
>
    decreases entries.len(),
{
    if entries.len() == 0 {
        titles
    } else {
        let before = titles_after(titles, entries.drop_last());
        let entry = entries.last();
        if entry.is_suppressed {
            before
        } else {
            before.insert(entry.id, entry.title)
        }
    }
}

/// The active tab once `tabs` have been read: the last tab marked active, or
/// `active_tab` as it was where none is marked.
pub open spec fn active_after(active_tab: ActiveTab, tabs: Seq<TabInfo>) -> ActiveTab
    decreases tabs.len(),
{
    if tabs.len() == 0 {
        active_tab
    } else if tabs.last().active {
        Some((tabs.last().position, tabs.last().are_floating_panes_visible))
    } else {
        active_after(active_tab, tabs.drop_last())
    }
}

/// The entries of the latest pane notification, none where none came yet.
pub open spec fn topology_entries(topology: Option<Seq<PaneEntry>>) -> Seq<PaneEntry> {
    match topology {
        Some(entries) => entries,
        None => Seq::empty(),
    }
}

impl WorkspaceView {
    /// The state of a tracker that has seen nothing.
    pub open spec fn empty() -> WorkspaceView {
        WorkspaceView {
            focused_pane: None,
            active_tab: None,
            pane_titles: Map::empty(),
            last_pane_topology: None,
            own_plugin_id: None,
        }
    }

    /// The invariant of the tracker: the focus on record is the one that the
    /// stored topology and the stored active tab determine, and the titles on
    /// record already hold what the stored topology says.
    pub open spec fn wf(self) -> bool {
        let entries = topology_entries(self.last_pane_topology);
        &&& self.focused_pane == focus_of(entries, self.active_tab)
        &&& self.pane_titles == titles_after(self.pane_titles, entries)
    }

    /// The state with focus and titles worked out anew from the stored
    /// topology and the stored active tab.
    pub open spec fn recomputed(self) -> WorkspaceView {
        let entries = topology_entries(self.last_pane_topology);
        WorkspaceView {
            focused_pane: focus_of(entries, self.active_tab),
            pane_titles: titles_after(self.pane_titles, entries),
            ..self
        }
    }

    /// The state after a tab-topology notification.
    pub open spec fn after_tab_topology(self, tabs: Seq<TabInfo>) -> WorkspaceView {
        WorkspaceView { active_tab: active_after(self.active_tab, tabs), ..self }.recomputed()
    }

    /// The state after a pane-topology notification.
    pub open spec fn after_pane_topology(self, entries: Seq<PaneEntry>) -> WorkspaceView {
        WorkspaceView { last_pane_topology: Some(entries), ..self }.recomputed()
    }
}

/// Whether entry `i` of `entries` tells the title of `id`: it is an entry of
/// that pane and is not suppressed.
pub open spec fn names_pane(entries: Seq<PaneEntry>, id: PaneId, i: int) -> bool {
    0 <= i < entries.len() && !entries[i].is_suppressed && entries[i].id == id
}

/// Whether some entry of `entries` tells the title of `id`.
pub open spec fn mentions(entries: Seq<PaneEntry>, id: PaneId) -> bool {
    exists|i: int| names_pane(entries, id, i)
}

/// Whether entry `i` is the last of `entries` that tells the title of `id`.
pub open spec fn is_last_mention(entries: Seq<PaneEntry>, id: PaneId, i: int) -> bool {
    &&& names_pane(entries, id, i)
    &&& forall|j: int| i < j ==> !#[trigger] names_pane(entries, id, j)
}

/// Whether entry `i` is the last focus candidate among `entries`.
pub open spec fn is_last_candidate(entries: Seq<PaneEntry>, active_tab: ActiveTab, i: int) -> bool {
    &&& 0 <= i < entries.len()
    &&& is_focus_candidate(entries[i], active_tab)
    &&& forall|j: int|
        i < j < entries.len() ==> !is_focus_candidate(#[trigger] entries[j], active_tab)
}

/// The focus is the pane of the last focus candidate: where `focus_of` names
/// a pane, some entry is the last candidate and is an entry of that pane;
/// where it names none, no entry is a candidate.
pub proof fn lemma_focus_is_last_candidate(entries: Seq<PaneEntry>, active_tab: ActiveTab)
    ensures
        match focus_of(entries, active_tab) {
            Some(id) => exists|i: int|
                is_last_candidate(entries, active_tab, i) && (#[trigger] entries[i]).id == id,
            None => forall|i: int|
                0 <= i < entries.len() ==> !is_focus_candidate(#[trigger] entries[i], active_tab),
        },
    decreases entries.len(),
{
    if entries.len() == 0 {
    } else if is_focus_candidate(entries.last(), active_tab) {
        let i = entries.len() - 1;
        assert(is_last_candidate(entries, active_tab, i) && entries[i].id == entries.last().id);
    } else {
        let front = entries.drop_last();
        lemma_focus_is_last_candidate(front, active_tab);
        match focus_of(front, active_tab) {
            Some(id) => {
                let i = choose|i: int|
                    is_last_candidate(front, active_tab, i) && (#[trigger] front[i]).id == id;
                assert(front[i] == entries[i]);
                assert forall|j: int| i < j < entries.len() implies !is_focus_candidate(
                    #[trigger] entries[j],
                    active_tab,
                ) by {
                    if j < front.len() {
                        assert(front[j] == entries[j]);
                    }
                }
                assert(is_last_candidate(entries, active_tab, i) && entries[i].id == id);
            },
            None => {
                assert forall|i: int| 0 <= i < entries.len() implies !is_focus_candidate(
                    #[trigger] entries[i],
                    active_tab,
                ) by {
                    if i < front.len() {
                        assert(front[i] == entries[i]);
                    }
                }
            },
        }
    }
}

/// Whatever the active tab, the focus is on a pane that the entries list,
/// not suppressed, under that tab's position, focused within its tab, and
/// floating exactly if the tab shows its floating panes.
pub proof fn lemma_focus_names_listed_pane(
    entries: Seq<PaneEntry>,
    active_tab: ActiveTab,
    id: PaneId,
)
    requires
        focus_of(entries, active_tab) == Some(id),
    ensures
        active_tab.is_some(),
        exists|i: int|
            {
                &&& 0 <= i < entries.len()
                &&& (#[trigger] entries[i]).id == id
                &&& !entries[i].is_suppressed
                &&& entries[i].tab == active_tab.unwrap().0
                &&& entries[i].is_focused
                &&& entries[i].is_floating == active_tab.unwrap().1
            },
{
    lemma_focus_is_last_candidate(entries, active_tab);
    let i = choose|i: int|
        is_last_candidate(entries, active_tab, i) && (#[trigger] entries[i]).id == id;
    assert(is_focus_candidate(entries[i], active_tab));
}

/// What reading `entries` does to the title of one pane: where an entry is
/// the last to tell the title of `id`, that title is on record afterwards;
/// where no entry tells it, the record of `id` is as it was.
pub proof fn lemma_titles_after(titles: Map<PaneId, Seq<char>>, entries: Seq<PaneEntry>, id: PaneId)
    ensures
        forall|i: int| #[trigger]
            is_last_mention(entries, id, i) ==> {
                &&& titles_after(titles, entries).contains_key(id)
                &&& titles_after(titles, entries)[id] == entries[i].title
            },
        !mentions(entries, id) ==> {
            &&& titles_after(titles, entries).contains_key(id) == titles.contains_key(id)
            &&& titles_after(titles, entries)[id] == titles[id]
        },
    decreases entries.len(),
{
    if entries.len() == 0 {
    } else {
        let front = entries.drop_last();
        let last = entries.len() - 1;
        lemma_titles_after(titles, front, id);
        assert forall|i: int| #[trigger] is_last_mention(entries, id, i) implies {
            &&& titles_after(titles, entries).contains_key(id)
            &&& titles_after(titles, entries)[id] == entries[i].title
        } by {
            if i < last {
                assert(!names_pane(entries, id, last));
                assert(front[i] == entries[i]);
                assert forall|j: int| i < j implies !#[trigger] names_pane(front, id, j) by {
                    if names_pane(front, id, j) {
                        assert(front[j] == entries[j]);
                        assert(names_pane(entries, id, j));
                    }
                }
                assert(is_last_mention(front, id, i));
            }
        }
        if !mentions(entries, id) {
            assert(!names_pane(entries, id, last));
            if mentions(front, id) {
                let i = choose|i: int| names_pane(front, id, i);
                assert(front[i] == entries[i]);
                assert(names_pane(entries, id, i));
            }
        }
    }
}

/// Among the entries that tell the title of `id`, if there is any, one is
/// the last.
pub proof fn lemma_last_mention_exists(entries: Seq<PaneEntry>, id: PaneId)
    requires
        mentions(entries, id),
    ensures
        exists|i: int| is_last_mention(entries, id, i),
    decreases entries.len(),
{
    let last = entries.len() - 1;
    let witness = choose|i: int| names_pane(entries, id, i);
    if names_pane(entries, id, last) {
        assert(is_last_mention(entries, id, last));
    } else {
        let front = entries.drop_last();
        assert(front[witness] == entries[witness]);
        assert(names_pane(front, id, witness));
        lemma_last_mention_exists(front, id);
        let i = choose|i: int| is_last_mention(front, id, i);
        assert(front[i] == entries[i]);
        assert forall|j: int| i < j implies !#[trigger] names_pane(entries, id, j) by {
            if names_pane(entries, id, j) {
                assert(front[j] == entries[j]);
                assert(names_pane(front, id, j));
            }
        }
        assert(is_last_mention(entries, id, i));
    }
}

/// Reading the same entries a second time changes no title.
pub proof fn lemma_titles_after_twice(titles: Map<PaneId, Seq<char>>, entries: Seq<PaneEntry>)
    ensures
        titles_after(titles_after(titles, entries), entries) == titles_after(titles, entries),
{
    let once = titles_after(titles, entries);
    let twice = titles_after(once, entries);
    assert forall|id: PaneId|
        #![trigger twice.dom().contains(id)]
        #![trigger once.dom().contains(id)]
        #![trigger twice[id]]
        twice.dom().contains(id) == once.dom().contains(id) && twice[id] == once[id] by {
        lemma_titles_after(titles, entries, id);
        lemma_titles_after(once, entries, id);
        if mentions(entries, id) {
            lemma_last_mention_exists(entries, id);
            let i = choose|i: int| is_last_mention(entries, id, i);
            assert(is_last_mention(entries, id, i));
        }
    }
    assert(twice =~= once);
}

/// Working focus and titles out anew gives a state that keeps the invariant,
/// whatever the state before.
pub proof fn lemma_recomputed_is_wf(state: WorkspaceView)
    ensures
        state.recomputed().wf(),
{
    lemma_titles_after_twice(state.pane_titles, topology_entries(state.last_pane_topology));
}

/// Where focus lies once it has been worked out anew, whatever it was
/// before: on a pane that the stored topology lists, not suppressed, under
/// the position of the stored active tab, focused within its tab and
/// floating exactly if that tab shows its floating panes; and on no pane
/// where the topology lists no such pane or no active tab is stored.
pub proof fn lemma_recomputed_focus(state: WorkspaceView)
    ensures
        ({
            let entries = topology_entries(state.last_pane_topology);
            match state.recomputed().focused_pane {
                Some(id) => state.active_tab.is_some() && exists|i: int|
                    {
                        &&& 0 <= i < entries.len()
                        &&& (#[trigger] entries[i]).id == id
                        &&& !entries[i].is_suppressed
                        &&& entries[i].tab == state.active_tab.unwrap().0
                        &&& entries[i].is_focused
                        &&& entries[i].is_floating == state.active_tab.unwrap().1
                    },
                None => forall|i: int|
                    0 <= i < entries.len() ==> !is_focus_candidate(
                        #[trigger] entries[i],
                        state.active_tab,
                    ),
            }
        }),
{
    let entries = topology_entries(state.last_pane_topology);
    lemma_focus_is_last_candidate(entries, state.active_tab);
    match focus_of(entries, state.active_tab) {
        Some(id) => {
            lemma_focus_names_listed_pane(entries, state.active_tab, id);
        },
        None => {},
    }
}

/// Whether no pane is listed twice among the entries that are not
/// suppressed.
pub open spec fn listed_once(entries: Seq<PaneEntry>) -> bool {
    forall|i: int, j: int|
        #![trigger entries[i], entries[j]]
        0 <= i < j < entries.len() && !entries[i].is_suppressed && !entries[j].is_suppressed
            ==> entries[i].id != entries[j].id
}

/// The titles once they have been worked out anew, whatever the stored
/// active tab: where the stored topology lists no pane twice among those
/// that are not suppressed, every such pane, of whatever tab, is on record
/// with the title it is listed with.
pub proof fn lemma_recomputed_titles(state: WorkspaceView)
    requires
        listed_once(topology_entries(state.last_pane_topology)),
    ensures
        forall|i: int|
            0 <= i < topology_entries(state.last_pane_topology).len() && !(
            #[trigger] topology_entries(state.last_pane_topology)[i]).is_suppressed ==> {
                &&& state.recomputed().pane_titles.contains_key(
                    topology_entries(state.last_pane_topology)[i].id,
                )
                &&& state.recomputed().pane_titles[topology_entries(
                    state.last_pane_topology,
                )[i].id] == topology_entries(state.last_pane_topology)[i].title
            },
{
    let entries = topology_entries(state.last_pane_topology);
    assert forall|i: int| 0 <= i < entries.len() && !(#[trigger] entries[i]).is_suppressed implies {
        &&& state.recomputed().pane_titles.contains_key(entries[i].id)
        &&& state.recomputed().pane_titles[entries[i].id] == entries[i].title
    } by {
        let id = entries[i].id;
        assert(names_pane(entries, id, i));
        assert forall|j: int| i < j implies !#[trigger] names_pane(entries, id, j) by {
            if names_pane(entries, id, j) {
                assert(entries[i].id != entries[j].id);
            }
        }
        assert(is_last_mention(entries, id, i));
        lemma_titles_after(state.pane_titles, entries, id);
    }
}

/// One topology notification, as mathematical values.
pub enum Notification {
    /// The tabs of a tab-topology notification.
    TabTopology { tabs: Seq<TabInfo> },
    /// The entries of a pane-topology notification.
    PaneTopology { entries: Seq<PaneEntry> },
}

impl WorkspaceView {
    /// The state after one notification.
    pub open spec fn after(self, notification: Notification) -> WorkspaceView {
        match notification {
            Notification::TabTopology { tabs } => self.after_tab_topology(tabs),
            Notification::PaneTopology { entries } => self.after_pane_topology(entries),
        }
    }

    /// The state after a run of notifications, taken in order.
    pub open spec fn after_all(self, notifications: Seq<Notification>) -> WorkspaceView
        decreases notifications.len(),
    {
        if notifications.len() == 0 {
            self
        } else {
            self.after_all(notifications.drop_last()).after(notifications.last())
        }
    }
}

/// Whether notification `k` of the run is a pane notification with an entry
/// that tells the title of `id`.
pub open spec fn tells_title(notifications: Seq<Notification>, id: PaneId, k: int) -> bool {
    &&& 0 <= k < notifications.len()
    &&& notifications[k] is PaneTopology
    &&& mentions(notifications[k]->entries, id)
}

/// Every notification leaves a state that keeps the invariant, whatever the
/// state before.
pub proof fn lemma_after_is_wf(state: WorkspaceView, notification: Notification)
    ensures
        state.after(notification).wf(),
{
    match notification {
        Notification::TabTopology { tabs } => {
            lemma_recomputed_is_wf(
                WorkspaceView { active_tab: active_after(state.active_tab, tabs), ..state },
            );
        },
        Notification::PaneTopology { entries } => {
            lemma_recomputed_is_wf(WorkspaceView { last_pane_topology: Some(entries), ..state });
        },
    }
}

/// A run of notifications keeps the invariant of the tracker.
pub proof fn lemma_after_all_is_wf(state: WorkspaceView, notifications: Seq<Notification>)
    requires
        state.wf(),
    ensures
        state.after_all(notifications).wf(),
    decreases notifications.len(),
{
    if notifications.len() > 0 {
        lemma_after_is_wf(state.after_all(notifications.drop_last()), notifications.last());
    }
}

/// After any run of notifications the focus is the one that the latest pane
/// notification and the latest active tab determine: a pane that the latest
/// pane notification lists, not suppressed, under the active tab's position,
/// focused and with the floating flag of the active tab; and none where the
/// notification lists no such pane.
pub proof fn lemma_focus_follows_latest_topology(
    state: WorkspaceView,
    notifications: Seq<Notification>,
)
    requires
        state.wf(),
    ensures
        ({
            let now = state.after_all(notifications);
            let entries = topology_entries(now.last_pane_topology);
            match now.focused_pane {
                Some(id) => exists|i: int|
                    is_last_candidate(entries, now.active_tab, i) && (#[trigger] entries[i]).id
                        == id,
                None => forall|i: int|
                    0 <= i < entries.len() ==> !is_focus_candidate(
                        #[trigger] entries[i],
                        now.active_tab,
                    ),
            }
        }),
{
    lemma_after_all_is_wf(state, notifications);
    let now = state.after_all(notifications);
    lemma_focus_is_last_candidate(topology_entries(now.last_pane_topology), now.active_tab);
}

/// A tab notification changes no title on a tracker that keeps its
/// invariant.
pub proof fn lemma_tab_topology_keeps_titles(state: WorkspaceView, tabs: Seq<TabInfo>)
    requires
        state.wf(),
    ensures
        state.after_tab_topology(tabs).pane_titles == state.pane_titles,
{
}

/// The title on record for a pane is the one from the latest notification
/// that told it. Let notification `k` of the run be the last pane
/// notification with an entry that tells the title of `id`, and let entry `i`
/// be the last such entry in it: after the run, the title of `id` is the one
/// in that entry.
pub proof fn lemma_title_is_latest_told(
    state: WorkspaceView,
    notifications: Seq<Notification>,
    id: PaneId,
    k: int,
    i: int,
)
    requires
        state.wf(),
        tells_title(notifications, id, k),
        forall|later: int| k < later ==> !#[trigger] tells_title(notifications, id, later),
        is_last_mention(notifications[k]->entries, id, i),
    ensures
        state.after_all(notifications).pane_titles.contains_key(id),
        state.after_all(notifications).pane_titles[id] == (notifications[k]->entries)[i].title,
    decreases notifications.len(),
{
    let front = notifications.drop_last();
    let last = notifications.len() - 1;
    let before = state.after_all(front);
    lemma_after_all_is_wf(state, front);
    if k == last {
        lemma_titles_after(before.pane_titles, notifications[k]->entries, id);
    } else {
        assert(front[k] == notifications[k]);
        assert(tells_title(front, id, k));
        assert forall|later: int| k < later implies !#[trigger] tells_title(front, id, later) by {
            if tells_title(front, id, later) {
                assert(front[later] == notifications[later]);
                assert(tells_title(notifications, id, later));
            }
        }
        lemma_title_is_latest_told(state, front, id, k, i);
        match notifications.last() {
            Notification::TabTopology { tabs } => {
                lemma_tab_topology_keeps_titles(before, tabs);
            },
            Notification::PaneTopology { entries } => {
                assert(!tells_title(notifications, id, last));
                lemma_titles_after(before.pane_titles, entries, id);
            },
        }
    }
}

/// A pane whose title no notification of the run told has the record it had
/// before the run: the same title, or none. On a tracker that started empty
/// there is thus no title for a pane that was never listed or was suppressed
/// wherever it was listed.
pub proof fn lemma_untold_title_stays(
    state: WorkspaceView,
    notifications: Seq<Notification>,
    id: PaneId,
)
    requires
        state.wf(),
        forall|k: int| !#[trigger] tells_title(notifications, id, k),
    ensures
        state.after_all(notifications).pane_titles.contains_key(id)
            == state.pane_titles.contains_key(id),
        state.after_all(notifications).pane_titles[id] == state.pane_titles[id],
        state == WorkspaceView::empty() ==> !state.after_all(notifications).pane_titles.contains_key(
            id,
        ),
    decreases notifications.len(),
{
    if notifications.len() > 0 {
        let front = notifications.drop_last();
        let last = notifications.len() - 1;
        let before = state.after_all(front);
        lemma_after_all_is_wf(state, front);
        assert forall|k: int| !#[trigger] tells_title(front, id, k) by {
            if tells_title(front, id, k) {
                assert(front[k] == notifications[k]);
                assert(tells_title(notifications, id, k));
            }
        }
        lemma_untold_title_stays(state, front, id);
        match notifications.last() {
            Notification::TabTopology { tabs } => {
                lemma_tab_topology_keeps_titles(before, tabs);
            },
            Notification::PaneTopology { entries } => {
                assert(!tells_title(notifications, id, last));
                lemma_titles_after(before.pane_titles, entries, id);
            },
        }
    }
}

/// The key under which the title of `id` is stored: the pane's number, with
/// bit 32 set for a plugin.
spec fn title_key(id: PaneId) -> u64 {
    match id {
        PaneId::Terminal(number) => number as u64,
        PaneId::Plugin(number) => (number + 0x1_0000_0000) as u64,
    }
}

/// The titles by pane that a table of titles by key holds.
spec fn titles_by_pane(table: Map<u64, String>) -> Map<PaneId, Seq<char>> {
    Map::new(
        |id: PaneId| table.contains_key(title_key(id)),
        |id: PaneId| table[title_key(id)]@,
    )
}

proof fn lemma_title_key_injective(a: PaneId, b: PaneId)
    ensures
        title_key(a) == title_key(b) ==> a == b,
{
}

proof fn lemma_titles_by_pane_insert(table: Map<u64, String>, id: PaneId, title: String)
    ensures
        titles_by_pane(table.insert(title_key(id), title)) == titles_by_pane(table).insert(
            id,
            title@,
        ),
{
    assert forall|other: PaneId| other != id implies title_key(other) != title_key(id) by {
        lemma_title_key_injective(other, id);
    }
    assert(titles_by_pane(table.insert(title_key(id), title)) =~= titles_by_pane(table).insert(
        id,
        title@,
    ));
}

fn pane_title_key(id: PaneId) -> (key: u64)
    ensures
        key == title_key(id),
{
    match id {
        PaneId::Terminal(number) => number as u64,
        PaneId::Plugin(number) => number as u64 + 0x1_0000_0000,
    }
}

/// Reads the panes of one tab: records the title of each pane that is not
/// suppressed and returns the focus as it stands after the tab.
fn record_tab(
    tab: &TabPanes,
    active_tab: ActiveTab,
    titles: &mut HashMap<u64, String>,
    focused: Option<PaneId>,
    Ghost(before): Ghost<Seq<PaneEntry>>,
    Ghost(start): Ghost<Map<PaneId, Seq<char>>>,
) -> (now_focused: Option<PaneId>)
    requires
        focused == focus_of(before, active_tab),
        titles_by_pane(old(titles)@) == titles_after(start, before),
    ensures
        now_focused == focus_of(before + tab.entries(), active_tab),
        titles_by_pane(final(titles)@) == titles_after(start, before + tab.entries()),
{
    broadcast use group_hash_axioms;

    let mut focused = focused;
    let mut p: usize = 0;
    assert(before + tab.entries().take(0) =~= before);
    while p < tab.panes.len()
        invariant
            p <= tab.panes.len(),
            focused == focus_of(before + tab.entries().take(p as int), active_tab),
            titles_by_pane(titles@) == titles_after(start, before + tab.entries().take(p as int)),
        decreases tab.panes.len() - p,
    {
        let pane = &tab.panes[p];
        let ghost seen = before + tab.entries().take(p as int);
        let ghost entry = pane.entry(tab.position);
        proof {
            assert(tab.entries()[p as int] == entry);
            assert(before + tab.entries().take(p + 1) =~= seen.push(entry));
            assert(seen.push(entry).drop_last() =~= seen);
            assert(seen.push(entry).last() == entry);
        }
        if !pane.is_suppressed {
            let pane_id = pane.pane_id();
            match active_tab {
                Some((position, floating_panes_visible)) => {
                    if tab.position == position && pane.is_focused && pane.is_floating
                        == floating_panes_visible {
                        focused = Some(pane_id);
                    }
                },
                None => {},
            }
            let title = pane.title.clone();
            proof {
                lemma_titles_by_pane_insert(titles@, pane_id, title);
            }
            titles.insert(pane_title_key(pane_id), title);
        }
        p += 1;
    }
    assert(tab.entries().take(p as int) =~= tab.entries());
    focused
}

/// Reads a whole pane notification: records the titles and returns the
/// focused pane.
fn record_panes(
    manifest: &PaneManifest,
    active_tab: ActiveTab,
    titles: &mut HashMap<u64, String>,
) -> (focused: Option<PaneId>)
    ensures
        focused == focus_of(manifest@, active_tab),
        titles_by_pane(final(titles)@) == titles_after(titles_by_pane(old(titles)@), manifest@),
{
    let ghost start = titles_by_pane(titles@);
    let ghost lists = manifest.tabs@.map_values(|tab: TabPanes| tab.entries());
    let mut focused: Option<PaneId> = None;
    let mut t: usize = 0;
    assert(lists.take(0) =~= Seq::<Seq<PaneEntry>>::empty());
    while t < manifest.tabs.len()
        invariant
            t <= manifest.tabs.len(),
            lists == manifest.tabs@.map_values(|tab: TabPanes| tab.entries()),
            focused == focus_of(lists.take(t as int).flatten(), active_tab),
            titles_by_pane(titles@) == titles_after(start, lists.take(t as int).flatten()),
        decreases manifest.tabs.len() - t,
    {
        let tab = &manifest.tabs[t];
        proof {
            assert(lists.take(t + 1) =~= lists.take(t as int).push(tab.entries()));
            lists.take(t as int).lemma_flatten_push(tab.entries());
        }
        focused = record_tab(
            tab,
            active_tab,
            titles,
            focused,
            Ghost(lists.take(t as int).flatten()),
            Ghost(start),
        );
        t += 1;
    }
    assert(lists.take(t as int) =~= lists);
    focused
}

/// The tracker. It is fed through [`WorkspaceState::update_tab_info`] and
/// [`WorkspaceState::update_latest_pane_manifest`] and asked through
/// [`WorkspaceState::get_focused_pane_id`] and
/// [`WorkspaceState::get_pane_title`].
pub struct WorkspaceState {
    focused_pane_id: Option<PaneId>,
    active_tab_position_and_floating_panes_visible: Option<(usize, bool)>,
    latest_pane_manifest: Option<PaneManifest>,
    pane_titles: HashMap<u64, String>,
    own_plugin_id: Option<u32>,
}

impl View for WorkspaceState {
    type V = WorkspaceView;

    closed spec fn view(&self) -> WorkspaceView {
        WorkspaceView {
            focused_pane: self.focused_pane_id,
            active_tab: self.active_tab_position_and_floating_panes_visible,
            pane_titles: titles_by_pane(self.pane_titles@),
            last_pane_topology: match self.latest_pane_manifest {
                Some(manifest) => Some(manifest@),
                None => None,
            },
            own_plugin_id: self.own_plugin_id,
        }
    }
}

impl Default for WorkspaceState {
    fn default() -> (state: WorkspaceState)
        ensures
            state@ == WorkspaceView::empty(),
            state.wf(),
    {
        WorkspaceState::new()
    }
}

impl WorkspaceState {
    /// Whether the tracker keeps its invariant. Every tracker made and fed
    /// through this module's functions does.
    pub open spec fn wf(&self) -> bool {
        self@.wf()
    }

    /// A tracker that has seen nothing.
    pub fn new() -> (state: Self)
        ensures
            state@ == WorkspaceView::empty(),
            state.wf(),
    {
        let state = WorkspaceState {
            focused_pane_id: None,
            active_tab_position_and_floating_panes_visible: None,
            latest_pane_manifest: None,
            pane_titles: HashMap::new(),
            own_plugin_id: None,
        };
        assert(state@.pane_titles =~= Map::empty());
        state
    }

    /// Records the id the host gave to this plugin.
    pub fn set_own_plugin_id(&mut self, plugin_id: u32)
        ensures
            final(self)@ == (WorkspaceView { own_plugin_id: Some(plugin_id), ..old(self)@ }),
            final(self).wf() == old(self).wf(),
    {
        self.own_plugin_id = Some(plugin_id);
    }

    /// The id the host gave to this plugin, if it is known yet.
    pub fn get_own_plugin_id(&self) -> (plugin_id: Option<u32>)
        ensures
            plugin_id == self@.own_plugin_id,
    {
        self.own_plugin_id
    }

    /// Takes in a tab-topology notification. The last tab marked active
    /// becomes the active tab; where none is marked, the active tab stays as
    /// it was. Focus and titles are then worked out anew.
    pub fn update_tab_info(&mut self, tab_infos: Vec<TabInfo>)
        ensures
            final(self)@ == old(self)@.after_tab_topology(tab_infos@),
            final(self).wf(),
    {
        let ghost before = self.active_tab_position_and_floating_panes_visible;
        let mut i: usize = 0;
        assert(tab_infos@.take(0) =~= Seq::<TabInfo>::empty());
        while i < tab_infos.len()
            invariant
                i <= tab_infos.len(),
                self.active_tab_position_and_floating_panes_visible == active_after(
                    before,
                    tab_infos@.take(i as int),
                ),
                self.focused_pane_id == old(self).focused_pane_id,
                self.latest_pane_manifest == old(self).latest_pane_manifest,
                self.pane_titles == old(self).pane_titles,
                self.own_plugin_id == old(self).own_plugin_id,
            decreases tab_infos.len() - i,
        {
            let tab = &tab_infos[i];
            proof {
                assert(tab_infos@.take(i + 1).drop_last() =~= tab_infos@.take(i as int));
            }
            if tab.active {
                let floating_panes_are_visible = tab.are_floating_panes_visible;
                self.active_tab_position_and_floating_panes_visible = Some(
                    (tab.position, floating_panes_are_visible),
                );
            }
            i += 1;
        }
        assert(tab_infos@.take(i as int) =~= tab_infos@);
        self.update_panes();
    }

    /// Takes in a pane-topology notification: stores it as the latest
    /// topology, then works out focus and titles anew.
    pub fn update_latest_pane_manifest(&mut self, pane_manifest: PaneManifest)
        ensures
            final(self)@ == old(self)@.after_pane_topology(pane_manifest@),
            final(self).wf(),
    {
        self.latest_pane_manifest = Some(pane_manifest);
        self.update_panes();
    }

    /// Works out focus and titles from the stored topology and the stored
    /// active tab.
    fn update_panes(&mut self)
        ensures
            final(self)@ == old(self)@.recomputed(),
            final(self).wf(),
    {
        let focused = match &self.latest_pane_manifest {
            Some(pane_manifest) => record_panes(
                pane_manifest,
                self.active_tab_position_and_floating_panes_visible,
                &mut self.pane_titles,
            ),
            None => None,
        };
        self.focused_pane_id = focused;
        proof {
            lemma_recomputed_is_wf(old(self)@);
        }
    }

    /// The title `pane_id` was last seen with, if it was ever seen.
    pub fn get_pane_title(&self, pane_id: &PaneId) -> (title: Option<&str>)
        ensures
            match title {
                Some(text) => self@.pane_titles.contains_key(*pane_id) && text@
                    == self@.pane_titles[*pane_id],
                None => !self@.pane_titles.contains_key(*pane_id),
            },
    {
        broadcast use group_hash_axioms;

        let key = pane_title_key(*pane_id);
        match self.pane_titles.get(&key) {
            Some(title) => Some(title.as_str()),
            None => None,
        }
    }

    /// The pane that has the focus: the last pane of the latest pane
    /// notification that is not suppressed, sits in the active tab, is
    /// focused within it and is floating exactly if the tab shows its
    /// floating panes; none where no pane is all that.
    pub fn get_focused_pane_id(&self) -> (focused: Option<PaneId>)
        requires
            self.wf(),
        ensures
            focused == self@.focused_pane,
            focused == focus_of(topology_entries(self@.last_pane_topology), self@.active_tab),
    {
        self.focused_pane_id
    }
}

} // verus!
