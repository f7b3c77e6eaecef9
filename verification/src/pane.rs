//! The plain data that the tracker is fed: pane identities, and the
//! snapshots of tabs and panes that a topology notification carries.

use vstd::prelude::*;

verus! {

/// The address of a pane. Terminals and plugins are numbered separately, so
/// the same number under the two tags names two different panes.
#[derive(Clone, Copy, Debug, PartialEq, Eq, Hash, Structural)]
pub enum PaneId {
    Terminal(u32),
    Plugin(u32),
}

/// One tab as a tab-topology notification reports it.
#[derive(Clone, Copy, Debug, PartialEq, Eq, Hash, Structural)]
pub struct TabInfo {
    /// The tab's position, counted from zero.
    pub position: usize,
    /// Whether this is the tab the user is on.
    pub active: bool,
    /// Whether the tab currently shows its floating panes.
    pub are_floating_panes_visible: bool,
}

/// One pane as a pane-topology notification reports it.
#[derive(Clone, Debug, PartialEq, Eq, Hash)]
pub struct PaneInfo {
    /// The pane's number among the panes of its kind.
    pub id: u32,
    /// Whether the pane is a plugin (`true`) or a terminal (`false`).
    pub is_plugin: bool,
    /// Whether the pane has the focus within its layer of its tab.
    pub is_focused: bool,
    /// Whether the pane belongs to the floating layer.
    pub is_floating: bool,
    /// Whether the pane is hidden in the background. A suppressed pane is
    /// neither focused nor bookmarked, and its title is not recorded.
    pub is_suppressed: bool,
    /// The title the pane shows.
    pub title: String,
}

/// The panes of one tab.
#[derive(Clone, Debug, PartialEq, Eq)]
pub struct TabPanes {
    /// The position of the tab the panes belong to.
    pub position: usize,
    /// The panes, in the order in which they are read.
    pub panes: Vec<PaneInfo>,
}

/// A pane-topology notification: the panes of the session, tab by tab.
///
/// The tabs are read front to back and so are the panes of each tab. Where
/// two entries contend, the one read later wins.
#[derive(Clone, Debug, PartialEq, Eq)]
pub struct PaneManifest {
    pub tabs: Vec<TabPanes>,
}

/// What a notification says of one pane: the pane's snapshot together with
/// the position of the tab it was listed under.
pub struct PaneEntry {
    pub tab: usize,
    pub id: PaneId,
    pub title: Seq<char>,
    pub is_focused: bool,
    pub is_floating: bool,
    pub is_suppressed: bool,
}

/// The identity that a kind flag and a number stand for.
pub open spec fn pane_identity(is_plugin: bool, id: u32) -> PaneId {
    if is_plugin {
        PaneId::Plugin(id)
    } else {
        PaneId::Terminal(id)
    }
}

impl PaneInfo {
    /// The entry this pane contributes when listed under the tab at `tab`.
    pub open spec fn entry(&self, tab: usize) -> PaneEntry {
        PaneEntry {
            tab,
            id: pane_identity(self.is_plugin, self.id),
            title: self.title@,
            is_focused: self.is_focused,
            is_floating: self.is_floating,
            is_suppressed: self.is_suppressed,
        }
    }

    /// The pane's identity.
    pub fn pane_id(&self) -> (id: PaneId)
        ensures
            id == pane_identity(self.is_plugin, self.id),
    {
        if self.is_plugin {
            PaneId::Plugin(self.id)
        } else {
            PaneId::Terminal(self.id)
        }
    }
}

impl TabPanes {
    /// The tab's panes as entries, in reading order.
    pub open spec fn entries(&self) -> Seq<PaneEntry> {
        Seq::new(self.panes@.len(), |i: int| self.panes@[i].entry(self.position))
    }
}

impl View for PaneManifest {
    type V = Seq<PaneEntry>;

    /// Every pane of the notification as one sequence, in reading order.
    open spec fn view(&self) -> Seq<PaneEntry> {
        self.tabs@.map_values(|tab: TabPanes| tab.entries()).flatten()
    }
}

} // verus!
