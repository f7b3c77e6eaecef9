//! The plugin's state and its reactions: what each event from the host does
//! to the bookmarks, the tracker and the key bindings, and what the host is
//! asked to do in return.

use crate::bookmarks::{BookmarkList, BookmarksView, Target};
use crate::keybinds::{InputMode, Keybinds, KeybindsView};
use crate::pane::{PaneId, PaneManifest, TabInfo};
use crate::workspace::{WorkspaceState, WorkspaceView};
use vstd::prelude::*;
use vstd::string::StringExecFns;

verus! {

/// A key, as far as the plugin tells keys apart.
#[derive(Clone, Copy, Debug, PartialEq, Eq, Structural)]
pub enum Key {
    Down,
    Up,
    Enter,
    Delete,
    Esc,
    Char(char),
    Other,
}

/// A key press: the key, and whether it came without any modifier.
#[derive(Clone, Copy, Debug, PartialEq, Eq, Structural)]
pub struct KeyPress {
    pub key: Key,
    pub has_no_modifiers: bool,
}

/// An event from the host.
#[derive(Clone, Debug, PartialEq, Eq)]
pub enum Event {
    /// A key was pressed while the plugin had the focus.
    Key(KeyPress),
    /// The input mode changed; the base mode is given where the host knows it.
    ModeUpdate(Option<InputMode>),
    /// A tab-topology notification.
    TabUpdate(Vec<TabInfo>),
    /// A pane-topology notification.
    PaneUpdate(PaneManifest),
    /// Any other event.
    Other,
}

/// Where a message to the plugin came from.
#[derive(Clone, Copy, Debug, PartialEq, Eq, Structural)]
pub enum PipeSource {
    Cli,
    Plugin,
    Keybind,
}

/// A message to the plugin.
#[derive(Clone, Debug, PartialEq, Eq)]
pub struct PipeMessage {
    pub source: PipeSource,
    pub name: String,
    pub is_private: bool,
}

/// What the host is asked to do after an event.
#[derive(Clone, Debug, PartialEq, Eq)]
pub enum Action {
    /// Nothing.
    Nothing,
    /// Bring the pane into focus; the flag says whether to float the plugin
    /// where it is hidden.
    FocusPane(PaneId, bool),
    /// Hide the plugin.
    HideSelf,
    /// Show the plugin; the flag says whether to float it where it is hidden.
    ShowSelf(bool),
    /// Take in the configuration text; the flag says whether to save it to
    /// the configuration file.
    Reconfigure(String, bool),
}

/// An [`Action`] as mathematical values.
pub enum ActionView {
    Nothing,
    FocusPane(PaneId, bool),
    HideSelf,
    ShowSelf(bool),
    Reconfigure(Seq<char>, bool),
}

impl View for Action {
    type V = ActionView;

    open spec fn view(&self) -> ActionView {
        match self {
            Action::Nothing => ActionView::Nothing,
            Action::FocusPane(pane, float) => ActionView::FocusPane(*pane, *float),
            Action::HideSelf => ActionView::HideSelf,
            Action::ShowSelf(float) => ActionView::ShowSelf(*float),
            Action::Reconfigure(text, save) => ActionView::Reconfigure(text@, *save),
        }
    }
}

/// The answer to an event: whether the plugin is to be drawn anew, and what
/// the host is asked to do.
#[derive(Clone, Debug, PartialEq, Eq)]
pub struct Outcome {
    pub should_render: bool,
    pub action: Action,
}

/// The place in the list that a character key stands for: the digit keys
/// `0` to `9` stand for the places zero to nine, and no other key stands for
/// a place.
pub open spec fn char_index(character: char) -> Option<nat> {
    if '0' as u32 <= character as u32 <= '9' as u32 {
        Some((character as u32 - '0' as u32) as nat)
    } else {
        None
    }
}

/// The action that brings `pane` into focus, if there is a pane.
pub open spec fn focus_action(pane: Option<PaneId>) -> ActionView {
    match pane {
        Some(pane) => ActionView::FocusPane(pane, true),
        None => ActionView::Nothing,
    }
}

/// The plugin's state as mathematical values.
pub struct StateView {
    pub bookmarks: BookmarksView,
    pub keybinds: KeybindsView,
    pub workspace: WorkspaceView,
}

impl StateView {
    /// The invariant of the state: that of the bookmark list and that of the
    /// tracker.
    pub open spec fn wf(self) -> bool {
        self.bookmarks.wf() && self.workspace.wf()
    }

    /// The state of a plugin that has just started.
    pub open spec fn initial() -> StateView {
        StateView {
            bookmarks: BookmarksView::empty(),
            keybinds: KeybindsView::unbound(),
            workspace: WorkspaceView::empty(),
        }
    }

    /// The state after the bookmark of the focused pane was toggled.
    pub open spec fn after_mark(self) -> StateView {
        StateView { bookmarks: self.bookmarks.toggle(self.workspace.focused_pane), ..self }
    }

    /// The bookmarks after a key press. A key with a modifier changes
    /// nothing; Down and Up move the cursor by one, Delete removes the
    /// selected bookmark.
    pub open spec fn bookmarks_after_key(self, press: KeyPress) -> BookmarksView {
        if !press.has_no_modifiers {
            self.bookmarks
        } else {
            match press.key {
                Key::Down => self.bookmarks.move_selection(1),
                Key::Up => self.bookmarks.move_selection(-1),
                Key::Delete => self.bookmarks.remove_selected(),
                _ => self.bookmarks,
            }
        }
    }

    /// What the host is asked to do after a key press: Enter brings the
    /// selected bookmark into focus, a digit key the bookmark at its place,
    /// Esc hides the plugin. A digit beyond the list and a character that
    /// is no digit ask for nothing.
    pub open spec fn action_after_key(self, press: KeyPress) -> ActionView {
        if !press.has_no_modifiers {
            ActionView::Nothing
        } else {
            match press.key {
                Key::Enter => focus_action(self.bookmarks.resolve(Target::Selected)),
                Key::Char(character) => match char_index(character) {
                    Some(index) => focus_action(
                        self.bookmarks.resolve(Target::Index(index as usize)),
                    ),
                    None => ActionView::Nothing,
                },
                Key::Esc => ActionView::HideSelf,
                _ => ActionView::Nothing,
            }
        }
    }

    /// Whether a mode update with this base mode leads to binding the keys:
    /// the base mode and the plugin's own id are both known.
    pub open spec fn can_bind(self, base_mode: Option<InputMode>) -> bool {
        base_mode.is_some() && self.workspace.own_plugin_id.is_some()
    }

    /// The state after an event.
    pub open spec fn updated(self, event: Event) -> StateView {
        match event {
            Event::Key(press) => StateView { bookmarks: self.bookmarks_after_key(press), ..self },
            Event::ModeUpdate(base_mode) => if self.can_bind(base_mode) {
                StateView { keybinds: KeybindsView { bound: true, ..self.keybinds }, ..self }
            } else {
                self
            },
            Event::TabUpdate(tab_infos) => StateView {
                workspace: self.workspace.after_tab_topology(tab_infos@),
                ..self
            },
            Event::PaneUpdate(pane_manifest) => StateView {
                workspace: self.workspace.after_pane_topology(pane_manifest@),
                ..self
            },
            Event::Other => self,
        }
    }

    /// Whether the plugin is to be drawn anew after an event: after every
    /// topology notification, and after a key press that changed the
    /// bookmarks or the cursor.
    pub open spec fn renders_after(self, event: Event) -> bool {
        match event {
            Event::Key(press) => self.bookmarks_after_key(press) != self.bookmarks,
            Event::TabUpdate(_) => true,
            Event::PaneUpdate(_) => true,
            _ => false,
        }
    }

    /// What the host is asked to do after an event. A mode update asks it to
    /// take in the key bindings, once: where the base mode and the plugin's
    /// id are known and the keys are not bound yet.
    pub open spec fn action_after(self, event: Event) -> ActionView {
        match event {
            Event::Key(press) => self.action_after_key(press),
            Event::ModeUpdate(base_mode) => if self.can_bind(base_mode) && !self.keybinds.bound {
                ActionView::Reconfigure(
                    self.keybinds.config(base_mode.unwrap(), self.workspace.own_plugin_id.unwrap()),
                    false,
                )
            } else {
                ActionView::Nothing
            },
            _ => ActionView::Nothing,
        }
    }

    /// Whether a message is one the plugin listens to: a private message
    /// from a key binding.
    pub open spec fn listens_to(message: PipeMessage) -> bool {
        message.source == PipeSource::Keybind && message.is_private
    }

    /// The state after a message: `mark_pane` toggles the bookmark of the
    /// focused pane.
    pub open spec fn piped(self, message: PipeMessage) -> StateView {
        if Self::listens_to(message) && message.name@ == "mark_pane"@ {
            self.after_mark()
        } else {
            self
        }
    }

    /// Whether the plugin is to be drawn anew after a message: after
    /// `mark_pane` while a pane has the focus.
    pub open spec fn renders_after_pipe(self, message: PipeMessage) -> bool {
        Self::listens_to(message) && message.name@ == "mark_pane"@
            && self.workspace.focused_pane.is_some()
    }

    /// What the host is asked to do after a message: `show_self` asks it to
    /// show the plugin.
    pub open spec fn action_after_pipe(self, message: PipeMessage) -> ActionView {
        if Self::listens_to(message) && message.name@ != "mark_pane"@ && message.name@
            == "show_self"@ {
            ActionView::ShowSelf(true)
        } else {
            ActionView::Nothing
        }
    }
}

/// The place in the list that a character key stands for, if it stands for
/// one.
pub fn key_index(character: char) -> (index: Option<usize>)
    ensures
        match index {
            Some(index) => char_index(character) == Some(index as nat),
            None => char_index(character).is_none(),
        },
{
    let code = character as u32;
    if '0' as u32 <= code && code <= '9' as u32 {
        Some((code - '0' as u32) as usize)
    } else {
        None
    }
}

/// The plugin's state: the bookmarks, the key bindings and the tracker.
pub struct State {
    bookmarks: BookmarkList,
    keybinds: Keybinds,
    workspace_state: WorkspaceState,
}

impl View for State {
    type V = StateView;

    closed spec fn view(&self) -> StateView {
        StateView {
            bookmarks: self.bookmarks@,
            keybinds: self.keybinds@,
            workspace: self.workspace_state@,
        }
    }
}

impl Default for State {
    fn default() -> (state: State)
        ensures
            state@ == StateView::initial(),
            state.wf(),
    {
        State {
            bookmarks: BookmarkList::new(),
            keybinds: Keybinds::default(),
            workspace_state: WorkspaceState::new(),
        }
    }
}

impl State {
    /// Whether the state keeps its invariant. Every state made and changed
    /// through this module's functions does.
    pub open spec fn wf(&self) -> bool {
        self@.wf()
    }

    /// The bookmark list.
    pub fn bookmarks(&self) -> (bookmarks: &BookmarkList)
        ensures
            bookmarks@ == self@.bookmarks,
    {
        &self.bookmarks
    }

    /// The key bindings.
    pub fn keybinds(&self) -> (keybinds: &Keybinds)
        ensures
            keybinds@ == self@.keybinds,
    {
        &self.keybinds
    }

    /// The tracker.
    pub fn workspace_state(&self) -> (workspace_state: &WorkspaceState)
        ensures
            workspace_state@ == self@.workspace,
    {
        &self.workspace_state
    }

    /// Takes in the id the host gave to this plugin when it loaded it.
    pub fn load(&mut self, plugin_id: u32)
        ensures
            final(self)@ == (StateView {
                workspace: WorkspaceView {
                    own_plugin_id: Some(plugin_id),
                    ..old(self)@.workspace
                },
                ..old(self)@
            }),
            final(self).wf() == old(self).wf(),
    {
        self.workspace_state.set_own_plugin_id(plugin_id);
    }

    /// Reacts to an event from the host.
    pub fn update(&mut self, event: Event) -> (outcome: Outcome)
        requires
            old(self).wf(),
        ensures
            final(self)@ == old(self)@.updated(event),
            final(self).wf(),
            outcome.should_render == old(self)@.renders_after(event),
            outcome.action@ == old(self)@.action_after(event),
    {
        let mut should_render = false;
        let mut action = Action::Nothing;
        match event {
            Event::Key(key) => {
                if key.has_no_modifiers {
                    match key.key {
                        Key::Down => {
                            should_render = self.bookmarks.move_selection(1);
                        },
                        Key::Up => {
                            should_render = self.bookmarks.move_selection(-1);
                        },
                        Key::Enter => {
                            if let Some(selected_pane_id) = self.bookmarks.activate(
                                Target::Selected,
                            ) {
                                action = Action::FocusPane(selected_pane_id, true);
                            }
                        },
                        Key::Delete => {
                            should_render = self.bookmarks.remove_selected();
                            proof {
                                lemma_removal_shows(old(self)@.bookmarks);
                            }
                        },
                        Key::Esc => {
                            action = Action::HideSelf;
                        },
                        Key::Char(character) => {
                            if let Some(pane_index) = key_index(character) {
                                if let Some(selected_pane_id) = self.bookmarks.activate(
                                    Target::Index(pane_index),
                                ) {
                                    action = Action::FocusPane(selected_pane_id, true);
                                }
                            }
                        },
                        Key::Other => {},
                    }
                }
            },
            Event::ModeUpdate(base_mode) => {
                match (base_mode, self.workspace_state.get_own_plugin_id()) {
                    (Some(base_mode), Some(own_plugin_id)) => {
                        if let Some(new_config) = self.keybinds.bind_key_if_not_bound(
                            base_mode,
                            own_plugin_id,
                        ) {
                            action = Action::Reconfigure(new_config, false);
                        }
                    },
                    _ => {},
                }
            },
            Event::TabUpdate(tab_infos) => {
                self.workspace_state.update_tab_info(tab_infos);
                should_render = true;
            },
            Event::PaneUpdate(pane_manifest) => {
                self.workspace_state.update_latest_pane_manifest(pane_manifest);
                should_render = true;
            },
            Event::Other => {},
        }
        Outcome { should_render, action }
    }

    /// Reacts to a message. Only a private message from a key binding is
    /// listened to: `mark_pane` toggles the bookmark of the focused pane,
    /// `show_self` asks the host to show the plugin.
    pub fn pipe(&mut self, pipe_message: PipeMessage) -> (outcome: Outcome)
        requires
            old(self).wf(),
        ensures
            final(self)@ == old(self)@.piped(pipe_message),
            final(self).wf(),
            outcome.should_render == old(self)@.renders_after_pipe(pipe_message),
            outcome.action@ == old(self)@.action_after_pipe(pipe_message),
    {
        let mut should_render = false;
        let mut action = Action::Nothing;
        if pipe_message.source == PipeSource::Keybind && pipe_message.is_private {
            if pipe_message.name == String::from_str("mark_pane") {
                should_render = self.mark_focused_pane();
            } else if pipe_message.name == String::from_str("show_self") {
                action = Action::ShowSelf(true);
            }
        }
        Outcome { should_render, action }
    }

    /// Toggles the bookmark of the pane that has the focus. The answer says
    /// whether there was such a pane, and so whether anything changed.
    pub fn mark_focused_pane(&mut self) -> (marked_pane: bool)
        requires
            old(self).wf(),
        ensures
            final(self)@ == old(self)@.after_mark(),
            final(self).wf(),
            marked_pane == old(self)@.workspace.focused_pane.is_some(),
    {
        let focused = self.workspace_state.get_focused_pane_id();
        self.bookmarks.toggle_focused(focused)
    }
}

/// Removing the selected bookmark changes the list exactly where there is a
/// bookmark to remove.
pub proof fn lemma_removal_shows(list: BookmarksView)
    requires
        list.wf(),
    ensures
        (list.remove_selected() != list) == (list.panes.len() > 0),
{
    if list.panes.len() > 0 {
        assert(list.remove_selected().panes.len() == list.panes.len() - 1);
    }
}

} // verus!
