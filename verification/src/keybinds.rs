//! The two key chords of the plugin, the configuration text that binds them,
//! and the flag that keeps the binding to one time.

use vstd::prelude::*;
use vstd::string::StringExecFns;
use zellij_tile::prelude::{BareKey, KeyModifier, KeyWithModifier};

verus! {

/// The input mode of the host.
#[derive(Clone, Copy, Debug, PartialEq, Eq, Hash, Structural)]
pub enum InputMode {
    Normal,
    Locked,
    Resize,
    Pane,
    Tab,
    Scroll,
    EnterSearch,
    Search,
    RenameTab,
    RenamePane,
    Session,
    Move,
    Prompt,
    Tmux,
}

/// The name of a mode in the configuration: the mode's name in lower case.
pub open spec fn mode_name(mode: InputMode) -> Seq<char> {
    match mode {
        InputMode::Normal => "normal"@,
        InputMode::Locked => "locked"@,
        InputMode::Resize => "resize"@,
        InputMode::Pane => "pane"@,
        InputMode::Tab => "tab"@,
        InputMode::Scroll => "scroll"@,
        InputMode::EnterSearch => "entersearch"@,
        InputMode::Search => "search"@,
        InputMode::RenameTab => "renametab"@,
        InputMode::RenamePane => "renamepane"@,
        InputMode::Session => "session"@,
        InputMode::Move => "move"@,
        InputMode::Prompt => "prompt"@,
        InputMode::Tmux => "tmux"@,
    }
}

impl InputMode {
    /// The name of the mode in the configuration.
    pub fn name(self) -> (name: &'static str)
        ensures
            name@ == mode_name(self),
    {
        match self {
            InputMode::Normal => "normal",
            InputMode::Locked => "locked",
            InputMode::Resize => "resize",
            InputMode::Pane => "pane",
            InputMode::Tab => "tab",
            InputMode::Scroll => "scroll",
            InputMode::EnterSearch => "entersearch",
            InputMode::Search => "search",
            InputMode::RenameTab => "renametab",
            InputMode::RenamePane => "renamepane",
            InputMode::Session => "session",
            InputMode::Move => "move",
            InputMode::Prompt => "prompt",
            InputMode::Tmux => "tmux",
        }
    }
}

/// A modifier key.
#[derive(Clone, Copy, Debug, PartialEq, Eq, Hash, Structural)]
pub enum Modifier {
    Ctrl,
    Alt,
    Shift,
    Super,
}

/// A key chord: a character key and the modifiers held with it. The order
/// of the modifiers, and how often one is listed, does not matter.
#[derive(Clone, Debug, PartialEq, Eq)]
pub struct Shortcut {
    pub key: char,
    pub modifiers: Vec<Modifier>,
}

/// The part of a chord's label that stands for one modifier: its name and a
/// space where the modifier is held, nothing where it is not.
pub open spec fn modifier_text(held: Seq<Modifier>, modifier: Modifier, name: Seq<char>) -> Seq<
    char,
> {
    if held.contains(modifier) {
        name + seq![' ']
    } else {
        Seq::empty()
    }
}

/// The label of a chord: the held modifiers in the order Ctrl, Alt, Shift,
/// Super, each followed by a space, then the key, with the space key
/// written out as a word.
pub open spec fn shortcut_text(key: char, held: Seq<Modifier>) -> Seq<char> {
    modifier_text(held, Modifier::Ctrl, "Ctrl"@) + modifier_text(held, Modifier::Alt, "Alt"@)
        + modifier_text(held, Modifier::Shift, "Shift"@) + modifier_text(
        held,
        Modifier::Super,
        "Super"@,
    ) + (if key == ' ' {
        "SPACE"@
    } else {
        seq![key]
    })
}

/// The label of a chord as `zellij_tile` displays it: a call of `to_string`,
/// and so of the `Display` impl, of a `KeyWithModifier` made by
/// `KeyWithModifier::new_with_modifiers` of the character key and the set of
/// the modifiers. The contract says what that impl writes for a character
/// key: the modifiers of the set in the set's order, which is the order in
/// which `KeyModifier` declares them, each by its variant's name and
/// followed by a space, then the key as `BareKey` displays it.
#[verifier::external_body]
fn shortcut_label(key: char, modifiers: &Vec<Modifier>) -> (label: String)
    ensures
        label@ == shortcut_text(key, modifiers@),
{
    let held = modifiers.iter().map(|modifier| match modifier {
        Modifier::Ctrl => KeyModifier::Ctrl,
        Modifier::Alt => KeyModifier::Alt,
        Modifier::Shift => KeyModifier::Shift,
        Modifier::Super => KeyModifier::Super,
    }).collect();
    KeyWithModifier::new_with_modifiers(BareKey::Char(key), held).to_string()
}

impl Shortcut {
    /// The chord of `key` held with Ctrl and Shift.
    pub fn ctrl_shift(key: char) -> (shortcut: Shortcut)
        ensures
            shortcut.key == key,
            shortcut.modifiers@ == seq![Modifier::Ctrl, Modifier::Shift],
    {
        let mut modifiers = Vec::new();
        modifiers.push(Modifier::Ctrl);
        modifiers.push(Modifier::Shift);
        Shortcut { key, modifiers }
    }

    /// The chord's label.
    pub fn label(&self) -> (label: String)
        ensures
            label@ == shortcut_text(self.key, self.modifiers@),
    {
        shortcut_label(self.key, &self.modifiers)
    }
}

/// The character of one decimal digit.
pub open spec fn digit_char(digit: nat) -> char {
    if digit == 0 {
        '0'
    } else if digit == 1 {
        '1'
    } else if digit == 2 {
        '2'
    } else if digit == 3 {
        '3'
    } else if digit == 4 {
        '4'
    } else if digit == 5 {
        '5'
    } else if digit == 6 {
        '6'
    } else if digit == 7 {
        '7'
    } else if digit == 8 {
        '8'
    } else {
        '9'
    }
}

/// A number in decimal digits, without leading zeros.
pub open spec fn decimal_text(number: nat) -> Seq<char>
    decreases number,
{
    if number < 10 {
        seq![digit_char(number)]
    } else {
        decimal_text(number / 10).push(digit_char(number % 10))
    }
}

fn digit_text(digit: u64) -> (text: &'static str)
    requires
        digit < 10,
    ensures
        text@ == seq![digit_char(digit as nat)],
{
    proof {
        reveal_strlit("0");
        reveal_strlit("1");
        reveal_strlit("2");
        reveal_strlit("3");
        reveal_strlit("4");
        reveal_strlit("5");
        reveal_strlit("6");
        reveal_strlit("7");
        reveal_strlit("8");
        reveal_strlit("9");
    }
    let text = if digit == 0 {
        "0"
    } else if digit == 1 {
        "1"
    } else if digit == 2 {
        "2"
    } else if digit == 3 {
        "3"
    } else if digit == 4 {
        "4"
    } else if digit == 5 {
        "5"
    } else if digit == 6 {
        "6"
    } else if digit == 7 {
        "7"
    } else if digit == 8 {
        "8"
    } else {
        "9"
    };
    assert(text@ =~= seq![digit_char(digit as nat)]);
    text
}

/// Writes a number in decimal digits.
pub fn decimal(number: u64) -> (text: String)
    ensures
        text@ == decimal_text(number as nat),
    decreases number,
{
    if number < 10 {
        String::from_str(digit_text(number))
    } else {
        let mut text = decimal(number / 10);
        text.append(digit_text(number % 10));
        assert(text@ =~= decimal_text((number / 10) as nat).push(digit_char((number % 10) as nat)));
        text
    }
}

/// The configuration that binds the two chords in one mode: in the section
/// of the mode, `mark` sends this plugin the message `mark_pane` and `show`
/// sends it the message `show_self`.
pub open spec fn keybind_config(
    mode: Seq<char>,
    plugin_id: Seq<char>,
    mark: Seq<char>,
    show: Seq<char>,
) -> Seq<char> {
    "\n        keybinds {\n            \""@ + mode + "\" {\n                bind \""@ + mark
        + "\" {\n                    MessagePluginId "@ + plugin_id
        + " {\n                        name \"mark_pane\"\n                    }\n                }\n                bind \""@
        + show + "\" {\n                    MessagePluginId "@ + plugin_id
        + " {\n                        name \"show_self\"\n                    }\n                }\n            }\n        }\n        "@
}

/// Writes the configuration that binds the two chords in `base_mode` to
/// messages for the plugin with the id `own_plugin_id`.
pub fn bind_key(
    base_mode: InputMode,
    own_plugin_id: u32,
    mark_pane_shortcut: &Shortcut,
    show_self_shortcut: &Shortcut,
) -> (new_config: String)
    ensures
        new_config@ == keybind_config(
            mode_name(base_mode),
            decimal_text(own_plugin_id as nat),
            shortcut_text(mark_pane_shortcut.key, mark_pane_shortcut.modifiers@),
            shortcut_text(show_self_shortcut.key, show_self_shortcut.modifiers@),
        ),
{
    let plugin_id = decimal(own_plugin_id as u64);
    let mark = mark_pane_shortcut.label();
    let show = show_self_shortcut.label();
    let mut new_config = String::from_str("\n        keybinds {\n            \"");
    new_config.append(base_mode.name());
    new_config.append("\" {\n                bind \"");
    new_config.append(mark.as_str());
    new_config.append("\" {\n                    MessagePluginId ");
    new_config.append(plugin_id.as_str());
    new_config.append(
        " {\n                        name \"mark_pane\"\n                    }\n                }\n                bind \"",
    );
    new_config.append(show.as_str());
    new_config.append("\" {\n                    MessagePluginId ");
    new_config.append(plugin_id.as_str());
    new_config.append(
        " {\n                        name \"show_self\"\n                    }\n                }\n            }\n        }\n        ",
    );
    new_config
}

/// The chords of the plugin, and whether they have been bound.
pub struct Keybinds {
    bound_key: bool,
    mark_pane_shortcut: Shortcut,
    show_self_shortcut: Shortcut,
}

/// The chords and the flag as mathematical values.
pub struct KeybindsView {
    /// Whether the chords have been bound.
    pub bound: bool,
    /// The key and the modifiers of the chord that toggles a bookmark.
    pub mark_pane: (char, Seq<Modifier>),
    /// The key and the modifiers of the chord that shows the plugin.
    pub show_self: (char, Seq<Modifier>),
}

impl KeybindsView {
    /// The chords before they are bound: Ctrl and Shift with `i` toggles a
    /// bookmark, Ctrl and Shift with `o` shows the plugin.
    pub open spec fn unbound() -> KeybindsView {
        KeybindsView {
            bound: false,
            mark_pane: ('i', seq![Modifier::Ctrl, Modifier::Shift]),
            show_self: ('o', seq![Modifier::Ctrl, Modifier::Shift]),
        }
    }

    /// The configuration that binds the chords in `base_mode` for the plugin
    /// with the id `own_plugin_id`.
    pub open spec fn config(self, base_mode: InputMode, own_plugin_id: u32) -> Seq<char> {
        keybind_config(
            mode_name(base_mode),
            decimal_text(own_plugin_id as nat),
            shortcut_text(self.mark_pane.0, self.mark_pane.1),
            shortcut_text(self.show_self.0, self.show_self.1),
        )
    }
}

impl View for Keybinds {
    type V = KeybindsView;

    closed spec fn view(&self) -> KeybindsView {
        KeybindsView {
            bound: self.bound_key,
            mark_pane: (self.mark_pane_shortcut.key, self.mark_pane_shortcut.modifiers@),
            show_self: (self.show_self_shortcut.key, self.show_self_shortcut.modifiers@),
        }
    }
}

impl Default for Keybinds {
    fn default() -> (keybinds: Keybinds)
        ensures
            keybinds@ == KeybindsView::unbound(),
    {
        Keybinds {
            bound_key: false,
            mark_pane_shortcut: Shortcut::ctrl_shift('i'),
            show_self_shortcut: Shortcut::ctrl_shift('o'),
        }
    }
}

impl Keybinds {
    /// The chord that toggles the bookmark of the focused pane.
    pub fn mark_pane_shortcut(&self) -> (shortcut: &Shortcut)
        ensures
            (shortcut.key, shortcut.modifiers@) == self@.mark_pane,
    {
        &self.mark_pane_shortcut
    }

    /// The chord that shows the plugin.
    pub fn show_self_shortcut(&self) -> (shortcut: &Shortcut)
        ensures
            (shortcut.key, shortcut.modifiers@) == self@.show_self,
    {
        &self.show_self_shortcut
    }

    /// Whether the chords have been bound.
    pub fn is_bound(&self) -> (bound: bool)
        ensures
            bound == self@.bound,
    {
        self.bound_key
    }

    /// Binds the chords unless they are bound already. The first call
    /// answers with the configuration to hand to the host and sets the flag;
    /// every later call answers with nothing.
    pub fn bind_key_if_not_bound(&mut self, base_mode: InputMode, own_plugin_id: u32) -> (new_config:
        Option<String>)
        ensures
            final(self)@ == (KeybindsView { bound: true, ..old(self)@ }),
            match new_config {
                Some(text) => !old(self)@.bound && text@ == old(self)@.config(
                    base_mode,
                    own_plugin_id,
                ),
                None => old(self)@.bound,
            },
    {
        if !self.bound_key {
            let new_config = bind_key(
                base_mode,
                own_plugin_id,
                &self.mark_pane_shortcut,
                &self.show_self_shortcut,
            );
            self.bound_key = true;
            Some(new_config)
        } else {
            None
        }
    }
}

} // verus!
