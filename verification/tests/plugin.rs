use carousel::keybinds::InputMode;
use carousel::pane::{PaneId, PaneInfo, PaneManifest, TabInfo, TabPanes};
use carousel::plugin::{key_index, Action, Event, Key, KeyPress, PipeMessage, PipeSource, State};

fn press(key: Key) -> Event {
    Event::Key(KeyPress { key, has_no_modifiers: true })
}

fn focus_on(state: &mut State, id: u32) {
    let panes = PaneManifest {
        tabs: vec![TabPanes {
            position: 0,
            panes: vec![PaneInfo {
                id,
                is_plugin: false,
                is_focused: true,
                is_floating: false,
                is_suppressed: false,
                title: format!("pane {}", id),
            }],
        }],
    };
    let outcome = state.update(Event::PaneUpdate(panes));
    assert!(outcome.should_render);
    let tabs = vec![TabInfo { position: 0, active: true, are_floating_panes_visible: false }];
    let outcome = state.update(Event::TabUpdate(tabs));
    assert!(outcome.should_render);
}

fn with_bookmarks(ids: &[u32]) -> State {
    let mut state = State::default();
    for id in ids {
        focus_on(&mut state, *id);
        assert!(state.mark_focused_pane());
    }
    state
}

fn keybind_message(name: &str) -> PipeMessage {
    PipeMessage { source: PipeSource::Keybind, name: name.to_string(), is_private: true }
}

#[test]
fn digit_keys_stand_for_their_places() {
    assert_eq!(key_index('0'), Some(0));
    assert_eq!(key_index('1'), Some(1));
    assert_eq!(key_index('5'), Some(5));
    assert_eq!(key_index('9'), Some(9));
}

#[test]
fn other_keys_stand_for_no_place() {
    assert_eq!(key_index(' '), None);
    assert_eq!(key_index('-'), None);
    assert_eq!(key_index('/'), None);
    assert_eq!(key_index(':'), None);
    assert_eq!(key_index('a'), None);
    assert_eq!(key_index('\u{0}'), None);
    assert_eq!(key_index('\u{663}'), None);
    assert_eq!(key_index(char::MAX), None);
}

#[test]
fn space_key_focuses_nothing() {
    let mut state = with_bookmarks(&[1]);
    let outcome = state.update(press(Key::Char(' ')));
    assert!(!outcome.should_render);
    assert_eq!(outcome.action, Action::Nothing);
    assert_eq!(state.bookmarks().panes(), &vec![PaneId::Terminal(1)]);
    assert_eq!(state.bookmarks().selected_index(), 0);
}

#[test]
fn keys_below_and_above_the_digits_focus_nothing() {
    let mut state = with_bookmarks(&[1, 2, 3, 4, 5, 6, 7, 8, 9, 10]);
    for character in ['/', '-', '!', ':', ';', 'a', 'Z', '\u{663}'] {
        let outcome = state.update(press(Key::Char(character)));
        assert!(!outcome.should_render);
        assert_eq!(outcome.action, Action::Nothing);
    }
    let outcome = state.update(press(Key::Char('0')));
    assert_eq!(outcome.action, Action::FocusPane(PaneId::Terminal(1), true));
    let outcome = state.update(press(Key::Char('9')));
    assert_eq!(outcome.action, Action::FocusPane(PaneId::Terminal(10), true));
    assert_eq!(state.bookmarks().len(), 10);
}

#[test]
fn initial_state_is_empty() {
    let state = State::default();
    assert_eq!(state.bookmarks().len(), 0);
    assert!(!state.keybinds().is_bound());
    assert_eq!(state.workspace_state().get_focused_pane_id(), None);
}

#[test]
fn load_records_the_plugin_id() {
    let mut state = State::default();
    state.load(42);
    assert_eq!(state.workspace_state().get_own_plugin_id(), Some(42));
}

#[test]
fn mark_without_focus_changes_nothing() {
    let mut state = State::default();
    assert!(!state.mark_focused_pane());
    assert_eq!(state.bookmarks().len(), 0);
}

#[test]
fn mark_toggles_the_focused_pane() {
    let mut state = State::default();
    focus_on(&mut state, 5);
    assert!(state.mark_focused_pane());
    assert_eq!(state.bookmarks().panes(), &vec![PaneId::Terminal(5)]);
    assert!(state.mark_focused_pane());
    assert!(state.bookmarks().panes().is_empty());
}

#[test]
fn down_and_up_move_the_cursor() {
    let mut state = with_bookmarks(&[1, 2]);
    let outcome = state.update(press(Key::Down));
    assert!(outcome.should_render);
    assert!(matches!(outcome.action, Action::Nothing));
    assert_eq!(state.bookmarks().selected_index(), 1);
    let outcome = state.update(press(Key::Down));
    assert!(!outcome.should_render);
    assert_eq!(state.bookmarks().selected_index(), 1);
    let outcome = state.update(press(Key::Up));
    assert!(outcome.should_render);
    assert_eq!(state.bookmarks().selected_index(), 0);
    let outcome = state.update(press(Key::Up));
    assert!(!outcome.should_render);
}

#[test]
fn enter_focuses_the_selected_bookmark() {
    let mut state = with_bookmarks(&[1, 2]);
    state.update(press(Key::Down));
    let outcome = state.update(press(Key::Enter));
    assert!(!outcome.should_render);
    assert!(matches!(outcome.action, Action::FocusPane(PaneId::Terminal(2), true)));
}

#[test]
fn enter_on_empty_list_does_nothing() {
    let mut state = State::default();
    let outcome = state.update(press(Key::Enter));
    assert!(!outcome.should_render);
    assert!(matches!(outcome.action, Action::Nothing));
}

#[test]
fn delete_removes_the_selected_bookmark() {
    let mut state = with_bookmarks(&[1, 2, 3]);
    state.update(press(Key::Down));
    let outcome = state.update(press(Key::Delete));
    assert!(outcome.should_render);
    assert_eq!(state.bookmarks().panes(), &vec![PaneId::Terminal(1), PaneId::Terminal(3)]);
    assert_eq!(state.bookmarks().selected_index(), 1);
}

#[test]
fn delete_on_empty_list_does_nothing() {
    let mut state = State::default();
    let outcome = state.update(press(Key::Delete));
    assert!(!outcome.should_render);
    assert!(matches!(outcome.action, Action::Nothing));
}

#[test]
fn esc_hides_the_plugin() {
    let mut state = State::default();
    let outcome = state.update(press(Key::Esc));
    assert!(!outcome.should_render);
    assert!(matches!(outcome.action, Action::HideSelf));
}

#[test]
fn digit_key_focuses_the_bookmark_at_its_place() {
    let mut state = with_bookmarks(&[7, 8, 9]);
    let outcome = state.update(press(Key::Char('2')));
    assert!(!outcome.should_render);
    assert!(matches!(outcome.action, Action::FocusPane(PaneId::Terminal(9), true)));
}

#[test]
fn digit_key_beyond_the_list_is_ignored() {
    let mut state = with_bookmarks(&[7, 8, 9]);
    let outcome = state.update(press(Key::Char('3')));
    assert!(matches!(outcome.action, Action::Nothing));
    let outcome = state.update(press(Key::Char('z')));
    assert!(matches!(outcome.action, Action::Nothing));
}

#[test]
fn key_with_modifier_is_ignored() {
    let mut state = with_bookmarks(&[1, 2]);
    for key in [Key::Down, Key::Delete, Key::Enter, Key::Esc, Key::Char('0')] {
        let outcome = state.update(Event::Key(KeyPress { key, has_no_modifiers: false }));
        assert!(!outcome.should_render);
        assert!(matches!(outcome.action, Action::Nothing));
    }
    assert_eq!(state.bookmarks().len(), 2);
    assert_eq!(state.bookmarks().selected_index(), 0);
}

#[test]
fn other_key_and_other_event_do_nothing() {
    let mut state = with_bookmarks(&[1]);
    let outcome = state.update(press(Key::Other));
    assert!(!outcome.should_render);
    assert!(matches!(outcome.action, Action::Nothing));
    let outcome = state.update(Event::Other);
    assert!(!outcome.should_render);
    assert!(matches!(outcome.action, Action::Nothing));
}

#[test]
fn mode_update_binds_the_keys_once() {
    let mut state = State::default();
    state.load(9);
    let outcome = state.update(Event::ModeUpdate(Some(InputMode::Normal)));
    assert!(!outcome.should_render);
    match outcome.action {
        Action::Reconfigure(config, save) => {
            assert!(!save);
            assert!(config.contains("\"normal\" {"));
            assert!(config.contains("bind \"Ctrl Shift i\" {"));
            assert!(config.contains("bind \"Ctrl Shift o\" {"));
            assert!(config.contains("MessagePluginId 9 {"));
        }
        other => panic!("unexpected action {:?}", other),
    }
    assert!(state.keybinds().is_bound());
    let outcome = state.update(Event::ModeUpdate(Some(InputMode::Locked)));
    assert!(matches!(outcome.action, Action::Nothing));
}

#[test]
fn mode_update_waits_for_base_mode_and_plugin_id() {
    let mut state = State::default();
    let outcome = state.update(Event::ModeUpdate(Some(InputMode::Normal)));
    assert!(matches!(outcome.action, Action::Nothing));
    assert!(!state.keybinds().is_bound());
    state.load(1);
    let outcome = state.update(Event::ModeUpdate(None));
    assert!(matches!(outcome.action, Action::Nothing));
    assert!(!state.keybinds().is_bound());
    let outcome = state.update(Event::ModeUpdate(Some(InputMode::Normal)));
    assert!(matches!(outcome.action, Action::Reconfigure(_, false)));
}

#[test]
fn pipe_mark_pane_toggles_the_focused_pane() {
    let mut state = State::default();
    focus_on(&mut state, 3);
    let outcome = state.pipe(keybind_message("mark_pane"));
    assert!(outcome.should_render);
    assert!(matches!(outcome.action, Action::Nothing));
    assert_eq!(state.bookmarks().panes(), &vec![PaneId::Terminal(3)]);
}

#[test]
fn pipe_mark_pane_without_focus_changes_nothing() {
    let mut state = State::default();
    let outcome = state.pipe(keybind_message("mark_pane"));
    assert!(!outcome.should_render);
    assert_eq!(state.bookmarks().len(), 0);
}

#[test]
fn pipe_show_self_shows_the_plugin() {
    let mut state = State::default();
    let outcome = state.pipe(keybind_message("show_self"));
    assert!(!outcome.should_render);
    assert!(matches!(outcome.action, Action::ShowSelf(true)));
}

#[test]
fn pipe_ignores_other_messages() {
    let mut state = State::default();
    focus_on(&mut state, 3);
    let unknown = state.pipe(keybind_message("mark_panes"));
    assert!(!unknown.should_render);
    assert!(matches!(unknown.action, Action::Nothing));
    let public = state.pipe(PipeMessage { is_private: false, ..keybind_message("mark_pane") });
    assert!(!public.should_render);
    let cli = state.pipe(PipeMessage { source: PipeSource::Cli, ..keybind_message("mark_pane") });
    assert!(!cli.should_render);
    let plugin = state.pipe(PipeMessage { source: PipeSource::Plugin, ..keybind_message("show_self") });
    assert!(matches!(plugin.action, Action::Nothing));
    assert_eq!(state.bookmarks().len(), 0);
}
