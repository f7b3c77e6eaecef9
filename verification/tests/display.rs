use carousel::display::{
    render, render_explanation_text, render_help_text, render_list_item, render_marked_panes,
    render_title, ColorRange,
};
use carousel::keybinds::Keybinds;
use carousel::pane::{PaneInfo, PaneManifest, TabInfo, TabPanes};
use carousel::plugin::{Event, State};

const HELP_FULL: &str = "Help: <ENTER> - focus selected, <0-9> - focus index, <↓↑> - navigate, <Del> - delete selected, <ESC> - hide";
const HELP_SHORT: &str =
    "<ENTER/0-9> - focus selected/index, <↓↑/ESC> - navigate/hide, <Del> - delete";

fn whole(level: usize) -> ColorRange {
    ColorRange { level, start: 0, end: None }
}

fn span(level: usize, start: usize, end: usize) -> ColorRange {
    ColorRange { level, start, end: Some(end) }
}

fn state_with(titles: &[&str]) -> State {
    let mut state = State::default();
    state.update(Event::TabUpdate(vec![TabInfo {
        position: 0,
        active: true,
        are_floating_panes_visible: false,
    }]));
    for (id, title) in titles.iter().enumerate() {
        state.update(Event::PaneUpdate(PaneManifest {
            tabs: vec![TabPanes {
                position: 0,
                panes: vec![PaneInfo {
                    id: id as u32,
                    is_plugin: false,
                    is_focused: true,
                    is_floating: false,
                    is_suppressed: false,
                    title: title.to_string(),
                }],
            }],
        }));
        assert!(state.mark_focused_pane());
    }
    state
}

#[test]
fn title_is_shown_in_one_colour() {
    let (title, width) = render_title();
    assert_eq!(title.text, "CAROUSEL");
    assert_eq!(title.color_ranges, vec![whole(2)]);
    assert!(!title.selected);
    assert_eq!(width, 8);
}

#[test]
fn long_help_where_it_fits() {
    let (help, width) = render_help_text(107);
    assert_eq!(help.text, HELP_FULL);
    assert_eq!(width, 107);
    assert_eq!(
        help.color_ranges,
        vec![span(3, 6, 13), span(3, 32, 37), span(3, 53, 57), span(3, 70, 75), span(3, 95, 101)]
    );
}

#[test]
fn short_help_where_the_long_one_does_not_fit() {
    let (help, width) = render_help_text(106);
    assert_eq!(help.text, HELP_SHORT);
    assert_eq!(width, 76);
    assert_eq!(help.color_ranges, vec![span(3, 0, 11), span(3, 36, 44), span(3, 62, 67)]);
    let (narrow, _) = render_help_text(0);
    assert_eq!(narrow.text, HELP_SHORT);
}

#[test]
fn long_explanation_where_it_fits() {
    let keybinds = Keybinds::default();
    let (lines, width) = render_explanation_text(&keybinds, 62);
    assert_eq!(lines.len(), 2);
    assert_eq!(lines[0].text, "Press <Ctrl Shift i> while focused on any pane to bookmark it.");
    assert_eq!(lines[0].color_ranges, vec![span(3, 6, 20)]);
    assert_eq!(lines[1].text, "Press <Ctrl Shift o> to show this list.");
    assert_eq!(lines[1].color_ranges, vec![span(3, 6, 20)]);
    assert_eq!(width, 62);
}

#[test]
fn short_explanation_line_by_line() {
    let keybinds = Keybinds::default();
    let (lines, width) = render_explanation_text(&keybinds, 61);
    assert_eq!(lines[0].text, "<Ctrl Shift i> bookmark focused pane.");
    assert_eq!(lines[0].color_ranges, vec![span(3, 0, 14)]);
    assert_eq!(lines[1].text, "Press <Ctrl Shift o> to show this list.");
    assert_eq!(width, 39);
    let (lines, width) = render_explanation_text(&keybinds, 38);
    assert_eq!(lines[0].text, "<Ctrl Shift i> bookmark focused pane.");
    assert_eq!(lines[1].text, "<Ctrl Shift o> show this list.");
    assert_eq!(lines[1].color_ranges, vec![span(3, 0, 14)]);
    assert_eq!(width, 37);
}

#[test]
fn list_item_with_known_title() {
    let (item, width) = render_list_item(Some("vim"), 80, 2, 0);
    assert_eq!(item.text, "<2> vim");
    assert_eq!(item.color_ranges, vec![whole(0), span(3, 0, 4)]);
    assert!(!item.selected);
    assert_eq!(width, 7);
}

#[test]
fn list_item_under_the_cursor_is_selected() {
    let (item, _) = render_list_item(Some("vim"), 80, 3, 3);
    assert!(item.selected);
}

#[test]
fn list_item_without_title() {
    let (item, width) = render_list_item(None, 80, 0, 1);
    assert_eq!(item.text, "<0> <UNKNOWN>");
    assert_eq!(width, 13);
}

#[test]
fn list_item_title_that_just_fits_is_kept() {
    let (item, _) = render_list_item(Some("abcdefghij"), 18, 0, 0);
    assert_eq!(item.text, "<0> abcdefghij");
}

#[test]
fn list_item_title_that_does_not_fit_is_cut() {
    let (item, width) = render_list_item(Some("abcdefghij"), 17, 0, 0);
    assert_eq!(item.text, "<0> abcdefghi...");
    assert_eq!(width, 16);
}

#[test]
fn list_item_on_a_very_narrow_screen_keeps_only_the_dots() {
    let (item, _) = render_list_item(Some("abcdefghij"), 5, 1, 0);
    assert_eq!(item.text, "<1> ...");
    let (empty, _) = render_list_item(Some(""), 0, 1, 0);
    assert_eq!(empty.text, "<1> ...");
}

#[test]
fn list_item_title_is_cut_by_characters() {
    let (item, width) = render_list_item(Some("äöüäöüäöüä"), 12, 0, 0);
    assert_eq!(item.text, "<0> äöüä...");
    assert_eq!(width, 11);
}

#[test]
fn empty_list_shows_a_stand_in() {
    let state = State::default();
    let (lines, width) = render_marked_panes(&state, 30, 80);
    assert_eq!(lines.len(), 1);
    assert_eq!(lines[0].text, "NO ITEMS.");
    assert_eq!(lines[0].color_ranges, vec![whole(0)]);
    assert_eq!(width, 30);
}

#[test]
fn list_lines_follow_the_bookmarks() {
    let mut state = state_with(&["editor", "a rather long title of a pane"]);
    state.update(Event::Key(carousel::plugin::KeyPress {
        key: carousel::plugin::Key::Down,
        has_no_modifiers: true,
    }));
    let (lines, width) = render_marked_panes(&state, 10, 80);
    assert_eq!(lines.len(), 2);
    assert_eq!(lines[0].text, "<0> editor");
    assert!(!lines[0].selected);
    assert_eq!(lines[1].text, "<1> a rather long title of a pane");
    assert!(lines[1].selected);
    assert_eq!(width, 33);
    let (_, kept) = render_marked_panes(&state, 50, 80);
    assert_eq!(kept, 50);
}

#[test]
fn screen_of_an_empty_list() {
    let state = State::default();
    let placed = render(&state, 40, 120);
    assert_eq!(placed.len(), 5);
    let longest = 107;
    let base_x = (120 - longest) / 2;
    let base_y = (40 - 8) / 2;
    assert_eq!(placed[0].text.text, "CAROUSEL");
    assert_eq!((placed[0].x, placed[0].y), (base_x + (longest - 8) / 2, base_y));
    assert_eq!(placed[0].width, Some(120));
    assert_eq!((placed[1].x, placed[1].y, placed[1].width), (base_x, base_y + 2, None));
    assert_eq!((placed[2].x, placed[2].y, placed[2].width), (base_x, base_y + 3, None));
    assert_eq!(placed[3].text.text, "NO ITEMS.");
    assert_eq!((placed[3].x, placed[3].y), (base_x, base_y + 5));
    assert_eq!(placed[3].width, Some(longest));
    assert_eq!(placed[4].text.text, HELP_FULL);
    assert_eq!((placed[4].x, placed[4].y, placed[4].width), (base_x, base_y + 7, None));
}

#[test]
fn screen_with_bookmarks() {
    let state = state_with(&["one", "two", "three"]);
    let placed = render(&state, 20, 90);
    assert_eq!(placed.len(), 7);
    let longest = 76;
    let base_x = (90 - longest) / 2;
    let base_y = (20 - 10) / 2;
    assert_eq!((placed[0].x, placed[0].y), (base_x + 34, base_y));
    assert_eq!(placed[0].width, Some(90));
    assert_eq!(placed[1].text.text, "Press <Ctrl Shift i> while focused on any pane to bookmark it.");
    assert_eq!((placed[1].x, placed[1].y), (base_x, base_y + 2));
    assert_eq!((placed[2].x, placed[2].y), (base_x, base_y + 3));
    assert_eq!(placed[3].text.text, "<0> one");
    assert!(placed[3].text.selected);
    assert_eq!((placed[3].x, placed[3].y), (base_x, base_y + 5));
    assert_eq!(placed[5].text.text, "<2> three");
    assert!(!placed[5].text.selected);
    assert_eq!((placed[5].x, placed[5].y), (base_x, base_y + 7));
    assert_eq!(placed[5].width, Some(longest));
    assert_eq!(placed[6].text.text, HELP_SHORT);
    assert_eq!((placed[6].x, placed[6].y, placed[6].width), (base_x, base_y + 9, None));
}

#[test]
fn screen_is_as_wide_as_its_widest_bookmark() {
    let title = "x".repeat(150);
    let state = state_with(&[&title]);
    let placed = render(&state, 20, 200);
    assert_eq!(placed[3].text.text, format!("<0> {}", title));
    assert_eq!(placed[3].width, Some(154));
    assert_eq!(placed[3].x, (200 - 154) / 2);
    assert_eq!(placed[0].x, (200 - 154) / 2 + (154 - 8) / 2);
}

#[test]
fn screen_smaller_than_its_content_starts_at_the_origin() {
    let state = state_with(&["one"]);
    let placed = render(&state, 3, 10);
    assert_eq!((placed[0].x, placed[0].y), (0 + (76 - 8) / 2, 0));
    assert_eq!((placed[1].x, placed[1].y), (0, 2));
    assert_eq!((placed[3].x, placed[3].y), (0, 5));
    assert_eq!(placed[3].width, Some(76));
    assert_eq!((placed[4].x, placed[4].y), (0, 7));
}
