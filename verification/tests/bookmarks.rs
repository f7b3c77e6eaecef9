use carousel::bookmarks::{BookmarkList, Target, MAX_BOOKMARKS};
use carousel::pane::PaneId;

fn list_of(ids: &[u32]) -> BookmarkList {
    let mut list = BookmarkList::new();
    for id in ids {
        assert!(list.toggle_focused(Some(PaneId::Terminal(*id))));
    }
    list
}

fn terminals(ids: &[u32]) -> Vec<PaneId> {
    ids.iter().map(|id| PaneId::Terminal(*id)).collect()
}

#[test]
fn new_list_is_empty_with_cursor_at_zero() {
    let list = BookmarkList::new();
    assert_eq!(list.len(), 0);
    assert_eq!(list.selected_index(), 0);
    assert!(list.panes().is_empty());
}

#[test]
fn toggle_add_add_remove() {
    let mut list = BookmarkList::new();
    assert!(list.toggle_focused(Some(PaneId::Terminal(5))));
    assert!(list.toggle_focused(Some(PaneId::Terminal(7))));
    assert!(list.toggle_focused(Some(PaneId::Terminal(5))));
    assert_eq!(list.panes(), &vec![PaneId::Terminal(7)]);
}

#[test]
fn eleventh_bookmark_evicts_the_oldest() {
    let list = list_of(&[0, 1, 2, 3, 4, 5, 6, 7, 8, 9, 10]);
    assert_eq!(list.len(), 10);
    assert_eq!(list.panes(), &terminals(&[1, 2, 3, 4, 5, 6, 7, 8, 9, 10]));
}

#[test]
fn toggle_without_focus_changes_nothing() {
    let mut list = list_of(&[1, 2]);
    assert!(!list.toggle_focused(None));
    assert_eq!(list.panes(), &terminals(&[1, 2]));
    assert_eq!(list.selected_index(), 0);
}

#[test]
fn terminal_and_plugin_of_one_number_are_two_panes() {
    let mut list = BookmarkList::new();
    assert!(list.toggle_focused(Some(PaneId::Terminal(3))));
    assert!(list.toggle_focused(Some(PaneId::Plugin(3))));
    assert_eq!(list.panes(), &vec![PaneId::Terminal(3), PaneId::Plugin(3)]);
    assert!(list.toggle_focused(Some(PaneId::Terminal(3))));
    assert_eq!(list.panes(), &vec![PaneId::Plugin(3)]);
}

#[test]
fn toggle_twice_of_a_new_pane_restores_the_list() {
    let mut list = list_of(&[1, 2, 3]);
    list.move_selection(1);
    list.toggle_focused(Some(PaneId::Terminal(9)));
    list.toggle_focused(Some(PaneId::Terminal(9)));
    assert_eq!(list.panes(), &terminals(&[1, 2, 3]));
    assert_eq!(list.selected_index(), 1);
}

#[test]
fn toggle_twice_of_a_bookmarked_pane_moves_it_to_the_end() {
    let mut list = list_of(&[1, 2, 3]);
    list.toggle_focused(Some(PaneId::Terminal(2)));
    list.toggle_focused(Some(PaneId::Terminal(2)));
    assert_eq!(list.panes(), &terminals(&[1, 3, 2]));
}

#[test]
fn toggle_twice_on_a_full_list_loses_the_oldest() {
    let mut list = list_of(&[0, 1, 2, 3, 4, 5, 6, 7, 8, 9]);
    list.toggle_focused(Some(PaneId::Terminal(10)));
    list.toggle_focused(Some(PaneId::Terminal(10)));
    assert_eq!(list.panes(), &terminals(&[1, 2, 3, 4, 5, 6, 7, 8, 9]));
}

#[test]
fn length_never_exceeds_the_bound() {
    let mut list = BookmarkList::new();
    for id in 0..40u32 {
        list.toggle_focused(Some(PaneId::Terminal(id)));
        assert!(list.len() <= MAX_BOOKMARKS);
    }
    assert_eq!(list.panes(), &terminals(&[30, 31, 32, 33, 34, 35, 36, 37, 38, 39]));
}

#[test]
fn move_selection_on_empty_list_stays_at_zero() {
    let mut list = BookmarkList::new();
    assert!(!list.move_selection(1));
    assert_eq!(list.selected_index(), 0);
    assert!(!list.move_selection(-1));
    assert_eq!(list.selected_index(), 0);
}

#[test]
fn move_selection_stops_at_both_ends() {
    let mut list = list_of(&[1, 2, 3]);
    assert!(!list.move_selection(-1));
    assert_eq!(list.selected_index(), 0);
    assert!(list.move_selection(1));
    assert_eq!(list.selected_index(), 1);
    assert!(list.move_selection(1));
    assert_eq!(list.selected_index(), 2);
    assert!(!list.move_selection(1));
    assert_eq!(list.selected_index(), 2);
    assert!(list.move_selection(-1));
    assert_eq!(list.selected_index(), 1);
}

#[test]
fn move_selection_by_more_than_one_is_clamped() {
    let mut list = list_of(&[1, 2, 3]);
    assert!(list.move_selection(7));
    assert_eq!(list.selected_index(), 2);
    assert!(list.move_selection(i32::MIN));
    assert_eq!(list.selected_index(), 0);
    assert!(!list.move_selection(0));
    assert!(list.move_selection(i32::MAX));
    assert_eq!(list.selected_index(), 2);
}

#[test]
fn move_selection_never_leaves_the_list() {
    let mut list = list_of(&[1, 2, 3, 4]);
    let deltas = [1, 1, 1, 1, 1, -1, -1, -1, -1, -1, -1, 1, -1, 1, 1];
    for delta in deltas {
        list.move_selection(delta);
        assert!(list.selected_index() < list.len());
    }
}

#[test]
fn remove_selected_on_empty_list_does_nothing() {
    let mut list = BookmarkList::new();
    assert!(!list.remove_selected());
    assert_eq!(list.len(), 0);
    assert_eq!(list.selected_index(), 0);
}

#[test]
fn remove_selected_in_the_middle_keeps_the_cursor() {
    let mut list = list_of(&[1, 2, 3]);
    list.move_selection(1);
    assert!(list.remove_selected());
    assert_eq!(list.panes(), &terminals(&[1, 3]));
    assert_eq!(list.selected_index(), 1);
}

#[test]
fn remove_selected_at_the_end_moves_the_cursor_down() {
    let mut list = list_of(&[1, 2, 3]);
    list.move_selection(2);
    assert!(list.remove_selected());
    assert_eq!(list.panes(), &terminals(&[1, 2]));
    assert_eq!(list.selected_index(), 1);
}

#[test]
fn remove_selected_of_the_only_bookmark_leaves_cursor_at_zero() {
    let mut list = list_of(&[1]);
    assert!(list.remove_selected());
    assert_eq!(list.len(), 0);
    assert_eq!(list.selected_index(), 0);
}

#[test]
fn toggling_a_bookmark_away_keeps_the_cursor_in_the_list() {
    let mut list = list_of(&[1, 2]);
    list.move_selection(1);
    list.toggle_focused(Some(PaneId::Terminal(1)));
    assert_eq!(list.panes(), &terminals(&[2]));
    assert_eq!(list.selected_index(), 0);
}

#[test]
fn activate_the_selected_bookmark() {
    let mut list = list_of(&[4, 5, 6]);
    list.move_selection(1);
    assert_eq!(list.activate(Target::Selected), Some(PaneId::Terminal(5)));
}

#[test]
fn activate_by_index() {
    let list = list_of(&[4, 5, 6]);
    assert_eq!(list.activate(Target::Index(0)), Some(PaneId::Terminal(4)));
    assert_eq!(list.activate(Target::Index(2)), Some(PaneId::Terminal(6)));
}

#[test]
fn activate_out_of_range_is_ignored() {
    let list = list_of(&[4, 5, 6]);
    assert_eq!(list.activate(Target::Index(3)), None);
    assert_eq!(list.activate(Target::Index(usize::MAX)), None);
    assert_eq!(BookmarkList::new().activate(Target::Selected), None);
}
