use autolock::focus::find_focused_pane;
use autolock::focus::find_focused_tab;
use autolock::focus::FocusedLocation;
use autolock::focus::PaneRef;
use autolock::focus::TabRef;

fn tab(position: usize, active: bool) -> TabRef {
    TabRef { position, active }
}

fn pane(tab_pos: usize, id: u32, is_focused: bool) -> PaneRef {
    PaneRef { tab_pos, id, is_focused, is_plugin: false }
}

#[test]
fn finds_first_active_tab() {
    let tabs = vec![tab(0, false), tab(1, true), tab(2, true)];
    assert_eq!(find_focused_tab(&tabs), Some(tab(1, true)));
    assert_eq!(find_focused_tab(&vec![tab(0, false)]), None);
    assert_eq!(find_focused_tab(&vec![]), None);
}

#[test]
fn finds_focused_pane_of_tab_ignoring_plugins() {
    let panes = vec![
        pane(0, 1, true),
        PaneRef { tab_pos: 1, id: 2, is_focused: true, is_plugin: true },
        pane(1, 3, false),
        pane(1, 4, true),
    ];
    assert_eq!(find_focused_pane(1, &panes), Some(pane(1, 4, true)));
    assert_eq!(find_focused_pane(2, &panes), None);
}

#[test]
fn new_tab_focus_discards_stale_pane() {
    let mut loc = FocusedLocation::unset();
    loc.note_tabs(&vec![tab(0, true)]);
    assert_eq!(loc.tab_pos, Some(0));
    assert_eq!(loc.pane_id, None);
    let changed = loc.note_panes(&vec![pane(0, 7, true)]);
    assert!(changed);
    assert_eq!(loc.pane_id, Some(7));
    // focus moves to another tab: the pane identity is discarded
    loc.note_tabs(&vec![tab(0, false), tab(1, true)]);
    assert_eq!(loc.tab_pos, Some(1));
    assert_eq!(loc.pane_id, None);
    // the same tab again is a no-op and keeps the pane
    let changed = loc.note_panes(&vec![pane(1, 9, true)]);
    assert!(changed);
    loc.note_tabs(&vec![tab(0, false), tab(1, true)]);
    assert_eq!(loc.pane_id, Some(9));
}

#[test]
fn pane_of_another_tab_does_not_update_tracked_pane() {
    let mut loc = FocusedLocation { tab_pos: Some(1), pane_id: Some(5) };
    let changed = loc.note_panes(&vec![pane(2, 9, true), pane(0, 3, true)]);
    assert!(!changed);
    assert_eq!(loc.pane_id, Some(5));
    assert_eq!(loc.tab_pos, Some(1));
}

#[test]
fn same_pane_again_signals_no_change() {
    let mut loc = FocusedLocation { tab_pos: Some(0), pane_id: Some(7) };
    let changed = loc.note_panes(&vec![pane(0, 7, true)]);
    assert!(!changed);
    assert_eq!(loc.pane_id, Some(7));
}

#[test]
fn no_focused_pane_is_a_no_op() {
    let mut loc = FocusedLocation { tab_pos: Some(0), pane_id: Some(7) };
    let changed = loc.note_panes(&vec![pane(0, 8, false)]);
    assert!(!changed);
    assert_eq!(loc.pane_id, Some(7));
    // unset tab: pane snapshots are ignored entirely
    let mut unset = FocusedLocation::unset();
    let changed = unset.note_panes(&vec![pane(0, 8, true)]);
    assert!(!changed);
    assert_eq!(unset.pane_id, None);
}
