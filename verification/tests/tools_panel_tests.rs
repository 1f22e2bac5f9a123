use txv_widgets::geometry::Rect;
use txv_widgets::keys::{HandleResult, KeyCode, KeyEvent, KeyMod};
use txv_widgets::tiled_workspace::types::SplitDir;
use txv_widgets::tools_panel::ToolsPanel;

#[test]
fn starts_with_one_subpanel() {
    let tp = ToolsPanel::new(SplitDir::Horizontal);
    assert_eq!(tp.subpanel_count(), 1);
}

#[test]
fn split_on_move_creates_second_subpanel() {
    let mut tp = ToolsPanel::new(SplitDir::Horizontal);
    tp.set_bounds(Rect::new(0, 0, 80, 40));
    tp.insert_tab("Shell");
    tp.insert_tab("Build");

    assert_eq!(tp.subpanel_count(), 1);
    assert_eq!(tp.tab_count(), 2);

    tp.move_tab_to_next(); // split-on-move
    assert_eq!(tp.subpanel_count(), 2);
    assert_eq!(tp.subpanel(0).tab_count(), 1);
    assert_eq!(tp.subpanel(1).tab_count(), 1);
}

#[test]
fn auto_unsplit_when_empty() {
    let mut tp = ToolsPanel::new(SplitDir::Horizontal);
    tp.set_bounds(Rect::new(0, 0, 80, 40));
    tp.insert_tab("Shell");
    tp.insert_tab("Build");

    tp.move_tab_to_next(); // now 2 subpanels, 1 tab each
    assert_eq!(tp.subpanel_count(), 2);

    // Move the tab back — source becomes empty → auto-unsplit
    tp.focus_subpanel(1);
    tp.move_tab_to_next(); // wraps to subpanel 0
    assert_eq!(tp.subpanel_count(), 1);
    assert_eq!(tp.tab_count(), 2);
}

#[test]
fn cycle_focus_wraps() {
    let mut tp = ToolsPanel::new(SplitDir::Vertical);
    tp.set_bounds(Rect::new(0, 0, 80, 40));
    tp.insert_tab("A");
    tp.insert_tab("B");
    tp.move_tab_to_next(); // create split

    assert_eq!(tp.focused_index(), 0);
    tp.cycle_focus();
    assert_eq!(tp.focused_index(), 1);
    tp.cycle_focus();
    assert_eq!(tp.focused_index(), 0); // wraps
}

#[test]
fn no_move_from_empty_subpanel() {
    let mut tp = ToolsPanel::new(SplitDir::Horizontal);
    tp.set_bounds(Rect::new(0, 0, 80, 40));
    // No tabs — move should be a no-op
    tp.move_tab_to_next();
    assert_eq!(tp.subpanel_count(), 1);
}

#[test]
fn move_report_names_split_tab_and_removals() {
    let mut tp = ToolsPanel::new(SplitDir::Horizontal);
    tp.insert_tab("Shell");
    tp.insert_tab("Build");
    let first = tp.move_tab_to_next().expect("a tab moved");
    assert!(first.split);
    assert_eq!(first.tab, 1);
    assert_eq!(first.to, 1);
    assert!(first.removed.is_empty());
    assert_eq!(tp.subpanel(1).active_title(), Some("Build"));
    tp.focus_subpanel(1);
    let back = tp.move_tab_to_next().expect("a tab moved");
    assert!(!back.split);
    assert_eq!(back.to, 0);
    assert_eq!(back.removed, vec![1]);
    assert_eq!(tp.focused_index(), 0);
    assert_eq!(tp.subpanel(0).active_title(), Some("Build"));
}

#[test]
fn split_direction_change_reported() {
    let mut tp = ToolsPanel::new(SplitDir::Horizontal);
    assert!(!tp.set_split_dir(SplitDir::Horizontal));
    assert!(tp.set_split_dir(SplitDir::Vertical));
    assert_eq!(tp.split_dir(), SplitDir::Vertical);
}

#[test]
fn keys_reach_the_focused_group() {
    let mut tp = ToolsPanel::new(SplitDir::Horizontal);
    assert!(tp.can_insert());
    tp.insert_tab("A");
    tp.insert_tab("B");
    assert_eq!(tp.focused_subpanel().active_index(), 1);
    let alt0 = KeyEvent::new(KeyCode::Char('0'), KeyMod::alt());
    assert_eq!(tp.handle_key(&alt0), Some(HandleResult::Consumed));
    assert_eq!(tp.focused_subpanel().active_index(), 0);
    let plain = KeyEvent::new(KeyCode::Char('x'), KeyMod::none());
    assert_eq!(tp.handle_key(&plain), None);
}

#[test]
fn subpanel_bounds_and_subtitle() {
    let mut tp = ToolsPanel::new(SplitDir::Horizontal);
    tp.insert_tab("Shell:0");
    tp.set_subpanel_bounds(0, Rect::new(0, 0, 80, 20));
    assert_eq!(tp.subpanel(0).bounds(), Rect::new(0, 0, 80, 20));
    tp.sync_subtitle(0, "vim");
    assert_eq!(tp.subpanel(0).active_title(), Some("Shell:0 vim"));
    tp.sync_subtitle(0, "");
    assert_eq!(tp.subpanel(0).active_title(), Some("Shell:0"));
}

#[test]
fn move_leaves_no_empty_subpanel_beside_others() {
    let mut tp = ToolsPanel::new(SplitDir::Horizontal);
    tp.insert_tab("Shell");
    tp.insert_tab("Build");
    tp.move_tab_to_next();
    assert_eq!(tp.subpanel_count(), 2);
    assert_eq!(tp.tab_count(), 2);
    assert_eq!(tp.subpanel(0).tab_count(), 1);
    assert_eq!(tp.subpanel(1).tab_count(), 1);
}
