use txv_widgets::geometry::Rect;
use txv_widgets::keys::{HandleResult, KeyCode, KeyEvent, KeyMod};
use txv_widgets::tab_bar::TabBarMode;
use txv_widgets::tab_panel::TabPanel;
use txv_widgets::tiled_workspace::commands::{
    CM_TW_ACTIVATE_TAB, CM_TW_FOCUS_RIGHT, CM_TW_GROW_H, CM_TW_LAYOUT_CYCLE, CM_TW_SHOW_PANEL, CM_TW_SPLIT_H,
    CM_TW_TAB_CLOSE, CM_TW_TAB_DROPDOWN_UP, CM_TW_TOGGLE_TREE, CM_TW_ZOOM,
};
use txv_widgets::tiled_workspace::handle::{extract_usize, Payload, WorkspaceEffect};
use txv_widgets::tiled_workspace::layout::{children_fit, compute_chrome_coords, panel_bounds, place_children, split_length, zoomed_rects, VGap};
use txv_widgets::tiled_workspace::registry::register_commands;
use txv_widgets::tiled_workspace::types::{LayoutMode, PanelConfig, PanelPosition, SplitDir};
use txv_widgets::tiled_workspace::workspace::TiledWorkspace;

fn three_panel_workspace() -> TiledWorkspace {
    let configs = vec![
        PanelConfig::fixed("Tree", PanelPosition::Left),
        PanelConfig::new("Main", PanelPosition::Center),
        PanelConfig::new("Tools", PanelPosition::Right),
    ];
    TiledWorkspace::new(configs, 120)
}

fn all_areas() -> Vec<bool> {
    vec![true, true, true]
}

#[test]
fn wide_layout_three_columns() {
    // Shares of 0.2, 0.5 and 0.3 across 200 columns with two divider gaps.
    let bounds = Rect::new(0, 0, 200, 50);
    let total = split_length(bounds, SplitDir::Horizontal, 3, true);
    let props = [0.2f32, 0.5, 0.3];
    let sum: f32 = props.iter().sum();
    let sizes: Vec<u16> = props[..2].iter().map(|p| (total as f32 * (p / sum)) as u16).collect();
    let rects = place_children(bounds, SplitDir::Horizontal, total, &sizes, true);
    let placed: Vec<(usize, Rect)> = (0..3).zip(rects).collect();
    let b = panel_bounds(3, &placed);
    let (b0, b1, b2) = (b[0], b[1], b[2]);
    assert!(b0.w > 0, "tree should have width");
    assert!(b1.w > 0, "main should have width");
    assert!(b2.w > 0, "tools should have width");
    // 2 divider gaps (1 cell each) between 3 panels
    assert_eq!(b0.w + b1.w + b2.w + 2, 200);
    assert!(b0.x < b1.x, "tree left of main");
    assert!(b1.x < b2.x, "main left of tools");
}

#[test]
fn toggle_hides_panel() {
    let mut ws = three_panel_workspace();
    ws.toggle_panel(0); // hide tree
    assert!(ws.is_hidden(0));
    // Tree gets no space, main+tools fill width: only the shown panels
    // (main 0.5, tools 0.3 of the row) are placed.
    let bounds = Rect::new(0, 0, 200, 50);
    let shown: Vec<usize> = (0..3).filter(|&i| !ws.is_hidden(i)).collect();
    assert_eq!(shown, vec![1, 2]);
    let total = split_length(bounds, SplitDir::Horizontal, shown.len(), true);
    let sizes = vec![(total as f32 * (0.5 / 0.8)) as u16];
    let rects = place_children(bounds, SplitDir::Horizontal, total, &sizes, true);
    let placed: Vec<(usize, Rect)> = shown.into_iter().zip(rects).collect();
    let b = panel_bounds(3, &placed);
    assert_eq!(b[0].w, 0);
    assert_eq!(b[1].x, 0, "main starts at left edge when tree hidden");
}

#[test]
fn zoom_gives_full_bounds() {
    let mut ws = three_panel_workspace();
    ws.focus_panel(1);
    ws.toggle_zoom();
    assert_eq!(ws.zoomed_panel(), Some(1));
    let rects = zoomed_rects(3, 1, Rect::new(0, 0, 200, 50));
    assert_eq!(rects[1].w, 200);
    assert_eq!(rects[1].h, 50);
    assert_eq!(rects[0], Rect::new(0, 0, 0, 0));
}

#[test]
fn save_restore_preserves_state() {
    let mut ws = three_panel_workspace();
    ws.toggle_panel(0); // hide tree
    let hidden = ws.hidden_ids();
    assert!(hidden.contains(&0));

    let mut ws2 = three_panel_workspace();
    ws2.restore_hidden(&hidden);
    assert!(ws2.is_hidden(0));
    assert!(!ws2.is_hidden(1));
}

#[test]
fn focus_direction_spatial() {
    let mut ws = three_panel_workspace();
    let area = all_areas();
    ws.focus_panel(0); // start at tree (leftmost)

    ws.focus_direction(1, 0, &area); // right
    assert_eq!(ws.focused_panel(), 1, "should focus main");

    ws.focus_direction(1, 0, &area); // right again
    assert_eq!(ws.focused_panel(), 2, "should focus tools");

    ws.focus_direction(1, 0, &area); // right wraps to tree
    assert_eq!(ws.focused_panel(), 0, "should wrap to tree");

    ws.focus_direction(-1, 0, &area); // left wraps to tools
    assert_eq!(ws.focused_panel(), 2, "should wrap to tools");
}

#[test]
fn command_events_control_workspace() {
    let mut ws = three_panel_workspace();
    let area = all_areas();
    let mut none: Option<TabPanel> = None;

    // Focus via command (focus right)
    ws.handle_command(CM_TW_FOCUS_RIGHT, &Payload::Empty, &area, true, &mut none);
    assert_ne!(ws.focused_panel(), 0);

    // Toggle tree panel via command
    ws.handle_command(CM_TW_TOGGLE_TREE, &Payload::Empty, &area, true, &mut none);
    assert!(ws.is_hidden(0));

    // Zoom via command
    ws.handle_command(CM_TW_ZOOM, &Payload::Empty, &area, true, &mut none);
    assert!(ws.is_zoomed());

    // Layout cycle via command
    ws.handle_command(CM_TW_LAYOUT_CYCLE, &Payload::Empty, &area, true, &mut none);
    assert_eq!(ws.layout_mode(), LayoutMode::Wide);
}

#[test]
fn handle_keys_disabled_ignores_keystrokes() {
    let mut ws = three_panel_workspace();
    ws.set_handle_keys(false);
    let mut none: Option<TabPanel> = None;

    // M-/ (zoom) should NOT be consumed when keys disabled
    let zoom_key = KeyEvent::new(KeyCode::Char('/'), KeyMod::alt());
    let (result, _) = ws.handle_key(&zoom_key, &all_areas(), &mut none);
    assert_eq!(result.unwrap_or(HandleResult::Ignored), HandleResult::Ignored);
    assert!(!ws.is_zoomed(), "zoom should not trigger with keys disabled");
}

#[test]
fn default_bindings_returns_entries() {
    let ws = three_panel_workspace();
    let bindings = ws.default_bindings();
    assert!(bindings.len() >= 15, "should have at least 15 bindings");
}

#[test]
fn zoom_key_consumed_when_keys_enabled() {
    let mut ws = three_panel_workspace();
    let mut none: Option<TabPanel> = None;
    let zoom_key = KeyEvent::new(KeyCode::Char('/'), KeyMod::alt());
    let (result, effect) = ws.handle_key(&zoom_key, &all_areas(), &mut none);
    assert_eq!(result, Some(HandleResult::Consumed));
    assert_eq!(effect, WorkspaceEffect::Nothing);
    assert_eq!(ws.zoomed_panel(), Some(0));
    let other = KeyEvent::new(KeyCode::Char('q'), KeyMod::none());
    assert_eq!(ws.handle_key(&other, &all_areas(), &mut none).0, None);
}

#[test]
fn resize_key_and_command_report_steps() {
    let mut ws = three_panel_workspace();
    let mut none: Option<TabPanel> = None;
    let km = *ws.keymap();
    let (r, e) = ws.handle_key(&km.resize_right, &all_areas(), &mut none);
    assert_eq!(r, Some(HandleResult::Consumed));
    assert_eq!(e, WorkspaceEffect::Resize(SplitDir::Horizontal, 1));
    let (c, e2) = ws.handle_command(CM_TW_GROW_H, &Payload::Empty, &all_areas(), true, &mut none);
    assert!(c);
    assert_eq!(e2, WorkspaceEffect::Resize(SplitDir::Horizontal, 2));
    let (c2, e3) = ws.handle_command(CM_TW_SPLIT_H, &Payload::Empty, &all_areas(), true, &mut none);
    assert!(!c2);
    assert_eq!(e3, WorkspaceEffect::Nothing);
}

#[test]
fn tab_commands_reach_focused_panel() {
    let mut ws = three_panel_workspace();
    let mut tp = TabPanel::new(TabBarMode::Static);
    tp.set_bounds(Rect::new(0, 0, 60, 20));
    tp.insert_tab("a");
    tp.insert_tab("b");
    tp.insert_tab("c");
    let mut panel = Some(tp);
    let (c, e) = ws.handle_command(CM_TW_ACTIVATE_TAB, &Payload::Usize(0), &all_areas(), true, &mut panel);
    assert!(c);
    assert_eq!(e, WorkspaceEffect::Nothing);
    assert_eq!(panel.as_ref().map(|p| p.active_index()), Some(0));
    let (_, e2) = ws.handle_command(CM_TW_TAB_DROPDOWN_UP, &Payload::Empty, &all_areas(), true, &mut panel);
    assert!(matches!(e2, WorkspaceEffect::DropdownOpened(_)));
    let (_, e3) = ws.handle_command(CM_TW_TAB_DROPDOWN_UP, &Payload::Empty, &all_areas(), true, &mut panel);
    assert_eq!(e3, WorkspaceEffect::DropdownUp);
}

#[test]
fn payload_index_extraction() {
    assert_eq!(extract_usize(&Payload::Usize(7)), Some(7));
    assert_eq!(extract_usize(&Payload::U16(3)), Some(3));
    assert_eq!(extract_usize(&Payload::Other), None);
    assert_eq!(extract_usize(&Payload::Empty), None);
    let mut ws = three_panel_workspace();
    ws.toggle_panel(2);
    assert!(ws.is_hidden(2));
    let mut none: Option<TabPanel> = None;
    ws.handle_command(CM_TW_SHOW_PANEL, &Payload::U16(2), &all_areas(), true, &mut none);
    assert!(!ws.is_hidden(2));
}

#[test]
fn fixed_panel_cannot_be_hidden() {
    let main = PanelConfig {
        name: "Main".to_string(),
        closeable: false,
        hideable: false,
        splittable: false,
        position: PanelPosition::Center,
        tab_mode: TabBarMode::Static,
    };
    let mut ws = TiledWorkspace::new(vec![main], 120);
    ws.toggle_panel(0);
    assert!(!ws.is_hidden(0));
}

#[test]
fn cycle_layout_three_times_returns() {
    let mut ws = three_panel_workspace();
    ws.cycle_layout();
    assert_eq!(ws.layout_mode(), LayoutMode::Wide);
    ws.cycle_layout();
    assert_eq!(ws.layout_mode(), LayoutMode::Narrow);
    ws.cycle_layout();
    assert_eq!(ws.layout_mode(), LayoutMode::Auto);
}

#[test]
fn wide_flag_thresholds_with_hysteresis() {
    let mut ws = three_panel_workspace();
    // Between the narrow (20) and wide (120) thresholds the choice stays.
    ws.update_wide_flag(80);
    assert!(ws.is_wide());
    ws.update_wide_flag(10);
    assert!(!ws.is_wide());
    ws.update_wide_flag(100);
    assert!(!ws.is_wide());
    ws.update_wide_flag(120);
    assert!(ws.is_wide());
    ws.update_wide_flag(100);
    assert!(ws.is_wide());
}

#[test]
fn chrome_coords_tiers_and_gaps() {
    let rects = vec![Rect::new(0, 1, 39, 49), Rect::new(40, 1, 99, 49), Rect::new(140, 1, 60, 20), Rect::new(140, 22, 60, 28)];
    let (tiers, gaps) = compute_chrome_coords(&rects);
    assert_eq!(tiers, vec![1, 22]);
    assert_eq!(gaps, vec![VGap { x: 39, y_start: 1, y_end: 50 }, VGap { x: 139, y_start: 1, y_end: 50 }]);
}

#[test]
fn commands_registered_with_names() {
    let metas = register_commands();
    assert!(metas.iter().any(|m| m.name == "toggle-tree"));
    assert!(metas.iter().any(|m| m.name == "zoom"));
}

#[test]
fn children_fit_and_place() {
    let b = Rect::new(0, 0, 100, 20);
    let sizes = vec![30u16, 30];
    assert!(children_fit(b, SplitDir::Horizontal, 98, &sizes, true));
    let rects = place_children(b, SplitDir::Horizontal, 98, &sizes, true);
    assert_eq!(rects, vec![Rect::new(0, 0, 30, 20), Rect::new(31, 0, 30, 20), Rect::new(62, 0, 38, 20)]);
    assert!(!children_fit(Rect::new(65530, 0, 100, 20), SplitDir::Horizontal, 98, &sizes, true));
}

#[test]
fn panel_layout_checks() {
    let mut p = TabPanel::new(TabBarMode::Static);
    p.insert_tab("A");
    p.insert_tab("B");
    p.set_bounds(Rect::new(0, 0, 80, 24));
    assert!(p.open_fits());
    assert!(p.layout_fits());
    p.set_bounds(Rect::new(0, 65535, 80, 24));
    assert!(!p.open_fits());
    assert!(!p.layout_fits());
}

/// A layout tree with floating-point shares, as the embedding views keep it.
enum Node {
    Leaf(usize),
    Split(SplitDir, Vec<(f32, Node)>),
}

fn layout_rects(node: &Node, bounds: Rect, out: &mut Vec<(usize, Rect)>) {
    match node {
        Node::Leaf(id) => out.push((*id, bounds)),
        Node::Split(dir, children) => {
            let total: f32 = children.iter().map(|(p, _)| p).sum();
            let len = split_length(bounds, *dir, children.len(), true);
            let sizes: Vec<u16> =
                children[..children.len() - 1].iter().map(|(p, _)| (len as f32 * (p / total)) as u16).collect();
            assert!(children_fit(bounds, *dir, len, &sizes, true));
            let rects = place_children(bounds, *dir, len, &sizes, true);
            for ((_, child), r) in children.iter().zip(rects) {
                layout_rects(child, r, out);
            }
        }
    }
}

/// Panel rects of the three-panel workspace in `bounds`, by the layout the
/// workspace chose.
fn three_panel_rects(ws: &TiledWorkspace, bounds: Rect) -> Vec<Rect> {
    let wide = Node::Split(
        SplitDir::Horizontal,
        vec![(0.2, Node::Leaf(0)), (0.5, Node::Leaf(1)), (0.3, Node::Leaf(2))],
    );
    let narrow = Node::Split(
        SplitDir::Horizontal,
        vec![
            (0.25, Node::Leaf(0)),
            (0.75, Node::Split(SplitDir::Vertical, vec![(0.6, Node::Leaf(1)), (0.4, Node::Leaf(2))])),
        ],
    );
    let mut out = Vec::new();
    layout_rects(if ws.is_wide() { &wide } else { &narrow }, bounds, &mut out);
    out.sort_by_key(|(id, _)| *id);
    out.into_iter().map(|(_, r)| r).collect()
}

#[test]
fn narrow_layout_stacked() {
    let mut ws = three_panel_workspace();
    ws.set_layout_mode(LayoutMode::Narrow);
    let bounds = Rect::new(0, 0, 80, 40);
    ws.update_wide_flag(bounds.w);
    let r = three_panel_rects(&ws, bounds);
    // Narrow: tree on the left, main and tools stacked on the right.
    assert!(r[0].w > 0);
    assert!(r[1].w > 0);
    assert!(r[2].w > 0);
    assert!(r[1].y < r[2].y, "main above tools in narrow mode");
}

#[test]
fn layout_cycle_changes_mode() {
    let mut ws = three_panel_workspace();
    // Start narrow on an 80-column terminal.
    ws.set_layout_mode(LayoutMode::Narrow);
    ws.update_wide_flag(80);
    ws.set_layout_mode(LayoutMode::Auto);
    let narrow_bounds = Rect::new(0, 0, 80, 40);
    ws.update_wide_flag(narrow_bounds.w);
    let r = three_panel_rects(&ws, narrow_bounds);
    assert!(r[2].y > r[1].y, "narrow auto: tools below main");

    ws.cycle_layout(); // Auto -> Wide
    ws.update_wide_flag(narrow_bounds.w);
    let r = three_panel_rects(&ws, narrow_bounds);
    assert_eq!(r[2].y, r[1].y, "forced wide: tools beside main");

    ws.cycle_layout(); // Wide -> Narrow
    let wide_bounds = Rect::new(0, 0, 200, 50);
    ws.update_wide_flag(wide_bounds.w);
    let r = three_panel_rects(&ws, wide_bounds);
    assert!(r[2].y > r[1].y, "forced narrow: tools below even on wide terminal");

    ws.cycle_layout(); // Narrow -> Auto
    ws.update_wide_flag(wide_bounds.w);
    let r = three_panel_rects(&ws, wide_bounds);
    assert_eq!(r[2].y, r[1].y, "auto on wide terminal: tools beside");
}

#[test]
fn tab_close_command_closes_active_tab() {
    let mut ws = three_panel_workspace();
    let mut tp = TabPanel::new(TabBarMode::Static);
    tp.set_bounds(Rect::new(0, 0, 60, 20));
    tp.insert_tab("a");
    tp.insert_tab("b");
    tp.insert_tab("c");
    let mut panel = Some(tp);
    let (c, e) = ws.handle_command(CM_TW_TAB_CLOSE, &Payload::Empty, &all_areas(), true, &mut panel);
    assert!(c);
    assert_eq!(e, WorkspaceEffect::TabClosed(3));
    assert_eq!(panel.as_ref().map(|p| p.tab_count()), Some(2));
    let (c2, e2) = ws.handle_command(CM_TW_TAB_CLOSE, &Payload::Empty, &all_areas(), false, &mut panel);
    assert!(c2);
    assert_eq!(e2, WorkspaceEffect::Nothing);
    assert_eq!(panel.as_ref().map(|p| p.tab_count()), Some(2));
    let mut none: Option<TabPanel> = None;
    let (c3, e3) = ws.handle_command(CM_TW_TAB_CLOSE, &Payload::Empty, &all_areas(), true, &mut none);
    assert!(c3);
    assert_eq!(e3, WorkspaceEffect::Nothing);
}

#[test]
fn panels_start_empty_in_their_tab_mode() {
    let ws = three_panel_workspace();
    let p0 = ws.initial_panel(0).unwrap();
    let p1 = ws.initial_panel(1).unwrap();
    assert_eq!(p0.tab_count(), 0);
    assert_eq!(p0.bar().mode(), TabBarMode::Static);
    assert_eq!(p1.bar().mode(), TabBarMode::Lru);
    assert!(ws.initial_panel(3).is_none());
    assert_eq!(ws.configs()[0].name, "Tree");
    assert!(!ws.configs()[0].closeable);
    assert!(ws.configs()[2].closeable);
}

#[test]
fn hiding_focused_panel_moves_focus_to_shown_one() {
    let mut ws = three_panel_workspace();
    ws.focus_panel(0);
    ws.toggle_panel(0);
    assert!(ws.is_hidden(0));
    assert_eq!(ws.focused_panel(), 1);
    assert!(!ws.is_hidden(ws.focused_panel()));
}
