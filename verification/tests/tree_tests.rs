use txv_widgets::keys::{KeyCode, KeyEvent, KeyMod};
use txv_widgets::tree::{highlighted_cells, is_last_sibling, row_guides_of, row_places_of, Guide, RowInfo, RowPlaces, TreeAction, TreeEdit, TreeNav};
use txv_widgets::tree_table::{auto_detect_align, cell_offset, column_bounds, extra_cells_fit, tree_cell_layout, CellKind, ColAlign, TreeCell};

/// Compute is_last_sibling for all rows, as a string like "├├└├└└".
fn sibling_pattern(depths: &[usize]) -> String {
    let d: Vec<usize> = depths.to_vec();
    (0..d.len()).map(|row| if is_last_sibling(&d, row) { '└' } else { '├' }).collect()
}

#[test]
fn flat_single_node() {
    assert_eq!(sibling_pattern(&[0]), "└");
}

#[test]
fn flat_three_siblings() {
    assert_eq!(sibling_pattern(&[0, 0, 0]), "├├└");
}

#[test]
fn parent_with_single_child() {
    assert_eq!(sibling_pattern(&[0, 1]), "└└");
}

#[test]
fn parent_with_two_children() {
    assert_eq!(sibling_pattern(&[0, 1, 1]), "└├└");
}

#[test]
fn two_parents_each_with_children() {
    assert_eq!(sibling_pattern(&[0, 1, 1, 0, 1]), "├├└└└");
}

#[test]
fn three_level_chain() {
    assert_eq!(sibling_pattern(&[0, 1, 2]), "└└└");
}

#[test]
fn parent_child_with_grandchildren() {
    assert_eq!(sibling_pattern(&[0, 1, 2, 2, 1]), "└├├└└");
}

#[test]
fn complex_multi_level() {
    let depths = [0, 1, 1, 1, 0, 1, 1, 2, 2, 1, 1, 2, 2, 0, 1];
    let pattern = sibling_pattern(&depths);
    assert_eq!(pattern, "├├├└├├├├└├└├└└└");
}

#[test]
fn deep_last_child_chain() {
    assert_eq!(sibling_pattern(&[0, 1, 2, 3, 4]), "└└└└└");
}

#[test]
fn alternating_deep_and_shallow() {
    assert_eq!(sibling_pattern(&[0, 1, 2, 1, 2, 3, 0]), "├├└└└└└");
}

#[test]
fn many_roots_no_children() {
    assert_eq!(sibling_pattern(&[0, 0, 0, 0, 0]), "├├├├└");
}

#[test]
fn last_root_has_deep_subtree() {
    assert_eq!(sibling_pattern(&[0, 0, 1, 2, 2, 1]), "├└├├└└");
}

#[test]
fn guides_show_continuing_ancestor_lines() {
    // A / B / B1 / B2 / C (depths 0 1 2 2 1): row 2 sits under B, which
    // has a sibling C below, so its line continues.
    let d = vec![0, 1, 2, 2, 1];
    assert_eq!(row_guides_of(&d, 0), vec![]);
    assert_eq!(row_guides_of(&d, 1), vec![(0, Guide::Branch), (1, Guide::Horizontal)]);
    assert_eq!(row_guides_of(&d, 2), vec![(0, Guide::Pipe), (2, Guide::Branch), (3, Guide::Horizontal)]);
    assert_eq!(row_guides_of(&d, 3), vec![(0, Guide::Pipe), (2, Guide::LastBranch), (3, Guide::Horizontal)]);
    assert_eq!(row_guides_of(&d, 4), vec![(0, Guide::LastBranch), (1, Guide::Horizontal)]);
}

fn rows(depths: &[usize]) -> Vec<RowInfo> {
    depths.iter().map(|&d| RowInfo { depth: d, expandable: false, expanded: false }).collect()
}

fn plain(code: KeyCode) -> KeyEvent {
    KeyEvent::new(code, KeyMod::none())
}

#[test]
fn tree_nav_moves_and_goes_to_parent() {
    let r = rows(&[0, 1, 1, 0]);
    let mut nav = TreeNav::new();
    nav.set_height(10);
    assert_eq!(nav.handle_tree_key(&plain(KeyCode::Down), &r), TreeAction::Consumed);
    assert_eq!(nav.handle_tree_key(&plain(KeyCode::Down), &r), TreeAction::Consumed);
    assert_eq!(nav.cursor(), 2);
    nav.handle_tree_key(&plain(KeyCode::Left), &r);
    assert_eq!(nav.cursor(), 0);
    nav.handle_tree_key(&plain(KeyCode::End), &r);
    assert_eq!(nav.cursor(), 3);
    assert_eq!(nav.handle_tree_key(&plain(KeyCode::Enter), &r), TreeAction::Choose(3));
    assert_eq!(nav.handle_tree_key(&plain(KeyCode::Char('x')), &r), TreeAction::Ignored);
}

#[test]
fn tree_nav_expands_and_collapses() {
    let mut r = rows(&[0, 0]);
    r[0].expandable = true;
    let mut nav = TreeNav::new();
    assert_eq!(nav.handle_tree_key(&plain(KeyCode::Right), &r), TreeAction::Toggle(0));
    r[0].expanded = true;
    assert_eq!(nav.handle_tree_key(&plain(KeyCode::Left), &r), TreeAction::Toggle(0));
}

#[test]
fn tree_nav_page_keys_scroll() {
    let r = rows(&[0; 50]);
    let mut nav = TreeNav::new();
    nav.set_height(10);
    nav.handle_tree_key(&plain(KeyCode::PageDown), &r);
    assert_eq!(nav.cursor(), 9);
    nav.handle_tree_key(&plain(KeyCode::PageDown), &r);
    assert_eq!(nav.cursor(), 18);
    assert_eq!(nav.scroll_offset(), 9);
    nav.handle_tree_key(&plain(KeyCode::Home), &r);
    assert_eq!(nav.cursor(), 0);
    assert_eq!(nav.scroll_offset(), 0);
}

#[test]
fn tree_table_vim_keys_and_edits() {
    let r = rows(&[0, 1, 1]);
    let ed = vec![false, true, false, true];
    let mut nav = TreeNav::new();
    nav.set_height(5);
    nav.handle_table_key(&plain(KeyCode::Char('j')), &r, &ed);
    assert_eq!(nav.cursor(), 1);
    nav.handle_table_key(&plain(KeyCode::Char('G')), &r, &ed);
    assert_eq!(nav.cursor(), 2);
    assert_eq!(nav.handle_table_key(&plain(KeyCode::Char('d')), &r, &ed), TreeAction::Edit(TreeEdit::Delete, 2));
    assert_eq!(nav.handle_table_key(&plain(KeyCode::Char('u')), &r, &ed), TreeAction::Undo);
    nav.handle_table_key(&plain(KeyCode::Char('h')), &r, &ed);
    assert_eq!(nav.cursor(), 0);
    nav.handle_table_key(&plain(KeyCode::Tab), &r, &ed);
    assert_eq!(nav.focused_col(), Some(1));
    nav.handle_table_key(&plain(KeyCode::Tab), &r, &ed);
    assert_eq!(nav.focused_col(), Some(3));
    nav.handle_table_key(&plain(KeyCode::Tab), &r, &ed);
    assert_eq!(nav.focused_col(), Some(1));
    // Enter only expands in a tree table; a leaf row stays.
    assert_eq!(nav.handle_table_key(&plain(KeyCode::Enter), &r, &ed), TreeAction::Consumed);
}

#[test]
fn alignment_detected_from_samples() {
    let (n, d, t, b) = (CellKind::Number, CellKind::DecimalNumber, CellKind::Text, CellKind::Blank);
    assert_eq!(auto_detect_align(&vec![n, n, t]), ColAlign::Right);
    assert_eq!(auto_detect_align(&vec![n, d, b]), ColAlign::Decimal);
    assert_eq!(auto_detect_align(&vec![n, t]), ColAlign::Left);
    assert_eq!(auto_detect_align(&vec![b, b]), ColAlign::Left);
}

#[test]
fn cell_offsets_by_alignment() {
    assert_eq!(cell_offset("abc", 10, ColAlign::Left), 0);
    assert_eq!(cell_offset("abc", 10, ColAlign::Right), 7);
    assert_eq!(cell_offset("abc", 10, ColAlign::Center), 3);
    // dot column is 10 * 2 / 3 = 6; "12.5" has its dot at byte 2
    assert_eq!(cell_offset("12.5", 10, ColAlign::Decimal), 4);
    assert_eq!(cell_offset("125", 10, ColAlign::Decimal), 3);
}

#[test]
fn column_bounds_split_the_width() {
    let widths = vec![8, 5];
    // extra columns take 9 + 6 = 15 of 40
    assert_eq!(column_bounds(&widths, 40, 0), (0, 25));
    assert_eq!(column_bounds(&widths, 40, 1), (26, 8));
    assert_eq!(column_bounds(&widths, 40, 2), (35, 5));
    assert_eq!(column_bounds(&widths, 40, 5), (41, 0));
}

#[test]
fn highlighted_cells_mark_matches_and_stop_at_edge() {
    let cells = highlighted_cells("abcd", &vec![0, 2], 5, 8);
    assert_eq!(cells, vec![(5, 'a', true), (6, 'b', false), (7, 'c', true)]);
    assert!(highlighted_cells("abcd", &vec![0], 9, 8).is_empty());
    assert_eq!(highlighted_cells("ab", &vec![], 0, 80).len(), 2);
}

#[test]
fn extra_cells_fit_on_ordinary_rows() {
    let widths = vec![4u16, 6];
    let cells = vec!["1.5".to_string(), "abc".to_string()];
    let aligns = vec![ColAlign::Decimal, ColAlign::Left];
    assert!(extra_cells_fit(&widths, 2, &cells, &aligns, 20, 32, 0));
    assert!(!extra_cells_fit(&vec![65535u16], 1, &vec![String::new()], &vec![ColAlign::Left], 20, 32, 0));
}

#[test]
fn deep_rows_wrap_guide_columns() {
    let depths = vec![0usize, 32769];
    let guides = row_guides_of(&depths, 1);
    let last = guides[guides.len() - 1];
    assert_eq!(last, (1, Guide::Horizontal));
}

#[test]
fn tree_cell_and_row_places() {
    assert_eq!(
        tree_cell_layout(2, "hello", 10, false),
        TreeCell::Structured { marker_x: 4, label_x: 6, text: "hell".to_string() }
    );
    assert_eq!(tree_cell_layout(0, "abc", 2, true), TreeCell::Raw { text: "ab".to_string() });
    let p = row_places_of(1, true, Some(2), true, 1, 20);
    assert_eq!(
        p,
        RowPlaces { marker_x: 2, badge_x: Some(4), icon_x: Some(6), label_x: 8, indicator_x: Some(18) }
    );
    let q = row_places_of(0, false, None, true, 1, 4);
    assert_eq!(q.indicator_x, None);
}
