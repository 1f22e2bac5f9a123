use txv_widgets::keys::{KeyCode, KeyEvent, KeyMod};
use txv_widgets::tree::{RowInfo, TreeAction, TreeNav};
use txv_widgets::tree_table::{extra_cells, tree_cell_layout, ColAlign, TreeCell};

/// Test data: 3 roots, the second expandable with 2 children, 1 extra column.
struct TestSource {
    expanded: bool,
}

impl TestSource {
    fn new() -> Self {
        Self { expanded: false }
    }

    fn rows(&self) -> Vec<(&'static str, usize, bool)> {
        let mut rows = vec![("Alpha", 0, false), ("Beta", 0, true)];
        if self.expanded {
            rows.push(("Child1", 1, false));
            rows.push(("Child2", 1, false));
        }
        rows.push(("Gamma", 0, false));
        rows
    }

    fn visible_count(&self) -> usize {
        self.rows().len()
    }

    fn infos(&self) -> Vec<RowInfo> {
        self.rows().iter().map(|r| RowInfo { depth: r.1, expandable: r.2, expanded: self.expanded }).collect()
    }

    fn toggle(&mut self, row: usize) {
        if self.rows()[row].2 {
            self.expanded = !self.expanded;
        }
    }

    fn cell(&self, row: usize) -> String {
        match row {
            0 => "tag-a".to_string(),
            1 => "tag-b".to_string(),
            _ => String::new(),
        }
    }
}

fn key(code: KeyCode) -> KeyEvent {
    KeyEvent::new(code, KeyMod::none())
}

/// A key on the tree table over `src`, with its toggle carried out.
fn press(nav: &mut TreeNav, src: &mut TestSource, code: KeyCode) {
    let editable = vec![false, false];
    match nav.handle_table_key(&key(code), &src.infos(), &editable) {
        TreeAction::Toggle(row) => {
            src.toggle(row);
            nav.after_toggle(src.visible_count());
        }
        _ => {}
    }
}

fn make_nav(h: u16) -> TreeNav {
    let mut nav = TreeNav::new();
    nav.set_height(h);
    nav
}

#[test]
fn draw_renders_labels_and_columns() {
    let src = TestSource::new();
    // col_widths = [6]: the extra column takes 7 of 40, the tree 33.
    for (row, label, tag) in [(0, "Alpha", "tag-a"), (1, "Beta", "tag-b")] {
        match tree_cell_layout(0, src.rows()[row].0, 33, false) {
            TreeCell::Structured { text, .. } => assert!(text.contains(label), "row {row}: {text}"),
            TreeCell::Raw { .. } => panic!("structured label expected"),
        }
        let cells = extra_cells(&vec![6], 1, &vec![src.cell(row)], &vec![ColAlign::Left], 33, 40, 0);
        let (_, text) = cells[0].content.clone().unwrap();
        assert!(text.contains(tag), "row {row} col: {text}");
    }
}

#[test]
fn navigate_down_moves_cursor() {
    let mut src = TestSource::new();
    let mut nav = make_nav(10);
    assert_eq!(nav.cursor(), 0);
    press(&mut nav, &mut src, KeyCode::Down);
    assert_eq!(nav.cursor(), 1);
    press(&mut nav, &mut src, KeyCode::Down);
    assert_eq!(nav.cursor(), 2);
}

#[test]
fn navigate_up_moves_cursor() {
    let mut src = TestSource::new();
    let mut nav = make_nav(10);
    nav.set_cursor(2, src.visible_count());
    press(&mut nav, &mut src, KeyCode::Up);
    assert_eq!(nav.cursor(), 1);
}

#[test]
fn expand_on_right_key() {
    let mut src = TestSource::new();
    let mut nav = make_nav(10);
    nav.set_cursor(1, src.visible_count());
    press(&mut nav, &mut src, KeyCode::Right);
    assert!(src.expanded);
    assert_eq!(src.visible_count(), 5);
}

#[test]
fn collapse_on_left_key() {
    let mut src = TestSource::new();
    let mut nav = make_nav(10);
    nav.set_cursor(1, src.visible_count());
    src.expanded = true;
    press(&mut nav, &mut src, KeyCode::Left);
    assert!(!src.expanded);
    assert_eq!(src.visible_count(), 3);
}

#[test]
fn left_on_child_goes_to_parent() {
    let mut src = TestSource::new();
    let mut nav = make_nav(10);
    src.expanded = true;
    nav.set_cursor(2, src.visible_count());
    press(&mut nav, &mut src, KeyCode::Left);
    assert_eq!(nav.cursor(), 1);
}

#[test]
fn scroll_when_content_exceeds_viewport() {
    let mut src = TestSource::new();
    let mut nav = make_nav(3);
    src.expanded = true;
    nav.set_cursor(4, src.visible_count());
    assert!(nav.scroll_offset() > 0, "should scroll: offset={}", nav.scroll_offset());
}

#[test]
fn extra_column_at_correct_position() {
    // col_widths = [6], so the extra columns take 6 + 1 = 7 and the tree 33:
    // the separator is at x = 33, the cell starts at x = 34.
    let cells = extra_cells(&vec![6], 1, &vec!["tag-a".to_string()], &vec![ColAlign::Left], 33, 40, 0);
    assert_eq!(cells[0].sep_x, 33, "separator at x=33");
    let (x, text) = cells[0].content.clone().unwrap();
    assert_eq!(x, 34);
    assert!(text.starts_with('t'), "cell content starts at x=34");
}
