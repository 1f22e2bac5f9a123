use txv_widgets::geometry::Rect;
use txv_widgets::keys::{KeyCode, KeyEvent, KeyMod};
use txv_widgets::table::{Column, LineKind, Table, TableKey};
use txv_widgets::scroll::ScrollState;

fn table_with_rows(n: usize) -> Table {
    let mut t = Table::new(vec![Column::new("Name", 6), Column::new("Size", 4)]);
    let rows: Vec<Vec<String>> = (0..n).map(|i| vec![format!("file{i}"), format!("{i}")]).collect();
    t.set_rows(rows);
    t
}

fn key(code: KeyCode) -> KeyEvent {
    KeyEvent::new(code, KeyMod::none())
}

#[test]
fn table_cursor_moves_within_rows() {
    let mut t = table_with_rows(3);
    t.set_bounds(Rect::new(0, 0, 20, 5));
    assert_eq!(t.handle_key(&key(KeyCode::Up)), TableKey::Consumed);
    assert_eq!(t.cursor(), 0);
    t.handle_key(&key(KeyCode::Down));
    t.handle_key(&key(KeyCode::Down));
    t.handle_key(&key(KeyCode::Down));
    assert_eq!(t.cursor(), 2);
    assert_eq!(t.handle_key(&key(KeyCode::Enter)), TableKey::Chosen(2));
    assert_eq!(t.handle_key(&key(KeyCode::Char('q'))), TableKey::Ignored);
}

#[test]
fn table_pages_and_scrolls() {
    let mut t = table_with_rows(30);
    t.set_bounds(Rect::new(0, 0, 20, 6));
    // 5 data rows; a page is 4 rows
    t.handle_key(&key(KeyCode::PageDown));
    assert_eq!(t.cursor(), 4);
    assert_eq!(t.scroll().offset, 0);
    t.handle_key(&key(KeyCode::PageDown));
    assert_eq!(t.cursor(), 8);
    assert_eq!(t.scroll().offset, 4);
    t.handle_key(&key(KeyCode::PageUp));
    assert_eq!(t.cursor(), 4);
    assert_eq!(t.scroll().offset, 4);
}

#[test]
fn table_draw_clips_cells_and_marks_selection() {
    let mut t = table_with_rows(2);
    t.set_bounds(Rect::new(0, 0, 8, 4));
    let d = t.draw_layout().expect("non-empty bounds");
    let header: Vec<(u16, String)> = d.header;
    assert_eq!(header, vec![(0, "Name".to_string()), (6, "Si".to_string())]);
    assert_eq!(d.lines.len(), 3);
    assert_eq!(d.lines[0].kind, LineKind::Selected);
    assert_eq!(d.lines[0].cells, vec![(0, "file0".to_string()), (6, "0".to_string())]);
    assert_eq!(d.lines[1].kind, LineKind::Normal);
    assert_eq!(d.lines[1].y, 2);
    assert_eq!(d.lines[2].kind, LineKind::Blank);
    assert!(d.lines[2].cells.is_empty());
}

#[test]
fn table_draw_nothing_on_empty_bounds() {
    let t = table_with_rows(2);
    assert!(t.draw_layout().is_none());
}

#[test]
fn ensure_visible_scrolls_row_into_view() {
    let mut s = ScrollState::new();
    s.set_viewport(5);
    s.set_total(100);
    s.ensure_visible(20);
    assert_eq!(s.offset, 16);
    s.ensure_visible(3);
    assert_eq!(s.offset, 3);
    s.ensure_visible(5);
    assert_eq!(s.offset, 3);
    s.scroll_down(1000);
    assert_eq!(s.offset, 95);
    s.scroll_up(10);
    assert_eq!(s.offset, 85);
    s.scroll_to(500);
    assert_eq!(s.offset, 95);
}

#[test]
fn table_draw_fits_on_ordinary_bounds() {
    let mut t = table_with_rows(3);
    t.set_bounds(Rect::new(0, 0, 40, 10));
    assert!(t.draw_fits());
    t.set_bounds(Rect::new(65530, 0, 10, 10));
    assert!(!t.draw_fits());
}
