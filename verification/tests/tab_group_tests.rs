use txv_widgets::geometry::Rect;
use txv_widgets::keys::{HandleResult, KeyCode, KeyEvent, KeyMod};
use txv_widgets::tab_group::{in_order_match, TabGroup};
use txv_widgets::tab_group_layout::{ChromeKind, RowKind};

fn key(code: KeyCode) -> KeyEvent {
    KeyEvent::new(code, KeyMod::none())
}

#[test]
fn tab_group_tests_insert_and_active() {
    let mut tg = TabGroup::new();
    tg.set_bounds(Rect::new(0, 0, 80, 24));
    tg.insert_tab("A");
    tg.insert_tab("B");
    assert_eq!(tg.tab_count(), 2);
    // Last inserted tab becomes active
    assert_eq!(tg.active_title(), Some("B"));
}

#[test]
fn set_active_and_cycle() {
    let mut tg = TabGroup::new();
    tg.set_bounds(Rect::new(0, 0, 80, 24));
    tg.insert_tab("A");
    tg.insert_tab("B");
    tg.insert_tab("C");
    // C is already active (last inserted), switch to A
    tg.set_active(0);
    assert_eq!(tg.active_title(), Some("A"));
    tg.tab_next();
    assert_eq!(tg.active_title(), Some("B"));
}

#[test]
fn close_and_focus_by_title() {
    let mut tg = TabGroup::new();
    tg.set_bounds(Rect::new(0, 0, 80, 24));
    tg.insert_tab("X");
    tg.insert_tab("Y");
    assert!(tg.close_tab_by_title("X", true));
    assert_eq!(tg.tab_count(), 1);
    assert!(tg.focus_tab_by_title("Y"));
    assert!(!tg.focus_tab_by_title("Z"));
}

#[test]
fn set_bounds_propagates() {
    let mut tg = TabGroup::new();
    tg.insert_tab("T");
    tg.set_bounds(Rect::new(5, 10, 40, 20));
    assert_eq!(tg.content_rect(), Rect::new(5, 11, 40, 19));
}

#[test]
fn close_returns_to_previously_used_tab() {
    let mut tg = TabGroup::new();
    tg.insert_tab("A");
    tg.insert_tab("B");
    tg.insert_tab("C");
    tg.set_active(0);
    tg.set_active(1);
    assert!(tg.close_active(true));
    assert_eq!(tg.active_title(), Some("A"));
}

#[test]
fn refused_close_keeps_tab() {
    let mut tg = TabGroup::new();
    tg.insert_tab("A");
    assert!(!tg.close_active(false));
    assert_eq!(tg.tab_count(), 1);
    assert!(!tg.close_tab_by_title("A", false));
    assert_eq!(tg.tab_count(), 1);
}

#[test]
fn fuzzy_match_in_order() {
    let t: Vec<char> = "main.rs".chars().collect();
    assert!(in_order_match(&t, &"mrs".chars().collect()));
    assert!(in_order_match(&t, &Vec::new()));
    assert!(!in_order_match(&t, &"rm".chars().collect()));
}

#[test]
fn dropdown_filter_enter_activates_match() {
    let mut tg = TabGroup::new();
    tg.insert_tab("main.rs");
    tg.insert_tab("lib.rs");
    tg.insert_tab("Test.rs");
    tg.open_dropdown();
    assert!(tg.dropdown_open());
    assert_eq!(tg.filtered_indices(), vec![0, 1, 2]);
    tg.handle_dropdown_key(&key(KeyCode::Char('t')));
    // "t" matches Test.rs (lowercased); main.rs and lib.rs hold no t
    assert_eq!(tg.filtered_indices(), vec![2]);
    assert_eq!(tg.dropdown_cursor(), Some(0));
    tg.handle_dropdown_key(&key(KeyCode::Enter));
    assert!(!tg.dropdown_open());
    assert_eq!(tg.active_title(), Some("Test.rs"));
}

#[test]
fn dropdown_up_down_wrap_and_escape() {
    let mut tg = TabGroup::new();
    tg.insert_tab("a");
    tg.insert_tab("b");
    tg.open_dropdown();
    tg.handle_dropdown_key(&key(KeyCode::Up));
    assert_eq!(tg.dropdown_cursor(), Some(1));
    tg.handle_dropdown_key(&key(KeyCode::Down));
    assert_eq!(tg.dropdown_cursor(), Some(0));
    tg.handle_dropdown_key(&key(KeyCode::Char('x')));
    tg.handle_dropdown_key(&key(KeyCode::Backspace));
    assert_eq!(tg.dropdown_filter(), "");
    assert_eq!(tg.handle_dropdown_key(&key(KeyCode::Esc)), HandleResult::Consumed);
    assert!(!tg.dropdown_open());
    assert_eq!(tg.handle_dropdown_key(&key(KeyCode::Esc)), HandleResult::Ignored);
}

#[test]
fn alt_digit_selects_tab_by_index() {
    let mut tg = TabGroup::new();
    tg.insert_tab("a");
    tg.insert_tab("b");
    let r = tg.handle_key(&KeyEvent::new(KeyCode::Char('0'), KeyMod::alt()));
    assert_eq!(r, Some(HandleResult::Consumed));
    assert_eq!(tg.active_index(), 0);
    let r2 = tg.handle_key(&KeyEvent::new(KeyCode::Char('7'), KeyMod::alt()));
    assert_eq!(r2, Some(HandleResult::Consumed));
    assert_eq!(tg.active_index(), 0);
    assert_eq!(tg.handle_key(&key(KeyCode::Char('x'))), None);
}

#[test]
fn group_next_tab_name_first_free() {
    let mut tg = TabGroup::new();
    tg.insert_tab("Shell:0");
    tg.insert_tab("Shell:1");
    assert_eq!(tg.next_tab_name("Shell"), "Shell:2");
}

#[test]
fn subtitle_replaces_previous() {
    let mut tg = TabGroup::new();
    tg.insert_tab("Shell:0");
    tg.sync_subtitle("vim");
    assert_eq!(tg.active_title(), Some("Shell:0 vim"));
    tg.sync_subtitle("htop");
    assert_eq!(tg.active_title(), Some("Shell:0 htop"));
    tg.sync_subtitle("");
    assert_eq!(tg.active_title(), Some("Shell:0"));
}

#[test]
fn group_rename_user_part() {
    let mut tg = TabGroup::new();
    tg.insert_tab("Shell:0");
    tg.rename_user_part("logs");
    assert_eq!(tg.active_title(), Some("Shell:logs"));
    tg.insert_tab("plain");
    tg.rename_user_part("x");
    assert_eq!(tg.active_title(), Some("plain"));
}

#[test]
fn chrome_places_labels_and_overflow() {
    let mut tg = TabGroup::new();
    tg.insert_tab("ab");
    tg.insert_tab("cd");
    tg.set_dirty(0, true);
    tg.set_bounds(Rect::new(0, 0, 20, 5));
    let pieces = tg.chrome_layout();
    let seen: Vec<(u16, ChromeKind, String)> = pieces.into_iter().map(|p| (p.x, p.kind, p.text)).collect();
    assert_eq!(
        seen,
        vec![
            (0, ChromeKind::Separator, String::new()),
            (1, ChromeKind::Label, "ab •".to_string()),
            (5, ChromeKind::Separator, String::new()),
            (6, ChromeKind::ActiveLabel, "cd".to_string()),
            (8, ChromeKind::Separator, String::new()),
        ]
    );
    tg.set_bounds(Rect::new(0, 0, 7, 5));
    let narrow: Vec<(u16, ChromeKind, String)> =
        tg.chrome_layout().into_iter().map(|p| (p.x, p.kind, p.text)).collect();
    assert_eq!(
        narrow,
        vec![
            (0, ChromeKind::Separator, String::new()),
            (1, ChromeKind::Label, "ab •".to_string()),
            (5, ChromeKind::Separator, String::new()),
            (6, ChromeKind::Separator, String::new()),
        ]
    );
}

#[test]
fn dropdown_box_rows_and_border() {
    let mut tg = TabGroup::new();
    tg.insert_tab("one");
    tg.insert_tab("two");
    tg.set_bounds(Rect::new(0, 0, 30, 10));
    assert!(tg.dropdown_layout().is_none());
    tg.open_dropdown();
    let b = tg.dropdown_layout().expect("open dropdown");
    // " 0:one" is 6 bytes, plus 2 for the border
    assert_eq!(b.width, 8);
    let rows: Vec<(u16, RowKind, String)> = b.rows.into_iter().map(|r| (r.y, r.kind, r.text)).collect();
    assert_eq!(
        rows,
        vec![(1, RowKind::Selected, " 0:one".to_string()), (2, RowKind::Entry, " 1:two".to_string())]
    );
    assert_eq!(b.bottom, Some(3));
}

#[test]
fn drawing_checks_hold_on_ordinary_groups() {
    let mut g = TabGroup::new();
    g.insert_tab("Shell:0");
    g.insert_tab("Build");
    g.set_bounds(Rect::new(0, 0, 40, 10));
    assert!(g.touch_ok());
    assert!(g.chrome_fits());
    assert!(g.dropdown_drawable());
    g.open_dropdown();
    assert!(g.dropdown_drawable());
    // One column: the box has no room between its borders.
    g.set_bounds(Rect::new(0, 0, 1, 10));
    assert!(!g.dropdown_drawable());
    g.set_bounds(Rect::new(0, 0, 65535, 10));
    assert!(!g.chrome_fits());
}

#[test]
fn dropdown_down_then_up_returns_selection() {
    let mut tg = TabGroup::new();
    tg.insert_tab("a");
    tg.insert_tab("b");
    tg.insert_tab("c");
    tg.open_dropdown();
    let start = tg.dropdown_cursor();
    let active = tg.active_index();
    assert_eq!(tg.handle_key(&key(KeyCode::Down)), Some(HandleResult::Consumed));
    assert_eq!(tg.handle_key(&key(KeyCode::Up)), Some(HandleResult::Consumed));
    assert_eq!(tg.dropdown_cursor(), start);
    assert_eq!(tg.active_index(), active);
    assert_eq!(tg.tab_count(), 3);
}

#[test]
fn tab_prev_undoes_tab_next_with_wrap() {
    let mut tg = TabGroup::new();
    tg.insert_tab("a");
    tg.insert_tab("b");
    tg.insert_tab("c");
    assert_eq!(tg.active_index(), 2);
    tg.tab_next();
    assert_eq!(tg.active_index(), 0);
    tg.tab_prev();
    assert_eq!(tg.active_index(), 2);
}
