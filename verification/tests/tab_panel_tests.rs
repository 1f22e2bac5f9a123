use txv_widgets::geometry::Rect;
use txv_widgets::keys::{HandleResult, KeyCode, KeyEvent, KeyMod};
use txv_widgets::tab_bar::TabBarMode;
use txv_widgets::tab_panel::TabPanel;
use txv_widgets::style::Color;
use txv_widgets::tab_bar_draw::BarGlyphs;

#[test]
fn tests_insert_and_active() {
    let mut panel = TabPanel::new(TabBarMode::Static);
    panel.insert_tab("A");
    panel.insert_tab("B");
    assert_eq!(panel.tab_count(), 2);
    assert_eq!(panel.active_index(), 1); // last inserted is active

    panel.set_active(0);
    assert_eq!(panel.active_index(), 0);
}

#[test]
fn remove_tab_adjusts_active() {
    let mut panel = TabPanel::new(TabBarMode::Lru);
    panel.insert_tab("A");
    panel.insert_tab("B");
    panel.insert_tab("C");
    panel.set_active(2);

    panel.remove_tab(0);
    assert_eq!(panel.tab_count(), 2);
    // Active was 2, now shifted to 1
    assert_eq!(panel.active_index(), 1);
}

#[test]
fn take_active_returns_view() {
    let mut panel = TabPanel::new(TabBarMode::Static);
    panel.insert_tab("X");
    panel.insert_tab("Y");
    panel.set_active(0);

    let taken = panel.take_active();
    let title = taken.expect("take_active returned None");
    assert_eq!(title, "X");
    assert_eq!(panel.tab_count(), 1);
}

#[test]
fn layout_gives_child_content_rect() {
    let mut panel = TabPanel::new(TabBarMode::Static);
    panel.insert_tab("A");
    panel.set_bounds(Rect::new(0, 0, 80, 24));

    let layout = panel.layout().expect("no active child");
    let (cb, shown) = layout.contents[panel.active_index()];
    assert!(shown);
    assert_eq!(cb.x, 0);
    assert_eq!(cb.y, 1); // below tab bar
    assert_eq!(cb.w, 80);
    assert_eq!(cb.h, 23); // 24 - 1 for tab bar
}

#[test]
fn m_digit_switches_tab() {
    let mut panel = TabPanel::new(TabBarMode::Static);
    panel.insert_tab("A");
    panel.insert_tab("B");
    panel.insert_tab("C");
    panel.set_bounds(Rect::new(0, 0, 60, 20));

    let key = KeyEvent::new(KeyCode::Char('2'), KeyMod::alt());
    panel.handle_key(&key);
    assert_eq!(panel.active_index(), 1);
}

#[test]
fn tab_next_cycles() {
    let mut panel = TabPanel::new(TabBarMode::Static);
    panel.set_bounds(Rect::new(0, 0, 80, 24));
    panel.insert_tab("A");
    panel.insert_tab("B");
    panel.insert_tab("C");
    panel.set_active(0);
    assert_eq!(panel.active_title(), Some("A"));
    panel.tab_next();
    assert_eq!(panel.active_title(), Some("B"));
    panel.tab_next();
    assert_eq!(panel.active_title(), Some("C"));
}

#[test]
fn close_tab_by_title() {
    let mut panel = TabPanel::new(TabBarMode::Static);
    panel.set_bounds(Rect::new(0, 0, 80, 24));
    panel.insert_tab("X");
    panel.insert_tab("Y");
    assert!(panel.close_tab_by_title("X"));
    assert_eq!(panel.tab_count(), 1);
    assert_eq!(panel.active_title(), Some("Y"));
}

#[test]
fn focus_tab_by_title() {
    let mut panel = TabPanel::new(TabBarMode::Static);
    panel.set_bounds(Rect::new(0, 0, 80, 24));
    panel.insert_tab("A");
    panel.insert_tab("B");
    assert!(panel.focus_tab_by_title("A"));
    assert_eq!(panel.active_title(), Some("A"));
    assert!(!panel.focus_tab_by_title("Z"));
}

#[test]
fn panel_dropdown_opens_below_bar_and_closes() {
    let mut panel = TabPanel::new(TabBarMode::Static);
    panel.set_bounds(Rect::new(0, 0, 80, 24));
    panel.insert_tab("main.rs");
    panel.insert_tab("lib.rs");
    let key = KeyEvent::new(KeyCode::Char('0'), KeyMod::alt());
    let (r, rect) = panel.handle_key(&key);
    assert_eq!(r, HandleResult::Consumed);
    // longest title 7 + 3, plus 2 for the border
    assert_eq!(rect, Some(Rect::new(1, 1, 12, 3)));
    assert!(panel.dropdown_open());
    assert!(!panel.bar().handle_keys());
    // Alt-1 picks the first numbered tab and closes the dropdown
    let (r2, rect2) = panel.handle_key(&KeyEvent::new(KeyCode::Char('1'), KeyMod::alt()));
    assert_eq!(r2, HandleResult::Consumed);
    assert_eq!(rect2, None);
    assert!(!panel.dropdown_open());
    assert_eq!(panel.active_index(), 0);
}

#[test]
fn panel_next_tab_name_counts_prefixed() {
    let mut panel = TabPanel::new(TabBarMode::Static);
    panel.insert_tab("Shell:0");
    panel.insert_tab("Shell:1 build");
    panel.insert_tab("Files");
    assert_eq!(panel.next_tab_name("Shell"), "Shell:2");
}

#[test]
fn panel_rename_user_part_keeps_prefix() {
    let mut panel = TabPanel::new(TabBarMode::Static);
    panel.insert_tab("Shell:0");
    panel.rename_user_part("logs");
    assert_eq!(panel.active_title(), Some("Shell:logs"));
}

fn bar_glyphs() -> BarGlyphs {
    BarGlyphs {
        tab_left: "\u{e0b6}".to_string(),
        tab_right: "\u{e0b4}".to_string(),
        separator: "\u{e0b5}".to_string(),
        separator_left: "\u{e0b7}".to_string(),
        dropdown_arrow: "\u{25be}".to_string(),
    }
}

#[test]
fn tests_draw_does_not_panic() {
    let mut panel = TabPanel::new(TabBarMode::Lru);
    panel.insert_tab("Shell");
    panel.insert_tab("Build");
    panel.set_bounds(Rect::new(0, 0, 60, 20));
    let w = panel.bounds().w;
    assert!(panel.bar_mut().draw_bar(w, &bar_glyphs(), 0).is_some());
}

#[test]
fn row_0_non_tab_cells_are_transparent() {
    let mut panel = TabPanel::new(TabBarMode::Single);
    panel.insert_tab("Hi");
    panel.set_bounds(Rect::new(0, 0, 40, 10));
    let w = panel.bounds().w;
    let ops = panel.bar_mut().draw_bar(w, &bar_glyphs(), 0).unwrap();
    // The last print that covers column 30 decides its look.
    let cell = ops
        .iter()
        .filter(|o| o.x <= 30 && 30 < o.x as usize + o.text.chars().count())
        .last()
        .unwrap();
    assert_eq!(cell.style.fg, Color::Transparent, "non-tab cell at x=30 should have transparent fg");
    assert_eq!(cell.style.bg, Color::Transparent, "non-tab cell at x=30 should have transparent bg");
}

#[test]
fn dropdown_pick_and_cancel() {
    let mut panel = TabPanel::new(TabBarMode::Static);
    panel.insert_tab("A");
    panel.insert_tab("B");
    panel.insert_tab("C");
    panel.set_active(0);
    panel.set_bounds(Rect::new(0, 0, 60, 20));
    assert!(panel.open_dropdown().is_some());
    assert!(panel.dropdown_done(Some(2)));
    assert!(!panel.dropdown_open());
    assert_eq!(panel.active_index(), 2);
    assert!(!panel.dropdown_done(Some(0)));
    panel.open_dropdown();
    assert!(panel.dropdown_cancelled());
    assert!(!panel.dropdown_open());
    assert_eq!(panel.active_index(), 2);
}

#[test]
fn insert_tab_at_position() {
    let mut panel = TabPanel::new(TabBarMode::Static);
    panel.insert_tab("A");
    panel.insert_tab("B");
    assert_eq!(panel.insert_tab_at(1, "X"), 1);
    assert_eq!(panel.tab_title(1), Some("X"));
    assert_eq!(panel.tab_title(2), Some("B"));
    assert_eq!(panel.insert_tab_at(99, "Z"), 3);
    assert_eq!(panel.tab_title(3), Some("Z"));
}
