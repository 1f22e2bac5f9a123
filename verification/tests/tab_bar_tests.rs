use txv_widgets::keys::{KeyCode, KeyEvent, KeyMod};
use txv_widgets::tab_bar::{TabBar, TabBarMode};
use txv_widgets::style::{Color, Style};
use txv_widgets::tab_bar_draw::{BarGlyphs, PrintOp};

#[test]
fn static_mode_all_numbered() {
    let mut bar = TabBar::new(TabBarMode::Static);
    bar.add_tab("Files");
    bar.add_tab("Git");
    bar.add_tab("Tools");
    bar.set_active(1);

    let order = bar.display_order();
    assert_eq!(order, vec![0, 1, 2]);

    assert_eq!(bar.number_label(0, 0), Some('₁'));
    assert_eq!(bar.number_label(1, 1), Some('₂'));
    assert_eq!(bar.number_label(2, 2), Some('₃'));
}

#[test]
fn lru_mode_active_first_no_number() {
    let mut bar = TabBar::new(TabBarMode::Lru);
    bar.add_tab("a.rs");
    bar.add_tab("b.rs");
    bar.add_tab("c.rs");
    bar.set_active(1);

    let order = bar.display_order();
    assert_eq!(order[0], 1, "active should be first");

    assert_eq!(bar.number_label(0, 1), None);
    assert!(bar.number_label(1, 0).is_some());
}

#[test]
fn single_mode_only_active() {
    let mut bar = TabBar::new(TabBarMode::Single);
    bar.add_tab("Shell");
    bar.add_tab("Build");
    bar.add_tab("Output");
    bar.set_active(0);

    let order = bar.display_order();
    assert_eq!(order, vec![0], "single mode shows only active");
}

#[test]
fn remove_tab_adjusts_state() {
    let mut bar = TabBar::new(TabBarMode::Static);
    bar.add_tab("a");
    bar.add_tab("b");
    bar.add_tab("c");
    bar.set_active(2);
    bar.remove_tab(0);
    assert_eq!(bar.tab_count(), 2);
    assert_eq!(bar.active_index(), 1);
}

#[test]
fn activate_by_number_static() {
    let mut bar = TabBar::new(TabBarMode::Static);
    bar.add_tab("a");
    bar.add_tab("b");
    bar.add_tab("c");
    bar.set_active(0);

    let key = KeyEvent {
        code: KeyCode::Char('2'),
        modifiers: KeyMod {
            alt: true,
            ctrl: false,
            shift: false,
        },
    };
    bar.handle_key(&key);
    assert_eq!(bar.active_index(), 1);
}

fn glyphs() -> BarGlyphs {
    BarGlyphs {
        tab_left: "\u{e0b6}".to_string(),
        tab_right: "\u{e0b4}".to_string(),
        separator: "\u{e0b5}".to_string(),
        separator_left: "\u{e0b7}".to_string(),
        dropdown_arrow: "\u{25be}".to_string(),
    }
}

fn ascii_glyphs() -> BarGlyphs {
    BarGlyphs {
        tab_left: "<".to_string(),
        tab_right: ">".to_string(),
        separator: "|".to_string(),
        separator_left: "/".to_string(),
        dropdown_arrow: "v".to_string(),
    }
}

fn summary(ops: &[PrintOp]) -> Vec<(u16, String)> {
    ops.iter().map(|o| (o.x, o.text.clone())).collect()
}

#[test]
fn draw_does_not_panic() {
    let mut bar = TabBar::new(TabBarMode::Static);
    bar.add_tab("Files");
    bar.add_tab("Git");
    bar.set_active(0);
    assert!(bar.draw_bar(40, &glyphs(), 0).is_some());
}

#[test]
fn draw_single_does_not_panic() {
    let mut bar = TabBar::new(TabBarMode::Single);
    bar.add_tab("Shell");
    bar.add_tab("Build");
    bar.set_active(0);
    assert!(bar.draw_bar(40, &glyphs(), 0).is_some());
}

#[test]
fn static_bar_draws_caps_and_labels() {
    let mut bar = TabBar::new(TabBarMode::Static);
    bar.add_tab("a");
    bar.add_tab("b");
    bar.set_active(0);
    let ops = bar.draw_bar(20, &ascii_glyphs(), 0).unwrap();
    assert_eq!(
        summary(&ops),
        vec![
            (0, " ".repeat(20)),
            (0, "<".to_string()),
            (1, "\u{2081}a".to_string()),
            (3, ">".to_string()),
            (4, "\u{2082}b".to_string()),
            (6, ">".to_string()),
        ]
    );
    assert_eq!(ops[0].style, Style::new(Color::Transparent, Color::Transparent));
    assert_eq!(ops[1].style, Style::new(Color::Reset, Color::Reset));
}

#[test]
fn single_bar_draws_label_and_count() {
    let mut bar = TabBar::new(TabBarMode::Single);
    bar.add_tab("Shell");
    bar.add_tab("Build");
    bar.set_active(0);
    let ops = bar.draw_bar(40, &ascii_glyphs(), 0).unwrap();
    assert_eq!(
        summary(&ops),
        vec![
            (0, " ".repeat(40)),
            (0, "<".to_string()),
            (1, " Shell ".to_string()),
            (8, ">".to_string()),
            (9, "<".to_string()),
            (10, "v2".to_string()),
            (12, ">".to_string()),
        ]
    );
}

#[test]
fn overflow_shows_hidden_count() {
    let mut bar = TabBar::new(TabBarMode::Static);
    for _ in 0..6 {
        bar.add_tab("aaaa");
    }
    bar.set_active(0);
    let ops = bar.draw_bar(20, &ascii_glyphs(), 0).unwrap();
    assert_eq!(
        summary(&ops),
        vec![
            (0, " ".repeat(20)),
            (0, "<".to_string()),
            (1, "\u{2081}aaaa".to_string()),
            (6, ">".to_string()),
            (7, "\u{2082}aaaa".to_string()),
            (12, ">".to_string()),
            (13, "v\u{2026}4".to_string()),
            (16, ">".to_string()),
        ]
    );
}

#[test]
fn scrolled_bar_shows_hidden_left_count() {
    let mut bar = TabBar::new(TabBarMode::Static);
    for _ in 0..6 {
        bar.add_tab("aaaa");
    }
    bar.set_active(5);
    let ops = bar.draw_bar(20, &ascii_glyphs(), 0).unwrap();
    assert_eq!(bar.scroll_offset(), 5);
    assert_eq!(ops[1].x, 0);
    assert_eq!(ops[1].text, "\u{2026}5");
}

#[test]
fn badge_left_of_bar_start_is_refused() {
    let mut bar = TabBar::new(TabBarMode::Single);
    bar.add_tab("T");
    bar.set_badge_styled(0, Some("abc".to_string()), Some(Style::new(Color::Reset, Color::Reset)));
    assert!(bar.draw_bar(8, &ascii_glyphs(), 3).is_none());
    assert!(bar.draw_bar(40, &ascii_glyphs(), 3).is_some());
}

#[test]
fn zero_width_draws_nothing() {
    let mut bar = TabBar::new(TabBarMode::Static);
    bar.add_tab("a");
    assert_eq!(bar.draw_bar(0, &ascii_glyphs(), 0).unwrap().len(), 0);
}

#[test]
fn active_tab_is_always_drawn() {
    let mut bar = TabBar::new(TabBarMode::Static);
    for _ in 0..6 {
        bar.add_tab("aaaa");
    }
    for active in 0..6 {
        bar.set_active(active);
        let ops = bar.draw_bar(20, &ascii_glyphs(), 0).unwrap();
        let label = format!("{}aaaa", char::from_u32(0x2081 + active as u32).unwrap());
        assert!(ops.iter().any(|o| o.text == label), "active {active} not drawn");
    }
}

#[test]
fn insert_tab_keeps_every_tab_in_recency_list() {
    let mut bar = TabBar::new(TabBarMode::Lru);
    bar.add_tab("a");
    bar.add_tab("b");
    assert_eq!(bar.lru_order(), &[0, 1]);
    bar.insert_tab(0, "c");
    assert_eq!(bar.tab_count(), 3);
    assert_eq!(bar.titles()[0], "c");
    assert_eq!(bar.lru_order(), &[1, 2, 0]);
}
