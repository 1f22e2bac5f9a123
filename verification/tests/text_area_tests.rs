use txv_widgets::keys::{HandleResult, KeyCode, KeyEvent, KeyMod};
use txv_widgets::style::Color;
use txv_widgets::text_area::{split_lines, LineLook, TextArea};

fn key(code: KeyCode) -> KeyEvent {
    KeyEvent::new(code, KeyMod::none())
}

#[test]
fn lines_split_like_str_lines() {
    assert_eq!(split_lines("a\nb\r\nc"), vec!["a", "b", "c"]);
    assert_eq!(split_lines("a\n"), vec!["a"]);
    assert_eq!(split_lines(""), Vec::<String>::new());
    assert_eq!(split_lines("\n\nx"), vec!["", "", "x"]);
}

#[test]
fn content_round_trip() {
    let mut ta = TextArea::new();
    ta.set_content("one\ntwo\nthree");
    assert_eq!(ta.line_count(), 3);
    assert_eq!(ta.content(), "one\ntwo\nthree");
    ta.append_lines("four\n");
    assert_eq!(ta.content(), "one\ntwo\nthree\nfour");
}

#[test]
fn search_finds_lines_and_cycles() {
    let mut ta = TextArea::new();
    ta.set_content("alpha\nbeta\ngamma\nalphabet");
    ta.search("alpha");
    assert_eq!(ta.search_matches(), &vec![0, 3]);
    assert_eq!(ta.current_match(), 0);
    ta.next_match();
    assert_eq!(ta.current_match(), 1);
    ta.next_match();
    assert_eq!(ta.current_match(), 0);
    ta.prev_match();
    assert_eq!(ta.current_match(), 1);
    ta.search("");
    assert!(ta.search_matches().is_empty());
}

#[test]
fn search_prompt_takes_keys() {
    let mut ta = TextArea::new();
    ta.set_content("x\nyz\nzz");
    assert_eq!(ta.handle_key(&key(KeyCode::Char('/')), 10), HandleResult::Consumed);
    assert!(ta.is_searching());
    ta.handle_key(&key(KeyCode::Char('z')), 10);
    ta.handle_key(&key(KeyCode::Char('q')), 10);
    ta.handle_key(&key(KeyCode::Backspace), 10);
    ta.handle_key(&key(KeyCode::Enter), 10);
    assert!(!ta.is_searching());
    assert_eq!(ta.search_query(), "z");
    assert_eq!(ta.search_matches(), &vec![1, 2]);
    assert_eq!(ta.handle_key(&key(KeyCode::Char('n')), 10), HandleResult::Consumed);
    assert_eq!(ta.current_match(), 1);
    assert_eq!(ta.handle_key(&key(KeyCode::Char('x')), 10), HandleResult::Ignored);
}

#[test]
fn navigation_scrolls_within_bounds() {
    let mut ta = TextArea::new();
    ta.set_content("1\n2\n3\n4\n5");
    ta.handle_key(&key(KeyCode::Down), 3);
    assert_eq!(ta.scroll().offset, 1);
    ta.handle_key(&key(KeyCode::Up), 3);
    ta.handle_key(&key(KeyCode::Up), 3);
    assert_eq!(ta.scroll().offset, 0);
    ta.handle_key(&key(KeyCode::End), 3);
    assert_eq!(ta.scroll().offset, ta.scroll().max_offset());
    ta.handle_key(&key(KeyCode::Home), 3);
    assert_eq!(ta.scroll().offset, 0);
}

#[test]
fn draw_numbers_and_looks() {
    let mut ta = TextArea::new();
    ta.set_content("hello\nworld\nhi");
    ta.set_line_colors(vec![Color::Reset, Color::Ansi(2)]);
    ta.search("hi");
    let (lines, prompt) = ta.draw_layout(6, 4, 2).expect("non-empty grid");
    assert!(prompt.is_none());
    assert_eq!(lines.len(), 4);
    assert_eq!(lines[0].number, "1 ");
    assert_eq!(lines[0].text, "hell");
    assert_eq!(lines[0].look, LineLook::Colored(Color::Reset));
    assert_eq!(lines[1].look, LineLook::Colored(Color::Ansi(2)));
    assert_eq!(lines[2].look, LineLook::Match);
    assert_eq!(lines[3].look, LineLook::Blank);
}
