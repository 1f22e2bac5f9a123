use txv_widgets::branch::{indicator_width, read_branch_label, BranchTicker};

#[test]
fn symbolic_ref_names_branch() {
    assert_eq!(read_branch_label("ref: refs/heads/main\n"), Some("\u{e0a0} main".to_string()));
}

#[test]
fn detached_head_shows_short_id() {
    assert_eq!(read_branch_label("  0123456789abcdef\n"), Some("\u{e0a0} 0123456".to_string()));
}

#[test]
fn short_head_gives_nothing() {
    assert_eq!(read_branch_label("abc\n"), None);
}

#[test]
fn ticker_fires_every_sixty_ticks() {
    let mut t = BranchTicker::new();
    for _ in 0..59 {
        assert!(!t.tick());
    }
    assert!(t.tick());
    assert!(!t.tick());
}

#[test]
fn indicator_width_counts_bytes_and_padding() {
    assert_eq!(indicator_width(""), 0);
    assert_eq!(indicator_width("\u{e0a0} main"), 3 + 5 + 2);
}
