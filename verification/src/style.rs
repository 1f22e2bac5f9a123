//! Colors and styles as plain values, and the tab bar's palette and fill.

use vstd::prelude::*;

verus! {

/// A terminal color.
#[derive(Clone, Copy, Debug, PartialEq, Eq, Structural)]
pub enum Color {
    /// The terminal's default color.
    Reset,
    /// No color of its own: what lies beneath shows through.
    Transparent,
    /// One of the 256 indexed terminal colors.
    Ansi(u8),
    /// A 24-bit color.
    Rgb(u8, u8, u8),
}

/// Foreground and background of a cell.
#[derive(Clone, Copy, Debug, PartialEq, Eq, Structural)]
pub struct Style {
    pub fg: Color,
    pub bg: Color,
}

impl Style {
    pub fn new(fg: Color, bg: Color) -> (s: Style)
        ensures
            s.fg == fg,
            s.bg == bg,
    {
        Style { fg, bg }
    }
}

/// Style for a single tab position in the palette.
#[derive(Clone, Copy, Debug, PartialEq, Eq, Structural)]
pub struct TabStyle {
    pub fg: Color,
    pub bg: Color,
}

impl TabStyle {
    pub fn bg(&self) -> (c: Color)
        ensures
            c == self.bg,
    {
        self.bg
    }
}

impl Default for TabStyle {
    fn default() -> (s: TabStyle)
        ensures
            s.fg == Color::Reset && s.bg == Color::Reset,
    {
        TabStyle { fg: Color::Reset, bg: Color::Reset }
    }
}

/// Fill style for the bar area not covered by tabs.
#[derive(Clone, Copy, Debug, PartialEq, Eq, Structural)]
pub struct TabBarFill {
    pub ch: char,
    pub style: Style,
}

impl TabBarFill {
    /// Transparent fill: the parent's content shows through.
    pub fn transparent() -> (f: TabBarFill)
        ensures
            f.ch == ' ',
            f.style == (Style { fg: Color::Transparent, bg: Color::Transparent }),
    {
        TabBarFill { ch: ' ', style: Style::new(Color::Transparent, Color::Transparent) }
    }

    /// Horizontal rule fill.
    pub fn rule(fg: Color) -> (f: TabBarFill)
        ensures
            f.ch == '\u{2500}',
            f.style == (Style { fg: fg, bg: Color::Reset }),
    {
        TabBarFill { ch: '\u{2500}', style: Style::new(fg, Color::Reset) }
    }
}

impl Default for TabBarFill {
    fn default() -> (f: TabBarFill)
        ensures
            f.ch == ' ',
            f.style == (Style { fg: Color::Transparent, bg: Color::Transparent }),
    {
        Self::transparent()
    }
}

/// Color palette for the tab bar, looked up by position.
#[derive(Clone, Copy, Debug)]
pub struct TabBarPalette {
    /// Active tab when the panel is focused.
    pub active_focused: TabStyle,
    /// Active tab when the panel is not focused.
    pub active_unfocused: TabStyle,
    /// Styles for inactive tabs by distance (index 0 = nearest to the active tab).
    pub inactive: [TabStyle; 10],
    /// Dim foreground for thin separators and fill.
    pub dim_fg: Color,
    /// Badge background when the panel is focused.
    pub badge_focused_bg: Color,
    /// Badge foreground.
    pub badge_fg: Color,
    /// Separator foreground between inactive tabs.
    pub separator_fg: Color,
}

impl TabBarPalette {
    /// A palette where every entry uses the terminal's default colors.
    pub fn plain() -> (p: TabBarPalette)
        ensures
            p == TabBarPalette::plain_spec(),
            p.active_focused == TabStyle::default_spec(),
            p.active_unfocused == TabStyle::default_spec(),
            forall|i: int| 0 <= i < 10 ==> #[trigger] p.inactive@[i] == TabStyle::default_spec(),
    {
        let d = TabStyle { fg: Color::Reset, bg: Color::Reset };
        let p = TabBarPalette {
            active_focused: d,
            active_unfocused: d,
            inactive: [d, d, d, d, d, d, d, d, d, d],
            dim_fg: Color::Reset,
            badge_focused_bg: Color::Reset,
            badge_fg: Color::Reset,
            separator_fg: Color::Reset,
        };
        assert(forall|i: int| 0 <= i < 10 ==> #[trigger] p.inactive@[i] == d);
        p
    }
}

impl TabBarPalette {
    /// The palette [`TabBarPalette::plain`] gives, as a value for contracts.
    pub open spec fn plain_spec() -> TabBarPalette {
        let d = TabStyle::default_spec();
        TabBarPalette {
            active_focused: d,
            active_unfocused: d,
            inactive: [d, d, d, d, d, d, d, d, d, d],
            dim_fg: Color::Reset,
            badge_focused_bg: Color::Reset,
            badge_fg: Color::Reset,
            separator_fg: Color::Reset,
        }
    }
}

impl TabBarFill {
    /// The fill [`TabBarFill::transparent`] gives, as a value for contracts.
    pub open spec fn transparent_spec() -> TabBarFill {
        TabBarFill { ch: ' ', style: Style { fg: Color::Transparent, bg: Color::Transparent } }
    }
}

impl TabStyle {
    /// The default tab style, as a value for contracts.
    pub open spec fn default_spec() -> TabStyle {
        TabStyle { fg: Color::Reset, bg: Color::Reset }
    }
}

} // verus!
