//! TabBar: the state of a horizontal tab strip with three display modes.
//!
//! Single shows the active tab and a count; Static shows every tab in fixed
//! positions, all numbered; Lru shows the active tab first, unnumbered, and
//! the others by recency. Alt-digit activates the tab that carries the digit.

use vstd::prelude::*;

use crate::keys::{char_digit, spec_digit, HandleResult, KeyCode, KeyEvent};
use crate::seqs::{all_below, others, others_vec, reindex_after_remove, reindex_vec, without, without_vec, lemma_others_below, lemma_reindex_below, lemma_without_below, lemma_others_prepend, lemma_without_prepend, lemma_without_twice, shift_up, shift_up_vec, is_index_perm, lemma_shift_up_perm};
use crate::style::{Color, Style, TabBarFill, TabBarPalette, TabStyle};

verus! {

/// Tab bar display mode.
#[derive(Clone, Copy, Debug, PartialEq, Eq, Structural)]
pub enum TabBarMode {
    /// Only the active tab's name is shown, with a count badge.
    Single,
    /// All tabs visible in fixed positions, all numbered.
    Static,
    /// Active tab leftmost without a number, the rest by recency.
    Lru,
}

/// The subscript digit character for `d` (U+2080 + d).
pub open spec fn subscript(d: nat) -> char {
    if d == 0 { '\u{2080}' }
    else if d == 1 { '\u{2081}' }
    else if d == 2 { '\u{2082}' }
    else if d == 3 { '\u{2083}' }
    else if d == 4 { '\u{2084}' }
    else if d == 5 { '\u{2085}' }
    else if d == 6 { '\u{2086}' }
    else if d == 7 { '\u{2087}' }
    else if d == 8 { '\u{2088}' }
    else { '\u{2089}' }
}

/// Subscript digit used to number tabs.
pub fn subscript_digit(d: usize) -> (c: char)
    requires
        d < 10,
    ensures
        c == subscript(d as nat),
{
    if d == 0 { '\u{2080}' }
    else if d == 1 { '\u{2081}' }
    else if d == 2 { '\u{2082}' }
    else if d == 3 { '\u{2083}' }
    else if d == 4 { '\u{2084}' }
    else if d == 5 { '\u{2085}' }
    else if d == 6 { '\u{2086}' }
    else if d == 7 { '\u{2087}' }
    else if d == 8 { '\u{2088}' }
    else { '\u{2089}' }
}

/// The tab bar's state.
pub struct TabBar {
    titles: Vec<String>,
    dirty: Vec<bool>,
    badges: Vec<Option<String>>,
    badge_styles: Vec<Option<Style>>,
    active: usize,
    lru_order: Vec<usize>,
    mode: TabBarMode,
    palette: TabBarPalette,
    fill: TabBarFill,
    focused: bool,
    scroll_offset: usize,
    handle_keys: bool,
    needs_redraw: bool,
}

/// The tab bar's state as mathematical values.
pub struct TabBarState {
    pub titles: Seq<Seq<char>>,
    pub dirty: Seq<bool>,
    pub badges: Seq<Option<Seq<char>>>,
    pub badge_styles: Seq<Option<Style>>,
    pub active: usize,
    pub lru_order: Seq<usize>,
    pub mode: TabBarMode,
    pub palette: TabBarPalette,
    pub fill: TabBarFill,
    pub focused: bool,
    pub scroll_offset: usize,
    pub handle_keys: bool,
    /// Set whenever the bar's appearance may have changed.
    pub needs_redraw: bool,
}

impl TabBarState {
    /// A new bar in `mode`: no tabs, plain palette, transparent fill,
    /// unfocused, unscrolled, handling keys, due for drawing.
    pub open spec fn initial(mode: TabBarMode) -> TabBarState {
        TabBarState {
            titles: Seq::empty(),
            dirty: Seq::empty(),
            badges: Seq::empty(),
            badge_styles: Seq::empty(),
            active: 0,
            lru_order: Seq::empty(),
            mode: mode,
            palette: TabBarPalette::plain_spec(),
            fill: TabBarFill::transparent_spec(),
            focused: false,
            scroll_offset: 0,
            handle_keys: true,
            needs_redraw: true,
        }
    }

    pub open spec fn len(self) -> nat {
        self.titles.len()
    }

    /// The per-tab lists line up, the recency list names existing tabs,
    /// and the active index names a tab (or is 0 when there is none).
    pub open spec fn inv(self) -> bool {
        &&& self.dirty.len() == self.titles.len()
        &&& self.badges.len() == self.titles.len()
        &&& self.badge_styles.len() == self.titles.len()
        &&& all_below(self.lru_order, self.titles.len())
        &&& (self.active < self.titles.len() || (self.titles.len() == 0 && self.active == 0))
    }

    /// The other tabs by recency: the ones an Lru bar shows after the active tab.
    pub open spec fn lru_others(self) -> Seq<usize> {
        others(self.lru_order, self.active, self.len())
    }

    /// Tab indices in display order.
    pub open spec fn display_order(self) -> Seq<usize> {
        match self.mode {
            TabBarMode::Single => seq![self.active],
            TabBarMode::Static => Seq::new(self.len(), |i: int| i as usize),
            TabBarMode::Lru => seq![self.active] + self.lru_others(),
        }
    }

    /// The number shown on the tab `tab_idx` at display position `display_pos`.
    pub open spec fn number_label(self, display_pos: nat, tab_idx: usize) -> Option<nat> {
        match self.mode {
            TabBarMode::Single => None,
            TabBarMode::Static => if display_pos < 9 { Some(display_pos + 1) } else { None },
            TabBarMode::Lru => {
                if tab_idx == self.active {
                    None
                } else if 0 < display_pos && display_pos <= 9 {
                    Some(display_pos)
                } else {
                    None
                }
            }
        }
    }

    /// The tab that number `n` activates, if any.
    pub open spec fn number_target(self, n: nat) -> Option<usize> {
        match self.mode {
            TabBarMode::Lru => {
                if 1 <= n && n <= self.lru_others().len() {
                    Some(self.lru_others()[n - 1])
                } else {
                    None
                }
            }
            _ => {
                let idx: nat = if n >= 1 { (n - 1) as nat } else { 0 };
                if idx < self.len() { Some(idx as usize) } else { None }
            }
        }
    }

    /// The state after activating tab `idx` (no change when it does not exist).
    /// The state after tab `idx` is removed: lists shrink, the LRU order
    /// renumbers, an active index at or past the new end steps back.
    pub open spec fn removed(self, idx: usize) -> TabBarState {
        TabBarState {
            titles: self.titles.remove(idx as int),
            dirty: self.dirty.remove(idx as int),
            badges: self.badges.remove(idx as int),
            badge_styles: self.badge_styles.remove(idx as int),
            lru_order: reindex_after_remove(self.lru_order, idx),
            active: if self.active >= self.len() - 1 && self.active > 0 {
                (self.active - 1) as usize
            } else {
                self.active
            },
            needs_redraw: true,
            ..self
        }
    }

    pub open spec fn activated(self, idx: usize) -> TabBarState {
        if idx < self.len() {
            TabBarState {
                active: idx,
                lru_order: seq![idx] + without(self.lru_order, idx),
                needs_redraw: true,
                ..self
            }
        } else {
            self
        }
    }

    /// Index of the palette's inactive style for a tab at `display_pos`.
    pub open spec fn inactive_slot(self, display_pos: nat) -> nat {
        let active_pos: nat = match self.mode {
            TabBarMode::Lru => 0,
            _ => self.active as nat,
        };
        let distance: nat = if display_pos >= active_pos {
            (display_pos - active_pos) as nat
        } else {
            (active_pos - display_pos) as nat
        };
        let d1: nat = if distance >= 1 { (distance - 1) as nat } else { 0 };
        if d1 < 9 { d1 } else { 9 }
    }

    /// Style of the tab `tab_idx` drawn at `display_pos`.
    pub open spec fn tab_style(self, display_pos: nat, tab_idx: usize) -> TabStyle {
        if tab_idx == self.active {
            if self.focused { self.palette.active_focused } else { self.palette.active_unfocused }
        } else {
            self.palette.inactive@[self.inactive_slot(display_pos) as int]
        }
    }
}

pub open spec fn titles_view(v: Seq<String>) -> Seq<Seq<char>> {
    v.map_values(|s: String| s@)
}

/// An optional string as an optional character sequence.
pub open spec fn opt_view(b: Option<String>) -> Option<Seq<char>> {
    match b {
        Some(s) => Some(s@),
        None => None,
    }
}

pub open spec fn badges_view(v: Seq<Option<String>>) -> Seq<Option<Seq<char>>> {
    v.map_values(|b: Option<String>| opt_view(b))
}

impl View for TabBar {
    type V = TabBarState;

    closed spec fn view(&self) -> TabBarState {
        TabBarState {
            titles: titles_view(self.titles@),
            dirty: self.dirty@,
            badges: badges_view(self.badges@),
            badge_styles: self.badge_styles@,
            active: self.active,
            lru_order: self.lru_order@,
            mode: self.mode,
            palette: self.palette,
            fill: self.fill,
            focused: self.focused,
            scroll_offset: self.scroll_offset,
            handle_keys: self.handle_keys,
            needs_redraw: self.needs_redraw,
        }
    }
}

impl TabBar {
    /// The bar's state is well formed.
    pub open spec fn wf(&self) -> bool {
        self@.inv()
    }

    pub fn new(mode: TabBarMode) -> (bar: TabBar)
        ensures
            bar.wf(),
            bar@ == TabBarState::initial(mode),
    {
        let bar = TabBar {
            titles: Vec::new(),
            dirty: Vec::new(),
            badges: Vec::new(),
            badge_styles: Vec::new(),
            active: 0,
            lru_order: Vec::new(),
            mode,
            palette: TabBarPalette::plain(),
            fill: TabBarFill::transparent(),
            focused: false,
            scroll_offset: 0,
            handle_keys: true,
            needs_redraw: true,
        };
        assert(bar@.titles =~= Seq::<Seq<char>>::empty());
        assert(bar@.badges =~= Seq::<Option<Seq<char>>>::empty());
        assert(bar@.dirty =~= Seq::<bool>::empty());
        assert(bar@.badge_styles =~= Seq::<Option<Style>>::empty());
        assert(bar@.lru_order =~= Seq::<usize>::empty());
        bar
    }

    pub fn set_palette(&mut self, palette: TabBarPalette)
        ensures
            final(self)@ == (TabBarState { palette: palette, ..old(self)@ }),
    {
        self.palette = palette;
    }

    pub fn set_fill(&mut self, fill: TabBarFill)
        ensures
            final(self)@ == (TabBarState { fill: fill, ..old(self)@ }),
    {
        self.fill = fill;
    }

    pub fn set_focused(&mut self, focused: bool)
        ensures
            final(self)@ == (TabBarState { focused: focused, needs_redraw: true, ..old(self)@ }),
    {
        self.focused = focused;
        self.needs_redraw = true;
    }

    pub fn set_handle_keys(&mut self, enabled: bool)
        ensures
            final(self)@ == (TabBarState { handle_keys: enabled, ..old(self)@ }),
    {
        self.handle_keys = enabled;
    }

    pub fn handle_keys(&self) -> (b: bool)
        ensures
            b == self@.handle_keys,
    {
        self.handle_keys
    }

    /// Whether the bar has changed since it was last drawn.
    pub fn needs_redraw(&self) -> (b: bool)
        ensures
            b == self@.needs_redraw,
    {
        self.needs_redraw
    }

    /// Record that the bar has been drawn.
    pub fn mark_redrawn(&mut self)
        ensures
            final(self)@ == (TabBarState { needs_redraw: false, ..old(self)@ }),
    {
        self.needs_redraw = false;
    }

    /// Append a tab. It becomes the least recently used tab.
    pub fn add_tab(&mut self, title: &str)
        requires
            old(self).wf(),
        ensures
            final(self).wf(),
            final(self)@ == (TabBarState {
                titles: old(self)@.titles.push(title@),
                dirty: old(self)@.dirty.push(false),
                badges: old(self)@.badges.push(None),
                badge_styles: old(self)@.badge_styles.push(None),
                lru_order: old(self)@.lru_order.push(old(self)@.len() as usize),
                needs_redraw: true,
                ..old(self)@
            }),
    {
        let ghost t0 = self.titles@;
        let ghost b0 = self.badges@;
        self.titles.push(String::from_str(title));
        self.dirty.push(false);
        self.badges.push(None);
        self.badge_styles.push(None);
        let n = self.titles.len() - 1;
        self.lru_order.push(n);
        self.needs_redraw = true;
        assert(titles_view(self.titles@) =~= titles_view(t0).push(title@));
        assert(badges_view(self.badges@) =~= badges_view(b0).push(None));
    }

    /// Insert a tab at position `pos`. Recency entries naming tabs at or
    /// after `pos` move up by one and the new tab joins the recency list as
    /// its least recent entry, so that an Lru bar still lists every tab
    /// once (the active tab first, every other tab by recency, as
    /// [`TabBarMode::Lru`] describes); the active index is left as it is.
    pub fn insert_tab(&mut self, pos: usize, title: &str)
        requires
            old(self).wf(),
            pos <= old(self)@.len(),
        ensures
            final(self).wf(),
            final(self)@ == (TabBarState {
                titles: old(self)@.titles.insert(pos as int, title@),
                dirty: old(self)@.dirty.insert(pos as int, false),
                badges: old(self)@.badges.insert(pos as int, None),
                badge_styles: old(self)@.badge_styles.insert(pos as int, None),
                lru_order: shift_up(old(self)@.lru_order, pos).push(pos),
                needs_redraw: true,
                ..old(self)@
            }),
    {
        let ghost t0 = self.titles@;
        let ghost b0 = self.badges@;
        self.titles.insert(pos, String::from_str(title));
        self.dirty.insert(pos, false);
        self.badges.insert(pos, None);
        self.badge_styles.insert(pos, None);
        let n = self.titles.len();
        assert(all_below(self.lru_order@, n as nat));
        let mut lru = shift_up_vec(&self.lru_order, pos, n);
        lru.push(pos);
        self.lru_order = lru;
        self.needs_redraw = true;
        assert(titles_view(self.titles@) =~= titles_view(t0).insert(pos as int, title@));
        assert(badges_view(self.badges@) =~= badges_view(b0).insert(pos as int, None));
    }

    /// Remove tab `idx` (no change when it does not exist). Recency entries
    /// for it go, later indices move down, and the active index steps back
    /// when it would point past the end.
    pub fn remove_tab(&mut self, idx: usize)
        requires
            old(self).wf(),
        ensures
            final(self).wf(),
            idx >= old(self)@.len() ==> final(self)@ == old(self)@,
            idx < old(self)@.len() ==> final(self)@ == old(self)@.removed(idx),
    {
        if idx >= self.titles.len() {
            return;
        }
        let ghost t0 = self.titles@;
        let ghost b0 = self.badges@;
        let ghost s0 = self@;
        self.titles.remove(idx);
        self.dirty.remove(idx);
        self.badges.remove(idx);
        self.badge_styles.remove(idx);
        let new_lru = reindex_vec(&self.lru_order, idx);
        proof {
            lemma_reindex_below(s0.lru_order, idx, s0.len());
        }
        self.lru_order = new_lru;
        if self.active >= self.titles.len() && self.active > 0 {
            self.active -= 1;
        }
        self.needs_redraw = true;
        assert(titles_view(self.titles@) =~= titles_view(t0).remove(idx as int));
        assert(badges_view(self.badges@) =~= badges_view(b0).remove(idx as int));
    }

    /// Activate tab `idx` and make it the most recently used (no change when
    /// it does not exist).
    pub fn set_active(&mut self, idx: usize)
        requires
            old(self).wf(),
        ensures
            final(self).wf(),
            final(self)@ == old(self)@.activated(idx),
    {
        if idx < self.titles.len() {
            self.active = idx;
            self.touch_lru(idx);
            self.needs_redraw = true;
        }
    }

    fn touch_lru(&mut self, idx: usize)
        requires
            old(self).wf(),
            idx < old(self)@.len(),
        ensures
            final(self).wf(),
            final(self)@ == (TabBarState {
                lru_order: seq![idx] + without(old(self)@.lru_order, idx),
                ..old(self)@
            }),
    {
        let rest = without_vec(&self.lru_order, idx);
        proof {
            lemma_without_below(self.lru_order@, idx, self@.len());
        }
        let mut lru: Vec<usize> = Vec::new();
        lru.push(idx);
        let mut i: usize = 0;
        while i < rest.len()
            invariant
                i <= rest.len(),
                lru@ == seq![idx] + rest@.take(i as int),
            decreases rest.len() - i,
        {
            lru.push(rest[i]);
            i += 1;
            assert(lru@ =~= seq![idx] + rest@.take(i as int));
        }
        assert(rest@.take(rest.len() as int) =~= rest@);
        self.lru_order = lru;
        assert(all_below(self.lru_order@, self@.len()));
    }

    pub fn active_index(&self) -> (i: usize)
        ensures
            i == self@.active,
    {
        self.active
    }

    pub fn tab_count(&self) -> (n: usize)
        ensures
            n == self@.len(),
    {
        self.titles.len()
    }

    pub fn titles(&self) -> (t: &[String])
        ensures
            titles_view(t@) == self@.titles,
    {
        self.titles.as_slice()
    }

    pub fn dirty_flags(&self) -> (d: &[bool])
        ensures
            d@ == self@.dirty,
    {
        self.dirty.as_slice()
    }

    pub fn badges(&self) -> (b: &[Option<String>])
        ensures
            badges_view(b@) == self@.badges,
    {
        self.badges.as_slice()
    }

    pub fn badge_styles(&self) -> (b: &[Option<Style>])
        ensures
            b@ == self@.badge_styles,
    {
        self.badge_styles.as_slice()
    }

    pub fn lru_order(&self) -> (l: &[usize])
        ensures
            l@ == self@.lru_order,
    {
        self.lru_order.as_slice()
    }

    pub fn mode(&self) -> (m: TabBarMode)
        ensures
            m == self@.mode,
    {
        self.mode
    }

    pub fn palette(&self) -> (p: &TabBarPalette)
        ensures
            *p == self@.palette,
    {
        &self.palette
    }

    pub fn fill(&self) -> (f: TabBarFill)
        ensures
            f == self@.fill,
    {
        self.fill
    }

    pub fn is_focused(&self) -> (b: bool)
        ensures
            b == self@.focused,
    {
        self.focused
    }

    pub fn set_scroll_offset(&mut self, offset: usize)
        ensures
            final(self)@ == (TabBarState { scroll_offset: offset, ..old(self)@ }),
    {
        self.scroll_offset = offset;
    }

    pub fn scroll_offset(&self) -> (o: usize)
        ensures
            o == self@.scroll_offset,
    {
        self.scroll_offset
    }

    /// Set the dirty flag of tab `idx` (no change when it does not exist).
    pub fn set_dirty(&mut self, idx: usize, is_dirty: bool)
        requires
            old(self).wf(),
        ensures
            final(self).wf(),
            idx >= old(self)@.len() ==> final(self)@ == old(self)@,
            idx < old(self)@.len() ==> final(self)@ == (TabBarState {
                dirty: old(self)@.dirty.update(idx as int, is_dirty),
                needs_redraw: true,
                ..old(self)@
            }),
    {
        if idx < self.dirty.len() {
            self.dirty.set(idx, is_dirty);
            self.needs_redraw = true;
        }
    }

    /// Set the title of tab `idx` (no change when it does not exist).
    pub fn set_title(&mut self, idx: usize, title: &str)
        requires
            old(self).wf(),
        ensures
            final(self).wf(),
            idx >= old(self)@.len() ==> final(self)@ == old(self)@,
            idx < old(self)@.len() ==> final(self)@ == (TabBarState {
                titles: old(self)@.titles.update(idx as int, title@),
                needs_redraw: true,
                ..old(self)@
            }),
    {
        if idx < self.titles.len() {
            let ghost t0 = self.titles@;
            self.titles.set(idx, String::from_str(title));
            self.needs_redraw = true;
            assert(titles_view(self.titles@) =~= titles_view(t0).update(idx as int, title@));
        }
    }

    /// Set the badge text of tab `idx`; `None` clears it.
    pub fn set_badge(&mut self, idx: usize, badge: Option<String>)
        requires
            old(self).wf(),
        ensures
            final(self).wf(),
            idx >= old(self)@.len() ==> final(self)@ == old(self)@,
            idx < old(self)@.len() ==> final(self)@ == (TabBarState {
                badges: old(self)@.badges.update(idx as int, opt_view(badge)),
                needs_redraw: true,
                ..old(self)@
            }),
    {
        if idx < self.badges.len() {
            let ghost b0 = self.badges@;
            let ghost bv = opt_view(badge);
            self.badges.set(idx, badge);
            self.needs_redraw = true;
            assert(badges_view(self.badges@) =~= badges_view(b0).update(idx as int, bv));
        }
    }

    /// Set badge text and badge style of tab `idx`; the bar is marked for
    /// redraw only when one of them changed.
    pub fn set_badge_styled(&mut self, idx: usize, badge: Option<String>, style: Option<Style>)
        requires
            old(self).wf(),
        ensures
            final(self).wf(),
            idx >= old(self)@.len() ==> final(self)@ == old(self)@,
            idx < old(self)@.len() ==> {
                let bv = opt_view(badge);
                let changed = old(self)@.badges[idx as int] != bv
                    || old(self)@.badge_styles[idx as int] != style;
                final(self)@ == (TabBarState {
                    badges: old(self)@.badges.update(idx as int, bv),
                    badge_styles: old(self)@.badge_styles.update(idx as int, style),
                    needs_redraw: old(self)@.needs_redraw || changed,
                    ..old(self)@
                })
            },
    {
        if idx >= self.badges.len() {
            return;
        }
        let ghost b0 = self.badges@;
        let ghost bv = opt_view(badge);
        let same_badge = match (&self.badges[idx], &badge) {
            (Some(a), Some(b)) => a.eq(b),
            (None, None) => true,
            _ => false,
        };
        let same_style = match (self.badge_styles[idx], style) {
            (Some(a), Some(b)) => a == b,
            (None, None) => true,
            _ => false,
        };
        assert(self@.badges[idx as int] == opt_view(self.badges@[idx as int]));
        assert(same_badge == (self@.badges[idx as int] == bv));
        self.badges.set(idx, badge);
        self.badge_styles.set(idx, style);
        if !same_badge || !same_style {
            self.needs_redraw = true;
        }
        assert(badges_view(self.badges@) =~= badges_view(b0).update(idx as int, bv));
    }

    /// Background of the active tab (the dropdown border matches it).
    pub fn active_tab_bg(&self) -> (c: Color)
        ensures
            c == (if self@.focused { self@.palette.active_focused.bg } else { self@.palette.active_unfocused.bg }),
    {
        if self.focused {
            self.palette.active_focused.bg
        } else {
            self.palette.active_unfocused.bg
        }
    }
}

impl TabBar {
    /// Tab indices in display order.
    pub fn display_order(&self) -> (order: Vec<usize>)
        requires
            self.wf(),
        ensures
            order@ == self@.display_order(),
    {
        match self.mode {
            TabBarMode::Single => {
                let mut v: Vec<usize> = Vec::new();
                v.push(self.active);
                assert(v@ =~= seq![self.active]);
                v
            },
            TabBarMode::Static => {
                let mut v: Vec<usize> = Vec::new();
                let n = self.titles.len();
                let mut i: usize = 0;
                while i < n
                    invariant
                        i <= n,
                        v@ =~= Seq::new(i as nat, |k: int| k as usize),
                    decreases n - i,
                {
                    v.push(i);
                    i += 1;
                }
                assert(n == self@.len());
                v
            },
            TabBarMode::Lru => {
                let rest = others_vec(&self.lru_order, self.active, self.titles.len());
                let mut v: Vec<usize> = Vec::new();
                v.push(self.active);
                let mut i: usize = 0;
                while i < rest.len()
                    invariant
                        i <= rest.len(),
                        v@ == seq![self.active] + rest@.take(i as int),
                    decreases rest.len() - i,
                {
                    v.push(rest[i]);
                    i += 1;
                    assert(v@ =~= seq![self.active] + rest@.take(i as int));
                }
                assert(rest@.take(rest.len() as int) =~= rest@);
                v
            },
        }
    }

    /// The subscript number shown on tab `tab_idx` at `display_pos`.
    pub fn number_label(&self, display_pos: usize, tab_idx: usize) -> (c: Option<char>)
        ensures
            c == (match self@.number_label(display_pos as nat, tab_idx) {
                Some(n) => Some(subscript(n)),
                None => None,
            }),
            c is Some ==> self@.number_label(display_pos as nat, tab_idx).unwrap() <= 9,
    {
        match self.mode {
            TabBarMode::Single => None,
            TabBarMode::Static => {
                if display_pos < 9 {
                    Some(subscript_digit(display_pos + 1))
                } else {
                    None
                }
            },
            TabBarMode::Lru => {
                if tab_idx == self.active {
                    None
                } else if display_pos > 0 && display_pos <= 9 {
                    Some(subscript_digit(display_pos))
                } else {
                    None
                }
            },
        }
    }

    /// Style for the tab `tab_idx` drawn at `display_pos`: the active
    /// style, or an inactive style graded by distance from the active tab.
    pub fn tab_style(&self, display_pos: usize, tab_idx: usize) -> (ts: TabStyle)
        ensures
            ts == self@.tab_style(display_pos as nat, tab_idx),
    {
        if tab_idx == self.active {
            if self.focused {
                self.palette.active_focused
            } else {
                self.palette.active_unfocused
            }
        } else {
            let active_pos: usize = match self.mode {
                TabBarMode::Lru => 0,
                _ => self.active,
            };
            let distance = if display_pos >= active_pos {
                display_pos - active_pos
            } else {
                active_pos - display_pos
            };
            let d1 = if distance >= 1 { distance - 1 } else { 0 };
            let slot = if d1 < 9 { d1 } else { 9 };
            self.palette.inactive[slot]
        }
    }

    /// Whether number `n` would activate a tab.
    pub fn can_activate_number(&self, n: usize) -> (b: bool)
        requires
            self.wf(),
        ensures
            b == self@.number_target(n as nat) is Some,
    {
        match self.mode {
            TabBarMode::Single | TabBarMode::Static => {
                let idx = if n >= 1 { n - 1 } else { 0 };
                idx < self.titles.len()
            },
            TabBarMode::Lru => {
                let rest = others_vec(&self.lru_order, self.active, self.titles.len());
                n >= 1 && n <= rest.len()
            },
        }
    }

    /// Activate a tab by its number (1-based). Static and Single: number n
    /// is tab n - 1. Lru: number n is the n-th most recent other tab.
    pub fn activate_by_number(&mut self, n: usize)
        requires
            old(self).wf(),
        ensures
            final(self).wf(),
            final(self)@ == (match old(self)@.number_target(n as nat) {
                Some(t) => old(self)@.activated(t),
                None => old(self)@,
            }),
    {
        match self.mode {
            TabBarMode::Single | TabBarMode::Static => {
                let idx = if n >= 1 { n - 1 } else { 0 };
                if idx < self.titles.len() {
                    self.set_active(idx);
                }
            },
            TabBarMode::Lru => self.activate_lru_number(n),
        }
    }

    fn activate_lru_number(&mut self, n: usize)
        requires
            old(self).wf(),
            old(self)@.mode == TabBarMode::Lru,
        ensures
            final(self).wf(),
            final(self)@ == (match old(self)@.number_target(n as nat) {
                Some(t) => old(self)@.activated(t),
                None => old(self)@,
            }),
    {
        let rest = others_vec(&self.lru_order, self.active, self.titles.len());
        proof {
            lemma_others_below(self@.lru_order, self@.active, self@.len());
        }
        if n >= 1 && n <= rest.len() {
            let target = rest[n - 1];
            self.set_active(target);
        }
    }

    /// Alt-digit handling: Alt (without Ctrl or Shift) with digit n >= 1
    /// activates the tab numbered n. The key is consumed only when the
    /// active tab changed; nothing happens while key handling is off.
    pub fn handle_key(&mut self, key: &KeyEvent) -> (r: HandleResult)
        requires
            old(self).wf(),
        ensures
            final(self).wf(),
            ({
                let s = old(self)@;
                let m = key.modifiers;
                let digit = match key.code {
                    KeyCode::Char(c) => spec_digit(c),
                    _ => None,
                };
                if s.handle_keys && m.alt && !m.ctrl && !m.shift && digit is Some
                    && digit.unwrap() >= 1 && s.number_target(digit.unwrap() as nat) is Some {
                    let t = s.number_target(digit.unwrap() as nat).unwrap();
                    &&& final(self)@ == s.activated(t)
                    &&& r == (if t != s.active { HandleResult::Consumed } else { HandleResult::Ignored })
                } else {
                    &&& final(self)@ == s
                    &&& r == HandleResult::Ignored
                }
            }),
    {
        if !self.handle_keys {
            return HandleResult::Ignored;
        }
        let m = key.modifiers;
        if !m.alt || m.ctrl || m.shift {
            return HandleResult::Ignored;
        }
        let c = match key.code {
            KeyCode::Char(c) => c,
            _ => { return HandleResult::Ignored; },
        };
        let n = match char_digit(c) {
            Some(n) => n,
            None => { return HandleResult::Ignored; },
        };
        proof {
            lemma_others_below(self@.lru_order, self@.active, self@.len());
        }
        if n >= 1 && self.can_activate_number(n) {
            let prev = self.active;
            self.activate_by_number(n);
            if self.active != prev {
                return HandleResult::Consumed;
            }
        }
        HandleResult::Ignored
    }
}

/// Every number a tab shows activates that very tab: when the tab at
/// display position `p` carries number `k`, Alt-`k` selects it.
pub proof fn law_number_label_activates_its_tab(bar: TabBarState, p: nat)
    requires
        bar.inv(),
        p < bar.display_order().len(),
        bar.number_label(p, bar.display_order()[p as int]) is Some,
    ensures
        bar.number_target(bar.number_label(p, bar.display_order()[p as int]).unwrap())
            == Some(bar.display_order()[p as int]),
{
    lemma_others_below(bar.lru_order, bar.active, bar.len());
    match bar.mode {
        TabBarMode::Single => {},
        TabBarMode::Static => {},
        TabBarMode::Lru => {
            assert(p >= 1);
            assert(bar.display_order()[p as int] == bar.lru_others()[p - 1]);
        },
    }
}

/// In Lru mode the active tab is shown first and carries no number.
pub proof fn law_lru_active_first_unnumbered(bar: TabBarState)
    requires
        bar.inv(),
        bar.mode == TabBarMode::Lru,
    ensures
        bar.display_order()[0] == bar.active,
        bar.number_label(0, bar.display_order()[0]) is None,
{
}

/// In Lru mode, after switching from tab `a` to tab `b`, number 1
/// switches back to `a`.
pub proof fn law_lru_number_one_returns(bar: TabBarState, a: usize, b: usize)
    requires
        bar.inv(),
        bar.mode == TabBarMode::Lru,
        a < bar.len(),
        b < bar.len(),
        a != b,
    ensures
        bar.activated(a).activated(b).number_target(1) == Some(a),
{
    let s1 = bar.activated(a);
    let s2 = s1.activated(b);
    let rest = without(bar.lru_order, a);
    lemma_without_prepend(a, rest, b);
    lemma_without_prepend(b, seq![a] + without(rest, b), b);
    assert(s2.lru_order == seq![b] + (seq![a] + without(rest, b)));
    lemma_others_prepend(b, seq![a] + without(rest, b), b, bar.len());
    lemma_others_prepend(a, without(rest, b), b, bar.len());
    assert(s2.lru_others() == seq![a] + others(without(rest, b), b, bar.len()));
}

/// Activating a tab twice is the same as activating it once.
pub proof fn law_activate_idempotent(bar: TabBarState, i: usize)
    requires
        bar.inv(),
    ensures
        bar.activated(i).activated(i) == bar.activated(i),
{
    if i < bar.len() {
        lemma_without_prepend(i, without(bar.lru_order, i), i);
        lemma_without_twice(bar.lru_order, i);
    }
}


/// In a bar whose recency list names every tab exactly once, inserting a
/// tab keeps it so: the list still names every tab, the new one included,
/// exactly once.
pub proof fn law_insert_keeps_recency_complete(bar: TabBarState, pos: usize)
    requires
        bar.inv(),
        is_index_perm(bar.lru_order, bar.len()),
        pos <= bar.len(),
        bar.len() < usize::MAX,
    ensures
        is_index_perm(shift_up(bar.lru_order, pos).push(pos), bar.len() + 1),
{
    lemma_shift_up_perm(bar.lru_order, bar.len(), pos);
}


/// Removing a tab keeps the active index while it still names a tab after
/// the removal; when the active tab was the last one it steps back to the
/// new last tab. Either way the active index names a tab when any remain.
pub proof fn law_remove_keeps_active_index(bar: TabBarState, idx: usize)
    requires
        bar.inv(),
        idx < bar.len(),
    ensures
        bar.active + 1 < bar.len() ==> bar.removed(idx).active == bar.active,
        bar.len() >= 2 && bar.active + 1 == bar.len() ==> bar.removed(idx).active == bar.len() - 2,
        bar.removed(idx).len() == bar.len() - 1,
        bar.removed(idx).len() > 0 ==> bar.removed(idx).active < bar.removed(idx).len(),
{
}

} // verus!
