//! TabPanel: a tab bar on the top row and a stack of tab contents below,
//! one shown at a time, with an optional dropdown listing the tabs.
//!
//! The panel's children are the bar (child 0), the tab contents
//! (children 1..=n) and, while it is open, the dropdown (last child).
//! This module holds the panel's state and decisions; the child views
//! themselves are kept alongside, index for index.

use vstd::prelude::*;

use crate::geometry::Rect;
use crate::keys::{char_digit, spec_digit, HandleResult, KeyCode, KeyEvent};
use crate::tab_bar::{titles_view, TabBar, TabBarMode, TabBarState};
use crate::seqs::shift_up;
use crate::text::{chars_of, decimal, find_char, push_char, push_decimal, push_str, spec_find, spec_starts_with, starts_with, str_eq, string_from_range};

verus! {

/// How a dropdown numbers its entries.
#[derive(Clone, Copy, Debug, PartialEq, Eq, Structural)]
pub enum NumberMode {
    /// Every entry is numbered.
    All,
    /// The first entry (the active tab) is not numbered.
    SkipFirst,
}

/// A tabbed panel's state.
pub struct TabPanel {
    bar: TabBar,
    bounds: Rect,
    dropdown_active: bool,
    /// Maps dropdown display index to tab index (empty: the identity).
    dropdown_order: Vec<usize>,
}

/// A tabbed panel's state as mathematical values.
pub struct TabPanelState {
    pub bar: TabBarState,
    pub bounds: Rect,
    pub dropdown_active: bool,
    pub dropdown_order: Seq<usize>,
}

impl TabPanelState {
    /// A new panel in tab mode `mode`: a new bar, no bounds yet, the
    /// dropdown closed.
    pub open spec fn initial(mode: TabBarMode) -> TabPanelState {
        TabPanelState {
            bar: TabBarState::initial(mode),
            bounds: Rect { x: 0, y: 0, w: 0, h: 0 },
            dropdown_active: false,
            dropdown_order: Seq::empty(),
        }
    }

    /// Number of children: bar, contents, and the dropdown when open.
    pub open spec fn child_count(self) -> nat {
        1 + self.bar.len() + if self.dropdown_active { 1nat } else { 0nat }
    }

    /// The state after `set_active(idx)`: the bar activates `idx` when the
    /// child behind it exists.
    pub open spec fn after_set_active(self, idx: usize) -> TabPanelState {
        if idx + 1 >= self.child_count() {
            self
        } else {
            TabPanelState { bar: self.bar.activated(idx), ..self }
        }
    }

    /// The content area: everything below the bar's row.
    pub open spec fn content_rect(self) -> Rect {
        let b = self.bounds;
        if b.h <= 1 {
            Rect { x: b.x, y: b.y, w: b.w, h: 0 }
        } else {
            Rect { x: b.x, y: (b.y + 1) as u16, w: b.w, h: (b.h - 1) as u16 }
        }
    }
}

impl View for TabPanel {
    type V = TabPanelState;

    closed spec fn view(&self) -> TabPanelState {
        TabPanelState {
            bar: self.bar@,
            bounds: self.bounds,
            dropdown_active: self.dropdown_active,
            dropdown_order: self.dropdown_order@,
        }
    }
}

/// Index of the first title equal to `t`, if any.
pub open spec fn title_index(titles: Seq<Seq<char>>, t: Seq<char>) -> Option<nat>
    decreases titles.len(),
{
    if titles.len() == 0 {
        None
    } else if titles.last() == t && title_index(titles.drop_last(), t) is None {
        Some((titles.len() - 1) as nat)
    } else {
        title_index(titles.drop_last(), t)
    }
}

/// Number of titles that start with `prefix`.
pub open spec fn count_prefixed(titles: Seq<Seq<char>>, prefix: Seq<char>) -> nat
    decreases titles.len(),
{
    if titles.len() == 0 {
        0
    } else {
        count_prefixed(titles.drop_last(), prefix)
            + if spec_starts_with(titles.last(), prefix) { 1nat } else { 0nat }
    }
}

/// A title with its part after the first `:` replaced by `user`; a title
/// without a colon becomes `user`.
pub open spec fn renamed_user_part(title: Seq<char>, user: Seq<char>) -> Seq<char> {
    match spec_find(title, ':') {
        Some(c) => title.take(c as int).push(':') + user,
        None => user,
    }
}

/// Position of the first title equal to `t`.
pub fn find_title(titles: &[String], t: &str) -> (r: Option<usize>)
    ensures
        r matches Some(i) ==> title_index(titles_view(titles@), t@) == Some(i as nat),
        r is None ==> title_index(titles_view(titles@), t@) is None,
{
    let ghost tv = titles_view(titles@);
    let mut i: usize = 0;
    while i < titles.len()
        invariant
            i <= titles.len(),
            tv == titles_view(titles@),
            title_index(tv.take(i as int), t@) is None,
        decreases titles.len() - i,
    {
        proof {
            assert(tv.take(i + 1).drop_last() =~= tv.take(i as int));
            assert(tv.take(i + 1).last() == titles@[i as int]@);
        }
        if str_eq(titles[i].as_str(), t) {
            proof {
                lemma_title_index_extend(tv, t@, (i + 1) as nat);
            }
            return Some(i);
        }
        i += 1;
    }
    assert(tv.take(i as int) =~= tv);
    None
}

/// Once a prefix of the titles holds `t`, the first match stays there.
proof fn lemma_title_index_extend(tv: Seq<Seq<char>>, t: Seq<char>, k: nat)
    requires
        k <= tv.len(),
        title_index(tv.take(k as int), t) is Some,
    ensures
        title_index(tv, t) == title_index(tv.take(k as int), t),
    decreases tv.len() - k,
{
    if k < tv.len() {
        assert(tv.take(k + 1int).drop_last() =~= tv.take(k as int));
        lemma_title_index_extend(tv, t, k + 1);
    } else {
        assert(tv.take(k as int) =~= tv);
    }
}

impl TabPanel {
    pub open spec fn wf(&self) -> bool {
        self@.bar.inv()
    }

    pub fn new(mode: TabBarMode) -> (p: TabPanel)
        ensures
            p.wf(),
            p@ == TabPanelState::initial(mode),
    {
        let p = TabPanel { bar: TabBar::new(mode), bounds: Rect::zero(), dropdown_active: false, dropdown_order: Vec::new() };
        assert(p@.dropdown_order =~= Seq::<usize>::empty());
        p
    }

    pub fn bar(&self) -> (b: &TabBar)
        ensures
            b@ == self@.bar,
    {
        &self.bar
    }

    pub fn bar_mut(&mut self) -> (b: &mut TabBar)
        ensures
            b@ == old(self)@.bar,
            final(self)@ == (TabPanelState { bar: final(b)@, ..old(self)@ }),
    {
        &mut self.bar
    }

    pub fn bounds(&self) -> (r: Rect)
        ensures
            r == self@.bounds,
    {
        self.bounds
    }

    pub fn set_bounds(&mut self, r: Rect)
        ensures
            final(self)@ == (TabPanelState { bounds: r, ..old(self)@ }),
    {
        self.bounds = r;
    }

    /// Number of tabs.
    pub fn tab_count(&self) -> (n: usize)
        ensures
            n == self@.bar.len(),
    {
        self.bar.tab_count()
    }

    pub fn active_index(&self) -> (i: usize)
        ensures
            i == self@.bar.active,
    {
        self.bar.active_index()
    }

    /// Set the active tab; nothing happens when child `idx + 1` does not exist.
    pub fn set_active(&mut self, idx: usize)
        requires
            old(self).wf(),
        ensures
            final(self).wf(),
            final(self)@ == old(self)@.after_set_active(idx),
    {
        let n = self.bar.tab_count();
        let exists = if self.dropdown_active { idx <= n } else { idx < n };
        if !exists {
            return;
        }
        self.bar.set_active(idx);
    }

    /// Append a tab with a title and activate it.
    pub fn insert_tab(&mut self, title: &str)
        requires
            old(self).wf(),
        ensures
            final(self).wf(),
            ({
                let added = TabPanelState {
                    bar: TabBarState {
                        titles: old(self)@.bar.titles.push(title@),
                        dirty: old(self)@.bar.dirty.push(false),
                        badges: old(self)@.bar.badges.push(None),
                        badge_styles: old(self)@.bar.badge_styles.push(None),
                        lru_order: old(self)@.bar.lru_order.push(old(self)@.bar.len() as usize),
                        needs_redraw: true,
                        ..old(self)@.bar
                    },
                    ..old(self)@
                };
                let new_idx = (old(self)@.bar.len() + if old(self)@.dropdown_active { 1nat } else { 0nat }) as usize;
                final(self)@ == added.after_set_active(new_idx)
            }),
    {
        self.bar.add_tab(title);
        let n = self.bar.tab_count();
        let new_idx = n - 1 + if self.dropdown_active { 1 } else { 0 };
        self.set_active(new_idx);
    }

    /// Insert a tab at position `idx` (clamped to the tab count) without
    /// activating it. Returns the position used.
    pub fn insert_tab_at(&mut self, idx: usize, title: &str) -> (pos: usize)
        requires
            old(self).wf(),
        ensures
            final(self).wf(),
            pos == (if idx < old(self)@.bar.len() { idx } else { old(self)@.bar.len() as usize }),
            final(self)@ == (TabPanelState {
                bar: TabBarState {
                    titles: old(self)@.bar.titles.insert(pos as int, title@),
                    dirty: old(self)@.bar.dirty.insert(pos as int, false),
                    badges: old(self)@.bar.badges.insert(pos as int, None),
                    badge_styles: old(self)@.bar.badge_styles.insert(pos as int, None),
                    lru_order: shift_up(old(self)@.bar.lru_order, pos).push(pos),
                    needs_redraw: true,
                    ..old(self)@.bar
                },
                ..old(self)@
            }),
    {
        let n = self.bar.tab_count();
        let pos = if idx < n { idx } else { n };
        self.bar.insert_tab(pos, title);
        pos
    }

    /// Remove tab `idx`. Returns the index of the child that goes, or
    /// `None` when there is no child `idx + 1`. With the dropdown open,
    /// `idx` equal to the tab count names the dropdown's child.
    pub fn remove_tab(&mut self, idx: usize) -> (gone: Option<usize>)
        requires
            old(self).wf(),
            idx < usize::MAX,
        ensures
            final(self).wf(),
            idx + 1 >= old(self)@.child_count() ==> gone is None && final(self)@ == old(self)@,
            idx + 1 < old(self)@.child_count() ==> gone == Some((idx + 1) as usize),
            idx < old(self)@.bar.len() ==> final(self)@ == (TabPanelState { bar: old(self)@.bar.removed(idx), ..old(self)@ }),
            idx >= old(self)@.bar.len() ==> final(self)@ == old(self)@,
    {
        let n = self.bar.tab_count();
        let exists = if self.dropdown_active { idx <= n } else { idx < n };
        if !exists {
            return None;
        }
        self.bar.remove_tab(idx);
        Some(idx + 1)
    }

    /// Take the active tab out: its title, or `None` without tabs.
    pub fn take_active(&mut self) -> (r: Option<String>)
        requires
            old(self).wf(),
        ensures
            final(self).wf(),
            old(self)@.bar.active >= old(self)@.bar.len() ==> r is None && final(self)@ == old(self)@,
            old(self)@.bar.active < old(self)@.bar.len() ==> {
                &&& r matches Some(t) && t@ == old(self)@.bar.titles[old(self)@.bar.active as int]
                &&& final(self)@ == (TabPanelState { bar: old(self)@.bar.removed(old(self)@.bar.active), ..old(self)@ })
            },
    {
        let idx = self.bar.active_index();
        if idx >= self.tab_count() {
            return None;
        }
        let title = self.bar.titles()[idx].clone();
        self.bar.remove_tab(idx);
        Some(title)
    }

    /// Close the active tab; `None` without tabs.
    pub fn close_active(&mut self) -> (gone: Option<usize>)
        requires
            old(self).wf(),
        ensures
            final(self).wf(),
            old(self)@.bar.len() == 0 ==> gone is None && final(self)@ == old(self)@,
            old(self)@.bar.len() > 0 ==> gone == Some((old(self)@.bar.active + 1) as usize)
                && final(self)@ == (TabPanelState { bar: old(self)@.bar.removed(old(self)@.bar.active), ..old(self)@ }),
    {
        if self.tab_count() == 0 {
            return None;
        }
        let a = self.bar.active_index();
        self.remove_tab(a)
    }

    /// Index of the least recently used tab.
    pub fn lru_index(&self) -> (r: Option<usize>)
        ensures
            self@.bar.lru_order.len() == 0 ==> r is None,
            self@.bar.lru_order.len() > 0 ==> r == Some(self@.bar.lru_order.last()),
    {
        let l = self.bar.lru_order();
        if l.len() == 0 {
            None
        } else {
            Some(l[l.len() - 1])
        }
    }

    /// Cycle to the next tab (wrapping); needs at least two tabs.
    pub fn tab_next(&mut self)
        requires
            old(self).wf(),
        ensures
            final(self).wf(),
            final(self)@ == old(self)@.after_tab_next(),
    {
        let n = self.tab_count();
        if n > 1 {
            let next = (self.bar.active_index() + 1) % n;
            self.set_active(next);
        }
    }

    /// Cycle to the previous tab (wrapping); needs at least two tabs.
    pub fn tab_prev(&mut self)
        requires
            old(self).wf(),
        ensures
            final(self).wf(),
            final(self)@ == old(self)@.after_tab_prev(),
    {
        let n = self.tab_count();
        if n > 1 {
            let a = self.bar.active_index();
            let prev = if a == 0 { n - 1 } else { a - 1 };
            self.set_active(prev);
        }
    }

    /// Activate the tab carrying number `label_pos` (₁ = 1, ₂ = 2, ...).
    pub fn activate_by_label(&mut self, label_pos: usize)
        requires
            old(self).wf(),
        ensures
            final(self).wf(),
            final(self)@ == old(self)@.after_activate_number(label_pos as nat),
    {
        self.bar.activate_by_number(label_pos);
    }

    /// Activate a tab by Alt-digit number.
    pub fn activate_by_number(&mut self, n: usize)
        requires
            old(self).wf(),
        ensures
            final(self).wf(),
            final(self)@ == old(self)@.after_activate_number(n as nat),
    {
        self.bar.activate_by_number(n);
    }

    pub fn set_dirty(&mut self, idx: usize, dirty: bool)
        requires
            old(self).wf(),
        ensures
            final(self).wf(),
            final(self)@.bar == (if idx < old(self)@.bar.len() {
                TabBarState { dirty: old(self)@.bar.dirty.update(idx as int, dirty), needs_redraw: true, ..old(self)@.bar }
            } else {
                old(self)@.bar
            }),
            final(self)@ == (TabPanelState { bar: final(self)@.bar, ..old(self)@ }),
    {
        self.bar.set_dirty(idx, dirty);
    }

    pub fn set_title(&mut self, idx: usize, title: &str)
        requires
            old(self).wf(),
        ensures
            final(self).wf(),
            final(self)@.bar == (if idx < old(self)@.bar.len() {
                TabBarState { titles: old(self)@.bar.titles.update(idx as int, title@), needs_redraw: true, ..old(self)@.bar }
            } else {
                old(self)@.bar
            }),
            final(self)@ == (TabPanelState { bar: final(self)@.bar, ..old(self)@ }),
    {
        self.bar.set_title(idx, title);
    }

    pub fn set_focused(&mut self, focused: bool)
        requires
            old(self).wf(),
        ensures
            final(self).wf(),
            final(self)@ == (TabPanelState {
                bar: TabBarState { focused: focused, needs_redraw: true, ..old(self)@.bar },
                ..old(self)@
            }),
    {
        self.bar.set_focused(focused);
    }

    /// Title of tab `idx`.
    pub fn tab_title(&self, idx: usize) -> (t: Option<&str>)
        requires
            self.wf(),
        ensures
            idx < self@.bar.len() ==> (t matches Some(s) && s@ == self@.bar.titles[idx as int]),
            idx >= self@.bar.len() ==> t is None,
    {
        let titles = self.bar.titles();
        if idx < titles.len() {
            Some(titles[idx].as_str())
        } else {
            None
        }
    }

    /// Title of the active tab.
    pub fn active_title(&self) -> (t: Option<&str>)
        requires
            self.wf(),
        ensures
            self@.bar.len() > 0 ==> (t matches Some(s) && s@ == self@.bar.titles[self@.bar.active as int]),
            self@.bar.len() == 0 ==> t is None,
    {
        self.tab_title(self.bar.active_index())
    }

    /// The content area below the bar.
    pub fn content_rect(&self) -> (r: Rect)
        requires
            self@.bounds.h <= 1 || self@.bounds.y < u16::MAX,
        ensures
            r == self@.content_rect(),
    {
        let b = self.bounds;
        if b.h <= 1 {
            Rect::new(b.x, b.y, b.w, 0)
        } else {
            Rect::new(b.x, b.y + 1, b.w, b.h - 1)
        }
    }

    /// Whether the dropdown is open.
    pub fn dropdown_open(&self) -> (b: bool)
        ensures
            b == self@.dropdown_active,
    {
        self.dropdown_active
    }

    /// Position of the first tab titled `title`.
    pub fn find_tab_by_title(&self, title: &str) -> (r: Option<usize>)
        requires
            self.wf(),
        ensures
            r matches Some(i) ==> title_index(self@.bar.titles, title@) == Some(i as nat),
            r is None ==> title_index(self@.bar.titles, title@) is None,
    {
        find_title(self.bar.titles(), title)
    }
}

/// The longest title length, or `default` without titles.
pub open spec fn max_len(ts: Seq<Seq<char>>, default: nat) -> nat
    decreases ts.len(),
{
    if ts.len() == 0 {
        default
    } else {
        let m = max_len(ts.drop_last(), default);
        if ts.len() == 1 {
            ts.last().len()
        } else if ts.last().len() > m {
            ts.last().len()
        } else {
            m
        }
    }
}

/// The longest badge length (0 without badges).
pub open spec fn max_badge_len(bs: Seq<Option<Seq<char>>>) -> nat
    decreases bs.len(),
{
    if bs.len() == 0 {
        0
    } else {
        let m = max_badge_len(bs.drop_last());
        match bs.last() {
            Some(b) => if b.len() > m { b.len() } else { m },
            None => m,
        }
    }
}

/// Some flag is set.
pub open spec fn any_set(ds: Seq<bool>) -> bool {
    exists|i: int| 0 <= i < ds.len() && ds[i]
}

/// Some badge is present.
pub open spec fn any_badge(bs: Seq<Option<Seq<char>>>) -> bool {
    exists|i: int| 0 <= i < bs.len() && bs[i] is Some
}

/// A count as a `u16` (`as u16`: wraps modulo 2^16).
pub open spec fn wrap16(n: nat) -> nat {
    n % 65536
}

pub open spec fn min_nat(a: nat, b: nat) -> nat {
    if a <= b { a } else { b }
}

/// Rectangles of the panel's children after a layout pass.
pub struct PanelLayout {
    /// The bar's row.
    pub bar: Rect,
    /// Bounds and visibility of each tab's content.
    pub contents: Vec<(Rect, bool)>,
    /// The dropdown's bounds while it is open.
    pub dropdown: Option<Rect>,
}

impl TabPanelState {
    /// Width of the dropdown box: border, number digit, longest title and
    /// room for a badge or dirty mark.
    pub open spec fn dropdown_width(self) -> nat {
        let max_title = max_len(self.bar.titles, 4);
        let max_badge = max_badge_len(self.bar.badges);
        let badge_w: nat = if max_badge > 0 || any_set(self.bar.dirty) {
            (if max_badge >= 1 { max_badge } else { 1 }) + 1
        } else {
            0
        };
        wrap16(max_title + 3 + badge_w) + 2
    }

    /// Width given to a newly opened dropdown (before clamping).
    pub open spec fn open_dropdown_width(self) -> nat {
        let max_title = max_len(self.bar.titles, 4);
        let has_badge = any_set(self.bar.dirty) || any_badge(self.bar.badges);
        wrap16(max_title + 3 + if has_badge { 2nat } else { 0nat }) + 2
    }

    /// The dropdown's box fits the coordinate range: one column in from
    /// the content area and one row per tab plus a border.
    pub open spec fn open_fits(self) -> bool {
        &&& (self.bounds.h <= 1 || self.bounds.y < u16::MAX)
        &&& self.content_rect().x < u16::MAX
        &&& self.open_dropdown_width() <= u16::MAX
        &&& wrap16(self.bar.len()) + 1 <= u16::MAX
    }

    /// A layout pass keeps every coordinate in range: the content area
    /// starts below the bar, and an open dropdown's box fits.
    pub open spec fn layout_fits(self) -> bool {
        &&& (self.bounds.h <= 1 || self.bounds.y < u16::MAX)
        &&& (self.dropdown_active ==> self.content_rect().x < u16::MAX)
        &&& (self.dropdown_active ==> self.dropdown_width() <= u16::MAX)
        &&& (self.dropdown_active ==> wrap16(self.bar.len()) + 1 <= u16::MAX)
    }

    /// Bounds of a newly opened dropdown.
    pub open spec fn opened_rect(self) -> Rect {
        let cr = self.content_rect();
        Rect {
            x: (cr.x + 1) as u16,
            y: cr.y,
            w: min_nat(self.open_dropdown_width(), cr.w as nat) as u16,
            h: min_nat(wrap16(self.bar.len()) + 1, cr.h as nat) as u16,
        }
    }

    /// The dropdown open, keys taken from the bar.
    pub open spec fn with_dropdown(self) -> TabPanelState {
        TabPanelState { bar: TabBarState { handle_keys: false, ..self.bar }, dropdown_active: true, ..self }
    }

    /// The dropdown closed, keys given back to the bar.
    pub open spec fn without_dropdown(self) -> TabPanelState {
        TabPanelState { bar: TabBarState { handle_keys: true, ..self.bar }, dropdown_active: false, ..self }
    }

    /// The state after `close_dropdown`.
    pub open spec fn after_close_dropdown(self) -> TabPanelState {
        if self.dropdown_active { self.without_dropdown() } else { self }
    }

    /// The state after `tab_next`.
    pub open spec fn after_tab_next(self) -> TabPanelState {
        if self.bar.len() <= 1 {
            self
        } else {
            self.after_set_active(((self.bar.active + 1) % (self.bar.len() as int)) as usize)
        }
    }

    /// The state after `tab_prev`.
    pub open spec fn after_tab_prev(self) -> TabPanelState {
        if self.bar.len() <= 1 {
            self
        } else {
            self.after_set_active(
                if self.bar.active == 0 { (self.bar.len() - 1) as usize } else { (self.bar.active - 1) as usize },
            )
        }
    }

    /// The state after activating the tab numbered `n`.
    pub open spec fn after_activate_number(self, n: nat) -> TabPanelState {
        TabPanelState {
            bar: match self.bar.number_target(n) {
                Some(t) => self.bar.activated(t),
                None => self.bar,
            },
            ..self
        }
    }
}

fn max_title_len(ts: &[String]) -> (m: usize)
    ensures
        m == max_len(titles_view(ts@), 4),
{
    let ghost tv = titles_view(ts@);
    let mut m: usize = 4;
    let mut i: usize = 0;
    while i < ts.len()
        invariant
            i <= ts.len(),
            tv == titles_view(ts@),
            m == max_len(tv.take(i as int), 4),
        decreases ts.len() - i,
    {
        proof {
            assert(tv.take(i + 1).drop_last() =~= tv.take(i as int));
        }
        let l = ts[i].as_str().unicode_len();
        if i == 0 || l > m {
            m = l;
        }
        i += 1;
    }
    assert(tv.take(ts.len() as int) =~= tv);
    m
}

fn max_badge(bs: &[Option<String>]) -> (m: usize)
    ensures
        m == max_badge_len(crate::tab_bar::badges_view(bs@)),
{
    let ghost bv = crate::tab_bar::badges_view(bs@);
    let mut m: usize = 0;
    let mut i: usize = 0;
    while i < bs.len()
        invariant
            i <= bs.len(),
            bv == crate::tab_bar::badges_view(bs@),
            m == max_badge_len(bv.take(i as int)),
        decreases bs.len() - i,
    {
        proof {
            assert(bv.take(i + 1).drop_last() =~= bv.take(i as int));
        }
        match &bs[i] {
            Some(b) => {
                let l = b.as_str().unicode_len();
                if l > m {
                    m = l;
                }
            },
            None => {},
        }
        i += 1;
    }
    assert(bv.take(bs.len() as int) =~= bv);
    m
}

fn any_true(ds: &[bool]) -> (r: bool)
    ensures
        r == any_set(ds@),
{
    let mut i: usize = 0;
    while i < ds.len()
        invariant
            i <= ds.len(),
            forall|k: int| 0 <= k < i ==> !ds@[k],
        decreases ds.len() - i,
    {
        if ds[i] {
            return true;
        }
        i += 1;
    }
    false
}

fn any_some(bs: &[Option<String>]) -> (r: bool)
    ensures
        r == any_badge(crate::tab_bar::badges_view(bs@)),
{
    let ghost bv = crate::tab_bar::badges_view(bs@);
    let mut i: usize = 0;
    while i < bs.len()
        invariant
            i <= bs.len(),
            bv == crate::tab_bar::badges_view(bs@),
            forall|k: int| 0 <= k < i ==> bv[k] is None,
        decreases bs.len() - i,
    {
        if bs[i].is_some() {
            assert(bv[i as int] is Some);
            return true;
        }
        i += 1;
    }
    false
}

impl TabPanel {
    /// Close the first tab titled `title`; false when there is none.
    pub fn close_tab_by_title(&mut self, title: &str) -> (closed: bool)
        requires
            old(self).wf(),
        ensures
            final(self).wf(),
            closed == title_index(old(self)@.bar.titles, title@) is Some,
            !closed ==> final(self)@ == old(self)@,
            closed ==> final(self)@ == (TabPanelState {
                bar: old(self)@.bar.removed(title_index(old(self)@.bar.titles, title@).unwrap() as usize),
                ..old(self)@
            }),
    {
        match self.find_tab_by_title(title) {
            Some(idx) => {
                proof {
                    lemma_title_index_props(self@.bar.titles, title@);
                }
                let n = self.tab_count();
                assert(idx < n);
                self.remove_tab(idx);
                true
            },
            None => false,
        }
    }

    /// Activate the first tab titled `title`; false when there is none.
    pub fn focus_tab_by_title(&mut self, title: &str) -> (found: bool)
        requires
            old(self).wf(),
        ensures
            final(self).wf(),
            found == title_index(old(self)@.bar.titles, title@) is Some,
            !found ==> final(self)@ == old(self)@,
            found ==> final(self)@ == old(self)@.after_set_active(
                title_index(old(self)@.bar.titles, title@).unwrap() as usize),
    {
        match self.find_tab_by_title(title) {
            Some(idx) => {
                self.set_active(idx);
                true
            },
            None => false,
        }
    }

    /// `prefix:N`, where N is how many titles start with `prefix`.
    pub fn next_tab_name(&self, prefix: &str) -> (name: String)
        requires
            self.wf(),
        ensures
            name@ == prefix@.push(':') + decimal(count_prefixed(self@.bar.titles, prefix@)),
    {
        let titles = self.bar.titles();
        let ghost tv = titles_view(titles@);
        let mut count: usize = 0;
        let mut i: usize = 0;
        while i < titles.len()
            invariant
                i <= titles.len(),
                tv == titles_view(titles@),
                count == count_prefixed(tv.take(i as int), prefix@),
                count <= i,
            decreases titles.len() - i,
        {
            proof {
                assert(tv.take(i + 1).drop_last() =~= tv.take(i as int));
            }
            if starts_with(titles[i].as_str(), prefix) {
                count += 1;
            }
            i += 1;
        }
        assert(tv.take(titles.len() as int) =~= tv);
        let mut name = String::from_str(prefix);
        push_char(&mut name, ':');
        push_decimal(&mut name, count);
        name
    }

    /// Rename the active tab's user part: the text after its first `:`
    /// (the whole title when it has no colon).
    pub fn rename_user_part(&mut self, new_name: &str)
        requires
            old(self).wf(),
        ensures
            final(self).wf(),
            old(self)@.bar.len() == 0 ==> final(self)@ == old(self)@,
            old(self)@.bar.len() > 0 ==> final(self)@ == (TabPanelState {
                bar: TabBarState {
                    titles: old(self)@.bar.titles.update(old(self)@.bar.active as int,
                        renamed_user_part(old(self)@.bar.titles[old(self)@.bar.active as int], new_name@)),
                    needs_redraw: true,
                    ..old(self)@.bar
                },
                ..old(self)@
            }),
    {
        let idx = self.bar.active_index();
        if idx >= self.bar.tab_count() {
            return;
        }
        let t = chars_of(self.bar.titles()[idx].as_str());
        proof {
            crate::text::lemma_find_props(t@, ':');
        }
        let new_title = match find_char(&t, ':') {
            Some(c) => {
                let mut s = string_from_range(&t, 0, c);
                push_char(&mut s, ':');
                push_str(&mut s, new_name);
                assert(t@.subrange(0, c as int) =~= t@.take(c as int));
                s
            },
            None => String::from_str(new_name),
        };
        self.bar.set_title(idx, new_title.as_str());
    }

    /// Width the dropdown takes while open.
    pub fn dropdown_width(&self) -> (w: u16)
        requires
            self.wf(),
            wrap16(max_len(self@.bar.titles, 4) + 3 + if max_badge_len(self@.bar.badges) > 0
                || any_set(self@.bar.dirty) { (if max_badge_len(self@.bar.badges) >= 1 { max_badge_len(self@.bar.badges) } else { 1 }) + 1 } else { 0 }) + 2 <= u16::MAX,
        ensures
            w == self@.dropdown_width(),
    {
        let max_title = max_title_len(self.bar.titles());
        let mb = max_badge(self.bar.badges());
        let badge_w: u128 = if mb > 0 || any_true(self.bar.dirty_flags()) {
            (if mb >= 1 { mb as u128 } else { 1 }) + 1
        } else {
            0
        };
        let v: u128 = max_title as u128 + 3 + badge_w;
        let total: u16 = v as u16;
        assert(total == v % 65536) by (bit_vector)
            requires total == v as u16;
        total + 2
    }

    /// How the dropdown numbers entries: all in Static and Single mode, all
    /// but the first (the active tab) in Lru mode.
    pub fn dropdown_number_mode(&self) -> (m: NumberMode)
        ensures
            m == (if self@.bar.mode == TabBarMode::Lru { NumberMode::SkipFirst } else { NumberMode::All }),
    {
        match self.bar.mode() {
            TabBarMode::Lru => NumberMode::SkipFirst,
            _ => NumberMode::All,
        }
    }

    /// Whether a layout pass keeps every coordinate in range (what
    /// [`TabPanel::layout`] needs).
    pub fn layout_fits(&self) -> (b: bool)
        requires
            self.wf(),
        ensures
            b == self@.layout_fits(),
    {
        let b = self.bounds;
        if !(b.h <= 1 || b.y < u16::MAX) {
            return false;
        }
        if !self.dropdown_active {
            return true;
        }
        let cr = self.content_rect();
        if cr.x == u16::MAX {
            return false;
        }
        let max_title = max_title_len(self.bar.titles());
        let mb = max_badge(self.bar.badges());
        let badge_w: u128 = if mb > 0 || any_true(self.bar.dirty_flags()) {
            (if mb >= 1 { mb as u128 } else { 1 }) + 1
        } else {
            0
        };
        let v: u128 = max_title as u128 + 3 + badge_w;
        let total: u16 = v as u16;
        assert(total == v % 65536) by (bit_vector)
            requires total == v as u16;
        if total as u32 + 2 > 65535 {
            return false;
        }
        let nn: usize = self.bar.tab_count();
        let n16: u16 = nn as u16;
        assert(n16 == nn % 65536) by (bit_vector)
            requires n16 == nn as u16;
        n16 < u16::MAX
    }

    /// Whether `key` would open the dropdown: then [`TabPanel::handle_key`]
    /// needs [`TabPanel::open_fits`].
    pub fn key_opens_dropdown(&self, key: &KeyEvent) -> (b: bool)
        requires
            self.wf(),
        ensures
            b == (!self@.dropdown_active && self@.bar.len() > 1 && opens_dropdown(*key)),
    {
        if self.dropdown_active || self.bar.tab_count() <= 1 {
            return false;
        }
        let m = key.modifiers;
        let alt_open = m.alt && !m.ctrl && (key.code == KeyCode::Char('0') || key.code == KeyCode::Down
            || key.code == KeyCode::Up);
        let cs_open = m.ctrl && m.shift && (key.code == KeyCode::Down || key.code == KeyCode::Up);
        alt_open || cs_open
    }

    /// Whether an opened dropdown's box fits the coordinate range (what
    /// [`TabPanel::open_dropdown`] and [`TabPanel::handle_key`] need).
    pub fn open_fits(&self) -> (b: bool)
        requires
            self.wf(),
        ensures
            b == self@.open_fits(),
    {
        let b = self.bounds;
        if !(b.h <= 1 || b.y < u16::MAX) {
            return false;
        }
        let cr = self.content_rect();
        if cr.x == u16::MAX {
            return false;
        }
        let max_title = max_title_len(self.bar.titles());
        let has_badge = any_true(self.bar.dirty_flags()) || any_some(self.bar.badges());
        let badge_w: u128 = if has_badge { 2 } else { 0 };
        let v: u128 = max_title as u128 + 3 + badge_w;
        let total: u16 = v as u16;
        assert(total == v % 65536) by (bit_vector)
            requires total == v as u16;
        if total as u32 + 2 > 65535 {
            return false;
        }
        let nn: usize = self.bar.tab_count();
        let n16: u16 = nn as u16;
        assert(n16 == nn % 65536) by (bit_vector)
            requires n16 == nn as u16;
        n16 < u16::MAX
    }

    /// Open the tab dropdown: returns its bounds (one column in from the
    /// content area's left edge, one row per tab plus a bottom border),
    /// and hands keys from the bar to it. `None` when it is already open.
    pub fn open_dropdown(&mut self) -> (r: Option<Rect>)
        requires
            old(self).wf(),
            old(self)@.open_fits(),
        ensures
            final(self).wf(),
            old(self)@.dropdown_active ==> r is None && final(self)@ == old(self)@,
            !old(self)@.dropdown_active ==> r == Some(old(self)@.opened_rect())
                && final(self)@ == old(self)@.with_dropdown(),
    {
        if self.dropdown_active {
            return None;
        }
        let max_title = max_title_len(self.bar.titles());
        let has_badge = any_true(self.bar.dirty_flags()) || any_some(self.bar.badges());
        let badge_w: u128 = if has_badge { 2 } else { 0 };
        let v: u128 = max_title as u128 + 3 + badge_w;
        let total: u16 = v as u16;
        assert(total == v % 65536) by (bit_vector)
            requires total == v as u16;
        let cr = self.content_rect();
        let w0: u16 = total + 2;
        let w = if w0 < cr.w { w0 } else { cr.w };
        let nn: usize = self.bar.tab_count();
        let n16: u16 = nn as u16;
        assert(n16 == nn % 65536) by (bit_vector)
            requires n16 == nn as u16;
        let h0: u16 = n16 + 1;
        let h = if h0 < cr.h { h0 } else { cr.h };
        self.bar.set_handle_keys(false);
        self.dropdown_active = true;
        Some(Rect::new(cr.x + 1, cr.y, w, h))
    }

    /// Close the tab dropdown and give keys back to the bar.
    pub fn close_dropdown(&mut self)
        requires
            old(self).wf(),
        ensures
            final(self).wf(),
            final(self)@ == old(self)@.after_close_dropdown(),
    {
        if self.dropdown_active {
            self.bar.set_handle_keys(true);
            self.dropdown_active = false;
        }
    }
}

pub proof fn lemma_title_index_props(ts: Seq<Seq<char>>, t: Seq<char>)
    ensures
        title_index(ts, t) matches Some(i) ==> i < ts.len() && ts[i as int] == t,
    decreases ts.len(),
{
    if ts.len() > 0 {
        lemma_title_index_props(ts.drop_last(), t);
    }
}

/// The digit an Alt-digit key (without Ctrl or Shift) carries.
pub open spec fn alt_digit(key: KeyEvent) -> Option<usize> {
    if key.modifiers.alt && !key.modifiers.ctrl && !key.modifiers.shift {
        match key.code {
            KeyCode::Char(c) => spec_digit(c),
            _ => None,
        }
    } else {
        None
    }
}

/// Keys that open the dropdown: Alt with `0`, Down or Up (without Ctrl),
/// or Ctrl+Shift with Down or Up.
pub open spec fn opens_dropdown(key: KeyEvent) -> bool {
    let m = key.modifiers;
    let alt_open = m.alt && !m.ctrl && (key.code == KeyCode::Char('0') || key.code == KeyCode::Down
        || key.code == KeyCode::Up);
    let cs_open = m.ctrl && m.shift && (key.code == KeyCode::Down || key.code == KeyCode::Up);
    alt_open || cs_open
}

impl TabPanelState {
    /// The state after an Alt-digit `n` picked a tab from the open dropdown.
    pub open spec fn after_dropdown_digit(self, n: usize) -> TabPanelState {
        let closed = TabPanelState {
            bar: TabBarState { handle_keys: true, ..self.bar },
            dropdown_active: false,
            ..self
        };
        let picked = TabPanelState {
            bar: match closed.bar.number_target(n as nat) {
                Some(t) => closed.bar.activated(t),
                None => closed.bar,
            },
            ..closed
        };
        picked.after_set_active(picked.bar.active)
    }
}

impl TabPanel {
    /// Lay out the children: the bar takes the top row, the active tab's
    /// content the area below (shown), every other content nothing
    /// (hidden), and an open dropdown a box below the bar. `None` when the
    /// panel has no area.
    pub fn layout(&self) -> (l: Option<PanelLayout>)
        requires
            self.wf(),
            self@.layout_fits(),
        ensures
            (self@.bounds.w == 0 || self@.bounds.h == 0) ==> l is None,
            (self@.bounds.w > 0 && self@.bounds.h > 0) ==> (l matches Some(pl) && {
                let b = self@.bounds;
                let cr = self@.content_rect();
                &&& pl.bar == (Rect { x: b.x, y: b.y, w: b.w, h: 1 })
                &&& pl.contents@.len() == self@.bar.len()
                &&& forall|i: int| 0 <= i < pl.contents@.len() ==> #[trigger] pl.contents@[i] == (
                    if i == self@.bar.active { (cr, true) } else { (Rect { x: 0, y: 0, w: 0, h: 0 }, false) })
                &&& !self@.dropdown_active ==> pl.dropdown is None
                &&& self@.dropdown_active ==> pl.dropdown == Some(Rect {
                    x: (cr.x + 1) as u16,
                    y: cr.y,
                    w: min_nat(self@.dropdown_width(), cr.w as nat) as u16,
                    h: min_nat(wrap16(self@.bar.len()) + 1, cr.h as nat) as u16,
                })
            }),
    {
        let b = self.bounds;
        if b.w == 0 || b.h == 0 {
            return None;
        }
        let cr = self.content_rect();
        let active = self.bar.active_index();
        let n = self.bar.tab_count();
        let mut contents: Vec<(Rect, bool)> = Vec::new();
        let mut i: usize = 0;
        while i < n
            invariant
                i <= n,
                contents@.len() == i,
                forall|k: int| 0 <= k < i ==> #[trigger] contents@[k] == (
                    if k == active { (cr, true) } else { (Rect { x: 0, y: 0, w: 0, h: 0 }, false) }),
            decreases n - i,
        {
            if i == active {
                contents.push((cr, true));
            } else {
                contents.push((Rect::zero(), false));
            }
            i += 1;
        }
        let dropdown = if self.dropdown_active {
            let w0 = self.dropdown_width();
            let w = if w0 < cr.w { w0 } else { cr.w };
            let n16: u16 = n as u16;
            assert(n16 == n % 65536) by (bit_vector)
                requires n16 == n as u16;
            let h0: u16 = n16 + 1;
            let h = if h0 < cr.h { h0 } else { cr.h };
            Some(Rect::new(cr.x + 1, cr.y, w, h))
        } else {
            None
        };
        Some(PanelLayout { bar: Rect::new(b.x, b.y, b.w, 1), contents, dropdown })
    }

    /// The dropdown reported a pick at `display_idx` (0 when absent): the
    /// dropdown closes and the picked tab becomes active. Ignored while the
    /// dropdown is closed.
    pub fn dropdown_done(&mut self, display_idx: Option<usize>) -> (consumed: bool)
        requires
            old(self).wf(),
        ensures
            final(self).wf(),
            consumed == old(self)@.dropdown_active,
            !consumed ==> final(self)@ == old(self)@,
            consumed ==> {
                let d: nat = match display_idx { Some(d) => d as nat, None => 0 };
                let tab_idx: usize = if d < old(self)@.dropdown_order.len() {
                    old(self)@.dropdown_order[d as int]
                } else {
                    d as usize
                };
                let closed = TabPanelState {
                    bar: TabBarState { handle_keys: true, ..old(self)@.bar },
                    dropdown_active: false,
                    ..old(self)@
                };
                final(self)@ == closed.after_set_active(tab_idx)
            },
    {
        if !self.dropdown_active {
            return false;
        }
        let d = match display_idx {
            Some(d) => d,
            None => 0,
        };
        let tab_idx = if d < self.dropdown_order.len() { self.dropdown_order[d] } else { d };
        self.close_dropdown();
        self.set_active(tab_idx);
        true
    }

    /// The dropdown was cancelled: it closes. Ignored while it is closed.
    pub fn dropdown_cancelled(&mut self) -> (consumed: bool)
        requires
            old(self).wf(),
        ensures
            final(self).wf(),
            consumed == old(self)@.dropdown_active,
            !consumed ==> final(self)@ == old(self)@,
            consumed ==> final(self)@ == (TabPanelState {
                bar: TabBarState { handle_keys: true, ..old(self)@.bar },
                dropdown_active: false,
                ..old(self)@
            }),
    {
        if !self.dropdown_active {
            return false;
        }
        self.close_dropdown();
        true
    }

    /// A key reaching the panel. With the dropdown open, Alt-digit n >= 1
    /// closes it and activates the tab numbered n. Otherwise, with more
    /// than one tab, a dropdown key opens the dropdown (its bounds are
    /// returned). Otherwise the bar sees the key first (Alt-digit
    /// switching); what it ignores belongs to the focused child.
    pub fn handle_key(&mut self, key: &KeyEvent) -> (r: (HandleResult, Option<Rect>))
        requires
            old(self).wf(),
            !old(self)@.dropdown_active && old(self)@.bar.len() > 1 && opens_dropdown(*key)
                ==> old(self)@.open_fits(),
        ensures
            final(self).wf(),
            ({
                let s = old(self)@;
                if s.dropdown_active && alt_digit(*key) is Some && alt_digit(*key).unwrap() != 0 {
                    &&& r == (HandleResult::Consumed, None::<Rect>)
                    &&& final(self)@ == s.after_dropdown_digit(alt_digit(*key).unwrap())
                } else if !s.dropdown_active && s.bar.len() > 1 && opens_dropdown(*key) {
                    &&& r == (HandleResult::Consumed, Some(s.opened_rect()))
                    &&& final(self)@ == s.with_dropdown()
                } else {
                    let m = key.modifiers;
                    let digit = match key.code {
                        KeyCode::Char(c) => spec_digit(c),
                        _ => None,
                    };
                    if s.bar.handle_keys && m.alt && !m.ctrl && !m.shift && digit is Some
                        && digit.unwrap() >= 1 && s.bar.number_target(digit.unwrap() as nat) is Some {
                        let t = s.bar.number_target(digit.unwrap() as nat).unwrap();
                        &&& final(self)@ == (TabPanelState { bar: s.bar.activated(t), ..s })
                        &&& r == (if t != s.bar.active { HandleResult::Consumed } else { HandleResult::Ignored }, None::<Rect>)
                    } else {
                        &&& final(self)@ == s
                        &&& r == (HandleResult::Ignored, None::<Rect>)
                    }
                }
            }),
    {
        if self.dropdown_active {
            let m = key.modifiers;
            let n = if m.alt && !m.ctrl && !m.shift {
                match key.code {
                    KeyCode::Char(c) => char_digit(c),
                    _ => None,
                }
            } else {
                None
            };
            match n {
                Some(n) if n != 0 => {
                    self.close_dropdown();
                    self.bar.activate_by_number(n);
                    let idx = self.bar.active_index();
                    self.set_active(idx);
                    return (HandleResult::Consumed, None);
                },
                _ => {},
            }
        }
        if !self.dropdown_active && self.bar.tab_count() > 1 {
            let m = key.modifiers;
            let alt_open = m.alt && !m.ctrl && (key.code == KeyCode::Char('0') || key.code == KeyCode::Down
                || key.code == KeyCode::Up);
            let cs_open = m.ctrl && m.shift && (key.code == KeyCode::Down || key.code == KeyCode::Up);
            if alt_open || cs_open {
                let rect = self.open_dropdown();
                return (HandleResult::Consumed, rect);
            }
        }
        let r = self.bar.handle_key(key);
        (r, None)
    }
}


/// With at least two tabs, going to the previous tab activates the one just
/// before the active tab (the last one from the first), and going to the
/// next tab then the previous one comes back to the tab it started from.
pub proof fn law_tab_prev_steps_back(s: TabPanelState)
    requires
        s.bar.inv(),
        2 <= s.bar.len() <= usize::MAX,
    ensures
        (s.after_tab_prev().bar.active + 1) % (s.bar.len() as int) == s.bar.active,
        s.after_tab_prev().bar.active < s.bar.len(),
        s.after_tab_next().after_tab_prev().bar.active == s.bar.active,
{
    let n = s.bar.len() as int;
    let a = s.bar.active as int;
    assert((a + 1) % n == (if a + 1 == n { 0 } else { a + 1 })) by (nonlinear_arith)
        requires
            0 <= a < n;
    let p: int = if a == 0 { n - 1 } else { a - 1 };
    assert((p + 1) % n == a) by (nonlinear_arith)
        requires
            0 <= a < n,
            p == (if a == 0 { n - 1 } else { a - 1 });
    let nx = ((a + 1) % n) as usize;
    let t = s.after_set_active(nx);
    assert(t.bar.active == nx);
    assert(t.bar.len() == s.bar.len());
}

} // verus!
