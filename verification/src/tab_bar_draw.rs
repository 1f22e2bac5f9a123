//! What a tab bar draws on its row: each string, the column it starts at
//! and its style. Columns are 16-bit, as on the terminal surface; a plan
//! whose arithmetic would leave that range is refused.

use vstd::prelude::*;

use crate::style::{Color, Style, TabBarFill, TabStyle};
use crate::tab_bar::{TabBar, TabBarMode, TabBarState};
use crate::seqs::{all_below, lemma_others_below};
use crate::tab_bar::badges_view;
use crate::tab_label::{badge_text, index_of, label_body, lemma_segment_count_bound, position_of, scrolled_to_active, segment_count, spec_tab_label};
use crate::text::{chars_of, decimal, push_char, push_decimal, push_str, string_from_range};

verus! {

/// The chrome glyphs a tab bar is drawn with.
pub struct BarGlyphs {
    /// Left cap of a tab.
    pub tab_left: String,
    /// Right cap of a tab.
    pub tab_right: String,
    /// Thin separator after the active tab.
    pub separator: String,
    /// Thin separator up to the active tab.
    pub separator_left: String,
    /// Arrow in front of a tab count.
    pub dropdown_arrow: String,
}

/// The glyphs as character sequences.
pub struct GlyphsView {
    pub tl: Seq<char>,
    pub tr: Seq<char>,
    pub sep: Seq<char>,
    pub sep_left: Seq<char>,
    pub arrow: Seq<char>,
}

impl View for BarGlyphs {
    type V = GlyphsView;

    open spec fn view(&self) -> GlyphsView {
        GlyphsView {
            tl: self.tab_left@,
            tr: self.tab_right@,
            sep: self.separator@,
            sep_left: self.separator_left@,
            arrow: self.dropdown_arrow@,
        }
    }
}

/// A string printed on the bar's row, starting at column `x`.
pub struct PrintOp {
    pub x: u16,
    pub text: String,
    pub style: Style,
}

/// A print as mathematical values.
pub struct OpView {
    pub x: int,
    pub text: Seq<char>,
    pub style: Style,
}

pub open spec fn op_view(o: PrintOp) -> OpView {
    OpView { x: o.x as int, text: o.text@, style: o.style }
}

pub open spec fn ops_view(v: Seq<PrintOp>) -> Seq<OpView> {
    v.map_values(|o: PrintOp| op_view(o))
}

/// Columns a string takes as the bar counts them: its characters, as a
/// 16-bit count.
pub open spec fn cols(s: Seq<char>) -> int {
    (s.len() as u16) as int
}

/// Whether a column value fits the 16-bit range.
pub open spec fn in16(v: int) -> bool {
    0 <= v <= 65535
}

/// The pen that lays strings along the row: its column, what it has
/// printed, whether every column so far stayed in range, and the
/// background and activity of the last tab it drew.
pub struct Pen {
    pub x: int,
    pub ops: Seq<OpView>,
    pub ok: bool,
    pub prev_bg: Color,
    pub prev_active: bool,
}

impl Pen {
    pub open spec fn put_at(self, x: int, text: Seq<char>, style: Style) -> Pen {
        Pen { ops: self.ops.push(OpView { x, text, style }), ..self }
    }

    pub open spec fn put(self, text: Seq<char>, style: Style) -> Pen {
        self.put_at(self.x, text, style)
    }

    pub open spec fn check(self, v: int) -> Pen {
        Pen { ok: self.ok && in16(v), ..self }
    }

    pub open spec fn at(self, x: int) -> Pen {
        Pen { x, ..self }
    }
}

pub open spec fn style_of(fg: Color, bg: Color) -> Style {
    Style { fg, bg }
}

/// Background behind the tabs: the fill's, with a transparent one read as
/// the terminal default.
pub open spec fn ground(f: TabBarFill) -> Color {
    if f.style.bg == Color::Transparent { Color::Reset } else { f.style.bg }
}

/// The row filled with the fill character, `w` columns wide.
pub open spec fn fill_op(f: TabBarFill, w: nat) -> OpView {
    OpView { x: 0, text: Seq::new(w, |i: int| f.ch), style: f.style }
}

/// The pen after the fill, at column 0.
pub open spec fn blank(bar: TabBarState, w: nat) -> Pen {
    Pen { x: 0, ops: seq![fill_op(bar.fill, w)], ok: true, prev_bg: ground(bar.fill), prev_active: false }
}

/// The label of the active tab in Single mode.
pub open spec fn single_label(bar: TabBarState) -> Seq<char> {
    seq![' '] + label_body(bar, bar.active) + seq![' ']
}

/// The tab count shown after the active tab when there are several.
pub open spec fn count_badge(bar: TabBarState, g: GlyphsView) -> Seq<char> {
    if bar.len() > 1 { g.arrow + decimal(bar.len()) } else { Seq::empty() }
}

/// The active tab's styled badge, drawn over the end of its label.
pub open spec fn badge_over(bar: TabBarState, p: Pen, tab_end: int, bg: Color) -> Pen {
    let b = badge_text(bar.badges[bar.active as int]);
    if b.len() == 0 {
        p
    } else {
        match bar.badge_styles[bar.active as int] {
            Some(bs) => {
                let bx = p.x + tab_end - cols(b) - 1;
                p.check(p.x + tab_end - cols(b)).check(bx).put_at(bx, b, style_of(bs.fg, bg))
            },
            None => p,
        }
    }
}

/// Single mode: left cap, the active tab's label (cut to the room left
/// for `badge_w` badge columns, the right cap and two more), right cap.
pub open spec fn single_body(bar: TabBarState, g: GlyphsView, w: int, badge_w: int, p0: Pen) -> Pen {
    let ts = bar.tab_style(0, bar.active);
    let fbg = ground(bar.fill);
    let tl = cols(g.tl);
    let tr = cols(g.tr);
    let p1 = if tl <= w { p0.put(g.tl, style_of(ts.bg, fbg)).at(p0.x + tl) } else { p0 };
    let probe = p1.x + badge_w + tr + 2;
    let p2 = p1.check(probe);
    let room = if w >= probe { w - probe } else { 0 };
    let label = single_label(bar);
    let tab_end = if cols(label) <= room { cols(label) } else { room };
    let p3 = if p2.x + tab_end <= w {
        badge_over(bar, p2.put(label, style_of(ts.fg, ts.bg)), tab_end, ts.bg).at(p2.x + tab_end)
    } else {
        p2
    };
    let p4 = p3.check(p3.x + tr);
    if p4.x + tr <= w { p4.put(g.tr, style_of(ts.bg, fbg)).at(p4.x + tr) } else { p4 }
}

/// Single mode: the tab count in a capped badge, or dimmed without caps
/// when the caps do not fit.
pub open spec fn count_part(bar: TabBarState, g: GlyphsView, w: int, p: Pen) -> Pen {
    let badge = count_badge(bar, g);
    if badge.len() == 0 {
        p
    } else {
        let fbg = ground(bar.fill);
        let bbg = if bar.focused { bar.palette.badge_focused_bg } else { bar.palette.inactive@[0].bg };
        let bfg = bar.palette.badge_fg;
        let bl = cols(badge);
        let tl = cols(g.tl);
        let tr = cols(g.tr);
        let q = p.check(p.x + bl + tr);
        if q.x + bl + tr <= w {
            let q1 = q.put(g.tl, style_of(bbg, fbg)).check(q.x + tl).at(q.x + tl);
            let q2 = q1.put(badge, style_of(bfg, bbg)).check(q1.x + bl).at(q1.x + bl);
            q2.put(g.tr, style_of(bbg, fbg))
        } else if q.x + bl <= w {
            q.put(badge, style_of(bar.palette.dim_fg, fbg))
        } else {
            q
        }
    }
}

/// Position of the active tab in the display order (0 when absent).
pub open spec fn active_pos(bar: TabBarState) -> nat {
    match index_of(bar.display_order(), bar.active) {
        Some(a) => a,
        None => 0,
    }
}

/// The separator in front of segment `k`: the first tab's left cap when
/// nothing is hidden to the left; otherwise, while there is room, the
/// right cap after the active tab, the left cap before it, or a thin
/// separator that leans toward the active tab.
pub open spec fn separator_step(bar: TabBarState, g: GlyphsView, w: int, k: nat, p: Pen) -> Pen {
    let pos = bar.scroll_offset + k;
    let tab = bar.display_order()[pos];
    let ts = bar.tab_style(pos as nat, tab);
    let tl = cols(g.tl);
    let tr = cols(g.tr);
    if k == 0 && bar.scroll_offset == 0 {
        let c = p.check(p.x + tl);
        if c.x + tl > w { c } else { c.put(g.tl, style_of(ts.bg, ground(bar.fill))).at(c.x + tl) }
    } else if p.x >= w {
        p
    } else if p.prev_active {
        p.put(g.tr, style_of(p.prev_bg, ts.bg)).check(p.x + tr).at(p.x + tr)
    } else if tab == bar.active {
        p.put(g.tl, style_of(ts.bg, p.prev_bg)).check(p.x + tl).at(p.x + tl)
    } else {
        let s = if pos <= active_pos(bar) { g.sep_left } else { g.sep };
        p.put(s, style_of(bar.palette.separator_fg, ts.bg)).check(p.x + cols(s)).at(p.x + cols(s))
    }
}

/// The label of segment `k` when it fits, with the tab's styled badge
/// over its end.
pub open spec fn text_step(bar: TabBarState, w: int, k: nat, p: Pen) -> Pen {
    let pos = bar.scroll_offset + k;
    let tab = bar.display_order()[pos];
    let ts = bar.tab_style(pos as nat, tab);
    let text = spec_tab_label(bar, pos as nat, tab);
    let tw = cols(text);
    let c = p.check(p.x + tw);
    let drawn = if c.x + tw > w {
        c
    } else {
        let q = c.put(text, style_of(ts.fg, ts.bg));
        let q2 = match (bar.badges[tab as int], bar.badge_styles[tab as int]) {
            (Some(b), Some(bs)) => {
                let bx = q.x + tw - cols(b);
                q.check(bx).put_at(bx, b, style_of(bs.fg, ts.bg))
            },
            _ => q,
        };
        q2.at(c.x + tw)
    };
    Pen { prev_bg: ts.bg, prev_active: tab == bar.active, ..drawn }
}

pub open spec fn seg_step(bar: TabBarState, g: GlyphsView, w: int, k: nat, p: Pen) -> Pen {
    text_step(bar, w, k, separator_step(bar, g, w, k, p))
}

/// The first `n` segments drawn in turn.
pub open spec fn seg_run(bar: TabBarState, g: GlyphsView, w: int, n: nat, p: Pen) -> Pen
    decreases n,
{
    if n == 0 { p } else { seg_step(bar, g, w, (n - 1) as nat, seg_run(bar, g, w, (n - 1) as nat, p)) }
}

/// `…N`: how many tabs are hidden to the left.
pub open spec fn left_indicator(n: nat) -> Seq<char> {
    seq!['\u{2026}'] + decimal(n)
}

pub open spec fn left_part(bar: TabBarState, p: Pen) -> Pen {
    if bar.scroll_offset == 0 {
        p
    } else {
        let ind = left_indicator(bar.scroll_offset as nat);
        p.put(ind, style_of(bar.palette.dim_fg, ground(bar.fill))).at(p.x + cols(ind))
    }
}

/// `▾…N`: how many tabs are hidden to the right.
pub open spec fn right_indicator(g: GlyphsView, n: nat) -> Seq<char> {
    g.arrow + seq!['\u{2026}'] + decimal(n)
}

/// After `n` segments: the last tab's right cap when none is hidden to the
/// right, else the count of hidden tabs in a badge (capped, half capped, or
/// cut to the columns left).
pub open spec fn right_part(bar: TabBarState, g: GlyphsView, w: int, n: nat, p: Pen) -> Pen {
    let order_len = bar.display_order().len();
    let visible_end = bar.scroll_offset + n;
    let hidden_right: nat = if order_len >= visible_end { (order_len - visible_end) as nat } else { 0 };
    let fbg = ground(bar.fill);
    let tr = cols(g.tr);
    if hidden_right == 0 {
        let c = p.check(p.x + tr);
        if c.x + tr > w { c } else { c.put(g.tr, style_of(p.prev_bg, fbg)).at(c.x + tr) }
    } else if p.x >= w {
        p
    } else {
        let badge = right_indicator(g, hidden_right);
        let bl = cols(badge);
        let slot: int = if visible_end < 9 { visible_end } else { 9 };
        let bbg = bar.palette.inactive@[slot].bg;
        let bfg = bar.palette.badge_fg;
        let c = p.check(p.x + tr + bl + tr);
        if c.x + tr + bl + tr <= w {
            c.put(g.tr, style_of(p.prev_bg, bbg)).put_at(c.x + tr, badge, style_of(bfg, bbg))
                .put_at(c.x + tr + bl, g.tr, style_of(bbg, fbg))
        } else if c.x + tr + bl <= w {
            c.put(g.tr, style_of(p.prev_bg, bbg)).put_at(c.x + tr, badge, style_of(bfg, bbg))
        } else {
            let avail = w - c.x;
            let shown = if avail <= badge.len() { badge.take(avail) } else { badge };
            c.put(shown, style_of(bfg, bbg))
        }
    }
}

/// Static and Lru modes: hidden-left count, the tabs that fit, then the
/// closing cap or the hidden-right count.
pub open spec fn multi_part(bar: TabBarState, g: GlyphsView, w: int, p: Pen) -> Pen {
    let n = segment_count(bar, bar.display_order(), w as nat);
    right_part(bar, g, w, n, seg_run(bar, g, w, n, left_part(bar, p)))
}

/// Everything the bar draws in `w` columns (its scroll already adjusted
/// for Static and Lru modes). `badge_w` is the display width of the active
/// tab's badge.
pub open spec fn bar_plan(bar: TabBarState, g: GlyphsView, w: int, badge_w: int) -> Pen {
    if w == 0 {
        Pen { x: 0, ops: Seq::empty(), ok: true, prev_bg: ground(bar.fill), prev_active: false }
    } else if bar.len() == 0 {
        blank(bar, w as nat)
    } else {
        match bar.mode {
            TabBarMode::Single => count_part(bar, g, w, single_body(bar, g, w, badge_w, blank(bar, w as nat))),
            _ => multi_part(bar, g, w, blank(bar, w as nat)),
        }
    }
}

/// The pen as the code holds it: always in range.
struct Cursor {
    x: u16,
    ops: Vec<PrintOp>,
    prev_bg: Color,
    prev_active: bool,
}

impl Cursor {
    spec fn pen(&self) -> Pen {
        Pen { x: self.x as int, ops: ops_view(self.ops@), ok: true, prev_bg: self.prev_bg, prev_active: self.prev_active }
    }

    fn put_at(&mut self, x: u16, text: String, style: Style)
        ensures
            final(self).pen() == old(self).pen().put_at(x as int, text@, style),
    {
        let ghost old_ops = self.ops@;
        self.ops.push(PrintOp { x, text, style });
        assert(ops_view(self.ops@) =~= ops_view(old_ops).push(OpView { x: x as int, text: text@, style }));
    }

    fn put(&mut self, text: String, style: Style)
        ensures
            final(self).pen() == old(self).pen().put(text@, style),
    {
        let x = self.x;
        self.put_at(x, text, style);
    }

    /// Move right by `by` columns; false (and no move) when that leaves the
    /// 16-bit range.
    fn advance(&mut self, by: u16) -> (ok: bool)
        ensures
            ok == in16(old(self).x + by),
            ok ==> final(self).pen() == old(self).pen().at(old(self).x + by),
            !ok ==> *final(self) == *old(self),
    {
        let t: u32 = self.x as u32 + by as u32;
        if t > 65535 {
            false
        } else {
            self.x = t as u16;
            true
        }
    }
}

/// Columns of `s` as a 16-bit count.
fn cols_of(s: &str) -> (n: u16)
    ensures
        n as int == cols(s@),
{
    let l = s.unicode_len();
    #[verifier::truncate]
    (l as u16)
}

fn copy_of(s: &str) -> (r: String)
    ensures
        r@ == s@,
{
    String::from_str(s)
}

fn ground_of(f: TabBarFill) -> (c: Color)
    ensures
        c == ground(f),
{
    if f.style.bg == Color::Transparent { Color::Reset } else { f.style.bg }
}

/// The fill character repeated `w` times.
fn fill_text(ch: char, w: u16) -> (r: String)
    ensures
        r@ == Seq::new(w as nat, |i: int| ch),
{
    let mut r = String::new();
    let mut i: u16 = 0;
    while i < w
        invariant
            i <= w,
            r@ =~= Seq::new(i as nat, |k: int| ch),
        decreases w - i,
    {
        push_char(&mut r, ch);
        i += 1;
    }
    r
}

impl TabBar {
    /// Single mode body; false when the columns leave the 16-bit range.
    fn draw_single_body(&self, w: u16, g: &BarGlyphs, badge_w: u16, p: &mut Cursor) -> (ok: bool)
        requires
            self.wf(),
            self@.len() > 0,
            old(p).x == 0,
        ensures
            ok == single_body(self@, g@, w as int, badge_w as int, old(p).pen()).ok,
            ok ==> final(p).pen() == single_body(self@, g@, w as int, badge_w as int, old(p).pen()),
    {
        let ghost p0 = p.pen();
        let active = self.active_index();
        let ts = self.tab_style(0, active);
        let fbg = ground_of(self.fill());
        let tl = cols_of(g.tab_left.as_str());
        let tr = cols_of(g.tab_right.as_str());
        if tl <= w {
            p.put(copy_of(g.tab_left.as_str()), Style::new(ts.bg, fbg));
            p.x = tl;
        }
        let ghost p1 = p.pen();
        let probe: u32 = p.x as u32 + badge_w as u32 + tr as u32 + 2;
        if probe > 65535 {
            return false;
        }
        let room: u32 = if w as u32 >= probe { w as u32 - probe } else { 0 };
        let label = self.build_single_label();
        let llen = cols_of(label.as_str());
        let tab_end: u16 = if (llen as u32) <= room { llen } else { room as u16 };
        if p.x as u32 + tab_end as u32 <= w as u32 {
            let x = p.x;
            p.put(label, Style::new(ts.fg, ts.bg));
            let b = self.badge_str(active);
            if b.unicode_len() > 0 {
                match self.badge_styles()[active] {
                    Some(bs) => {
                        let bl = cols_of(b);
                        if (x as u32 + tab_end as u32) < bl as u32 + 1 {
                            return false;
                        }
                        let bx: u16 = (x as u32 + tab_end as u32 - bl as u32 - 1) as u16;
                        p.put_at(bx, copy_of(b), Style::new(bs.fg, ts.bg));
                    },
                    None => {},
                }
            }
            p.x = x + tab_end;
        }
        let ghost p3 = p.pen();
        if p.x as u32 + tr as u32 > 65535 {
            return false;
        }
        if p.x as u32 + tr as u32 <= w as u32 {
            p.put(copy_of(g.tab_right.as_str()), Style::new(ts.bg, fbg));
            p.x = p.x + tr;
        }
        true
    }

    /// Single mode tab count; false when the columns leave the 16-bit range.
    fn draw_count_part(&self, w: u16, g: &BarGlyphs, p: &mut Cursor) -> (ok: bool)
        requires
            self.wf(),
            self@.len() > 0,
        ensures
            ok == count_part(self@, g@, w as int, old(p).pen()).ok,
            ok ==> final(p).pen() == count_part(self@, g@, w as int, old(p).pen()),
    {
        let n = self.tab_count();
        if n <= 1 {
            return true;
        }
        let mut badge = copy_of(g.dropdown_arrow.as_str());
        push_decimal(&mut badge, n);
        assert(decimal(n as nat).len() > 0);
        assert(badge@ =~= count_badge(self@, g@));
        let fbg = ground_of(self.fill());
        let pal = self.palette();
        let bbg = if self.is_focused() { pal.badge_focused_bg } else { pal.inactive[0].bg };
        let bfg = pal.badge_fg;
        let bl = cols_of(badge.as_str());
        let tl = cols_of(g.tab_left.as_str());
        let tr = cols_of(g.tab_right.as_str());
        let reach: u32 = p.x as u32 + bl as u32 + tr as u32;
        if reach > 65535 {
            return false;
        }
        if reach <= w as u32 {
            p.put(copy_of(g.tab_left.as_str()), Style::new(bbg, fbg));
            if !p.advance(tl) {
                return false;
            }
            p.put(badge, Style::new(bfg, bbg));
            if !p.advance(bl) {
                return false;
            }
            p.put(copy_of(g.tab_right.as_str()), Style::new(bbg, fbg));
        } else if p.x as u32 + bl as u32 <= w as u32 {
            p.put(badge, Style::new(pal.dim_fg, fbg));
        }
        true
    }
}

/// A failed column check stays failed through the segments that follow.
proof fn lemma_run_fails(bar: TabBarState, g: GlyphsView, w: int, k: nat, n: nat, p: Pen)
    requires
        k <= n,
        !seg_run(bar, g, w, k, p).ok,
    ensures
        !seg_run(bar, g, w, n, p).ok,
    decreases n,
{
    if n > k {
        lemma_run_fails(bar, g, w, k, (n - 1) as nat, p);
    }
}

/// Every tab in the display order exists.
proof fn lemma_order_below(bar: TabBarState)
    requires
        bar.inv(),
        bar.len() > 0,
    ensures
        forall|i: int| 0 <= i < bar.display_order().len() ==> #[trigger] bar.display_order()[i] < bar.len(),
{
    lemma_others_below(bar.lru_order, bar.active, bar.len());
    let o = bar.display_order();
    assert forall|i: int| 0 <= i < o.len() implies #[trigger] o[i] < bar.len() by {
        if bar.mode == TabBarMode::Lru && i > 0 {
            assert(o[i] == bar.lru_others()[i - 1]);
        }
    }
}

/// The bar's state after drawing in `w` columns: Static and Lru bars
/// scroll to keep the active tab in view.
pub open spec fn drawn_state(bar: TabBarState, w: nat) -> TabBarState {
    if w > 0 && bar.len() > 0 && bar.mode != TabBarMode::Single {
        scrolled_to_active(bar, bar.display_order(), w)
    } else {
        bar
    }
}

impl TabBar {
    fn draw_left_part(&self, p: &mut Cursor)
        requires
            old(p).x == 0,
        ensures
            final(p).pen() == left_part(self@, old(p).pen()),
    {
        let so = self.scroll_offset();
        if so > 0 {
            let mut ind = String::new();
            push_char(&mut ind, '\u{2026}');
            push_decimal(&mut ind, so);
            assert(ind@ =~= left_indicator(so as nat));
            let n = cols_of(ind.as_str());
            p.put(ind, Style::new(self.palette().dim_fg, ground_of(self.fill())));
            p.x = n;
        }
    }

    fn draw_separator(&self, w: u16, g: &BarGlyphs, order: &Vec<usize>, apos: usize, k: usize, p: &mut Cursor) -> (ok: bool)
        requires
            self.wf(),
            order@ == self@.display_order(),
            self@.scroll_offset + k < order.len(),
            apos == active_pos(self@),
        ensures
            ok == separator_step(self@, g@, w as int, k as nat, old(p).pen()).ok,
            ok ==> final(p).pen() == separator_step(self@, g@, w as int, k as nat, old(p).pen()),
    {
        let so = self.scroll_offset();
        let pos = so + k;
        let tab = order[pos];
        let ts = self.tab_style(pos, tab);
        let tl = cols_of(g.tab_left.as_str());
        let tr = cols_of(g.tab_right.as_str());
        if k == 0 && so == 0 {
            if p.x as u32 + tl as u32 > 65535 {
                return false;
            }
            if p.x as u32 + tl as u32 > w as u32 {
                return true;
            }
            p.put(copy_of(g.tab_left.as_str()), Style::new(ts.bg, ground_of(self.fill())));
            p.x = p.x + tl;
            return true;
        }
        if p.x >= w {
            return true;
        }
        let pb = p.prev_bg;
        if p.prev_active {
            p.put(copy_of(g.tab_right.as_str()), Style::new(pb, ts.bg));
            return p.advance(tr);
        }
        if tab == self.active_index() {
            p.put(copy_of(g.tab_left.as_str()), Style::new(ts.bg, pb));
            return p.advance(tl);
        }
        let s = if pos <= apos { g.separator_left.as_str() } else { g.separator.as_str() };
        let sl = cols_of(s);
        p.put(copy_of(s), Style::new(self.palette().separator_fg, ts.bg));
        p.advance(sl)
    }

    fn draw_text(&self, w: u16, order: &Vec<usize>, k: usize, text: &str, p: &mut Cursor) -> (ok: bool)
        requires
            self.wf(),
            order@ == self@.display_order(),
            self@.scroll_offset + k < order.len(),
            forall|i: int| 0 <= i < order.len() ==> #[trigger] order@[i] < self@.len(),
            text@ == spec_tab_label(self@, (self@.scroll_offset + k) as nat, order@[self@.scroll_offset + k]),
        ensures
            ok == text_step(self@, w as int, k as nat, old(p).pen()).ok,
            ok ==> final(p).pen() == text_step(self@, w as int, k as nat, old(p).pen()),
    {
        let so = self.scroll_offset();
        let pos = so + k;
        let tab = order[pos];
        let ts = self.tab_style(pos, tab);
        let tw = cols_of(text);
        let x = p.x;
        if x as u32 + tw as u32 > 65535 {
            return false;
        }
        if x as u32 + tw as u32 <= w as u32 {
            p.put(copy_of(text), Style::new(ts.fg, ts.bg));
            let badges = self.badges();
            let styles = self.badge_styles();
            assert(badges_view(badges@)[tab as int] == self@.badges[tab as int]);
            match (&badges[tab], styles[tab]) {
                (Some(b), Some(bs)) => {
                    let bl = cols_of(b.as_str());
                    if (x as u32 + tw as u32) < bl as u32 {
                        return false;
                    }
                    let bx: u16 = (x as u32 + tw as u32 - bl as u32) as u16;
                    p.put_at(bx, copy_of(b.as_str()), Style::new(bs.fg, ts.bg));
                },
                _ => {},
            }
            p.x = x + tw;
        }
        p.prev_bg = ts.bg;
        p.prev_active = tab == self.active_index();
        true
    }

    fn draw_segments(&self, w: u16, g: &BarGlyphs, order: &Vec<usize>, segs: &Vec<(usize, String, usize)>, p: &mut Cursor) -> (ok: bool)
        requires
            self.wf(),
            order@ == self@.display_order(),
            forall|i: int| 0 <= i < order.len() ==> #[trigger] order@[i] < self@.len(),
            segs.len() > 0 ==> self@.scroll_offset + segs.len() <= order.len(),
            forall|k: int| 0 <= k < segs.len() ==> {
                let q = (self@.scroll_offset + k) as nat;
                (#[trigger] segs@[k]).1@ == spec_tab_label(self@, q, order@[q as int])
            },
        ensures
            ok == seg_run(self@, g@, w as int, segs.len() as nat, old(p).pen()).ok,
            ok ==> final(p).pen() == seg_run(self@, g@, w as int, segs.len() as nat, old(p).pen()),
    {
        let ghost p0 = p.pen();
        let apos = match position_of(order, self.active_index()) {
            Some(a) => a,
            None => 0,
        };
        let mut k: usize = 0;
        while k < segs.len()
            invariant
                k <= segs.len(),
                self.wf(),
                order@ == self@.display_order(),
                forall|i: int| 0 <= i < order.len() ==> #[trigger] order@[i] < self@.len(),
                segs.len() > 0 ==> self@.scroll_offset + segs.len() <= order.len(),
                forall|j: int| 0 <= j < segs.len() ==> {
                    let q = (self@.scroll_offset + j) as nat;
                    (#[trigger] segs@[j]).1@ == spec_tab_label(self@, q, order@[q as int])
                },
                apos == active_pos(self@),
                p.pen() == seg_run(self@, g@, w as int, k as nat, p0),
                p0 == old(p).pen(),
            decreases segs.len() - k,
        {
            let ghost before = p.pen();
            if !self.draw_separator(w, g, order, apos, k, p) {
                proof {
                    assert(!seg_run(self@, g@, w as int, (k + 1) as nat, p0).ok);
                    lemma_run_fails(self@, g@, w as int, (k + 1) as nat, segs.len() as nat, p0);
                }
                return false;
            }
            let ghost mid = p.pen();
            if !self.draw_text(w, order, k, segs[k].1.as_str(), p) {
                proof {
                    assert(!seg_run(self@, g@, w as int, (k + 1) as nat, p0).ok);
                    lemma_run_fails(self@, g@, w as int, (k + 1) as nat, segs.len() as nat, p0);
                }
                return false;
            }
            k += 1;
        }
        true
    }

    fn draw_right_part(&self, w: u16, g: &BarGlyphs, order_len: usize, n: usize, p: &mut Cursor) -> (ok: bool)
        requires
            self.wf(),
            order_len == self@.display_order().len(),
            n > 0 ==> self@.scroll_offset + n <= order_len,
        ensures
            ok == right_part(self@, g@, w as int, n as nat, old(p).pen()).ok,
            ok ==> final(p).pen() == right_part(self@, g@, w as int, n as nat, old(p).pen()),
    {
        let so = self.scroll_offset();
        let visible_end: usize = if n == 0 { so } else { so + n };
        let hidden_right: usize = if order_len >= visible_end { order_len - visible_end } else { 0 };
        let fbg = ground_of(self.fill());
        let tr = cols_of(g.tab_right.as_str());
        let x = p.x;
        let pb = p.prev_bg;
        if hidden_right == 0 {
            if x as u32 + tr as u32 > 65535 {
                return false;
            }
            if x as u32 + tr as u32 <= w as u32 {
                p.put(copy_of(g.tab_right.as_str()), Style::new(pb, fbg));
                p.x = x + tr;
            }
            return true;
        }
        if x >= w {
            return true;
        }
        let mut badge = copy_of(g.dropdown_arrow.as_str());
        push_char(&mut badge, '\u{2026}');
        push_decimal(&mut badge, hidden_right);
        assert(badge@ =~= right_indicator(g@, hidden_right as nat));
        let bl = cols_of(badge.as_str());
        let slot: usize = if visible_end < 9 { visible_end } else { 9 };
        let pal = self.palette();
        let bbg = pal.inactive[slot].bg;
        let bfg = pal.badge_fg;
        let reach: u32 = x as u32 + tr as u32 + bl as u32 + tr as u32;
        if reach > 65535 {
            return false;
        }
        if reach <= w as u32 {
            p.put(copy_of(g.tab_right.as_str()), Style::new(pb, bbg));
            p.put_at(x + tr, badge, Style::new(bfg, bbg));
            p.put_at(x + tr + bl, copy_of(g.tab_right.as_str()), Style::new(bbg, fbg));
        } else if x as u32 + tr as u32 + bl as u32 <= w as u32 {
            p.put(copy_of(g.tab_right.as_str()), Style::new(pb, bbg));
            p.put_at(x + tr, badge, Style::new(bfg, bbg));
        } else {
            let avail: usize = (w - x) as usize;
            let chars = chars_of(badge.as_str());
            let shown = if avail <= chars.len() {
                let t = string_from_range(&chars, 0, avail);
                assert(t@ =~= badge@.take(avail as int));
                t
            } else {
                badge
            };
            p.put(shown, Style::new(bfg, bbg));
        }
        true
    }

    /// What the bar draws in `w` columns: the fill, then the tabs as the
    /// mode lays them out. Static and Lru bars first scroll to keep the
    /// active tab in view. `badge_w` is the display width of the active
    /// tab's badge. `None` exactly when a column would leave the 16-bit
    /// range.
    pub fn draw_bar(&mut self, w: u16, g: &BarGlyphs, badge_w: u16) -> (r: Option<Vec<PrintOp>>)
        requires
            old(self).wf(),
        ensures
            final(self).wf(),
            final(self)@ == drawn_state(old(self)@, w as nat),
            match r {
                Some(v) => bar_plan(final(self)@, g@, w as int, badge_w as int).ok
                    && ops_view(v@) == bar_plan(final(self)@, g@, w as int, badge_w as int).ops,
                None => !bar_plan(final(self)@, g@, w as int, badge_w as int).ok,
            },
    {
        if w == 0 {
            let v: Vec<PrintOp> = Vec::new();
            assert(ops_view(v@) =~= Seq::<OpView>::empty());
            return Some(v);
        }
        let fill = self.fill();
        let mut p = Cursor { x: 0, ops: Vec::new(), prev_bg: ground_of(fill), prev_active: false };
        assert(ops_view(p.ops@) =~= Seq::<OpView>::empty());
        p.put(fill_text(fill.ch, w), fill.style);
        assert(p.pen() == blank(self@, w as nat));
        if self.tab_count() == 0 {
            return Some(p.ops);
        }
        match self.mode() {
            TabBarMode::Single => {
                if !self.draw_single_body(w, g, badge_w, &mut p) {
                    return None;
                }
                if !self.draw_count_part(w, g, &mut p) {
                    return None;
                }
                Some(p.ops)
            },
            _ => {
                let order = self.display_order();
                proof { lemma_order_below(self@); }
                self.adjust_scroll_for_active(&order, w);
                assert(order@ == self@.display_order());
                let segs = self.compute_segments(&order, w);
                proof { lemma_segment_count_bound(self@, order@, w as nat); }
                self.draw_left_part(&mut p);
                if !self.draw_segments(w, g, &order, &segs, &mut p) {
                    return None;
                }
                if !self.draw_right_part(w, g, order.len(), segs.len(), &mut p) {
                    return None;
                }
                Some(p.ops)
            },
        }
    }
}

} // verus!
