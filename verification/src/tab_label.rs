//! Tab labels: title truncation and the text each tab shows.

use vstd::prelude::*;

use crate::tab_bar::{subscript, TabBar, TabBarState};
use crate::text::{chars_of, push_char, push_str, string_from_range};

verus! {

/// The first slash at or after `i` whose tail, behind an ellipsis, fits in `max`.
pub open spec fn slash_cut(t: Seq<char>, max: nat, i: nat) -> Option<nat>
    decreases t.len() - i,
{
    if i >= t.len() {
        None
    } else if t[i as int] == '/' && t.len() - i + 1 <= max {
        Some(i)
    } else {
        slash_cut(t, max, i + 1)
    }
}

/// A title cut to at most `max` characters. A path loses leading segments
/// (`…/last/segments`); other titles keep their start and end in `…`.
pub open spec fn spec_truncate_title(t: Seq<char>, max: nat) -> Seq<char> {
    if t.len() <= max {
        t
    } else if max <= 1 {
        seq!['\u{2026}']
    } else {
        match slash_cut(t, max, 0) {
            Some(s) => seq!['\u{2026}'] + t.subrange(s as int, t.len() as int),
            None => t.take(max - 1).push('\u{2026}'),
        }
    }
}

proof fn lemma_slash_cut_props(t: Seq<char>, max: nat, i: nat)
    ensures
        slash_cut(t, max, i) matches Some(s) ==> i <= s < t.len() && t[s as int] == '/'
            && t.len() - s + 1 <= max,
    decreases t.len() - i,
{
    if i < t.len() {
        lemma_slash_cut_props(t, max, i + 1);
    }
}

/// Truncate a title to fit within `max_chars`, appending `…` if needed.
/// For paths, leading segments are collapsed: `…/last/segments`.
pub fn truncate_title(title: &str, max_chars: usize) -> (r: String)
    ensures
        r@ == spec_truncate_title(title@, max_chars as nat),
{
    let v = chars_of(title);
    if v.len() <= max_chars {
        return String::from_str(title);
    }
    if max_chars <= 1 {
        let mut r = String::new();
        push_char(&mut r, '\u{2026}');
        assert(r@ =~= seq!['\u{2026}']);
        return r;
    }
    let n = v.len();
    let mut i: usize = 0;
    while i < n
        invariant
            n == v.len(),
            v@ == title@,
            n > max_chars > 1,
            i <= n,
            slash_cut(v@, max_chars as nat, 0) == slash_cut(v@, max_chars as nat, i as nat),
        decreases n - i,
    {
        if v[i] == '/' && n - i < max_chars {
            let mut r = String::new();
            push_char(&mut r, '\u{2026}');
            let tail = string_from_range(&v, i, n);
            push_str(&mut r, tail.as_str());
            assert(r@ =~= seq!['\u{2026}'] + v@.subrange(i as int, n as int));
            return r;
        }
        i += 1;
    }
    let mut r = string_from_range(&v, 0, max_chars - 1);
    push_char(&mut r, '\u{2026}');
    assert(v@.subrange(0, max_chars - 1) =~= v@.take(max_chars - 1));
    r
}

/// A truncated title never exceeds the width it was given (for widths of
/// at least one character).
pub proof fn law_truncate_fits(t: Seq<char>, max: nat)
    requires
        max >= 1,
    ensures
        spec_truncate_title(t, max).len() <= max,
{
    lemma_slash_cut_props(t, max, 0);
}

/// A title that fits is left as it is.
pub proof fn law_truncate_keeps_fitting_title(t: Seq<char>, max: nat)
    requires
        t.len() <= max,
    ensures
        spec_truncate_title(t, max) == t,
{
}

/// The mark a dirty tab shows after its title (` •`).
pub open spec fn dirty_mark(d: bool) -> Seq<char> {
    if d { seq![' ', '\u{2022}'] } else { Seq::empty() }
}

/// The text of an optional badge.
pub open spec fn badge_text(b: Option<Seq<char>>) -> Seq<char> {
    match b {
        Some(s) => s,
        None => Seq::empty(),
    }
}

/// Title (cut to 60 characters), dirty mark and badge of tab `tab_idx`.
pub open spec fn label_body(bar: TabBarState, tab_idx: usize) -> Seq<char> {
    spec_truncate_title(bar.titles[tab_idx as int], 60) + dirty_mark(bar.dirty[tab_idx as int])
        + badge_text(bar.badges[tab_idx as int])
}

/// The text of tab `tab_idx` at `display_pos`: the number subscript and
/// the body, or the body padded with a space on each side.
pub open spec fn spec_tab_label(bar: TabBarState, display_pos: nat, tab_idx: usize) -> Seq<char> {
    match bar.number_label(display_pos, tab_idx) {
        Some(n) => seq![subscript(n)] + label_body(bar, tab_idx),
        None => seq![' '] + label_body(bar, tab_idx) + seq![' '],
    }
}

impl TabBar {
    /// Badge text of tab `tab_idx`; empty when it has none or does not exist.
    pub fn badge_str(&self, tab_idx: usize) -> (b: &str)
        requires
            self.wf(),
        ensures
            tab_idx < self@.len() ==> b@ == badge_text(self@.badges[tab_idx as int]),
            tab_idx >= self@.len() ==> b@ == Seq::<char>::empty(),
    {
        let badges = self.badges();
        if tab_idx < badges.len() {
            match &badges[tab_idx] {
                Some(b) => b.as_str(),
                None => {
                    let e = "";
                    proof { reveal_strlit(""); }
                    e
                },
            }
        } else {
            proof { reveal_strlit(""); }
            ""
        }
    }

    fn push_label_body(&self, out: &mut String, tab_idx: usize)
        requires
            self.wf(),
            tab_idx < self@.len(),
        ensures
            final(out)@ == old(out)@ + label_body(self@, tab_idx),
    {
        let title = truncate_title(self.titles()[tab_idx].as_str(), 60);
        push_str(out, title.as_str());
        if self.dirty_flags()[tab_idx] {
            push_char(out, ' ');
            push_char(out, '\u{2022}');
        }
        let badge = self.badge_str(tab_idx);
        push_str(out, badge);
        assert(final(out)@ =~= old(out)@ + label_body(self@, tab_idx));
    }

    /// The label a tab shows in the multi-tab strip.
    pub fn format_tab_label(&self, display_pos: usize, tab_idx: usize) -> (r: String)
        requires
            self.wf(),
            tab_idx < self@.len(),
        ensures
            r@ == spec_tab_label(self@, display_pos as nat, tab_idx),
    {
        let mut r = String::new();
        match self.number_label(display_pos, tab_idx) {
            Some(c) => {
                push_char(&mut r, c);
                self.push_label_body(&mut r, tab_idx);
                assert(r@ =~= seq![c] + label_body(self@, tab_idx));
            },
            None => {
                push_char(&mut r, ' ');
                self.push_label_body(&mut r, tab_idx);
                push_char(&mut r, ' ');
                assert(r@ =~= seq![' '] + label_body(self@, tab_idx) + seq![' ']);
            },
        }
        r
    }

    /// The label of the active tab in Single mode: the body padded with a
    /// space on each side.
    pub fn build_single_label(&self) -> (r: String)
        requires
            self.wf(),
            self@.len() > 0,
        ensures
            r@ == seq![' '] + label_body(self@, self@.active) + seq![' '],
    {
        let mut r = String::new();
        push_char(&mut r, ' ');
        self.push_label_body(&mut r, self.active_index());
        push_char(&mut r, ' ');
        assert(r@ =~= seq![' '] + label_body(self@, self@.active) + seq![' ']);
        r
    }
}

/// How many labels of the given widths a greedy left-to-right fill takes:
/// each takes its width plus one separator cell; the first is always
/// taken, later ones only while the running total stays within `budget`.
pub open spec fn fit_count(widths: Seq<nat>, budget: nat, used: nat, first: bool) -> nat
    decreases widths.len(),
{
    if widths.len() == 0 {
        0
    } else if !first && used + widths[0] + 1 > budget {
        0
    } else {
        1 + fit_count(widths.drop_first(), budget, used + widths[0] + 1, false)
    }
}

/// Label widths of the tabs at display positions `from..order.len()`.
pub open spec fn label_widths(bar: TabBarState, order: Seq<usize>, from: nat) -> Seq<nat> {
    Seq::new(
        (order.len() - from) as nat,
        |k: int| spec_tab_label(bar, (from + k) as nat, order[from + k]).len(),
    )
}

/// Position of the first `x` in `s`, if any.
pub open spec fn index_of(s: Seq<usize>, x: usize) -> Option<nat>
    decreases s.len(),
{
    if s.len() == 0 {
        None
    } else if s[0] == x {
        Some(0)
    } else {
        match index_of(s.drop_first(), x) {
            Some(i) => Some(i + 1),
            None => None,
        }
    }
}

/// The first segment count that [`TabBar::compute_segments`] yields.
pub open spec fn segment_count(bar: TabBarState, order: Seq<usize>, avail_w: nat) -> nat {
    let budget: nat = if avail_w >= 5 { (avail_w - 5) as nat } else { 0 };
    if bar.scroll_offset <= order.len() {
        fit_count(label_widths(bar, order, bar.scroll_offset as nat), budget, 0, true)
    } else {
        0
    }
}

proof fn lemma_fit_count_le(widths: Seq<nat>, budget: nat, used: nat, first: bool)
    ensures
        fit_count(widths, budget, used, first) <= widths.len(),
    decreases widths.len(),
{
    if widths.len() > 0 {
        lemma_fit_count_le(widths.drop_first(), budget, used + widths[0] + 1, false);
    }
}

/// The labels that fit never run past the end of the order.
pub proof fn lemma_segment_count_bound(bar: TabBarState, order: Seq<usize>, avail_w: nat)
    ensures
        bar.scroll_offset <= order.len() ==> bar.scroll_offset + segment_count(bar, order, avail_w) <= order.len(),
        bar.scroll_offset > order.len() ==> segment_count(bar, order, avail_w) == 0,
{
    let budget: nat = if avail_w >= 5 { (avail_w - 5) as nat } else { 0 };
    lemma_fit_count_le(label_widths(bar, order, bar.scroll_offset as nat), budget, 0, true);
}

/// The bar after scrolling so that the active tab is among the tabs drawn
/// in `w` columns.
pub open spec fn scrolled_to_active(bar: TabBarState, order: Seq<usize>, w: nat) -> TabBarState {
    TabBarState {
        scroll_offset: match index_of(order, bar.active) {
            None => bar.scroll_offset,
            Some(p) => if p < bar.scroll_offset {
                p as usize
            } else if p >= bar.scroll_offset + segment_count(bar, order, w) {
                p as usize
            } else {
                bar.scroll_offset
            },
        },
        ..bar
    }
}

/// Scrolling for the active tab keeps it on screen: afterwards the active
/// tab is among the tabs drawn, whenever it is in the display order.
pub proof fn law_active_tab_drawn(bar: TabBarState, order: Seq<usize>, w: nat)
    requires
        index_of(order, bar.active) is Some,
        order.len() <= usize::MAX,
    ensures
        ({
            let s = scrolled_to_active(bar, order, w);
            let p = index_of(order, bar.active).unwrap();
            s.scroll_offset <= p < s.scroll_offset + segment_count(s, order, w)
        }),
{
    lemma_index_of_props(order, bar.active);
    let p = index_of(order, bar.active).unwrap();
    let s = scrolled_to_active(bar, order, w);
    if s.scroll_offset != p {
        assert(s == bar);
    } else {
        let widths = label_widths(s, order, p);
        let budget: nat = if w >= 5 { (w - 5) as nat } else { 0 };
        assert(widths.len() >= 1);
        assert(fit_count(widths, budget, 0, true) >= 1);
    }
}

pub proof fn lemma_index_of_bound(s: Seq<usize>, x: usize)
    ensures
        index_of(s, x) matches Some(i) ==> i < s.len() && s[i as int] == x,
{
    lemma_index_of_props(s, x);
}

proof fn lemma_index_of_props(s: Seq<usize>, x: usize)
    ensures
        index_of(s, x) matches Some(i) ==> i < s.len() && s[i as int] == x,
    decreases s.len(),
{
    if s.len() > 0 {
        lemma_index_of_props(s.drop_first(), x);
    }
}

/// Position of the first `x` in `v`, if any.
pub fn position_of(v: &Vec<usize>, x: usize) -> (r: Option<usize>)
    ensures
        r matches Some(p) ==> index_of(v@, x) == Some(p as nat),
        r is None ==> index_of(v@, x) is None,
{
    let mut i: usize = 0;
    assert(v@.subrange(0, v.len() as int) =~= v@);
    while i < v.len()
        invariant
            i <= v.len(),
            index_of(v@, x) == (match index_of(v@.subrange(i as int, v.len() as int), x) {
                Some(q) => Some((q + i) as nat),
                None => None,
            }),
        decreases v.len() - i,
    {
        let ghost tail = v@.subrange(i as int, v.len() as int);
        assert(tail.drop_first() =~= v@.subrange(i + 1, v.len() as int));
        if v[i] == x {
            return Some(i);
        }
        i += 1;
    }
    assert(v@.subrange(i as int, v.len() as int) =~= Seq::<usize>::empty());
    None
}

impl TabBar {
    /// The tab labels that fit in `avail_w` columns (five are kept for the
    /// overflow badge), starting at the scroll offset: each entry is the
    /// position relative to the offset, the label, and its length.
    pub fn compute_segments(&self, order: &Vec<usize>, avail_w: u16) -> (segs: Vec<(usize, String, usize)>)
        requires
            self.wf(),
            forall|i: int| 0 <= i < order.len() ==> #[trigger] order@[i] < self@.len(),
        ensures
            segs.len() == segment_count(self@, order@, avail_w as nat),
            forall|k: int| 0 <= k < segs.len() ==> {
                let p = (self@.scroll_offset + k) as nat;
                &&& (#[trigger] segs@[k]).0 == k
                &&& segs@[k].1@ == spec_tab_label(self@, p, order@[p as int])
                &&& segs@[k].2 == segs@[k].1@.len()
            },
    {
        let mut segs: Vec<(usize, String, usize)> = Vec::new();
        let budget: usize = if avail_w >= 5 { (avail_w - 5) as usize } else { 0 };
        let start = self.scroll_offset();
        if start > order.len() {
            return segs;
        }
        let ghost widths = label_widths(self@, order@, start as nat);
        let mut used: u128 = 0;
        let mut i: usize = start;
        assert(widths.subrange(0, widths.len() as int) =~= widths);
        while i < order.len()
            invariant
                start <= i <= order.len(),
                start == self@.scroll_offset,
                self.wf(),
                forall|j: int| 0 <= j < order.len() ==> #[trigger] order@[j] < self@.len(),
                widths == label_widths(self@, order@, start as nat),
                segs.len() == i - start,
                budget == (if avail_w >= 5 { (avail_w - 5) as nat } else { 0nat }),
                budget <= 65535,
                used <= usize::MAX as u128 + 1 + budget as u128,
                segs.len() == 0 ==> used == 0,
                fit_count(widths, budget as nat, 0, true)
                    == segs.len() + fit_count(widths.subrange((i - start) as int, widths.len() as int), budget as nat, used as nat, segs.len() == 0),
                forall|k: int| 0 <= k < segs.len() ==> {
                    let p = (start + k) as nat;
                    &&& (#[trigger] segs@[k]).0 == k
                    &&& segs@[k].1@ == spec_tab_label(self@, p, order@[p as int])
                    &&& segs@[k].2 == segs@[k].1@.len()
                },
            decreases order.len() - i,
        {
            let tab_idx = order[i];
            let label = self.format_tab_label(i, tab_idx);
            let len = label.unicode_len();
            let needed: u128 = len as u128 + 1;
            let rest = Ghost(widths.subrange((i - start) as int, widths.len() as int));
            assert(rest@[0] == len);
            assert(rest@.drop_first() =~= widths.subrange((i + 1 - start) as int, widths.len() as int));
            if used + needed > budget as u128 && segs.len() > 0 {
                return segs;
            }
            segs.push((i - start, label, len));
            used = used + needed;
            i += 1;
        }
        proof {
            assert(widths.subrange((i - start) as int, widths.len() as int).len() == 0);
        }
        segs
    }

    /// Scroll so that the active tab is among the tabs drawn: back to it when
    /// it lies before the offset, forward to it when it lies past the tabs
    /// that fit.
    pub fn adjust_scroll_for_active(&mut self, order: &Vec<usize>, w: u16)
        requires
            old(self).wf(),
            forall|i: int| 0 <= i < order.len() ==> #[trigger] order@[i] < old(self)@.len(),
        ensures
            final(self).wf(),
            final(self)@ == scrolled_to_active(old(self)@, order@, w as nat),
    {
        let active = self.active_index();
        let p = match position_of(order, active) {
            Some(p) => p,
            None => {
                return;
            },
        };
        if p < self.scroll_offset() {
            self.set_scroll_offset(p);
        } else {
            let segs = self.compute_segments(order, w);
            if p - self.scroll_offset() >= segs.len() {
                self.set_scroll_offset(p);
            }
        }
    }
}

} // verus!
