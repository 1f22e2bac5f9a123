//! What a tab group draws: the title row and the dropdown box, as pieces
//! placed on the group's own grid. Glyphs and colours are the caller's.

use vstd::prelude::*;

use crate::tab_group::{TabGroup, TabGroupState};
use crate::tab_panel::wrap16;
use vstd::utf8::encode_utf8;
use crate::text::{chars_of, decimal, push_char, push_decimal, push_str, string_from_range};

verus! {

/// What a piece of the title row is.
#[derive(Clone, Copy, Debug, PartialEq, Eq, Structural)]
pub enum ChromeKind {
    /// A separator glyph.
    Separator,
    /// A tab's label.
    Label,
    /// The active tab's label.
    ActiveLabel,
    /// The count of tabs that did not fit.
    Overflow,
}

/// A piece of the title row: where it starts, what it is, and its text
/// (empty for a separator).
pub struct ChromePiece {
    pub x: u16,
    pub kind: ChromeKind,
    pub text: String,
}

/// A tab's label: its title, with ` •` after it when it is dirty.
pub open spec fn tab_label(title: Seq<char>, dirty: bool) -> Seq<char> {
    if dirty { title + seq![' ', '•'] } else { title }
}

/// `…n`: how many tabs did not fit.
pub open spec fn overflow_badge(n: nat) -> Seq<char> {
    seq!['…'] + decimal(n)
}

/// The title row from tab `i` on, starting at column `x`, `w` columns
/// wide: each tab gets a separator and then its label, while the label
/// and one more column fit; the first tab that does not fit gets a
/// separator and, if it fits, the count of tabs left. Also returns where
/// the row ended and whether a label was placed.
pub open spec fn chrome_steps(labels: Seq<Seq<char>>, active: nat, w: nat, i: nat, x: nat) -> (Seq<(nat, ChromeKind, Seq<char>)>, nat, bool)
    decreases labels.len() - i,
{
    if i >= labels.len() || x >= w {
        (Seq::empty(), x, false)
    } else {
        let x1 = x + 1;
        let l = labels[i as int];
        if x1 + l.len() + 1 > w {
            let badge = overflow_badge((labels.len() - i) as nat);
            let sep = seq![(x, ChromeKind::Separator, Seq::<char>::empty())];
            (if x1 + badge.len() <= w { sep.push((x1, ChromeKind::Overflow, badge)) } else { sep }, x1, false)
        } else {
            let rest = chrome_steps(labels, active, w, i + 1, x1 + l.len());
            let kind = if i == active { ChromeKind::ActiveLabel } else { ChromeKind::Label };
            (seq![(x, ChromeKind::Separator, Seq::<char>::empty()), (x1, kind, l)] + rest.0, rest.1, true)
        }
    }
}

impl TabGroupState {
    /// The labels of all tabs.
    pub open spec fn labels(self) -> Seq<Seq<char>> {
        Seq::new(self.len(), |i: int| tab_label(self.titles[i], self.dirty[i]))
    }

    /// The title row: the placed tabs, then a closing separator when a
    /// label was placed and room is left. Nothing on an empty grid or
    /// without tabs.
    pub open spec fn chrome(self) -> Seq<(nat, ChromeKind, Seq<char>)> {
        let w = self.bounds.w as nat;
        if w == 0 || self.bounds.h == 0 || self.len() == 0 {
            Seq::empty()
        } else {
            let (pieces, x, any) = chrome_steps(self.labels(), self.active as nat, w, 0, 0);
            if x < w && any { pieces.push((x, ChromeKind::Separator, Seq::<char>::empty())) } else { pieces }
        }
    }

    /// Every column the title row computes stays in range.
    pub open spec fn chrome_fits(self) -> bool {
        &&& forall|i: int| 0 <= i < self.len() ==> self.bounds.w + (#[trigger] self.labels()[i]).len() + 1 <= u16::MAX
        &&& self.bounds.w + overflow_badge(self.len()).len() <= u16::MAX
    }
}

pub open spec fn piece_view(p: ChromePiece) -> (nat, ChromeKind, Seq<char>) {
    (p.x as nat, p.kind, p.text@)
}

pub open spec fn pieces_view(ps: Seq<ChromePiece>) -> Seq<(nat, ChromeKind, Seq<char>)> {
    ps.map_values(|p: ChromePiece| piece_view(p))
}

proof fn lemma_decimal_len_mono(a: nat, b: nat)
    requires
        a <= b,
    ensures
        decimal(a).len() <= decimal(b).len(),
    decreases b,
{
    if b >= 10 && a >= 10 {
        lemma_decimal_len_mono(a / 10, b / 10);
    }
}

impl TabGroup {
    fn label_at(&self, i: usize) -> (l: String)
        requires
            self.wf(),
            i < self@.len(),
        ensures
            l@ == self@.labels()[i as int],
    {
        let mut l = String::from_str(self.title_ref(i));
        if self.dirty_at(i) {
            push_char(&mut l, ' ');
            push_char(&mut l, '•');
            assert(l@ =~= self@.titles[i as int] + seq![' ', '•']);
        }
        l
    }

    /// The title row's pieces, left to right.
    pub fn chrome_layout(&self) -> (v: Vec<ChromePiece>)
        requires
            self.wf(),
            self@.chrome_fits(),
        ensures
            pieces_view(v@) == self@.chrome(),
    {
        let b = self.bounds();
        let n = self.tab_count();
        let mut v: Vec<ChromePiece> = Vec::new();
        if b.w == 0 || b.h == 0 || n == 0 {
            assert(pieces_view(v@) =~= Seq::empty());
            return v;
        }
        let w = b.w;
        let active = self.active_index();
        let ghost labels = self@.labels();
        let ghost whole = chrome_steps(labels, active as nat, w as nat, 0, 0);
        let mut x: u16 = 0;
        let mut i: usize = 0;
        let mut any = false;
        let mut overflowed = false;
        while i < n && x < w && !overflowed
            invariant
                n == self@.len(),
                labels == self@.labels(),
                self.wf(),
                self@.chrome_fits(),
                w == self@.bounds.w,
                active == self@.active,
                i <= n,
                x <= w,
                !overflowed ==> whole == ({
                    let rest = chrome_steps(labels, active as nat, w as nat, i as nat, x as nat);
                    (pieces_view(v@) + rest.0, rest.1, any || rest.2)
                }),
                overflowed ==> whole == (pieces_view(v@), x as nat, any),
            decreases n - i, (if overflowed { 0int } else { 1int }),
        {
            let x1 = x + 1;
            let label = self.label_at(i);
            let len = label.as_str().unicode_len();
            assert(len == labels[i as int].len());
            if (x1 as u64) + (len as u64) + 1 > (w as u64) {
                let mut badge = String::new();
                push_char(&mut badge, '…');
                push_decimal(&mut badge, n - i);
                assert(badge@ =~= overflow_badge((n - i) as nat));
                proof {
                    lemma_decimal_len_mono((n - i) as nat, n as nat);
                }
                let blen = badge.as_str().unicode_len();
                v.push(ChromePiece { x, kind: ChromeKind::Separator, text: String::new() });
                if (x1 as u64) + (blen as u64) <= (w as u64) {
                    v.push(ChromePiece { x: x1, kind: ChromeKind::Overflow, text: badge });
                }
                x = x1;
                overflowed = true;
                assert(pieces_view(v@) =~= whole.0);
            } else {
                let kind = if i == active { ChromeKind::ActiveLabel } else { ChromeKind::Label };
                let ghost before = pieces_view(v@);
                v.push(ChromePiece { x, kind: ChromeKind::Separator, text: String::new() });
                v.push(ChromePiece { x: x1, kind, text: label });
                assert(pieces_view(v@) =~= before + seq![(x as nat, ChromeKind::Separator, Seq::<char>::empty()), (x1 as nat, kind, labels[i as int])]);
                x = x1 + (len as u16);
                i += 1;
                any = true;
            }
        }
        assert(whole == (pieces_view(v@), x as nat, any));
        let ghost placed = pieces_view(v@);
        if x < w && any {
            v.push(ChromePiece { x, kind: ChromeKind::Separator, text: String::new() });
            assert(pieces_view(v@) =~= placed.push((x as nat, ChromeKind::Separator, Seq::<char>::empty())));
        }
        v
    }
}

/// What a dropdown row shows.
#[derive(Clone, Copy, Debug, PartialEq, Eq, Structural)]
pub enum RowKind {
    /// The search text.
    Filter,
    /// A tab.
    Entry,
    /// The selected tab.
    Selected,
}

/// A row inside the dropdown box, between its side borders.
pub struct DropdownRow {
    pub y: u16,
    pub kind: RowKind,
    pub text: String,
}

/// The dropdown box: its width (side borders included), its rows, and
/// the row of its bottom border when that fits.
pub struct DropdownBox {
    pub width: u16,
    pub rows: Vec<DropdownRow>,
    pub bottom: Option<u16>,
}

/// The length in bytes `str::len` reports for a string of these
/// characters: its UTF-8 length.
pub open spec fn byte_len(s: Seq<char>) -> nat {
    (encode_utf8(s).len() as usize) as nat
}

/// ` i:title`: a tab's dropdown entry.
pub open spec fn entry_text(i: nat, title: Seq<char>) -> Seq<char> {
    seq![' '] + decimal(i) + seq![':'] + title
}

/// `s` padded with spaces to `width` characters.
pub open spec fn padded(s: Seq<char>, width: nat) -> Seq<char> {
    if s.len() >= width { s } else { s + Seq::new((width - s.len()) as nat, |k: int| ' ') }
}

pub open spec fn max_nat(a: nat, b: nat) -> nat {
    if a >= b { a } else { b }
}

pub open spec fn min_nat(a: nat, b: nat) -> nat {
    if a <= b { a } else { b }
}

pub open spec fn row_view(r: DropdownRow) -> (nat, RowKind, Seq<char>) {
    (r.y as nat, r.kind, r.text@)
}

pub open spec fn rows_view(rs: Seq<DropdownRow>) -> Seq<(nat, RowKind, Seq<char>)> {
    rs.map_values(|r: DropdownRow| row_view(r))
}

impl TabGroupState {
    /// The UTF-8 length of the entry of the `k`-th listed tab.
    pub open spec fn entry_bytes(self, k: int) -> nat {
        let i = self.filtered()[k];
        byte_len(entry_text(i as nat, self.titles[i as int]))
    }

    /// The longest UTF-8 length among the first `k` listed entries; 6
    /// without entries.
    pub open spec fn max_entry_bytes(self, k: nat) -> nat
        decreases k,
    {
        if k == 0 {
            6
        } else if k == 1 {
            self.entry_bytes(0)
        } else {
            max_nat(self.max_entry_bytes((k - 1) as nat), self.entry_bytes(k - 1))
        }
    }

    /// How many listed tabs the box has room for at most.
    pub open spec fn dd_count(self) -> nat {
        min_nat(self.filtered().len(), 10)
    }

    /// The box's width: the longest entry or search prompt plus two
    /// border columns, within the group's width.
    pub open spec fn dd_width(self) -> nat {
        let filter_w: nat = if self.dropdown_filter.len() == 0 { 0 } else { byte_len(self.dropdown_filter) + 3 };
        min_nat(wrap16(max_nat(self.max_entry_bytes(self.dd_count()), filter_w) + 2), self.bounds.w as nat)
    }

    /// How many entries show: as many as fit between row 1 and the bottom
    /// border.
    pub open spec fn dd_visible(self) -> nat {
        min_nat(self.dd_count(), if self.bounds.h >= 3 { (self.bounds.h - 3) as nat } else { 0 })
    }

    /// The first listed entry shown, so that the selected one is visible.
    pub open spec fn dd_scroll(self, cursor: nat) -> nat {
        if cursor >= self.dd_visible() { (cursor - self.dd_visible() + 1) as nat } else { 0 }
    }

    /// The row of the first entry: below the search prompt when there is one.
    pub open spec fn dd_list_y(self) -> nat {
        if self.dropdown_filter.len() == 0 { 1 } else { 2 }
    }

    /// The last row entries may use (the grid's last row is left free).
    pub open spec fn dd_row_limit(self) -> nat {
        if self.bounds.h >= 1 { (self.bounds.h - 1) as nat } else { 0 }
    }

    /// Entry rows from the `vi`-th shown one on, stopping at the row limit.
    pub open spec fn dd_entry_rows(self, cursor: nat, vi: nat) -> Seq<(nat, RowKind, Seq<char>)>
        decreases self.dd_visible() - vi,
    {
        let row_y = self.dd_list_y() + vi;
        if vi >= self.dd_visible() || row_y >= self.dd_row_limit() {
            Seq::empty()
        } else {
            let fi = self.dd_scroll(cursor) + vi;
            let i = self.filtered()[fi as int];
            let row = (row_y, if fi == cursor { RowKind::Selected } else { RowKind::Entry },
                padded(entry_text(i as nat, self.titles[i as int]), (self.dd_width() - 2) as nat));
            seq![row] + self.dd_entry_rows(cursor, vi + 1)
        }
    }

    /// The dropdown box while the dropdown is open, on a non-empty grid,
    /// with tabs: the search prompt row when searching, the shown entries
    /// and the bottom border row if it fits.
    pub open spec fn dropdown_box(self) -> Option<(nat, Seq<(nat, RowKind, Seq<char>)>, Option<nat>)> {
        match self.dropdown_cursor {
            Some(cursor) => if self.bounds.w == 0 || self.len() == 0 {
                None
            } else {
                let prompt: Seq<(nat, RowKind, Seq<char>)> = if self.dropdown_filter.len() == 0 {
                    Seq::empty()
                } else {
                    seq![(1nat, RowKind::Filter, padded(seq!['/'] + self.dropdown_filter, (self.dd_width() - 2) as nat))]
                };
                let bot = self.dd_list_y() + self.dd_visible();
                Some((self.dd_width(), prompt + self.dd_entry_rows(cursor as nat, 0),
                    if bot < self.bounds.h { Some(bot) } else { None }))
            },
            None => None,
        }
    }

    /// Drawing the box stays in range: the width leaves room for the
    /// borders wherever a row or the bottom border is drawn, and every
    /// shown entry is a listed tab.
    pub open spec fn dropdown_drawable(self) -> bool {
        match self.dropdown_cursor {
            Some(cursor) => (self.bounds.w > 0 && self.len() > 0) ==> {
                let draws_row = self.dropdown_filter.len() > 0
                    || (self.dd_visible() > 0 && self.dd_list_y() < self.dd_row_limit());
                &&& byte_len(self.dropdown_filter) + 3 <= usize::MAX
                &&& max_nat(self.max_entry_bytes(self.dd_count()), byte_len(self.dropdown_filter) + 3) + 2 <= usize::MAX
                &&& (draws_row ==> self.dd_width() >= 2)
                &&& (self.dd_list_y() + self.dd_visible() < self.bounds.h ==> self.dd_width() >= 1)
                &&& forall|vi: nat| vi < self.dd_visible() && self.dd_list_y() + vi < self.dd_row_limit()
                    ==> #[trigger] (self.dd_scroll(cursor as nat) + vi) < self.filtered().len()
            },
            None => true,
        }
    }
}

/// ` i:title`.
fn entry_string(i: usize, title: &str) -> (s: String)
    ensures
        s@ == entry_text(i as nat, title@),
{
    let mut s = String::new();
    push_char(&mut s, ' ');
    push_decimal(&mut s, i);
    push_char(&mut s, ':');
    push_str(&mut s, title);
    assert(s@ =~= entry_text(i as nat, title@));
    s
}

/// `s` padded with spaces to `width` characters.
fn pad_to(s: String, width: usize) -> (r: String)
    ensures
        r@ == padded(s@, width as nat),
{
    let n = s.as_str().unicode_len();
    let mut r = s;
    if n < width {
        let mut k: usize = n;
        while k < width
            invariant
                n <= k <= width,
                r@.len() == k,
                r@ =~= s@ + Seq::new((k - n) as nat, |j: int| ' '),
            decreases width - k,
        {
            push_char(&mut r, ' ');
            k += 1;
            assert(r@ =~= s@ + Seq::new((k - n) as nat, |j: int| ' '));
        }
    }
    r
}

impl TabGroup {
    /// The dropdown box to draw, if the dropdown is open on a non-empty
    /// grid with tabs.
    pub fn dropdown_layout(&self) -> (r: Option<DropdownBox>)
        requires
            self.wf(),
            self@.dropdown_drawable(),
        ensures
            match (r, self@.dropdown_box()) {
                (Some(b), Some((w, rows, bottom))) => b.width as nat == w && rows_view(b.rows@) == rows
                    && bottom == (match b.bottom { Some(y) => Some(y as nat), None => None }),
                (None, None) => true,
                _ => false,
            },
    {
        let cursor = match self.dropdown_cursor() {
            Some(c) => c,
            None => { return None; },
        };
        let b = self.bounds();
        let n = self.tab_count();
        if b.w == 0 || n == 0 {
            return None;
        }
        let ghost st = self@;
        let filtered = self.filtered_indices();
        let count: usize = if filtered.len() < 10 { filtered.len() } else { 10 };
        proof {
            if st.dropdown_filter.len() > 0 {
                crate::tab_group::lemma_matching_bound(st.titles, crate::tab_group::lower_str(st.dropdown_filter), st.len());
            }
        }
        // Longest entry among the listed ones that may show.
        let mut max_w: usize = 6;
        let mut k: usize = 0;
        while k < count
            invariant
                k <= count,
                count == st.dd_count(),
                filtered@ == st.filtered(),
                st == self@,
                self.wf(),
                forall|j: int| 0 <= j < filtered@.len() ==> (#[trigger] filtered@[j] as int) < st.len(),
                max_w == st.max_entry_bytes(k as nat),
            decreases count - k,
        {
            let i = filtered[k];
            let e = entry_string(i, self.title_ref(i));
            let bytes = e.as_str().len();
            if k == 0 || bytes > max_w {
                max_w = bytes;
            }
            k += 1;
        }
        let filter = self.dropdown_filter();
        let filter_empty = filter.as_str().unicode_len() == 0;
        let filter_w: usize = if filter_empty { 0 } else { filter.as_str().len() + 3 };
        let m: usize = if max_w >= filter_w { max_w } else { filter_w };
        let m2: usize = m + 2;
        let t16: u16 = m2 as u16;
        assert(t16 == m2 % 65536) by (bit_vector)
            requires t16 == m2 as u16;
        let dw: u16 = if t16 < b.w { t16 } else { b.w };
        assert(dw as nat == st.dd_width());
        let avail: u16 = if b.h >= 3 { b.h - 3 } else { 0 };
        let visible: usize = if count < avail as usize { count } else { avail as usize };
        assert(visible as nat == st.dd_visible());
        let scroll: usize = if cursor >= visible { cursor - visible + 1 } else { 0 };
        let mut rows: Vec<DropdownRow> = Vec::new();
        let ghost prompt: Seq<(nat, RowKind, Seq<char>)> = if st.dropdown_filter.len() == 0 {
            Seq::empty()
        } else {
            seq![(1nat, RowKind::Filter, padded(seq!['/'] + st.dropdown_filter, (st.dd_width() - 2) as nat))]
        };
        if !filter_empty {
            let mut prompt_text = String::new();
            push_char(&mut prompt_text, '/');
            push_str(&mut prompt_text, filter.as_str());
            assert(prompt_text@ =~= seq!['/'] + st.dropdown_filter);
            rows.push(DropdownRow { y: 1, kind: RowKind::Filter, text: pad_to(prompt_text, (dw - 2) as usize) });
        }
        assert(rows_view(rows@) =~= prompt);
        let list_y: u16 = if filter_empty { 1 } else { 2 };
        let limit: u16 = if b.h >= 1 { b.h - 1 } else { 0 };
        let mut vi: usize = 0;
        while vi < visible && list_y + (vi as u16) < limit
            invariant
                vi <= visible,
                visible <= 10,
                visible as nat == st.dd_visible(),
                st == self@,
                self.wf(),
                st.dropdown_drawable(),
                st.dropdown_cursor == Some(cursor),
                st.bounds.w > 0,
                st.len() > 0,
                filtered@ == st.filtered(),
                forall|j: int| 0 <= j < filtered@.len() ==> (#[trigger] filtered@[j] as int) < st.len(),
                scroll as nat == st.dd_scroll(cursor as nat),
                list_y as nat == st.dd_list_y(),
                limit as nat == st.dd_row_limit(),
                dw as nat == st.dd_width(),
                rows_view(rows@) + st.dd_entry_rows(cursor as nat, vi as nat)
                    == prompt + st.dd_entry_rows(cursor as nat, 0),
            decreases visible - vi,
        {
            let row_y: u16 = list_y + (vi as u16);
            let fi = scroll + vi;
            assert(fi < filtered.len());
            let i = filtered[fi];
            let text = pad_to(entry_string(i, self.title_ref(i)), (dw - 2) as usize);
            let kind = if fi == cursor { RowKind::Selected } else { RowKind::Entry };
            let ghost before = rows_view(rows@);
            rows.push(DropdownRow { y: row_y, kind, text });
            assert(rows_view(rows@) =~= before.push((row_y as nat, kind, text@)));
            assert(st.dd_entry_rows(cursor as nat, vi as nat) =~= seq![(row_y as nat, kind, text@)] + st.dd_entry_rows(cursor as nat, (vi + 1) as nat));
            vi += 1;
        }
        assert(st.dd_entry_rows(cursor as nat, vi as nat) =~= Seq::empty());
        assert(rows_view(rows@) =~= prompt + st.dd_entry_rows(cursor as nat, 0));
        let bot: u16 = list_y + (visible as u16);
        let bottom = if bot < b.h { Some(bot) } else { None };
        Some(DropdownBox { width: dw, rows, bottom })
    }
}

impl TabGroup {
    /// Whether the title row's columns stay in range (what
    /// [`TabGroup::chrome_layout`] needs).
    pub fn chrome_fits(&self) -> (b: bool)
        requires
            self.wf(),
        ensures
            b == self@.chrome_fits(),
    {
        let w = self.bounds().w as u128;
        let n = self.tab_count();
        let mut i: usize = 0;
        while i < n
            invariant
                i <= n,
                n == self@.len(),
                self.wf(),
                w == self@.bounds.w,
                forall|k: int| 0 <= k < i ==> self@.bounds.w + (#[trigger] self@.labels()[k]).len() + 1 <= u16::MAX,
            decreases n - i,
        {
            let l = self.label_at(i);
            if w + l.as_str().unicode_len() as u128 + 1 > 65535 {
                return false;
            }
            i += 1;
        }
        let mut badge = String::new();
        push_char(&mut badge, '…');
        crate::text::push_decimal(&mut badge, n);
        assert(badge@ =~= overflow_badge(n as nat));
        w + badge.as_str().unicode_len() as u128 <= 65535
    }

    /// Whether drawing the open dropdown stays in range (what
    /// [`TabGroup::dropdown_layout`] needs).
    pub fn dropdown_drawable(&self) -> (ok: bool)
        requires
            self.wf(),
        ensures
            ok == self@.dropdown_drawable(),
    {
        let cursor = match self.dropdown_cursor() {
            Some(c) => c,
            None => { return true; },
        };
        let b = self.bounds();
        let n = self.tab_count();
        if b.w == 0 || n == 0 {
            return true;
        }
        let ghost st = self@;
        let filtered = self.filtered_indices();
        let count: usize = if filtered.len() < 10 { filtered.len() } else { 10 };
        proof {
            if st.dropdown_filter.len() > 0 {
                crate::tab_group::lemma_matching_bound(st.titles, crate::tab_group::lower_str(st.dropdown_filter), st.len());
            }
        }
        let mut max_w: usize = 6;
        let mut k: usize = 0;
        while k < count
            invariant
                k <= count,
                count == st.dd_count(),
                filtered@ == st.filtered(),
                st == self@,
                self.wf(),
                forall|j: int| 0 <= j < filtered@.len() ==> (#[trigger] filtered@[j] as int) < st.len(),
                max_w == st.max_entry_bytes(k as nat),
            decreases count - k,
        {
            let i = filtered[k];
            let e = entry_string(i, self.title_ref(i));
            let bytes = e.as_str().len();
            if k == 0 || bytes > max_w {
                max_w = bytes;
            }
            k += 1;
        }
        let filter = self.dropdown_filter();
        let filter_empty = filter.as_str().unicode_len() == 0;
        let fbytes = filter.as_str().len();
        if fbytes > usize::MAX - 3 {
            return false;
        }
        let filter_w: usize = if filter_empty { 0 } else { fbytes + 3 };
        let m: usize = if max_w >= fbytes + 3 { max_w } else { fbytes + 3 };
        if m > usize::MAX - 2 {
            return false;
        }
        let mw: usize = if max_w >= filter_w { max_w } else { filter_w };
        let m2: usize = mw + 2;
        let t16: u16 = m2 as u16;
        assert(t16 == m2 % 65536) by (bit_vector)
            requires t16 == m2 as u16;
        let dw: u16 = if t16 < b.w { t16 } else { b.w };
        assert(dw as nat == st.dd_width());
        let avail: u16 = if b.h >= 3 { b.h - 3 } else { 0 };
        let visible: usize = if count < avail as usize { count } else { avail as usize };
        assert(visible as nat == st.dd_visible());
        let list_y: usize = if filter_empty { 1 } else { 2 };
        let limit: usize = if b.h >= 1 { (b.h - 1) as usize } else { 0 };
        let draws_row = !filter_empty || (visible > 0 && list_y < limit);
        if draws_row && dw < 2 {
            return false;
        }
        if list_y + visible < b.h as usize && dw < 1 {
            return false;
        }
        let scroll: usize = if cursor >= visible { cursor - visible + 1 } else { 0 };
        assert(scroll as nat == st.dd_scroll(cursor as nat));
        let room: usize = if limit > list_y { limit - list_y } else { 0 };
        let shown: usize = if visible < room { visible } else { room };
        let ok = shown == 0 || scroll + shown - 1 < filtered.len();
        proof {
            if ok {
                assert forall|vi: nat| vi < st.dd_visible() && st.dd_list_y() + vi < st.dd_row_limit()
                    implies #[trigger] (st.dd_scroll(cursor as nat) + vi) < st.filtered().len() by {
                    assert(vi < shown);
                }
            } else {
                let vi = (shown - 1) as nat;
                assert(vi < st.dd_visible() && st.dd_list_y() + vi < st.dd_row_limit());
                assert(!((st.dd_scroll(cursor as nat) + vi) < st.filtered().len()));
            }
        }
        ok
    }
}

} // verus!
