//! Tree tables: a tree column on the left and fixed-width extra columns
//! on the right, each cell aligned within its column.

use vstd::prelude::*;

use crate::tab_group_layout::byte_len;
use crate::tab_panel::wrap16;
use crate::text::{chars_of, find_char, spec_find, string_from_range};

verus! {

/// How a column aligns its cells.
#[derive(Clone, Copy, Debug, PartialEq, Eq, Structural)]
pub enum ColAlign {
    Left,
    Right,
    Center,
    /// At the decimal point; a number without one ends where the point
    /// would be.
    Decimal,
}

/// What a sampled cell holds, once trimmed.
#[derive(Clone, Copy, Debug, PartialEq, Eq, Structural)]
pub enum CellKind {
    /// Nothing but whitespace.
    Blank,
    /// Something that is not a number.
    Text,
    /// A number without a `.`.
    Number,
    /// A number with a `.`.
    DecimalNumber,
}

/// Counts over the first `k` samples: non-blank cells, numbers, and
/// whether a number has a `.`.
pub open spec fn sample_counts(kinds: Seq<CellKind>, k: nat) -> (nat, nat, bool)
    decreases k,
{
    if k == 0 {
        (0, 0, false)
    } else {
        let (t, n, dot) = sample_counts(kinds, (k - 1) as nat);
        match kinds[k - 1] {
            CellKind::Blank => (t, n, dot),
            CellKind::Text => (t + 1, n, dot),
            CellKind::Number => (t + 1, n + 1, dot),
            CellKind::DecimalNumber => (t + 1, n + 1, true),
        }
    }
}

/// The alignment a column's samples suggest: numbers when more than half
/// of the non-blank cells are numbers (at the point when one has a `.`),
/// else left.
pub open spec fn suggested_align(kinds: Seq<CellKind>) -> ColAlign {
    let (total, numeric, dot) = sample_counts(kinds, kinds.len());
    if total == 0 || numeric * 2 <= total {
        ColAlign::Left
    } else if dot {
        ColAlign::Decimal
    } else {
        ColAlign::Right
    }
}

/// Suggest a column's alignment from the kinds of its sampled cells.
pub fn auto_detect_align(kinds: &Vec<CellKind>) -> (a: ColAlign)
    requires
        kinds.len() <= u32::MAX / 2,
    ensures
        a == suggested_align(kinds@),
{
    let mut total: u32 = 0;
    let mut numeric: u32 = 0;
    let mut has_dot = false;
    let mut i: usize = 0;
    while i < kinds.len()
        invariant
            i <= kinds.len() <= u32::MAX / 2,
            (total as nat, numeric as nat, has_dot) == sample_counts(kinds@, i as nat),
            numeric <= total <= i,
        decreases kinds.len() - i,
    {
        match kinds[i] {
            CellKind::Blank => {},
            CellKind::Text => {
                total += 1;
            },
            CellKind::Number => {
                total += 1;
                numeric += 1;
            },
            CellKind::DecimalNumber => {
                total += 1;
                numeric += 1;
                has_dot = true;
            },
        }
        i += 1;
    }
    assert(kinds@.len() == i);
    if total == 0 || numeric * 2 <= total {
        ColAlign::Left
    } else if has_dot {
        ColAlign::Decimal
    } else {
        ColAlign::Right
    }
}

/// Sum of `width + 1` (a column and its separator) over the first `k`
/// extra columns.
pub open spec fn extra_sum(ws: Seq<u16>, k: nat) -> nat
    decreases k,
{
    if k == 0 { 0 } else { extra_sum(ws, (k - 1) as nat) + (ws[k - 1] as nat) + 1 }
}

/// The tree column's width: what the extra columns leave of `total_w`.
pub open spec fn tree_width(ws: Seq<u16>, total_w: u16) -> nat {
    let e = extra_sum(ws, ws.len());
    if total_w >= e { (total_w - e) as nat } else { 0 }
}

/// Offset and width of column `col` in a view `total_w` wide: column 0 is
/// the tree column, columns 1.. the extra columns, each after a separator.
pub open spec fn column_span(ws: Seq<u16>, total_w: u16, col: nat) -> (nat, nat) {
    let tw = tree_width(ws, total_w);
    if col == 0 {
        (0, tw)
    } else {
        let idx = (col - 1) as nat;
        let k: nat = if idx <= ws.len() { idx } else { ws.len() };
        (tw + 1 + extra_sum(ws, k), if idx < ws.len() { ws[idx as int] as nat } else { 0 })
    }
}

proof fn lemma_extra_sum_mono(ws: Seq<u16>, a: nat, b: nat)
    requires
        a <= b <= ws.len(),
    ensures
        extra_sum(ws, a) <= extra_sum(ws, b),
    decreases b,
{
    if a < b {
        lemma_extra_sum_mono(ws, a, (b - 1) as nat);
    }
}

/// Offset and width of column `col` (see `column_span`).
pub fn column_bounds(widths: &Vec<u16>, total_w: u16, col: usize) -> (r: (u16, u16))
    requires
        extra_sum(widths@, widths@.len()) <= u16::MAX,
        col > 0 ==> tree_width(widths@, total_w) + 1 + extra_sum(widths@, widths@.len()) <= u16::MAX,
    ensures
        (r.0 as nat, r.1 as nat) == column_span(widths@, total_w, col as nat),
{
    let mut extra: u16 = 0;
    let mut i: usize = 0;
    while i < widths.len()
        invariant
            i <= widths.len(),
            extra as nat == extra_sum(widths@, i as nat),
            extra_sum(widths@, widths@.len()) <= u16::MAX,
        decreases widths.len() - i,
    {
        proof {
            lemma_extra_sum_mono(widths@, (i + 1) as nat, widths@.len());
        }
        extra = extra + widths[i] + 1;
        i += 1;
    }
    let tree_w: u16 = if total_w >= extra { total_w - extra } else { 0 };
    if col == 0 {
        return (0, tree_w);
    }
    let idx = col - 1;
    let k = if idx <= widths.len() { idx } else { widths.len() };
    let mut x: u16 = tree_w + 1;
    let mut j: usize = 0;
    while j < k
        invariant
            j <= k <= widths.len(),
            x as nat == tree_width(widths@, total_w) + 1 + extra_sum(widths@, j as nat),
            tree_width(widths@, total_w) + 1 + extra_sum(widths@, widths@.len()) <= u16::MAX,
        decreases k - j,
    {
        proof {
            lemma_extra_sum_mono(widths@, (j + 1) as nat, widths@.len());
        }
        x = x + widths[j] + 1;
        j += 1;
    }
    let w = if idx < widths.len() { widths[idx] } else { 0 };
    (x, w)
}

/// Where a cell's text starts within a column `cw` wide: `text_len` is
/// its length in characters (clipped to the width) and `dot` the byte
/// position of its first `.`.
pub open spec fn align_offset(align: ColAlign, cw: nat, text_len: nat, dot: Option<nat>) -> nat {
    let sat = |a: nat, b: nat| if a >= b { (a - b) as nat } else { 0nat };
    match align {
        ColAlign::Left => 0,
        ColAlign::Right => sat(cw, text_len),
        ColAlign::Center => sat(cw, text_len) / 2,
        ColAlign::Decimal => {
            let dot_col = cw * 2 / 3;
            match dot {
                Some(dp) => sat(dot_col, dp),
                None => sat(dot_col, text_len),
            }
        },
    }
}

/// The byte position of the first `.` in `cell`.
pub open spec fn dot_byte(cell: Seq<char>) -> Option<nat> {
    match spec_find(cell, '.') {
        Some(k) => Some(byte_len(cell.take(k as int))),
        None => None,
    }
}

/// Where cell text `cell` starts within its column `cw` wide.
pub fn cell_offset(cell: &str, cw: u16, align: ColAlign) -> (off: usize)
    ensures
        off as nat == align_offset(align, cw as nat,
            if cell@.len() <= cw { cell@.len() } else { cw as nat }, dot_byte(cell@)),
{
    let cs = chars_of(cell);
    let n = cs.len();
    let cwu = cw as usize;
    let text_len = if n <= cwu { n } else { cwu };
    match align {
        ColAlign::Left => 0,
        ColAlign::Right => if cwu >= text_len { cwu - text_len } else { 0 },
        ColAlign::Center => (if cwu >= text_len { cwu - text_len } else { 0 }) / 2,
        ColAlign::Decimal => {
            let dot_col = cwu * 2 / 3;
            proof {
                crate::text::lemma_find_props(cs@, '.');
            }
            match find_char(&cs, '.') {
                Some(k) => {
                    let before = string_from_range(&cs, 0, k);
                    assert(before@ =~= cell@.take(k as int));
                    let dp = before.as_str().len();
                    if dot_col >= dp { dot_col - dp } else { 0 }
                },
                None => if dot_col >= text_len { dot_col - text_len } else { 0 },
            }
        },
    }
}

/// At most the first `w` characters of `t`.
pub open spec fn clip(t: Seq<char>, w: nat) -> Seq<char> {
    if t.len() <= w { t } else { t.take(w as int) }
}

/// The tree column of a row.
#[derive(Clone, Debug, PartialEq, Eq)]
pub enum TreeCell {
    /// The label as is, from column 0.
    Raw { text: String },
    /// The expand marker (two columns) at `marker_x`, then the label.
    Structured { marker_x: u16, label_x: u16, text: String },
}

/// The tree column of a row at `depth` with `label`, in a tree column
/// `tree_w` wide: raw labels start at column 0; otherwise the marker sits
/// two columns per level in (but inside the column) and the label follows
/// it, clipped to the column.
pub open spec fn tree_cell(depth: nat, label: Seq<char>, tree_w: u16, raw: bool) -> (bool, nat, nat, Seq<char>) {
    if raw {
        (true, 0, 0, clip(label, tree_w as nat))
    } else {
        let indent = wrap16(depth * 2);
        let last: nat = if tree_w >= 1 { (tree_w - 1) as nat } else { 0 };
        let mx: nat = if indent <= last { indent } else { last };
        let lx = mx + 2;
        (false, mx, lx, if lx >= tree_w { Seq::empty() } else { clip(label, (tree_w - lx) as nat) })
    }
}

pub open spec fn tree_cell_view(c: TreeCell) -> (bool, nat, nat, Seq<char>) {
    match c {
        TreeCell::Raw { text } => (true, 0, 0, text@),
        TreeCell::Structured { marker_x, label_x, text } => (false, marker_x as nat, label_x as nat, text@),
    }
}

/// `label` clipped to `w` characters.
fn clipped(label: &str, w: usize) -> (s: String)
    ensures
        s@ == clip(label@, w as nat),
{
    let cs = chars_of(label);
    let take = if cs.len() <= w { cs.len() } else { w };
    let s = string_from_range(&cs, 0, take);
    assert(s@ =~= clip(label@, w as nat));
    s
}

/// Lay out a row's tree column.
pub fn tree_cell_layout(depth: usize, label: &str, tree_w: u16, raw: bool) -> (c: TreeCell)
    requires
        depth * 2 <= usize::MAX,
        !raw ==> tree_cell(depth as nat, label@, tree_w, raw).2 <= u16::MAX,
    ensures
        tree_cell_view(c) == tree_cell(depth as nat, label@, tree_w, raw),
{
    if raw {
        return TreeCell::Raw { text: clipped(label, tree_w as usize) };
    }
    let d2 = depth * 2;
    let indent: u16 = d2 as u16;
    assert(indent == d2 % 65536) by (bit_vector)
        requires indent == d2 as u16;
    let last: u16 = if tree_w >= 1 { tree_w - 1 } else { 0 };
    let mx = if indent <= last { indent } else { last };
    let lx: u16 = mx + 2;
    let text = if lx >= tree_w { String::new() } else { clipped(label, (tree_w - lx) as usize) };
    TreeCell::Structured { marker_x: mx, label_x: lx, text }
}

/// An extra column's cell on a row: its separator's column, and where its
/// text starts and what of it fits (none when only the separator fits).
pub struct ExtraCell {
    pub col: usize,
    pub sep_x: u16,
    pub content: Option<(u16, String)>,
}

/// Extra cells from column `col` on, `abs_x` cells into the extra area
/// scrolled by `hs`, right of a tree column `tree_w` wide in a view
/// `total_w` wide. Columns scrolled out are skipped; the run stops at the
/// first column starting past the view.
pub open spec fn extra_run(ws: Seq<u16>, n: nat, cells: Seq<Seq<char>>, aligns: Seq<ColAlign>,
    tree_w: nat, total_w: nat, hs: nat, col: nat, abs_x: nat) -> Seq<(nat, nat, Option<(nat, Seq<char>)>)>
    decreases n - col,
{
    if col >= n {
        Seq::empty()
    } else {
        let ct: nat = 1 + (ws[col as int] as nat);
        if abs_x + ct <= hs {
            extra_run(ws, n, cells, aligns, tree_w, total_w, hs, col + 1, abs_x + ct)
        } else {
            let sx = tree_w + if abs_x >= hs { (abs_x - hs) as nat } else { 0 };
            if sx >= total_w {
                Seq::empty()
            } else {
                let cx = sx + 1;
                let cell = cells[col as int];
                let cw = ws[col as int] as nat;
                let content = if cx >= total_w {
                    None
                } else {
                    let off = align_offset(aligns[col as int], cw, if cell.len() <= cw { cell.len() } else { cw }, dot_byte(cell));
                    Some((cx + off, clip(cell, (total_w - cx) as nat)))
                };
                seq![(col, sx, content)] + extra_run(ws, n, cells, aligns, tree_w, total_w, hs, col + 1, abs_x + ct)
            }
        }
    }
}

/// The extra-column run stays within the coordinate ranges.
pub open spec fn extra_fits(ws: Seq<u16>, n: nat, cells: Seq<Seq<char>>, aligns: Seq<ColAlign>,
    tree_w: nat, total_w: nat, hs: nat, col: nat, abs_x: nat) -> bool
    decreases n - col,
{
    if col >= n {
        true
    } else {
        let ct: nat = 1 + (ws[col as int] as nat);
        &&& ct <= u16::MAX
        &&& abs_x + ct <= u16::MAX
        &&& (abs_x + ct <= hs ==> extra_fits(ws, n, cells, aligns, tree_w, total_w, hs, col + 1, abs_x + ct))
        &&& (abs_x + ct > hs ==> {
            let sx = tree_w + if abs_x >= hs { (abs_x - hs) as nat } else { 0 };
            &&& sx <= u16::MAX
            &&& (sx < total_w ==> {
                let cx = sx + 1;
                let cell = cells[col as int];
                let cw = ws[col as int] as nat;
                let off = align_offset(aligns[col as int], cw, if cell.len() <= cw { cell.len() } else { cw }, dot_byte(cell));
                &&& (cx < total_w ==> cx + off <= u16::MAX)
                &&& extra_fits(ws, n, cells, aligns, tree_w, total_w, hs, col + 1, abs_x + ct)
            })
        })
    }
}

pub open spec fn extra_view(e: ExtraCell) -> (nat, nat, Option<(nat, Seq<char>)>) {
    (e.col as nat, e.sep_x as nat, match e.content {
        Some((x, t)) => Some((x as nat, t@)),
        None => None,
    })
}

/// Whether laying out a row's extra columns stays within the coordinate
/// ranges (what [`extra_cells`] needs).
pub fn extra_cells_fit(widths: &Vec<u16>, col_count: usize, cells: &Vec<String>, aligns: &Vec<ColAlign>,
    tree_w: u16, total_w: u16, h_scroll: u16) -> (ok: bool)
    requires
        cells.len() >= widths.len(),
        aligns.len() >= widths.len(),
    ensures
        ok == extra_fits(widths@, if col_count <= widths.len() { col_count as nat } else { widths.len() as nat },
            cells@.map_values(|c: String| c@), aligns@, tree_w as nat, total_w as nat, h_scroll as nat, 0, 0),
{
    let n = if col_count <= widths.len() { col_count } else { widths.len() };
    let ghost cv = cells@.map_values(|c: String| c@);
    let ghost whole = extra_fits(widths@, n as nat, cv, aligns@, tree_w as nat, total_w as nat, h_scroll as nat, 0, 0);
    let mut abs_x: u32 = 0;
    let mut col: usize = 0;
    while col < n
        invariant
            n <= widths.len() <= cells.len(),
            widths.len() <= aligns.len(),
            col <= n,
            abs_x <= 65535,
            cv == cells@.map_values(|c: String| c@),
            whole == extra_fits(widths@, n as nat, cv, aligns@, tree_w as nat, total_w as nat, h_scroll as nat, col as nat, abs_x as nat),
            whole == extra_fits(widths@, n as nat, cv, aligns@, tree_w as nat, total_w as nat, h_scroll as nat, 0, 0),
            n == (if col_count <= widths.len() { col_count } else { widths.len() }),
        decreases n - col,
    {
        let ct: u32 = 1 + widths[col] as u32;
        if ct > 65535 || abs_x + ct > 65535 {
            return false;
        }
        if abs_x + ct > h_scroll as u32 {
            let sx: u32 = tree_w as u32 + if abs_x >= h_scroll as u32 { abs_x - h_scroll as u32 } else { 0 };
            if sx > 65535 {
                return false;
            }
            if sx >= total_w as u32 {
                return true;
            }
            let cx = sx + 1;
            if cx < total_w as u32 {
                let off = cell_offset(cells[col].as_str(), widths[col], aligns[col]);
                assert(cv[col as int] == cells@[col as int]@);
                if off > 65535 || cx + off as u32 > 65535 {
                    return false;
                }
            }
        }
        abs_x = abs_x + ct;
        col += 1;
    }
    true
}

/// Lay out a row's extra columns: `cells` and `aligns` per column (the
/// data source's cell text and alignment), `col_count` columns shown at
/// most.
pub fn extra_cells(widths: &Vec<u16>, col_count: usize, cells: &Vec<String>, aligns: &Vec<ColAlign>,
    tree_w: u16, total_w: u16, h_scroll: u16) -> (v: Vec<ExtraCell>)
    requires
        cells.len() >= widths.len(),
        aligns.len() >= widths.len(),
        extra_fits(widths@, if col_count <= widths.len() { col_count as nat } else { widths.len() as nat },
            cells@.map_values(|c: String| c@), aligns@, tree_w as nat, total_w as nat, h_scroll as nat, 0, 0),
    ensures
        v@.map_values(|e: ExtraCell| extra_view(e)) == extra_run(widths@,
            if col_count <= widths.len() { col_count as nat } else { widths.len() as nat },
            cells@.map_values(|c: String| c@), aligns@, tree_w as nat, total_w as nat, h_scroll as nat, 0, 0),
{
    let n = if col_count <= widths.len() { col_count } else { widths.len() };
    let ghost cv = cells@.map_values(|c: String| c@);
    let ghost whole = extra_run(widths@, n as nat, cv, aligns@, tree_w as nat, total_w as nat, h_scroll as nat, 0, 0);
    let mut v: Vec<ExtraCell> = Vec::new();
    let mut abs_x: u16 = 0;
    let mut col: usize = 0;
    let mut stop = false;
    while col < n && !stop
        invariant
            n <= widths.len() <= cells.len(),
            widths.len() <= aligns.len(),
            col <= n,
            cv == cells@.map_values(|c: String| c@),
            !stop ==> extra_fits(widths@, n as nat, cv, aligns@, tree_w as nat, total_w as nat, h_scroll as nat, col as nat, abs_x as nat),
            !stop ==> v@.map_values(|e: ExtraCell| extra_view(e))
                + extra_run(widths@, n as nat, cv, aligns@, tree_w as nat, total_w as nat, h_scroll as nat, col as nat, abs_x as nat) == whole,
            stop ==> v@.map_values(|e: ExtraCell| extra_view(e)) == whole,
        decreases n - col, (if stop { 0int } else { 1int }),
    {
        let ct: u16 = 1 + widths[col];
        if abs_x + ct <= h_scroll {
            abs_x = abs_x + ct;
            col += 1;
        } else {
            let sx: u16 = tree_w + if abs_x >= h_scroll { abs_x - h_scroll } else { 0 };
            if sx >= total_w {
                stop = true;
                assert(v@.map_values(|e: ExtraCell| extra_view(e)) =~= v@.map_values(|e: ExtraCell| extra_view(e)) + Seq::empty());
            } else {
                let cx = sx + 1;
                let content = if cx >= total_w {
                    None
                } else {
                    let cell = cells[col].as_str();
                    let cw = widths[col];
                    let off = cell_offset(cell, cw, aligns[col]);
                    let text = clipped(cell, (total_w - cx) as usize);
                    assert(cv[col as int] == cell@);
                    Some((cx + (off as u16), text))
                };
                let ghost before = v@.map_values(|e: ExtraCell| extra_view(e));
                let e = ExtraCell { col, sep_x: sx, content };
                proof {
                    assert(extra_view(e) == (col as nat, sx as nat, match content { Some((x, t)) => Some((x as nat, t@)), None => None }));
                }
                v.push(e);
                assert(v@.map_values(|e: ExtraCell| extra_view(e)) =~= before.push(extra_view(e)));
                abs_x = abs_x + ct;
                col += 1;
            }
        }
    }
    proof {
        if !stop {
            assert(extra_run(widths@, n as nat, cv, aligns@, tree_w as nat, total_w as nat, h_scroll as nat, col as nat, abs_x as nat) =~= Seq::empty());
            assert(v@.map_values(|e: ExtraCell| extra_view(e)) + Seq::<(nat, nat, Option<(nat, Seq<char>)>)>::empty() =~= v@.map_values(|e: ExtraCell| extra_view(e)));
        }
    }
    v
}

} // verus!
