//! Table: columnar rows of text with a selected row, a header line and
//! vertical scrolling that keeps the selected row in view.

use vstd::prelude::*;

use crate::geometry::Rect;
use crate::keys::{KeyCode, KeyEvent};
use crate::scroll::ScrollState;
use crate::text::{chars_of, string_from_range};

verus! {

/// A column: its title and width in cells.
pub struct Column {
    pub title: String,
    pub width: u16,
}

impl Column {
    pub fn new(title: &str, width: u16) -> (c: Column)
        ensures
            c.title@ == title@,
            c.width == width,
    {
        Column { title: String::from_str(title), width }
    }
}

/// A table's rows as character sequences.
pub open spec fn rows_view(rows: Seq<Vec<String>>) -> Seq<Seq<Seq<char>>> {
    rows.map_values(|r: Vec<String>| r@.map_values(|s: String| s@))
}

/// What a key did to a table.
#[derive(Clone, Copy, Debug, PartialEq, Eq, Structural)]
pub enum TableKey {
    /// Not a table key.
    Ignored,
    /// The key moved (or tried to move) the selection.
    Consumed,
    /// Enter chose this row.
    Chosen(usize),
}

/// A table of text rows.
pub struct Table {
    columns: Vec<Column>,
    rows: Vec<Vec<String>>,
    cursor: usize,
    scroll: ScrollState,
    bounds: Rect,
    focused: bool,
    needs_redraw: bool,
}

/// A table as mathematical values.
pub struct TableState {
    /// Each column's title and width.
    pub columns: Seq<(Seq<char>, u16)>,
    /// Each row's cells.
    pub rows: Seq<Seq<Seq<char>>>,
    /// The selected row.
    pub cursor: usize,
    pub scroll: ScrollState,
    pub bounds: Rect,
    pub focused: bool,
    pub needs_redraw: bool,
}

pub open spec fn columns_view(cs: Seq<Column>) -> Seq<(Seq<char>, u16)> {
    cs.map_values(|c: Column| (c.title@, c.width))
}

impl View for Table {
    type V = TableState;

    closed spec fn view(&self) -> TableState {
        TableState {
            columns: columns_view(self.columns@),
            rows: rows_view(self.rows@),
            cursor: self.cursor,
            scroll: self.scroll,
            bounds: self.bounds,
            focused: self.focused,
            needs_redraw: self.needs_redraw,
        }
    }
}

/// Rows shown below the header in a table `h` rows high.
pub open spec fn data_height(h: u16) -> nat {
    if h >= 1 { (h - 1) as nat } else { 0 }
}

/// Rows one page key moves by in a table `h` rows high.
pub open spec fn page_rows(h: u16) -> nat {
    if h >= 2 { (h - 2) as nat } else { 0 }
}

impl TableState {
    /// The last row index (0 without rows).
    pub open spec fn last_row(self) -> nat {
        if self.rows.len() >= 1 { (self.rows.len() - 1) as nat } else { 0 }
    }

    /// The state after the selection moves to `c`: the scroll position
    /// follows (viewport below the header, total from the rows, row `c`
    /// shown) and the table redraws.
    pub open spec fn moved_to(self, c: usize) -> TableState {
        TableState {
            cursor: c,
            scroll: ScrollState {
                viewport: data_height(self.bounds.h) as usize,
                total: self.rows.len() as usize,
                ..self.scroll
            }.showing(c),
            needs_redraw: true,
            ..self
        }
    }

    /// The state after a key, and what the key did.
    pub open spec fn after_key(self, key: KeyEvent) -> (TableState, TableKey) {
        let c = self.cursor;
        let max = self.last_row();
        let page = page_rows(self.bounds.h);
        match key.code {
            KeyCode::Up => (if c > 0 { self.moved_to((c - 1) as usize) } else { self }, TableKey::Consumed),
            KeyCode::Down => (if c < max { self.moved_to((c + 1) as usize) } else { self }, TableKey::Consumed),
            KeyCode::Enter => (self, TableKey::Chosen(c)),
            KeyCode::PageDown => (self.moved_to((if c + page <= max { c + page } else { max as int }) as usize), TableKey::Consumed),
            KeyCode::PageUp => (self.moved_to((if c >= page { c - page } else { 0 }) as usize), TableKey::Consumed),
            _ => (self, TableKey::Ignored),
        }
    }
}

impl Table {
    pub fn new(columns: Vec<Column>) -> (t: Table)
        ensures
            t@.columns == columns_view(columns@),
            t@.rows.len() == 0,
            t@.cursor == 0,
            t@.scroll == (ScrollState { offset: 0, viewport: 0, total: 0 }),
            t@.bounds == (Rect { x: 0, y: 0, w: 0, h: 0 }),
            !t@.focused,
            !t@.needs_redraw,
    {
        Table {
            columns,
            rows: Vec::new(),
            cursor: 0,
            scroll: ScrollState::new(),
            bounds: Rect::zero(),
            focused: false,
            needs_redraw: false,
        }
    }

    /// Replace the rows; the selection goes back to the first row.
    pub fn set_rows(&mut self, rows: Vec<Vec<String>>)
        ensures
            final(self)@ == (TableState {
                rows: rows_view(rows@),
                cursor: 0,
                scroll: ScrollState { total: rows.len(), ..old(self)@.scroll },
                needs_redraw: true,
                ..old(self)@
            }),
    {
        let n = rows.len();
        self.rows = rows;
        self.scroll.total = n;
        self.cursor = 0;
        self.needs_redraw = true;
    }

    pub fn cursor(&self) -> (c: usize)
        ensures
            c == self@.cursor,
    {
        self.cursor
    }

    pub fn scroll(&self) -> (s: ScrollState)
        ensures
            s == self@.scroll,
    {
        self.scroll
    }

    pub fn row_count(&self) -> (n: usize)
        ensures
            n == self@.rows.len(),
    {
        self.rows.len()
    }

    pub fn bounds(&self) -> (r: Rect)
        ensures
            r == self@.bounds,
    {
        self.bounds
    }

    pub fn set_bounds(&mut self, r: Rect)
        ensures
            final(self)@ == (TableState { bounds: r, needs_redraw: true, ..old(self)@ }),
    {
        self.bounds = r;
        self.needs_redraw = true;
    }

    pub fn set_focused(&mut self, focused: bool)
        ensures
            final(self)@ == (TableState { focused: focused, needs_redraw: true, ..old(self)@ }),
    {
        self.focused = focused;
        self.needs_redraw = true;
    }

    pub fn is_focused(&self) -> (b: bool)
        ensures
            b == self@.focused,
    {
        self.focused
    }

    /// Move the selection to `c`; the scroll position follows.
    fn move_to(&mut self, c: usize)
        ensures
            final(self)@ == old(self)@.moved_to(c),
    {
        self.cursor = c;
        let h = self.bounds.h;
        self.scroll.viewport = if h >= 1 { (h - 1) as usize } else { 0 };
        self.scroll.total = self.rows.len();
        self.scroll.ensure_visible(c);
        self.needs_redraw = true;
    }

    /// A key reaching the table: Up and Down move the selection by a row,
    /// PageUp and PageDown by a page (the height less the header and one
    /// row), within the rows; the scroll position follows. Enter chooses
    /// the selected row.
    pub fn handle_key(&mut self, key: &KeyEvent) -> (r: TableKey)
        requires
            key.code == KeyCode::PageDown ==> old(self)@.cursor + page_rows(old(self)@.bounds.h) <= usize::MAX,
        ensures
            (final(self)@, r) == old(self)@.after_key(*key),
    {
        let n = self.rows.len();
        let max = if n >= 1 { n - 1 } else { 0 };
        let h = self.bounds.h;
        let page: usize = if h >= 2 { (h - 2) as usize } else { 0 };
        let c = self.cursor;
        match key.code {
            KeyCode::Up => {
                if c > 0 {
                    self.move_to(c - 1);
                }
                TableKey::Consumed
            },
            KeyCode::Down => {
                if c < max {
                    self.move_to(c + 1);
                }
                TableKey::Consumed
            },
            KeyCode::Enter => TableKey::Chosen(c),
            KeyCode::PageDown => {
                let target = c + page;
                self.move_to(if target <= max { target } else { max });
                TableKey::Consumed
            },
            KeyCode::PageUp => {
                self.move_to(if c >= page { c - page } else { 0 });
                TableKey::Consumed
            },
            _ => TableKey::Ignored,
        }
    }
}

/// At most the first `w` characters of `t`.
pub open spec fn clip(t: Seq<char>, w: nat) -> Seq<char> {
    if t.len() <= w { t } else { t.take(w as int) }
}

/// Cells of one line from column `ci` on, starting at column `x`, up to
/// (not including) column `end`: each cell is its text clipped to the
/// column's width and to what is left of the line.
pub open spec fn cell_run(texts: Seq<Seq<char>>, widths: Seq<u16>, x: nat, end: nat, ci: nat) -> Seq<(nat, Seq<char>)>
    decreases widths.len() - ci,
{
    if ci >= widths.len() || x >= end {
        Seq::empty()
    } else {
        let w: nat = if (widths[ci as int] as nat) <= end - x { widths[ci as int] as nat } else { (end - x) as nat };
        seq![(x, clip(texts[ci as int], w))] + cell_run(texts, widths, (x + widths[ci as int]) as nat, end, ci + 1)
    }
}

/// Stepping from column to column stays within the coordinate range.
pub open spec fn cells_fit(widths: Seq<u16>, x: nat, end: nat, ci: nat) -> bool
    decreases widths.len() - ci,
{
    if ci >= widths.len() || x >= end {
        true
    } else {
        x + widths[ci as int] <= u16::MAX && cells_fit(widths, (x + widths[ci as int]) as nat, end, ci + 1)
    }
}

/// How a table line is drawn.
#[derive(Clone, Copy, Debug, PartialEq, Eq, Structural)]
pub enum LineKind {
    /// Past the last row: cleared.
    Blank,
    /// A row.
    Normal,
    /// The selected row.
    Selected,
}

/// A data line: its row on screen, how it is drawn, and its cells.
pub struct TableLine {
    pub y: u16,
    pub kind: LineKind,
    pub cells: Vec<(u16, String)>,
}

/// What a table draws: the header cells and one line per data row shown.
pub struct TableDraw {
    pub header: Vec<(u16, String)>,
    pub lines: Vec<TableLine>,
}

pub open spec fn cells_view(cs: Seq<(u16, String)>) -> Seq<(nat, Seq<char>)> {
    cs.map_values(|c: (u16, String)| (c.0 as nat, c.1@))
}

pub open spec fn line_view(l: TableLine) -> (nat, LineKind, Seq<(nat, Seq<char>)>) {
    (l.y as nat, l.kind, cells_view(l.cells@))
}

pub open spec fn lines_view(ls: Seq<TableLine>) -> Seq<(nat, LineKind, Seq<(nat, Seq<char>)>)> {
    ls.map_values(|l: TableLine| line_view(l))
}

impl TableState {
    pub open spec fn widths(self) -> Seq<u16> {
        self.columns.map_values(|c: (Seq<char>, u16)| c.1)
    }

    pub open spec fn titles(self) -> Seq<Seq<char>> {
        self.columns.map_values(|c: (Seq<char>, u16)| c.0)
    }

    /// Row `idx`'s text per column; missing cells are empty.
    pub open spec fn row_texts(self, idx: int) -> Seq<Seq<char>> {
        Seq::new(self.columns.len(), |ci: int| if ci < self.rows[idx].len() { self.rows[idx][ci] } else { Seq::empty() })
    }

    pub open spec fn line_end(self) -> nat {
        (self.bounds.x + self.bounds.w) as nat
    }

    /// The header's cells.
    pub open spec fn header_cells(self) -> Seq<(nat, Seq<char>)> {
        cell_run(self.titles(), self.widths(), self.bounds.x as nat, self.line_end(), 0)
    }

    /// Data line `r`: the row `scroll.offset + r`, blank past the last row.
    pub open spec fn data_line(self, r: nat) -> (nat, LineKind, Seq<(nat, Seq<char>)>) {
        let idx = self.scroll.offset + r;
        let y = (self.bounds.y + 1 + r) as nat;
        if idx >= self.rows.len() {
            (y, LineKind::Blank, Seq::empty())
        } else {
            (y, if idx == self.cursor { LineKind::Selected } else { LineKind::Normal },
                cell_run(self.row_texts(idx), self.widths(), self.bounds.x as nat, self.line_end(), 0))
        }
    }

    /// Drawing stays within the coordinate ranges.
    pub open spec fn draw_fits(self) -> bool {
        &&& self.line_end() <= u16::MAX
        &&& (self.bounds.h >= 2 ==> self.bounds.y + self.bounds.h - 1 <= u16::MAX)
        &&& self.scroll.offset + data_height(self.bounds.h) <= usize::MAX
        &&& cells_fit(self.widths(), self.bounds.x as nat, self.line_end(), 0)
    }
}

impl Table {
    /// Cells of the header (`row` is `None`) or of row `row`.
    fn cells(&self, row: Option<usize>) -> (v: Vec<(u16, String)>)
        requires
            row matches Some(r) ==> r < self@.rows.len(),
            self@.draw_fits(),
        ensures
            cells_view(v@) == cell_run(
                match row { Some(r) => self@.row_texts(r as int), None => self@.titles() },
                self@.widths(), self@.bounds.x as nat, self@.line_end(), 0),
    {
        let ghost st = self@;
        let ghost texts = match row { Some(r) => st.row_texts(r as int), None => st.titles() };
        let end: u16 = self.bounds.x + self.bounds.w;
        let mut x: u16 = self.bounds.x;
        let mut v: Vec<(u16, String)> = Vec::new();
        let mut ci: usize = 0;
        while ci < self.columns.len() && x < end
            invariant
                st == self@,
                texts == (match row { Some(r) => st.row_texts(r as int), None => st.titles() }),
                row matches Some(r) ==> r < st.rows.len(),
                end as nat == st.line_end(),
                ci <= self.columns.len(),
                cells_fit(st.widths(), x as nat, end as nat, ci as nat),
                cells_view(v@) + cell_run(texts, st.widths(), x as nat, end as nat, ci as nat)
                    == cell_run(texts, st.widths(), st.bounds.x as nat, end as nat, 0),
            decreases self.columns.len() - ci,
        {
            let width = self.columns[ci].width;
            let w: u16 = if width <= end - x { width } else { end - x };
            let text: &str = match row {
                Some(r) => if ci < self.rows[r].len() { self.rows[r][ci].as_str() } else { "" },
                None => self.columns[ci].title.as_str(),
            };
            proof {
                reveal_strlit("");
                assert(text@ == texts[ci as int]);
            }
            let cs = chars_of(text);
            let take: usize = if cs.len() <= w as usize { cs.len() } else { w as usize };
            let clipped = string_from_range(&cs, 0, take);
            assert(clipped@ =~= clip(texts[ci as int], w as nat));
            let ghost before = cells_view(v@);
            v.push((x, clipped));
            assert(cells_view(v@) =~= before.push((x as nat, clip(texts[ci as int], w as nat))));
            assert(st.widths()[ci as int] == width);
            x = x + width;
            ci += 1;
        }
        assert(cell_run(texts, st.widths(), x as nat, end as nat, ci as nat) =~= Seq::empty());
        assert(cells_view(v@) =~= cells_view(v@) + Seq::<(nat, Seq<char>)>::empty());
        v
    }

    /// Whether drawing stays within the coordinate ranges (what
    /// [`Table::draw_layout`] needs).
    pub fn draw_fits(&self) -> (ok: bool)
        ensures
            ok == self@.draw_fits(),
    {
        let b = self.bounds;
        let end: u32 = b.x as u32 + b.w as u32;
        if end > 65535 {
            return false;
        }
        if b.h >= 2 && b.y as u32 + b.h as u32 - 1 > 65535 {
            return false;
        }
        let dh: usize = if b.h >= 1 { (b.h - 1) as usize } else { 0 };
        if self.scroll.offset > usize::MAX - dh {
            return false;
        }
        let ghost ws = self@.widths();
        assert(forall|k: int| 0 <= k < self.columns.len() ==> #[trigger] ws[k] == self.columns@[k].width);
        assert(self@.draw_fits() == cells_fit(ws, b.x as nat, end as nat, 0));
        let mut x: u32 = b.x as u32;
        let mut ci: usize = 0;
        while ci < self.columns.len() && x < end
            invariant
                ci <= self.columns.len(),
                x <= 65535,
                end <= 65535,
                end == self@.line_end(),
                ws == self@.widths(),
                ws.len() == self.columns.len(),
                forall|k: int| 0 <= k < self.columns.len() ==> #[trigger] ws[k] == self.columns@[k].width,
                self@.draw_fits() == cells_fit(ws, x as nat, end as nat, ci as nat),
            decreases self.columns.len() - ci,
        {
            let w = self.columns[ci].width;
            if x + w as u32 > 65535 {
                return false;
            }
            x = x + w as u32;
            ci += 1;
        }
        true
    }

    /// What the table draws on its bounds: nothing when they are empty;
    /// else the header, and one line per row below it, from the scroll
    /// position on.
    pub fn draw_layout(&self) -> (d: Option<TableDraw>)
        requires
            self@.draw_fits(),
        ensures
            (self@.bounds.w == 0 || self@.bounds.h == 0) ==> d is None,
            (self@.bounds.w > 0 && self@.bounds.h > 0) ==> (d matches Some(t) && {
                &&& cells_view(t.header@) == self@.header_cells()
                &&& lines_view(t.lines@) == Seq::new(data_height(self@.bounds.h), |r: int| self@.data_line(r as nat))
            }),
    {
        let b = self.bounds;
        if b.w == 0 || b.h == 0 {
            return None;
        }
        let ghost st = self@;
        let header = self.cells(None);
        let data_h: u16 = b.h - 1;
        let mut lines: Vec<TableLine> = Vec::new();
        let mut r: u16 = 0;
        while r < data_h
            invariant
                st == self@,
                st.draw_fits(),
                b == st.bounds,
                b.h > 0,
                data_h as nat == data_height(b.h),
                r <= data_h,
                lines_view(lines@) == Seq::new(r as nat, |k: int| st.data_line(k as nat)),
            decreases data_h - r,
        {
            let idx = self.scroll.offset + (r as usize);
            let y: u16 = b.y + 1 + r;
            let ghost before = lines_view(lines@);
            if idx >= self.rows.len() {
                lines.push(TableLine { y, kind: LineKind::Blank, cells: Vec::new() });
                assert(cells_view(Seq::<(u16, String)>::empty()) =~= Seq::empty());
            } else {
                let kind = if idx == self.cursor { LineKind::Selected } else { LineKind::Normal };
                let cells = self.cells(Some(idx));
                lines.push(TableLine { y, kind, cells });
            }
            assert(lines_view(lines@) =~= before.push(st.data_line(r as nat)));
            r += 1;
            assert(lines_view(lines@) =~= Seq::new(r as nat, |k: int| st.data_line(k as nat)));
        }
        Some(TableDraw { header, lines })
    }
}

/// After a key moves the selection (or pages), the selected row is on
/// screen: at or below the first shown row and above the last shown one
/// plus one, given room for at least one data row.
pub proof fn law_selected_row_shown(s: TableState, key: KeyEvent)
    requires
        s.bounds.h >= 2,
    ensures
        ({
            let t = s.after_key(key).0;
            (t.cursor != s.cursor || key.code == KeyCode::PageUp || key.code == KeyCode::PageDown)
                ==> t.scroll.offset <= t.cursor < t.scroll.offset + t.scroll.viewport
        }),
{
}

/// A selection on a row stays on a row whatever the key.
pub proof fn law_selection_in_rows(s: TableState, key: KeyEvent)
    requires
        s.cursor < s.rows.len(),
    ensures
        s.after_key(key).0.cursor < s.rows.len(),
{
}


/// Up with the selection on a row below the first moves it exactly one
/// row up; Down then Up from a row above the last comes back to it.
pub proof fn law_up_moves_one_row(s: TableState, up: KeyEvent, down: KeyEvent)
    requires
        up.code == KeyCode::Up,
        down.code == KeyCode::Down,
        s.rows.len() <= usize::MAX,
    ensures
        s.cursor > 0 ==> s.after_key(up).0.cursor == s.cursor - 1,
        s.cursor == 0 ==> s.after_key(up).0.cursor == 0,
        s.cursor + 1 < s.rows.len() ==> s.after_key(down).0.after_key(up).0.cursor == s.cursor,
{
}


/// Down moves the selection exactly one row down, staying on the last row;
/// the page keys never move it past the first or last row, PageDown never
/// up and PageUp never down.
pub proof fn law_down_and_pages(s: TableState, down: KeyEvent, pgdn: KeyEvent, pgup: KeyEvent)
    requires
        down.code == KeyCode::Down,
        pgdn.code == KeyCode::PageDown,
        pgup.code == KeyCode::PageUp,
        s.rows.len() <= usize::MAX,
        s.cursor < s.rows.len(),
    ensures
        s.cursor + 1 < s.rows.len() ==> s.after_key(down).0.cursor == s.cursor + 1,
        s.cursor + 1 == s.rows.len() ==> s.after_key(down).0.cursor == s.cursor,
        s.cursor <= s.after_key(pgdn).0.cursor < s.rows.len(),
        s.after_key(pgup).0.cursor <= s.cursor,
{
}

} // verus!
