//! Tree views: the rows a tree data source shows, its connector guides,
//! and cursor navigation over them.
//!
//! A tree data source is queried by the caller; the logic here works on
//! what it answered for the visible rows (depth, whether a row can be
//! expanded, whether it is) and returns what to ask of it next.

use vstd::prelude::*;

use crate::keys::{HandleResult, KeyCode, KeyEvent};
use crate::scroll::ScrollState;
use crate::tab_panel::wrap16;

verus! {

/// What a tree data source says of one visible row.
#[derive(Clone, Copy, Debug, PartialEq, Eq, Structural)]
pub struct RowInfo {
    pub depth: usize,
    pub expandable: bool,
    pub expanded: bool,
}

/// Scanning down from row `i`: true at the first row shallower than `d`
/// or past the end, false at the first row as deep as `d`.
pub open spec fn last_from(depths: Seq<usize>, d: usize, i: nat) -> bool
    decreases depths.len() - i,
{
    if i >= depths.len() {
        true
    } else if depths[i as int] < d {
        true
    } else if depths[i as int] == d {
        false
    } else {
        last_from(depths, d, i + 1)
    }
}

/// Whether the row is the last child of its parent: no later row at its
/// depth comes before one shallower than it.
pub open spec fn last_sibling(depths: Seq<usize>, row: nat) -> bool {
    last_from(depths, depths[row as int], row + 1)
}

/// Scanning down from row `i`: true at the first row exactly `d` deep,
/// false at the first shallower one or past the end.
pub open spec fn sibling_below(depths: Seq<usize>, d: usize, i: nat) -> bool
    decreases depths.len() - i,
{
    if i >= depths.len() {
        false
    } else if depths[i as int] < d {
        false
    } else if depths[i as int] == d {
        true
    } else {
        sibling_below(depths, d, i + 1)
    }
}

/// Whether row `row` is the last child of its parent, given the depth of
/// every visible row.
pub fn is_last_sibling(depths: &Vec<usize>, row: usize) -> (b: bool)
    requires
        row < depths.len(),
    ensures
        b == last_sibling(depths@, row as nat),
{
    let d = depths[row];
    let mut i = row + 1;
    while i < depths.len()
        invariant
            row < i <= depths.len(),
            d == depths@[row as int],
            last_sibling(depths@, row as nat) == last_from(depths@, d, i as nat),
        decreases depths.len() - i,
    {
        if depths[i] < d {
            return true;
        }
        if depths[i] == d {
            return false;
        }
        i += 1;
    }
    true
}

/// Whether an ancestor line at depth `target` continues below row `row`:
/// a later row at that depth comes before any shallower one.
pub fn ancestor_has_more_siblings(depths: &Vec<usize>, row: usize, target: usize) -> (b: bool)
    requires
        row < depths.len(),
    ensures
        b == sibling_below(depths@, target, (row + 1) as nat),
{
    let mut i = row + 1;
    while i < depths.len()
        invariant
            row < i <= depths.len(),
            sibling_below(depths@, target, (row + 1) as nat) == sibling_below(depths@, target, i as nat),
        decreases depths.len() - i,
    {
        if depths[i] < target {
            return false;
        }
        if depths[i] == target {
            return true;
        }
        i += 1;
    }
    false
}

/// A connector guide glyph.
#[derive(Clone, Copy, Debug, PartialEq, Eq, Structural)]
pub enum Guide {
    /// `│`: an ancestor line continues.
    Pipe,
    /// `├`: a child with siblings below.
    Branch,
    /// `└`: the last child.
    LastBranch,
    /// `─`: leads to the node.
    Horizontal,
}

/// Pipes for the ancestor levels `level..depth - 1` of row `row`.
pub open spec fn pipes_from(depths: Seq<usize>, row: nat, depth: nat, level: nat) -> Seq<(nat, Guide)>
    decreases depth - level,
{
    if level + 1 >= depth {
        Seq::empty()
    } else {
        let rest = pipes_from(depths, row, depth, level + 1);
        if sibling_below(depths, (level + 1) as usize, row + 1) {
            seq![(wrap16(level * 2), Guide::Pipe)] + rest
        } else {
            rest
        }
    }
}

/// The guides drawn left of a row at depth > 0: a pipe two columns per
/// ancestor level whose line continues, then `├` or `└` and `─` at the
/// row's own level (columns kept to 16 bits).
pub open spec fn row_guides(depths: Seq<usize>, row: nat) -> Seq<(nat, Guide)> {
    let depth = depths[row as int] as nat;
    if depth == 0 {
        Seq::empty()
    } else {
        let cx = wrap16(((depth - 1) * 2) as nat);
        pipes_from(depths, row, depth, 0)
            + seq![(cx, if last_sibling(depths, row) { Guide::LastBranch } else { Guide::Branch }), (cx + 1, Guide::Horizontal)]
    }
}

/// The connector guides of row `row`, left to right.
pub fn row_guides_of(depths: &Vec<usize>, row: usize) -> (v: Vec<(u16, Guide)>)
    requires
        row < depths.len(),
        depths@[row as int] == 0 || (depths@[row as int] - 1) * 2 <= usize::MAX,
    ensures
        v@.map_values(|g: (u16, Guide)| (g.0 as nat, g.1)) == row_guides(depths@, row as nat),
{
    let depth = depths[row];
    let mut v: Vec<(u16, Guide)> = Vec::new();
    if depth == 0 {
        assert(v@.map_values(|g: (u16, Guide)| (g.0 as nat, g.1)) =~= Seq::empty());
        return v;
    }
    let mut level: usize = 0;
    while level + 1 < depth
        invariant
            depth == depths@[row as int],
            1 <= depth,
            (depth - 1) * 2 <= usize::MAX,
            row < depths.len(),
            level + 1 <= depth,
            v@.map_values(|g: (u16, Guide)| (g.0 as nat, g.1)) + pipes_from(depths@, row as nat, depth as nat, level as nat)
                == pipes_from(depths@, row as nat, depth as nat, 0),
        decreases depth - level,
    {
        let ghost before = v@.map_values(|g: (u16, Guide)| (g.0 as nat, g.1));
        if ancestor_has_more_siblings(depths, row, level + 1) {
            let l2: usize = level * 2;
            let x: u16 = l2 as u16;
            assert(x == l2 % 65536) by (bit_vector)
                requires x == l2 as u16;
            v.push((x, Guide::Pipe));
            assert(v@.map_values(|g: (u16, Guide)| (g.0 as nat, g.1)) =~= before.push((wrap16((level * 2) as nat), Guide::Pipe)));
        }
        level += 1;
    }
    assert(pipes_from(depths@, row as nat, depth as nat, level as nat) =~= Seq::empty());
    let d2: usize = (depth - 1) * 2;
    let cx: u16 = d2 as u16;
    assert(cx == d2 % 65536) by (bit_vector)
        requires cx == d2 as u16;
    assert((d2 as int % 65536) % 2 == 0) by (nonlinear_arith)
        requires d2 as int == 2 * (depth - 1);
    let last = is_last_sibling(depths, row);
    let ghost before = v@.map_values(|g: (u16, Guide)| (g.0 as nat, g.1));
    v.push((cx, if last { Guide::LastBranch } else { Guide::Branch }));
    v.push((cx + 1, Guide::Horizontal));
    assert(v@.map_values(|g: (u16, Guide)| (g.0 as nat, g.1)) =~= before
        + seq![(cx as nat, if last { Guide::LastBranch } else { Guide::Branch }), ((cx + 1) as nat, Guide::Horizontal)]);
    v
}

/// A structural edit a tree-table data source may offer.
#[derive(Clone, Copy, Debug, PartialEq, Eq, Structural)]
pub enum TreeEdit {
    AddSibling,
    AddChild,
    Delete,
    SwapDown,
    SwapUp,
    Promote,
    Demote,
}

/// What a key asks of the tree's caller.
#[derive(Clone, Copy, Debug, PartialEq, Eq, Structural)]
pub enum TreeAction {
    /// Not a tree key.
    Ignored,
    /// Handled here.
    Consumed,
    /// Toggle the row's expansion, then call `after_toggle`.
    Toggle(usize),
    /// The row was chosen.
    Choose(usize),
    /// Apply the edit at the row (after saving an undo snapshot), then
    /// move the cursor to the position it reports.
    Edit(TreeEdit, usize),
    /// Undo the last edit, then call `after_undo`.
    Undo,
}

/// Cursor and scrolling over a tree's visible rows.
pub struct TreeNav {
    cursor: usize,
    scroll: ScrollState,
    height: u16,
    focused_col: Option<usize>,
    needs_redraw: bool,
}

/// Tree navigation state as values.
pub struct TreeNavState {
    pub cursor: usize,
    pub scroll: ScrollState,
    /// Rows the view shows.
    pub height: u16,
    /// The column taking edits in a tree table (0 is the tree column).
    pub focused_col: Option<usize>,
    pub needs_redraw: bool,
}

impl View for TreeNav {
    type V = TreeNavState;

    closed spec fn view(&self) -> TreeNavState {
        TreeNavState {
            cursor: self.cursor,
            scroll: self.scroll,
            height: self.height,
            focused_col: self.focused_col,
            needs_redraw: self.needs_redraw,
        }
    }
}

/// The nearest row above `r` shallower than `d`.
pub open spec fn row_above(rows: Seq<RowInfo>, d: usize, r: nat) -> Option<nat>
    decreases r,
{
    if r == 0 {
        None
    } else if rows[r - 1].depth < d {
        Some((r - 1) as nat)
    } else {
        row_above(rows, d, (r - 1) as nat)
    }
}

/// The first editable column from `start + i` on, wrapping, within `n`
/// tries.
pub open spec fn next_editable(ed: Seq<bool>, start: nat, i: nat) -> Option<usize>
    decreases ed.len() - i,
{
    if i >= ed.len() {
        None
    } else if ed[((start + i) as int) % (ed.len() as int)] {
        Some((((start + i) as int) % (ed.len() as int)) as usize)
    } else {
        next_editable(ed, start, i + 1)
    }
}

/// Rows one page key moves by: the height less one, at least one.
pub open spec fn tree_page(h: u16) -> nat {
    if h >= 2 { (h - 1) as nat } else { 1 }
}

impl TreeNavState {
    /// The scroll position following the cursor over `count` rows.
    pub open spec fn synced(self, count: nat) -> TreeNavState {
        TreeNavState {
            scroll: ScrollState { viewport: self.height as usize, total: count as usize, ..self.scroll }.showing(self.cursor),
            ..self
        }
    }

    /// The cursor moved to `c` over `count` rows; the view redraws.
    pub open spec fn moved(self, c: usize, count: nat) -> TreeNavState {
        TreeNavState { cursor: c, needs_redraw: true, ..self }.synced(count)
    }

    pub open spec fn last_row(count: nat) -> nat {
        if count >= 1 { (count - 1) as nat } else { 0 }
    }

    /// Left: collapse an expanded row, else move to the row's parent.
    pub open spec fn after_left(self, rows: Seq<RowInfo>) -> (TreeNavState, TreeAction) {
        let n = rows.len();
        let c = self.cursor;
        if c >= n {
            (self, TreeAction::Consumed)
        } else if rows[c as int].expandable && rows[c as int].expanded {
            (self, TreeAction::Toggle(c))
        } else {
            let d = rows[c as int].depth;
            let target: usize = if d > 0 {
                match row_above(rows, d, c as nat) {
                    Some(r) => r as usize,
                    None => c,
                }
            } else {
                c
            };
            (self.moved(target, n), TreeAction::Consumed)
        }
    }

    /// Keys moving the cursor by rows, pages and to the ends; `None` for
    /// other keys.
    pub open spec fn after_move_key(self, code: KeyCode, n: nat) -> Option<TreeNavState> {
        let c = self.cursor;
        let max = Self::last_row(n);
        let page = tree_page(self.height);
        match code {
            KeyCode::Up => Some(if c > 0 { self.moved((c - 1) as usize, n) } else { self }),
            KeyCode::Down => Some(if c < max { self.moved((c + 1) as usize, n) } else { self }),
            KeyCode::Home => Some(self.moved(0, n)),
            KeyCode::End => Some(self.moved(max as usize, n)),
            KeyCode::PageDown => Some(self.moved((if c + page <= max { c + page } else { max as int }) as usize, n)),
            KeyCode::PageUp => Some(self.moved((if c >= page { c - page } else { 0 }) as usize, n)),
            _ => None,
        }
    }

    /// A key in a tree view over `rows`: Up, Down, Home, End and the page
    /// keys move the cursor; Enter and Right expand a collapsed row or
    /// choose any other; Left collapses or goes to the parent.
    pub open spec fn after_tree_key(self, key: KeyEvent, rows: Seq<RowInfo>) -> (TreeNavState, TreeAction) {
        let n = rows.len();
        let c = self.cursor;
        match self.after_move_key(key.code, n) {
            Some(s) => (s, TreeAction::Consumed),
            None => match key.code {
                KeyCode::Enter | KeyCode::Right => if c >= n {
                    (self, TreeAction::Consumed)
                } else if rows[c as int].expandable && !rows[c as int].expanded {
                    (self, TreeAction::Toggle(c))
                } else {
                    (self, TreeAction::Choose(c))
                },
                KeyCode::Left => self.after_left(rows),
                _ => (self, TreeAction::Ignored),
            },
        }
    }

    /// Enter, Right, Space and `l` in a tree table: expand a collapsed row.
    pub open spec fn table_enter(self, rows: Seq<RowInfo>) -> (TreeNavState, TreeAction) {
        let c = self.cursor;
        if c < rows.len() && rows[c as int].expandable && !rows[c as int].expanded {
            (self, TreeAction::Toggle(c))
        } else {
            (self, TreeAction::Consumed)
        }
    }

    /// An edit at the cursor row, if it is a row.
    pub open spec fn table_edit(self, e: TreeEdit, n: nat) -> (TreeNavState, TreeAction) {
        if self.cursor >= n { (self, TreeAction::Consumed) } else { (self, TreeAction::Edit(e, self.cursor)) }
    }

    /// A key in a tree table over `rows` whose columns are editable as
    /// `editable` says: the tree keys (Enter and Right only expand), vim
    /// keys (`j` `k` down and up, `g` `G` to the ends, space and `l` to
    /// expand, `h` to collapse or go up), edits (`n` `b` `d` `J` `K` `H`
    /// `L`), `u` to undo, and Tab to the next editable column.
    pub open spec fn after_table_key(self, key: KeyEvent, rows: Seq<RowInfo>, editable: Seq<bool>) -> (TreeNavState, TreeAction) {
        let n = rows.len();
        match self.after_move_key(key.code, n) {
            Some(s) => (s, TreeAction::Consumed),
            None => match key.code {
                KeyCode::Enter | KeyCode::Right => self.table_enter(rows),
                KeyCode::Left => self.after_left(rows),
                KeyCode::Tab => {
                    let start: nat = match self.focused_col { Some(c) => (c + 1) as nat, None => 0 };
                    match next_editable(editable, start, 0) {
                        Some(col) => (TreeNavState { focused_col: Some(col), needs_redraw: true, ..self }, TreeAction::Consumed),
                        None => (self, TreeAction::Consumed),
                    }
                },
                KeyCode::Char(ch) => {
                    if ch == 'j' {
                        (self.after_move_key(KeyCode::Down, n).unwrap(), TreeAction::Consumed)
                    } else if ch == 'k' {
                        (self.after_move_key(KeyCode::Up, n).unwrap(), TreeAction::Consumed)
                    } else if ch == 'g' {
                        (self.after_move_key(KeyCode::Home, n).unwrap(), TreeAction::Consumed)
                    } else if ch == 'G' {
                        (self.after_move_key(KeyCode::End, n).unwrap(), TreeAction::Consumed)
                    } else if ch == ' ' || ch == 'l' {
                        self.table_enter(rows)
                    } else if ch == 'h' {
                        self.after_left(rows)
                    } else if ch == 'n' {
                        self.table_edit(TreeEdit::AddSibling, n)
                    } else if ch == 'b' {
                        self.table_edit(TreeEdit::AddChild, n)
                    } else if ch == 'd' {
                        self.table_edit(TreeEdit::Delete, n)
                    } else if ch == 'J' {
                        self.table_edit(TreeEdit::SwapDown, n)
                    } else if ch == 'K' {
                        self.table_edit(TreeEdit::SwapUp, n)
                    } else if ch == 'H' {
                        self.table_edit(TreeEdit::Promote, n)
                    } else if ch == 'L' {
                        self.table_edit(TreeEdit::Demote, n)
                    } else if ch == 'u' {
                        (self, TreeAction::Undo)
                    } else {
                        (self, TreeAction::Ignored)
                    }
                },
                _ => (self, TreeAction::Ignored),
            },
        }
    }
}

impl TreeNav {
    pub fn new() -> (t: TreeNav)
        ensures
            t@ == (TreeNavState {
                cursor: 0,
                scroll: ScrollState { offset: 0, viewport: 0, total: 0 },
                height: 0,
                focused_col: None,
                needs_redraw: false,
            }),
    {
        TreeNav { cursor: 0, scroll: ScrollState::new(), height: 0, focused_col: None, needs_redraw: false }
    }

    pub fn cursor(&self) -> (c: usize)
        ensures
            c == self@.cursor,
    {
        self.cursor
    }

    pub fn scroll_offset(&self) -> (o: usize)
        ensures
            o == self@.scroll.offset,
    {
        self.scroll.offset
    }

    pub fn focused_col(&self) -> (c: Option<usize>)
        ensures
            c == self@.focused_col,
    {
        self.focused_col
    }

    pub fn set_focused_col(&mut self, col: Option<usize>)
        ensures
            final(self)@ == (TreeNavState { focused_col: col, needs_redraw: true, ..old(self)@ }),
    {
        self.focused_col = col;
        self.needs_redraw = true;
    }

    /// The view's height changed.
    pub fn set_height(&mut self, h: u16)
        ensures
            final(self)@ == (TreeNavState { height: h, needs_redraw: true, ..old(self)@ }),
    {
        self.height = h;
        self.needs_redraw = true;
    }

    pub fn needs_redraw(&self) -> (b: bool)
        ensures
            b == self@.needs_redraw,
    {
        self.needs_redraw
    }

    pub fn mark_redrawn(&mut self)
        ensures
            final(self)@ == (TreeNavState { needs_redraw: false, ..old(self)@ }),
    {
        self.needs_redraw = false;
    }

    fn sync(&mut self, count: usize)
        ensures
            final(self)@ == old(self)@.synced(count as nat),
    {
        self.scroll.viewport = self.height as usize;
        self.scroll.total = count;
        let c = self.cursor;
        self.scroll.ensure_visible(c);
    }

    fn move_to(&mut self, c: usize, count: usize)
        ensures
            final(self)@ == old(self)@.moved(c, count as nat),
    {
        self.cursor = c;
        self.needs_redraw = true;
        self.sync(count);
    }

    /// Put the cursor on row `idx`, within `count` rows.
    pub fn set_cursor(&mut self, idx: usize, count: usize)
        ensures
            final(self)@ == old(self)@.moved(
                (if idx <= TreeNavState::last_row(count as nat) { idx as int } else { TreeNavState::last_row(count as nat) as int }) as usize,
                count as nat),
    {
        let max = if count >= 1 { count - 1 } else { 0 };
        self.move_to(if idx <= max { idx } else { max }, count);
    }

    /// After a toggle the caller carried out: `count` rows are visible
    /// now; the scroll position follows and the view redraws.
    pub fn after_toggle(&mut self, count: usize)
        ensures
            final(self)@ == (TreeNavState { needs_redraw: true, ..old(self)@ }).synced(count as nat),
    {
        self.needs_redraw = true;
        self.sync(count);
    }

    /// Before drawing a tree view over `count` rows: a cursor past the
    /// last row moves to it.
    pub fn clamp_cursor(&mut self, count: usize)
        ensures
            old(self)@.cursor > TreeNavState::last_row(count as nat) ==> final(self)@ == (TreeNavState {
                cursor: TreeNavState::last_row(count as nat) as usize,
                ..old(self)@
            }).synced(count as nat),
            old(self)@.cursor <= TreeNavState::last_row(count as nat) ==> final(self)@ == old(self)@,
    {
        let max = if count >= 1 { count - 1 } else { 0 };
        if self.cursor > max {
            self.cursor = max;
            self.sync(count);
        }
    }

    /// After an undo the caller carried out (`undone` is whether it did
    /// anything): the cursor comes back within `count` rows and the view
    /// redraws.
    pub fn after_undo(&mut self, undone: bool, count: usize)
        ensures
            !undone ==> final(self)@ == old(self)@,
            undone ==> final(self)@ == (TreeNavState {
                cursor: (if old(self)@.cursor <= TreeNavState::last_row(count as nat) { old(self)@.cursor as int } else { TreeNavState::last_row(count as nat) as int }) as usize,
                needs_redraw: true,
                ..old(self)@
            }).synced(count as nat),
    {
        if undone {
            let max = if count >= 1 { count - 1 } else { 0 };
            if self.cursor > max {
                self.cursor = max;
            }
            self.needs_redraw = true;
            self.sync(count);
        }
    }

    fn move_key(&mut self, code: KeyCode, n: usize) -> (handled: bool)
        requires
            code == KeyCode::PageDown ==> old(self)@.cursor + tree_page(old(self)@.height) <= usize::MAX,
        ensures
            handled == old(self)@.after_move_key(code, n as nat) is Some,
            handled ==> final(self)@ == old(self)@.after_move_key(code, n as nat).unwrap(),
            !handled ==> final(self)@ == old(self)@,
    {
        let c = self.cursor;
        let max = if n >= 1 { n - 1 } else { 0 };
        let h = self.height;
        let page: usize = if h >= 2 { (h - 1) as usize } else { 1 };
        match code {
            KeyCode::Up => {
                if c > 0 {
                    self.move_to(c - 1, n);
                }
                true
            },
            KeyCode::Down => {
                if c < max {
                    self.move_to(c + 1, n);
                }
                true
            },
            KeyCode::Home => {
                self.move_to(0, n);
                true
            },
            KeyCode::End => {
                self.move_to(max, n);
                true
            },
            KeyCode::PageDown => {
                let t = c + page;
                self.move_to(if t <= max { t } else { max }, n);
                true
            },
            KeyCode::PageUp => {
                self.move_to(if c >= page { c - page } else { 0 }, n);
                true
            },
            _ => false,
        }
    }

    fn left(&mut self, rows: &Vec<RowInfo>) -> (a: TreeAction)
        ensures
            (final(self)@, a) == old(self)@.after_left(rows@),
    {
        let n = rows.len();
        let c = self.cursor;
        if c >= n {
            return TreeAction::Consumed;
        }
        if rows[c].expandable && rows[c].expanded {
            return TreeAction::Toggle(c);
        }
        let d = rows[c].depth;
        let mut target = c;
        if d > 0 {
            let mut r = c;
            let mut found = false;
            while r > 0 && !found
                invariant
                    r <= c < n,
                    n == rows@.len(),
                    d == rows@[c as int].depth,
                    !found ==> target == c && row_above(rows@, d, c as nat) == row_above(rows@, d, r as nat),
                    found ==> row_above(rows@, d, c as nat) == Some(target as nat),
                decreases r, (if found { 0int } else { 1int }),
            {
                if rows[r - 1].depth < d {
                    target = r - 1;
                    found = true;
                } else {
                    r -= 1;
                }
            }
        }
        self.move_to(target, n);
        TreeAction::Consumed
    }

    /// A key reaching a tree view over `rows`.
    pub fn handle_tree_key(&mut self, key: &KeyEvent, rows: &Vec<RowInfo>) -> (a: TreeAction)
        requires
            key.code == KeyCode::PageDown ==> old(self)@.cursor + tree_page(old(self)@.height) <= usize::MAX,
        ensures
            (final(self)@, a) == old(self)@.after_tree_key(*key, rows@),
    {
        let n = rows.len();
        if self.move_key(key.code, n) {
            return TreeAction::Consumed;
        }
        let c = self.cursor;
        match key.code {
            KeyCode::Enter | KeyCode::Right => {
                if c >= n {
                    TreeAction::Consumed
                } else if rows[c].expandable && !rows[c].expanded {
                    TreeAction::Toggle(c)
                } else {
                    TreeAction::Choose(c)
                }
            },
            KeyCode::Left => self.left(rows),
            _ => TreeAction::Ignored,
        }
    }

    fn table_enter(&self, rows: &Vec<RowInfo>) -> (a: TreeAction)
        ensures
            (self@, a) == self@.table_enter(rows@),
    {
        let c = self.cursor;
        if c < rows.len() && rows[c].expandable && !rows[c].expanded {
            TreeAction::Toggle(c)
        } else {
            TreeAction::Consumed
        }
    }

    fn table_edit(&self, e: TreeEdit, n: usize) -> (a: TreeAction)
        ensures
            (self@, a) == self@.table_edit(e, n as nat),
    {
        if self.cursor >= n { TreeAction::Consumed } else { TreeAction::Edit(e, self.cursor) }
    }

    /// Focus the next editable column after the focused one (wrapping,
    /// the tree column counting as column 0).
    fn cycle_focused_col(&mut self, editable: &Vec<bool>)
        requires
            old(self)@.focused_col matches Some(c) ==> c < usize::MAX,
        ensures
            ({
                let start: nat = match old(self)@.focused_col { Some(c) => (c + 1) as nat, None => 0 };
                match next_editable(editable@, start, 0) {
                    Some(col) => final(self)@ == (TreeNavState { focused_col: Some(col), needs_redraw: true, ..old(self)@ }),
                    None => final(self)@ == old(self)@,
                }
            }),
    {
        let total = editable.len();
        if total == 0 {
            return;
        }
        let start: usize = match self.focused_col {
            Some(c) => c + 1,
            None => 0,
        };
        let s0 = start % total;
        let mut i: usize = 0;
        while i < total
            invariant
                total == editable@.len(),
                total > 0,
                i <= total,
                s0 == (start as int) % (total as int),
                self@ == old(self)@,
                start as nat == (match old(self)@.focused_col { Some(c) => (c + 1) as nat, None => 0 }),
                next_editable(editable@, start as nat, 0) == next_editable(editable@, start as nat, i as nat),
            decreases total - i,
        {
            let col = if i < total - s0 { s0 + i } else { i - (total - s0) };
            assert(col == ((start + i) as int) % (total as int)) by (nonlinear_arith)
                requires
                    s0 == (start as int) % (total as int),
                    total > 0,
                    i < total,
                    col == (if i < total - s0 { s0 + i } else { i - (total - s0) });
            if editable[col] {
                assert(next_editable(editable@, start as nat, i as nat) == Some(col));
                self.focused_col = Some(col);
                self.needs_redraw = true;
                return;
            }
            i += 1;
        }
    }

    /// A key reaching a tree table over `rows`, with `editable` telling
    /// which columns take edits (the tree column first).
    pub fn handle_table_key(&mut self, key: &KeyEvent, rows: &Vec<RowInfo>, editable: &Vec<bool>) -> (a: TreeAction)
        requires
            key.code == KeyCode::PageDown ==> old(self)@.cursor + tree_page(old(self)@.height) <= usize::MAX,
            key.code == KeyCode::Tab ==> (old(self)@.focused_col matches Some(c) ==> c < usize::MAX),
        ensures
            (final(self)@, a) == old(self)@.after_table_key(*key, rows@, editable@),
    {
        let n = rows.len();
        if self.move_key(key.code, n) {
            return TreeAction::Consumed;
        }
        match key.code {
            KeyCode::Enter | KeyCode::Right => self.table_enter(rows),
            KeyCode::Left => self.left(rows),
            KeyCode::Tab => {
                self.cycle_focused_col(editable);
                TreeAction::Consumed
            },
            KeyCode::Char(ch) => {
                if ch == 'j' {
                    self.move_key(KeyCode::Down, n);
                    TreeAction::Consumed
                } else if ch == 'k' {
                    self.move_key(KeyCode::Up, n);
                    TreeAction::Consumed
                } else if ch == 'g' {
                    self.move_key(KeyCode::Home, n);
                    TreeAction::Consumed
                } else if ch == 'G' {
                    self.move_key(KeyCode::End, n);
                    TreeAction::Consumed
                } else if ch == ' ' || ch == 'l' {
                    self.table_enter(rows)
                } else if ch == 'h' {
                    self.left(rows)
                } else if ch == 'n' {
                    self.table_edit(TreeEdit::AddSibling, n)
                } else if ch == 'b' {
                    self.table_edit(TreeEdit::AddChild, n)
                } else if ch == 'd' {
                    self.table_edit(TreeEdit::Delete, n)
                } else if ch == 'J' {
                    self.table_edit(TreeEdit::SwapDown, n)
                } else if ch == 'K' {
                    self.table_edit(TreeEdit::SwapUp, n)
                } else if ch == 'H' {
                    self.table_edit(TreeEdit::Promote, n)
                } else if ch == 'L' {
                    self.table_edit(TreeEdit::Demote, n)
                } else if ch == 'u' {
                    TreeAction::Undo
                } else {
                    TreeAction::Ignored
                }
            },
            _ => TreeAction::Ignored,
        }
    }
}

/// How a cell of a tree row is coloured.
#[derive(Clone, Copy, Debug, PartialEq, Eq, Structural)]
pub enum CellLook {
    /// The default style.
    Plain,
    /// The row's own style.
    Node,
    /// The row's style on the focused cursor background.
    CursorFocused,
    /// The row's style on the unfocused cursor background.
    CursorUnfocused,
}

/// The look of column `col` (`None`: the whole row) of row `idx`: the
/// cursor row takes a cursor background, the focused one in the focused
/// column (any column when none is focused) while the view has the focus.
pub open spec fn look_of(idx: usize, col: Option<usize>, cursor: usize, focused_col: Option<usize>, view_focused: bool) -> CellLook {
    if idx != cursor {
        CellLook::Node
    } else {
        let is_cursor_col = match focused_col {
            Some(fc) => col == Some(fc),
            None => true,
        };
        if is_cursor_col && view_focused { CellLook::CursorFocused } else { CellLook::CursorUnfocused }
    }
}

/// The look of column `col` of row `idx`.
pub fn cell_look(idx: usize, col: Option<usize>, cursor: usize, focused_col: Option<usize>, view_focused: bool) -> (l: CellLook)
    ensures
        l == look_of(idx, col, cursor, focused_col, view_focused),
{
    if idx != cursor {
        return CellLook::Node;
    }
    let is_cursor_col = match focused_col {
        Some(fc) => match col {
            Some(c) => c == fc,
            None => false,
        },
        None => true,
    };
    if is_cursor_col && view_focused { CellLook::CursorFocused } else { CellLook::CursorUnfocused }
}

/// The background a tree-table row is cleared with: plain on the cursor
/// row while a column is focused (the cells colour themselves), else the
/// row's look.
pub fn row_background(idx: usize, cursor: usize, focused_col: Option<usize>, view_focused: bool) -> (l: CellLook)
    ensures
        l == (if focused_col is Some && idx == cursor { CellLook::Plain } else { look_of(idx, None, cursor, focused_col, view_focused) }),
{
    if focused_col.is_some() && idx == cursor {
        CellLook::Plain
    } else {
        cell_look(idx, None, cursor, focused_col, view_focused)
    }
}

/// Where the parts of a tree-view row go.
#[derive(Clone, Copy, Debug, PartialEq, Eq, Structural)]
pub struct RowPlaces {
    /// The expand marker.
    pub marker_x: u16,
    /// The badge dot, when the row has a badge.
    pub badge_x: Option<u16>,
    /// The icon, when the row has one.
    pub icon_x: Option<u16>,
    /// The label.
    pub label_x: u16,
    /// The open indicator, when the row's item is open and it fits right
    /// of the label's start.
    pub indicator_x: Option<u16>,
}

/// Places in a tree-view row `w` wide at `depth`: the marker two columns
/// per level in, then the badge (two columns), the icon (`icon_len`
/// columns, counted in 16 bits) and the label; the open indicator
/// (`indicator_w` columns wide) one column from the right edge.
pub open spec fn row_places(depth: nat, badge: bool, icon_len: Option<nat>, open: bool, indicator_w: nat, w: nat) -> (nat, Option<nat>, Option<nat>, nat, Option<nat>) {
    let indent = wrap16(depth * 2);
    let after_marker = indent + 2;
    let after_badge = if badge { after_marker + 2 } else { after_marker };
    let label_x = match icon_len { Some(l) => after_badge + wrap16(l), None => after_badge };
    let ix: nat = if w >= indicator_w + 1 { (w - (indicator_w + 1)) as nat } else { 0 };
    (indent, if badge { Some(after_marker) } else { None }, match icon_len { Some(_) => Some(after_badge), None => None },
        label_x, if open && ix > label_x { Some(ix) } else { None })
}

/// Lay out a tree-view row: `icon_len` is the icon's length in characters
/// when the row has one, `indicator_w` the open indicator's width.
pub fn row_places_of(depth: usize, badge: bool, icon_len: Option<usize>, open: bool, indicator_w: u16, w: u16) -> (p: RowPlaces)
    requires
        depth * 2 <= usize::MAX,
        ({
            let r = row_places(depth as nat, badge, match icon_len { Some(l) => Some(l as nat), None => None }, open, indicator_w as nat, w as nat);
            r.3 <= u16::MAX && indicator_w + 1 <= u16::MAX
        }),
    ensures
        ({
            let r = row_places(depth as nat, badge, match icon_len { Some(l) => Some(l as nat), None => None }, open, indicator_w as nat, w as nat);
            &&& p.marker_x as nat == r.0
            &&& (match p.badge_x { Some(x) => Some(x as nat), None => None }) == r.1
            &&& (match p.icon_x { Some(x) => Some(x as nat), None => None }) == r.2
            &&& p.label_x as nat == r.3
            &&& (match p.indicator_x { Some(x) => Some(x as nat), None => None }) == r.4
        }),
{
    let d2 = depth * 2;
    let indent: u16 = d2 as u16;
    assert(indent == d2 % 65536) by (bit_vector)
        requires indent == d2 as u16;
    let after_marker: u16 = indent + 2;
    let after_badge: u16 = if badge { after_marker + 2 } else { after_marker };
    let label_x: u16 = match icon_len {
        Some(l) => {
            let l16: u16 = l as u16;
            assert(l16 == l % 65536) by (bit_vector)
                requires l16 == l as u16;
            after_badge + l16
        },
        None => after_badge,
    };
    let ix: u16 = if w >= indicator_w + 1 { w - (indicator_w + 1) } else { 0 };
    RowPlaces {
        marker_x: indent,
        badge_x: if badge { Some(after_marker) } else { None },
        icon_x: match icon_len { Some(_) => Some(after_badge), None => None },
        label_x,
        indicator_x: if open && ix > label_x { Some(ix) } else { None },
    }
}

/// How many characters of a text starting at column `x` are drawn before
/// column `max_x`.
pub open spec fn drawn_chars(len: nat, x: int, max_x: int) -> nat {
    if max_x <= x {
        0
    } else if len <= max_x - x {
        len
    } else {
        (max_x - x) as nat
    }
}

/// The cells of `text` drawn from column `x` up to `max_x`: each cell's
/// column, character, and whether its character index is a match position.
pub open spec fn highlight_spec(text: Seq<char>, positions: Seq<usize>, x: int, max_x: int) -> Seq<(int, char, bool)> {
    Seq::new(
        drawn_chars(text.len(), x, max_x),
        |i: int| (x + i, text[i], positions.contains(i as usize)),
    )
}

/// The cells of a fuzzy-matched text: characters at match positions are
/// marked for highlighting; drawing stops at column `max_x`.
pub fn highlighted_cells(text: &str, positions: &Vec<usize>, x: u16, max_x: u16) -> (cells: Vec<(u16, char, bool)>)
    ensures
        cells@.len() == highlight_spec(text@, positions@, x as int, max_x as int).len(),
        forall|i: int| 0 <= i < cells@.len() ==> {
            let c = #[trigger] cells@[i];
            let e = highlight_spec(text@, positions@, x as int, max_x as int)[i];
            c.0 as int == e.0 && c.1 == e.1 && c.2 == e.2
        },
{
    let chars = crate::text::chars_of(text);
    let mut cells: Vec<(u16, char, bool)> = Vec::new();
    let mut ci: usize = 0;
    while ci < chars.len()
        invariant
            chars@ == text@,
            ci <= chars.len(),
            cells@.len() == ci,
            ci > 0 ==> x as int + ci <= max_x,
            forall|i: int| 0 <= i < ci ==> {
                let c = #[trigger] cells@[i];
                c.0 as int == x + i && c.1 == text@[i] && c.2 == positions@.contains(i as usize)
            },
        ensures
            cells@.len() == ci,
            ci == chars.len() || x as int + ci >= max_x,
            ci > 0 ==> x as int + ci <= max_x,
            forall|i: int| 0 <= i < ci ==> {
                let c = #[trigger] cells@[i];
                c.0 as int == x + i && c.1 == text@[i] && c.2 == positions@.contains(i as usize)
            },
        decreases chars.len() - ci,
    {
        if x as usize + ci >= max_x as usize {
            break;
        }
        let cx = (x as usize + ci) as u16;
        let mut hit = false;
        let mut j: usize = 0;
        while j < positions.len()
            invariant
                j <= positions.len(),
                hit == exists|k: int| 0 <= k < j && positions@[k] == ci,
            decreases positions.len() - j,
        {
            if positions[j] == ci {
                hit = true;
            }
            j += 1;
        }
        cells.push((cx, chars[ci], hit));
        ci += 1;
    }
    assert(cells@.len() == drawn_chars(text@.len(), x as int, max_x as int));
    cells
}


/// What the search for the row above finds: the nearest row above `r`
/// that is shallower than `d`, every row in between being at least as deep.
proof fn lemma_row_above(rows: Seq<RowInfo>, d: usize, r: nat)
    requires
        r <= rows.len(),
    ensures
        row_above(rows, d, r) matches Some(t) ==> t < r && rows[t as int].depth < d
            && forall|k: int| t < k < r ==> #[trigger] rows[k].depth >= d,
        row_above(rows, d, r) is None ==> forall|k: int| 0 <= k < r ==> #[trigger] rows[k].depth >= d,
    decreases r,
{
    if r > 0 {
        lemma_row_above(rows, d, (r - 1) as nat);
    }
}

/// Left on a row at depth `d > 0` that is not an open branch moves the
/// cursor to its parent: the nearest row above that is shallower than `d`,
/// with every row in between at least as deep. Without such a row the
/// cursor stays.
pub proof fn law_left_goes_to_parent(s: TreeNavState, rows: Seq<RowInfo>)
    requires
        s.cursor < rows.len(),
        !(rows[s.cursor as int].expandable && rows[s.cursor as int].expanded),
        rows[s.cursor as int].depth > 0,
    ensures
        ({
            let c = s.cursor as int;
            let d = rows[c].depth;
            let t = s.after_left(rows).0.cursor as int;
            &&& s.after_left(rows).1 == TreeAction::Consumed
            &&& (exists|j: int| 0 <= j < c && #[trigger] rows[j].depth < d) ==> {
                &&& t < c
                &&& rows[t].depth < d
                &&& forall|k: int| t < k < c ==> #[trigger] rows[k].depth >= d
            }
            &&& (forall|j: int| 0 <= j < c ==> #[trigger] rows[j].depth >= d) ==> t == c
        }),
{
    let c = s.cursor;
    let d = rows[c as int].depth;
    lemma_row_above(rows, d, c as nat);
}


/// Up and Down move the cursor by exactly one row, staying put at the
/// first and last row; Home goes to the first row and End to the last.
pub proof fn law_tree_moves_by_one(s: TreeNavState, n: nat)
    requires
        n <= usize::MAX,
        s.cursor < n,
    ensures
        s.after_move_key(KeyCode::Up, n).unwrap().cursor == (if s.cursor > 0 { s.cursor - 1 } else { 0 }),
        s.after_move_key(KeyCode::Down, n).unwrap().cursor == (if s.cursor + 1 < n { s.cursor + 1 } else { s.cursor as int }),
        s.after_move_key(KeyCode::Home, n).unwrap().cursor == 0,
        s.after_move_key(KeyCode::End, n).unwrap().cursor == n - 1,
        s.cursor + 1 < n ==> s.after_move_key(KeyCode::Down, n).unwrap().after_move_key(KeyCode::Up, n).unwrap().cursor == s.cursor,
{
}

} // verus!
