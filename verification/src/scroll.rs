//! A vertical scroll position over a list of rows.

use vstd::prelude::*;

verus! {

/// A vertical scroll position over `total` rows, `viewport` of them shown.
#[derive(Clone, Copy, Debug, PartialEq, Eq, Structural)]
pub struct ScrollState {
    pub offset: usize,
    pub viewport: usize,
    pub total: usize,
}

impl ScrollState {
    pub fn new() -> (s: ScrollState)
        ensures
            s == (ScrollState { offset: 0, viewport: 0, total: 0 }),
    {
        ScrollState { offset: 0, viewport: 0, total: 0 }
    }

    /// The scroll position after bringing `row` into view: scrolled up to
    /// it when above, down until it is the last shown row when below.
    pub open spec fn showing(self, row: usize) -> ScrollState {
        if row < self.offset {
            ScrollState { offset: row, ..self }
        } else if self.viewport > 0 && row >= self.offset + self.viewport {
            ScrollState { offset: (row + 1 - self.viewport) as usize, ..self }
        } else {
            self
        }
    }

    /// Scroll so that `row` is shown.
    pub fn ensure_visible(&mut self, row: usize)
        ensures
            *final(self) == old(self).showing(row),
    {
        if row < self.offset {
            self.offset = row;
        } else if self.viewport > 0 && row - self.offset >= self.viewport {
            self.offset = row - (self.viewport - 1);
        }
    }
}

impl ScrollState {
    /// The largest offset that still fills the viewport.
    pub open spec fn max_offset_spec(self) -> nat {
        if self.total >= self.viewport { (self.total - self.viewport) as nat } else { 0 }
    }

    pub fn max_offset(&self) -> (m: usize)
        ensures
            m == self.max_offset_spec(),
    {
        if self.total >= self.viewport { self.total - self.viewport } else { 0 }
    }

    pub fn set_viewport(&mut self, rows: usize)
        ensures
            *final(self) == (ScrollState { viewport: rows, ..*old(self) }),
    {
        self.viewport = rows;
    }

    pub fn set_total(&mut self, rows: usize)
        ensures
            *final(self) == (ScrollState { total: rows, ..*old(self) }),
    {
        self.total = rows;
    }

    /// Scroll up by `n` rows, stopping at the top.
    pub fn scroll_up(&mut self, n: usize)
        ensures
            *final(self) == (ScrollState { offset: (if old(self).offset >= n { old(self).offset - n } else { 0 }) as usize, ..*old(self) }),
    {
        self.offset = if self.offset >= n { self.offset - n } else { 0 };
    }

    /// Scroll down by `n` rows, stopping at the largest offset.
    pub fn scroll_down(&mut self, n: usize)
        ensures
            *final(self) == (ScrollState {
                offset: (if old(self).offset + n <= old(self).max_offset_spec() { old(self).offset + n } else {
                    if old(self).offset <= old(self).max_offset_spec() { old(self).max_offset_spec() as int } else { old(self).offset as int }
                }) as usize,
                ..*old(self)
            }),
    {
        let m = self.max_offset();
        if self.offset <= m {
            self.offset = if n <= m - self.offset { self.offset + n } else { m };
        }
    }

    /// Scroll to `row`, within the largest offset.
    pub fn scroll_to(&mut self, row: usize)
        ensures
            *final(self) == (ScrollState { offset: (if row <= old(self).max_offset_spec() { row as int } else { old(self).max_offset_spec() as int }) as usize, ..*old(self) }),
    {
        let m = self.max_offset();
        self.offset = if row <= m { row } else { m };
    }
}

/// Bringing a row into view shows it: with room for at least one row, the
/// row lies within the shown window afterwards.
pub proof fn law_ensure_visible_shows(s: ScrollState, row: usize)
    requires
        s.viewport > 0,
    ensures
        s.showing(row).offset <= row < s.showing(row).offset + s.viewport,
{
}

} // verus!
