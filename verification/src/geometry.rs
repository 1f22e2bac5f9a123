//! Screen rectangles.

use vstd::prelude::*;

verus! {

/// A rectangle of cells: top-left corner and size.
#[derive(Clone, Copy, Debug, PartialEq, Eq, Structural)]
pub struct Rect {
    pub x: u16,
    pub y: u16,
    pub w: u16,
    pub h: u16,
}

impl Rect {
    pub fn new(x: u16, y: u16, w: u16, h: u16) -> (r: Rect)
        ensures
            r == (Rect { x, y, w, h }),
    {
        Rect { x, y, w, h }
    }

    /// The empty rectangle at the origin.
    pub fn zero() -> (r: Rect)
        ensures
            r == (Rect { x: 0, y: 0, w: 0, h: 0 }),
    {
        Rect { x: 0, y: 0, w: 0, h: 0 }
    }

    pub fn x(&self) -> (v: u16)
        ensures
            v == self.x,
    {
        self.x
    }

    pub fn y(&self) -> (v: u16)
        ensures
            v == self.y,
    {
        self.y
    }

    pub fn w(&self) -> (v: u16)
        ensures
            v == self.w,
    {
        self.w
    }

    pub fn h(&self) -> (v: u16)
        ensures
            v == self.h,
    {
        self.h
    }
}

} // verus!
