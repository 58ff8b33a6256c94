//! Axis-aligned rectangles on the pixel grid.

use vstd::prelude::*;

verus! {

/// A rectangle given by its top-left corner and its size. It spans the
/// columns from `left` up to, and not including, `right`, and the rows from
/// `top` up to, and not including, `bottom`.
#[derive(Clone, Copy, Debug, PartialEq, Eq, Structural)]
pub struct Rect {
    /// The first column.
    pub left: i32,
    /// The first row.
    pub top: i32,
    /// The number of columns.
    pub width: u32,
    /// The number of rows.
    pub height: u32,
}

impl Rect {
    /// The rectangle with the given corner and size.
    pub fn new(left: i32, top: i32, width: u32, height: u32) -> (r: Rect)
        ensures
            r == (Rect { left, top, width, height }),
    {
        Rect { left, top, width, height }
    }

    /// The column just past the last one.
    pub open spec fn spec_right(self) -> int {
        self.left + self.width
    }

    /// The row just past the last one.
    pub open spec fn spec_bottom(self) -> int {
        self.top + self.height
    }

    /// The first column.
    pub fn left(&self) -> (v: i32)
        ensures
            v == self.left,
    {
        self.left
    }

    /// The first row.
    pub fn top(&self) -> (v: i32)
        ensures
            v == self.top,
    {
        self.top
    }

    /// The number of columns.
    pub fn width(&self) -> (v: u32)
        ensures
            v == self.width,
    {
        self.width
    }

    /// The number of rows.
    pub fn height(&self) -> (v: u32)
        ensures
            v == self.height,
    {
        self.height
    }

    /// The column just past the last one.
    pub fn right(&self) -> (v: i64)
        ensures
            v == self.spec_right(),
    {
        self.left as i64 + self.width as i64
    }

    /// The row just past the last one.
    pub fn bottom(&self) -> (v: i64)
        ensures
            v == self.spec_bottom(),
    {
        self.top as i64 + self.height as i64
    }
}

} // verus!
