//! Rectangular areas on the character grid.

use vstd::prelude::*;

verus! {

/// A rectangular area of character cells, given by its top-left corner and
/// its size in columns and rows.
#[derive(Debug, Clone, Copy, PartialEq, Eq, Hash)]
pub struct Rect {
    pub x: u16,
    pub y: u16,
    pub width: u16,
    pub height: u16,
}

impl Rect {
    /// The leftmost column.
    pub open spec fn left(self) -> int {
        self.x as int
    }

    /// One past the rightmost column.
    pub open spec fn right(self) -> int {
        self.x + self.width
    }

    /// The topmost row.
    pub open spec fn top(self) -> int {
        self.y as int
    }

    /// One past the bottommost row.
    pub open spec fn bottom(self) -> int {
        self.y + self.height
    }

    /// True when the cell at column `x`, row `y` lies in this area.
    pub open spec fn contains(self, x: int, y: int) -> bool {
        self.left() <= x < self.right() && self.top() <= y < self.bottom()
    }

    /// True when every coordinate of this area lies within `outer`.
    pub open spec fn within(self, outer: Rect) -> bool {
        outer.left() <= self.left() && self.right() <= outer.right() && outer.top() <= self.top()
            && self.bottom() <= outer.bottom()
    }

    /// A rectangle from its corner and size.
    pub fn new(x: u16, y: u16, width: u16, height: u16) -> (r: Rect)
        ensures
            r == (Rect { x, y, width, height }),
    {
        Rect { x, y, width, height }
    }
}

} // verus!
