//! Screen rectangles and positions, in terminal cells.

use vstd::prelude::*;

verus! {

/// The largest screen coordinate.
pub const MAX_COORDINATE: u16 = 0xffff;

/// A cell on the screen, counted from the top-left corner.
#[derive(Clone, Copy, Debug, PartialEq, Eq, Structural)]
pub struct Position {
    pub x: u16,
    pub y: u16,
}

/// A rectangular region of the screen.
#[derive(Clone, Copy, Debug, PartialEq, Eq, Structural)]
pub struct Rect {
    pub x: u16,
    pub y: u16,
    pub width: u16,
    pub height: u16,
}

/// `a + b`, or the largest coordinate if the sum lies beyond it.
pub open spec fn add_clipped(a: u16, b: u16) -> u16 {
    if a + b <= MAX_COORDINATE {
        (a + b) as u16
    } else {
        MAX_COORDINATE
    }
}

/// `a - b`, or 0 if `b` is the larger.
pub open spec fn sub_clipped(a: u16, b: u16) -> u16 {
    if a >= b {
        (a - b) as u16
    } else {
        0
    }
}

impl Rect {
    /// How many rows of the rectangle lie on the addressable screen.
    pub open spec fn row_count(self) -> nat {
        sub_clipped(add_clipped(self.y, self.height), self.y) as nat
    }

    /// Row `i` of the rectangle: one cell high, with the rectangle's
    /// left edge and its width as far as the screen can address it.
    pub open spec fn row(self, i: int) -> Rect {
        Rect {
            x: self.x,
            y: (self.y + i) as u16,
            width: sub_clipped(add_clipped(self.x, self.width), self.x),
            height: 1,
        }
    }

    /// The rows of the rectangle from top to bottom.
    pub open spec fn rows(self) -> Seq<Rect> {
        Seq::new(self.row_count(), |i: int| self.row(i))
    }

    /// The region left inside a border one cell wide on every side. A
    /// rectangle too small for the border leaves nothing.
    pub open spec fn inside_border(self) -> Rect {
        let right = add_clipped(self.x, self.width);
        let bottom = add_clipped(self.y, self.height);
        Rect {
            x: if add_clipped(self.x, 1) <= right {
                add_clipped(self.x, 1)
            } else {
                right
            },
            y: if add_clipped(self.y, 1) <= bottom {
                add_clipped(self.y, 1)
            } else {
                bottom
            },
            width: sub_clipped(self.width, 2),
            height: sub_clipped(self.height, 2),
        }
    }

    /// The top-left corner of the rectangle.
    pub fn as_position(&self) -> (pos: Position)
        ensures
            pos == (Position { x: self.x, y: self.y }),
    {
        Position { x: self.x, y: self.y }
    }
}

} // verus!
