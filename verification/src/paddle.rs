//! The paddle: a horizontal span of cells on one row, centred on an anchor
//! that the player shifts left and right.

use vstd::prelude::*;

verus! {

/// How far the paddle of the standard game reaches to each side of its
/// anchor, for a span of eleven cells.
pub const PADDLE_HALF_WIDTH: u16 = 5;

/// How many cells one move command shifts the anchor.
pub const PADDLE_STEP: u16 = 5;

/// The paddle. It covers the cells of row `y` whose column is within
/// `half_width` of `x`.
#[derive(Clone, Copy, Debug, PartialEq, Eq, Structural)]
pub struct Paddle {
    pub x: u16,
    pub y: u16,
    pub half_width: u16,
}

/// The leftmost anchor at which a paddle reaching `half_width` to each side
/// stays clear of the left wall.
pub open spec fn leftmost_anchor(half_width: int) -> int {
    1 + half_width
}

/// The rightmost anchor at which such a paddle stays clear of the right wall
/// of a field of the given width.
pub open spec fn rightmost_anchor(field_width: int, half_width: int) -> int {
    field_width - 1 - half_width
}

/// Where the anchor comes to rest when it heads for `target`: the nearest
/// anchor that keeps the span between the side walls. When the span is wider
/// than the space between the walls there is no such anchor, and the paddle
/// stays at `current`.
pub open spec fn settle(target: int, current: int, field_width: int, half_width: int) -> int {
    let lo = leftmost_anchor(half_width);
    let hi = rightmost_anchor(field_width, half_width);
    if lo > hi {
        current
    } else if target < lo {
        lo
    } else if target > hi {
        hi
    } else {
        target
    }
}

impl Paddle {
    /// Whether the paddle covers the cell at `(x, y)`.
    pub open spec fn covers(self, x: int, y: int) -> bool {
        y == self.y && self.x - self.half_width <= x <= self.x + self.half_width
    }

    /// Whether the whole span lies strictly between the side walls of a
    /// field of the given width.
    pub open spec fn between_walls(self, field_width: int) -> bool {
        1 <= self.x - self.half_width && self.x + self.half_width <= field_width - 1
    }

    /// The paddle with its anchor at another column.
    pub open spec fn anchored(self, x: int) -> Paddle {
        Paddle { x: x as u16, y: self.y, half_width: self.half_width }
    }

    /// Whether the paddle covers the cell at `(x, y)`.
    pub fn touches(&self, x: u16, y: u16) -> (r: bool)
        ensures
            r == self.covers(x as int, y as int),
    {
        let gap: u16 = if x >= self.x {
            x - self.x
        } else {
            self.x - x
        };
        y == self.y && gap <= self.half_width
    }

    /// Moves the anchor to the column nearest to `target` that keeps the
    /// span between the side walls.
    fn shift_to(&mut self, target: i32, field_width: u16)
        requires
            -(u16::MAX as int) <= target <= 2 * u16::MAX,
        ensures
            *final(self) == old(self).anchored(
                settle(
                    target as int,
                    old(self).x as int,
                    field_width as int,
                    old(self).half_width as int,
                ),
            ),
            leftmost_anchor(old(self).half_width as int) <= rightmost_anchor(
                field_width as int,
                old(self).half_width as int,
            ) ==> final(self).between_walls(field_width as int),
    {
        let lo: i32 = 1 + self.half_width as i32;
        let hi: i32 = field_width as i32 - 1 - self.half_width as i32;
        if lo <= hi {
            let x: i32 = if target < lo {
                lo
            } else if target > hi {
                hi
            } else {
                target
            };
            self.x = x as u16;
        }
    }

    /// Shifts the anchor one step to the left, stopping where the span would
    /// touch the left wall.
    pub fn move_left(&mut self, field_width: u16)
        ensures
            *final(self) == old(self).anchored(
                settle(
                    old(self).x - PADDLE_STEP,
                    old(self).x as int,
                    field_width as int,
                    old(self).half_width as int,
                ),
            ),
            leftmost_anchor(old(self).half_width as int) <= rightmost_anchor(
                field_width as int,
                old(self).half_width as int,
            ) ==> final(self).between_walls(field_width as int),
    {
        let target: i32 = self.x as i32 - PADDLE_STEP as i32;
        self.shift_to(target, field_width);
    }

    /// Shifts the anchor one step to the right, stopping where the span
    /// would touch the right wall.
    pub fn move_right(&mut self, field_width: u16)
        ensures
            *final(self) == old(self).anchored(
                settle(
                    old(self).x + PADDLE_STEP,
                    old(self).x as int,
                    field_width as int,
                    old(self).half_width as int,
                ),
            ),
            leftmost_anchor(old(self).half_width as int) <= rightmost_anchor(
                field_width as int,
                old(self).half_width as int,
            ) ==> final(self).between_walls(field_width as int),
    {
        let target: i32 = self.x as i32 + PADDLE_STEP as i32;
        self.shift_to(target, field_width);
    }
}

} // verus!
