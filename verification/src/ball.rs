//! The ball: a position on the grid and one of four diagonal headings.

use vstd::prelude::*;

verus! {

/// A diagonal heading. Rows grow downward, so "down" means a larger `y`.
#[derive(Clone, Copy, Debug, PartialEq, Eq, Structural)]
pub enum Direction {
    DownLeft,
    DownRight,
    UpLeft,
    UpRight,
}

impl Direction {
    /// The change in `x` of one move: -1 to the left, +1 to the right.
    pub open spec fn dx(self) -> int {
        match self {
            Direction::DownLeft | Direction::UpLeft => -1,
            Direction::DownRight | Direction::UpRight => 1,
        }
    }

    /// The change in `y` of one move: +1 downward, -1 upward.
    pub open spec fn dy(self) -> int {
        match self {
            Direction::DownLeft | Direction::DownRight => 1,
            Direction::UpLeft | Direction::UpRight => -1,
        }
    }

    /// Whether the heading points to the left.
    pub open spec fn leftward(self) -> bool {
        self is DownLeft || self is UpLeft
    }

    /// Whether the heading points down.
    pub open spec fn downward(self) -> bool {
        self is DownLeft || self is DownRight
    }

    /// The heading with left and right exchanged.
    pub open spec fn mirrored(self) -> Direction {
        match self {
            Direction::DownLeft => Direction::DownRight,
            Direction::DownRight => Direction::DownLeft,
            Direction::UpLeft => Direction::UpRight,
            Direction::UpRight => Direction::UpLeft,
        }
    }

    /// The heading with up and down exchanged.
    pub open spec fn flipped(self) -> Direction {
        match self {
            Direction::DownLeft => Direction::UpLeft,
            Direction::DownRight => Direction::UpRight,
            Direction::UpLeft => Direction::DownLeft,
            Direction::UpRight => Direction::DownRight,
        }
    }

    /// Whether the heading points to the left.
    pub fn is_leftward(self) -> (r: bool)
        ensures
            r == self.leftward(),
    {
        match self {
            Direction::DownLeft | Direction::UpLeft => true,
            Direction::DownRight | Direction::UpRight => false,
        }
    }

    /// Whether the heading points down.
    pub fn is_downward(self) -> (r: bool)
        ensures
            r == self.downward(),
    {
        match self {
            Direction::DownLeft | Direction::DownRight => true,
            Direction::UpLeft | Direction::UpRight => false,
        }
    }

    /// Exchanges left and right, keeping the vertical sense.
    pub fn mirror(self) -> (r: Direction)
        ensures
            r == self.mirrored(),
            r.dx() == -self.dx(),
            r.dy() == self.dy(),
    {
        match self {
            Direction::DownLeft => Direction::DownRight,
            Direction::DownRight => Direction::DownLeft,
            Direction::UpLeft => Direction::UpRight,
            Direction::UpRight => Direction::UpLeft,
        }
    }

    /// Exchanges up and down, keeping the horizontal sense.
    pub fn flip(self) -> (r: Direction)
        ensures
            r == self.flipped(),
            r.dx() == self.dx(),
            r.dy() == -self.dy(),
    {
        match self {
            Direction::DownLeft => Direction::UpLeft,
            Direction::DownRight => Direction::UpRight,
            Direction::UpLeft => Direction::DownLeft,
            Direction::UpRight => Direction::DownRight,
        }
    }
}

/// The ball. It moves one cell per tick along its heading, never straight.
#[derive(Clone, Copy, Debug, PartialEq, Eq, Structural)]
pub struct Ball {
    pub x: u16,
    pub y: u16,
    pub dir: Direction,
}

impl Ball {
    /// The column of the cell the ball would move into next.
    pub open spec fn next_x(self) -> int {
        self.x + self.dir.dx()
    }

    /// The row of the cell the ball would move into next.
    pub open spec fn next_y(self) -> int {
        self.y + self.dir.dy()
    }

    /// The ball with another heading, at the same place.
    pub open spec fn heading(self, dir: Direction) -> Ball {
        Ball { x: self.x, y: self.y, dir }
    }

    /// The ball moved one cell along its heading.
    pub open spec fn moved(self) -> Ball {
        Ball { x: self.next_x() as u16, y: self.next_y() as u16, dir: self.dir }
    }

    /// The cell the ball would move into next, or `None` when that coordinate
    /// cannot be written in 16 bits and so lies off every grid.
    pub fn candidate(&self) -> (r: Option<(u16, u16)>)
        ensures
            match r {
                Some((x, y)) => x == self.next_x() && y == self.next_y(),
                None => !(0 <= self.next_x() <= u16::MAX && 0 <= self.next_y() <= u16::MAX),
            },
    {
        let x: u16 = if self.dir.is_leftward() {
            if self.x == 0 {
                return None;
            }
            self.x - 1
        } else {
            if self.x == u16::MAX {
                return None;
            }
            self.x + 1
        };
        let y: u16 = if self.dir.is_downward() {
            if self.y == u16::MAX {
                return None;
            }
            self.y + 1
        } else {
            if self.y == 0 {
                return None;
            }
            self.y - 1
        };
        Some((x, y))
    }
}

} // verus!
