//! The contents of one position of the playing field.

use vstd::prelude::*;

verus! {

/// What occupies one cell of the field.
#[derive(Clone, Copy, Debug, PartialEq, Eq, Structural)]
pub enum Cell {
    /// Open space the ball can move into.
    Empty,
    /// Part of the fixed border; the ball bounces off it.
    Wall,
    /// A destructible block; the ball bounces off it and removes it.
    Block,
    /// The bottom row; the ball entering it loses the game.
    DeadZone,
}

impl Cell {
    /// One for a block, zero for anything else.
    pub open spec fn weight(self) -> nat {
        if self is Block { 1 } else { 0 }
    }

    /// Whether this cell is a block.
    pub fn is_block(self) -> (r: bool)
        ensures
            r == (self is Block),
    {
        match self {
            Cell::Block => true,
            _ => false,
        }
    }
}

} // verus!
