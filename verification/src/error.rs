//! The ways a call into the game core can be misused.

use vstd::prelude::*;

verus! {

/// A violation of the core's usage rules. None of these arises in a game
/// that starts with the ball inside the field and is driven tick by tick;
/// each reports a defect in the caller.
#[derive(Clone, Copy, Debug, PartialEq, Eq, Structural)]
pub enum GameError {
    /// A coordinate lies outside the grid.
    OutOfBounds,
    /// A cell that is not a block was asked to be cleared.
    InvalidClear,
    /// The ball met the paddle while already moving upward.
    UnreachableCollisionState,
}

} // verus!
