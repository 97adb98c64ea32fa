//! The rules of one tick: where the ball goes, what it bounces off, which
//! blocks it clears, and whether play goes on, is lost, or is won.
//!
//! A tick looks at the cell the ball would move into. A wall or a block turns
//! the ball without moving it, and the tick looks again along the new
//! heading; a tick makes at most [`MAX_REFLECTIONS`] such turns. The tick ends
//! when the ball moves into an empty cell, is returned by the paddle, or
//! falls into the dead zone.

use vstd::prelude::*;

use crate::ball::Ball;
use crate::cell::Cell;
use crate::error::GameError;
use crate::field::Field;
use crate::grid::{cleared, count_blocks, height, inside, width, Grid};
use crate::laws::{law_blocks_accounted, law_status, law_step};
use crate::paddle::Paddle;

verus! {

/// The most turns off walls and blocks that one tick makes.
pub const MAX_REFLECTIONS: u32 = 8;

/// How the game stands after a tick.
#[derive(Clone, Copy, Debug, PartialEq, Eq, Structural)]
pub enum GameStatus {
    /// Blocks remain and the ball is in play.
    Playing,
    /// The ball fell into the dead zone.
    Lost,
    /// No block remains.
    Won,
}

/// What the ball met in the cell it was about to move into.
#[derive(Clone, Copy, Debug, PartialEq, Eq, Structural)]
pub enum Step {
    /// A wall: the ball stays and exchanges left and right.
    HitWall,
    /// A block: the block is cleared, the ball stays and exchanges up and down.
    HitBlock,
    /// The paddle: the ball stays and turns upward.
    HitPaddle,
    /// Nothing: the ball moved into the cell.
    Moved,
    /// The dead zone: the ball stays where it is and the game is lost.
    Fell,
}

impl Step {
    /// Whether the tick looks again after this step, along the new heading.
    pub open spec fn turns(self) -> bool {
        self is HitWall || self is HitBlock
    }
}

/// The state after one look at the cell ahead of the ball.
pub struct Resolution {
    pub grid: Grid,
    pub ball: Ball,
    pub step: Result<Step, GameError>,
}

/// The state after a whole tick.
pub struct Tick {
    pub grid: Grid,
    pub ball: Ball,
    pub status: Result<GameStatus, GameError>,
}

/// `Won` when no block is left in the grid, `Playing` otherwise.
pub open spec fn standing(g: Grid) -> GameStatus {
    if count_blocks(g) == 0 {
        GameStatus::Won
    } else {
        GameStatus::Playing
    }
}

/// One look at the cell ahead of the ball. In order of precedence: a cell
/// off the grid is an error; a wall mirrors the heading; a block is cleared
/// and flips the heading; the dead zone ends the game; an empty cell under
/// the paddle flips a downward heading and is an error for an upward one;
/// any other empty cell takes the ball.
pub open spec fn resolve(g: Grid, p: Paddle, b: Ball) -> Resolution {
    let x = b.next_x();
    let y = b.next_y();
    if !inside(g, x, y) {
        Resolution { grid: g, ball: b, step: Err(GameError::OutOfBounds) }
    } else {
        match g[x][y] {
            Cell::Wall => Resolution {
                grid: g,
                ball: b.heading(b.dir.mirrored()),
                step: Ok(Step::HitWall),
            },
            Cell::Block => Resolution {
                grid: cleared(g, x, y),
                ball: b.heading(b.dir.flipped()),
                step: Ok(Step::HitBlock),
            },
            Cell::DeadZone => Resolution { grid: g, ball: b, step: Ok(Step::Fell) },
            Cell::Empty => if !p.covers(x, y) {
                Resolution { grid: g, ball: b.moved(), step: Ok(Step::Moved) }
            } else if b.dir.downward() {
                Resolution {
                    grid: g,
                    ball: b.heading(b.dir.flipped()),
                    step: Ok(Step::HitPaddle),
                }
            } else {
                Resolution { grid: g, ball: b, step: Err(GameError::UnreachableCollisionState) }
            },
        }
    }
}

/// A tick that may still make `turns` turns. With none left it ends where it
/// stands; otherwise it looks at the cell ahead, and goes on after a turn.
pub open spec fn run(g: Grid, p: Paddle, b: Ball, turns: nat) -> Tick
    decreases turns,
{
    if turns == 0 {
        Tick { grid: g, ball: b, status: Ok(standing(g)) }
    } else {
        let r = resolve(g, p, b);
        match r.step {
            Err(e) => Tick { grid: r.grid, ball: r.ball, status: Err(e) },
            Ok(Step::Fell) => Tick { grid: r.grid, ball: r.ball, status: Ok(GameStatus::Lost) },
            Ok(Step::HitWall) | Ok(Step::HitBlock) => run(r.grid, p, r.ball, (turns - 1) as nat),
            Ok(_) => Tick { grid: r.grid, ball: r.ball, status: Ok(standing(r.grid)) },
        }
    }
}

/// One whole tick.
pub open spec fn tick(g: Grid, p: Paddle, b: Ball) -> Tick {
    run(g, p, b, MAX_REFLECTIONS as nat)
}

/// `Won` when no block is left in the field, `Playing` otherwise.
pub fn status_of(field: &Field) -> (s: GameStatus)
    requires
        field.wf(),
    ensures
        s == standing(field@),
{
    if field.remaining_blocks() == 0 {
        GameStatus::Won
    } else {
        GameStatus::Playing
    }
}

/// Looks once at the cell ahead of the ball and acts on what is there:
/// turns the ball off a wall, a block or the paddle, clears a block that was
/// hit, or moves the ball into an empty cell. The ball's position changes
/// only in the last case.
pub fn progress(field: &mut Field, paddle: &Paddle, ball: &mut Ball) -> (r: Result<
    Step,
    GameError,
>)
    requires
        old(field).wf(),
    ensures
        final(field).wf(),
        final(field)@ == resolve(old(field)@, *paddle, *old(ball)).grid,
        *final(ball) == resolve(old(field)@, *paddle, *old(ball)).ball,
        r == resolve(old(field)@, *paddle, *old(ball)).step,
        width(final(field)@) == width(old(field)@),
        height(final(field)@) == height(old(field)@),
        r == Ok::<Step, GameError>(Step::HitBlock) ==> count_blocks(final(field)@) + 1
            == count_blocks(old(field)@),
        r != Ok::<Step, GameError>(Step::HitBlock) ==> final(field)@ == old(field)@,
{
    proof {
        law_step(field@, *paddle, *ball);
    }
    let (x, y) = match ball.candidate() {
        Some(c) => c,
        None => {
            return Err(GameError::OutOfBounds);
        },
    };
    match field.cell_at(x, y) {
        Err(e) => Err(e),
        Ok(Cell::Wall) => {
            ball.dir = ball.dir.mirror();
            Ok(Step::HitWall)
        },
        Ok(Cell::Block) => {
            match field.clear_block_at(x, y) {
                Ok(()) => {
                    ball.dir = ball.dir.flip();
                    Ok(Step::HitBlock)
                },
                Err(e) => Err(e),
            }
        },
        Ok(Cell::DeadZone) => Ok(Step::Fell),
        Ok(Cell::Empty) => {
            if !paddle.touches(x, y) {
                ball.x = x;
                ball.y = y;
                Ok(Step::Moved)
            } else if ball.dir.is_downward() {
                ball.dir = ball.dir.flip();
                Ok(Step::HitPaddle)
            } else {
                Err(GameError::UnreachableCollisionState)
            }
        },
    }
}

/// Plays one tick: looks at the cell ahead of the ball, again after each
/// turn off a wall or a block, until the ball moves, is returned by the
/// paddle, falls into the dead zone, or has turned [`MAX_REFLECTIONS`] times.
/// Reports `Lost` when the ball fell, and otherwise `Won` when no block is
/// left and `Playing` when some are. An error leaves the field and the ball
/// as they were when it was met.
pub fn advance(field: &mut Field, paddle: &Paddle, ball: &mut Ball) -> (r: Result<
    GameStatus,
    GameError,
>)
    requires
        old(field).wf(),
    ensures
        final(field).wf(),
        final(field)@ == tick(old(field)@, *paddle, *old(ball)).grid,
        *final(ball) == tick(old(field)@, *paddle, *old(ball)).ball,
        r == tick(old(field)@, *paddle, *old(ball)).status,
        width(final(field)@) == width(old(field)@),
        height(final(field)@) == height(old(field)@),
        count_blocks(final(field)@) <= count_blocks(old(field)@),
        r == Ok::<GameStatus, GameError>(GameStatus::Won) ==> count_blocks(final(field)@) == 0,
        r == Ok::<GameStatus, GameError>(GameStatus::Playing) ==> count_blocks(final(field)@) > 0,
{
    proof {
        law_blocks_accounted(field@, *paddle, *ball);
        law_status(field@, *paddle, *ball);
    }
    let ghost whole = tick(field@, *paddle, *ball);
    let mut turns: u32 = MAX_REFLECTIONS;
    while turns > 0
        invariant
            field.wf(),
            whole == tick(old(field)@, *paddle, *old(ball)),
            run(field@, *paddle, *ball, turns as nat) == whole,
            width(whole.grid) == width(old(field)@),
            height(whole.grid) == height(old(field)@),
            count_blocks(whole.grid) <= count_blocks(old(field)@),
            whole.status == Ok::<GameStatus, GameError>(GameStatus::Won) ==> count_blocks(
                whole.grid,
            ) == 0,
            whole.status == Ok::<GameStatus, GameError>(GameStatus::Playing) ==> count_blocks(
                whole.grid,
            ) > 0,
        decreases turns,
    {
        match progress(field, paddle, ball) {
            Err(e) => {
                return Err(e);
            },
            Ok(Step::Fell) => {
                return Ok(GameStatus::Lost);
            },
            Ok(Step::HitWall) | Ok(Step::HitBlock) => {
                turns = turns - 1;
            },
            Ok(_) => {
                return Ok(status_of(field));
            },
        }
    }
    Ok(status_of(field))
}

} // verus!
