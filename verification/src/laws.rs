//! What holds of every game, whatever the field, the paddle and the ball:
//! the ball never enters a wall, blocks only ever disappear and each
//! disappearance is counted, the game is won exactly when the last block is
//! gone, the dead zone always loses, and the paddle always returns the ball.

use vstd::prelude::*;

use crate::ball::Ball;
use crate::engine::{resolve, run, standing, tick, GameStatus, Step, Tick, MAX_REFLECTIONS};
use crate::error::GameError;
use crate::grid::{
    count_blocks, height, inside, lemma_cleared_count, lemma_cleared_well_formed, well_formed,
    width, Grid,
};
use crate::paddle::Paddle;

verus! {

/// Whether the ball lies strictly between the walls and above the bottom row.
pub open spec fn in_play(g: Grid, b: Ball) -> bool {
    0 < b.x < width(g) && 0 < b.y < height(g)
}

/// The number of blocks cleared by a tick that may still make `turns` turns.
pub open spec fn cleared_in_run(g: Grid, p: Paddle, b: Ball, turns: nat) -> nat
    decreases turns,
{
    if turns == 0 {
        0
    } else {
        let r = resolve(g, p, b);
        match r.step {
            Ok(Step::HitBlock) => 1 + cleared_in_run(r.grid, p, r.ball, (turns - 1) as nat),
            Ok(Step::HitWall) => cleared_in_run(r.grid, p, r.ball, (turns - 1) as nat),
            _ => 0,
        }
    }
}

/// The number of blocks cleared by one whole tick.
pub open spec fn cleared_in_tick(g: Grid, p: Paddle, b: Ball) -> nat {
    cleared_in_run(g, p, b, MAX_REFLECTIONS as nat)
}

/// The state after a run of ticks, one for each paddle of `ps` in turn, each
/// tick starting where the one before it ended whatever its status was. With
/// no tick at all the state is the starting one.
pub open spec fn replay(g: Grid, b: Ball, ps: Seq<Paddle>) -> Tick
    decreases ps.len(),
{
    if ps.len() == 0 {
        Tick { grid: g, ball: b, status: Ok(standing(g)) }
    } else {
        let before = replay(g, b, ps.drop_last());
        tick(before.grid, ps.last(), before.ball)
    }
}

/// The number of blocks cleared over such a run of ticks.
pub open spec fn cleared_in_replay(g: Grid, b: Ball, ps: Seq<Paddle>) -> nat
    decreases ps.len(),
{
    if ps.len() == 0 {
        0
    } else {
        let before = replay(g, b, ps.drop_last());
        cleared_in_replay(g, b, ps.drop_last()) + cleared_in_tick(
            before.grid,
            ps.last(),
            before.ball,
        )
    }
}

/// One look at the cell ahead keeps the grid well formed and its extent
/// unchanged, changes no cell except a block that was hit, takes exactly one
/// block off the count when one was hit and none otherwise, and moves the
/// ball only into a cell that is empty.
pub proof fn law_step(g: Grid, p: Paddle, b: Ball)
    requires
        well_formed(g),
    ensures
        ({
            let r = resolve(g, p, b);
            &&& well_formed(r.grid)
            &&& width(r.grid) == width(g)
            &&& height(r.grid) == height(g)
            &&& forall|x: int, y: int|
                inside(g, x, y) && !(g[x][y] is Block) ==> #[trigger] r.grid[x][y] == g[x][y]
            &&& r.step == Ok::<Step, GameError>(Step::HitBlock) ==> count_blocks(r.grid) + 1
                == count_blocks(g)
            &&& r.step != Ok::<Step, GameError>(Step::HitBlock) ==> r.grid == g
            &&& r.step == Ok::<Step, GameError>(Step::Moved) ==> {
                &&& r.ball.x == b.next_x()
                &&& r.ball.y == b.next_y()
                &&& in_play(g, r.ball)
                &&& g[r.ball.x as int][r.ball.y as int] is Empty
            }
            &&& r.step != Ok::<Step, GameError>(Step::Moved) ==> r.ball.x == b.x && r.ball.y == b.y
        }),
{
    let x = b.next_x();
    let y = b.next_y();
    if inside(g, x, y) {
        assert(g[x].len() == height(g) + 1);
        if g[x][y] is Block {
            lemma_cleared_count(g, x, y);
            lemma_cleared_well_formed(g, x, y);
        }
    }
}

/// Wall containment: a tick never brings the ball onto a wall cell. Whatever
/// wall cell is named, a ball that does not start on it does not end on it.
pub proof fn law_wall_containment(g: Grid, p: Paddle, b: Ball, x: int, y: int)
    requires
        well_formed(g),
        inside(g, x, y),
        g[x][y] is Wall,
        !(b.x == x && b.y == y),
    ensures
        !(tick(g, p, b).ball.x == x && tick(g, p, b).ball.y == y),
{
    lemma_run_avoids_wall(g, p, b, MAX_REFLECTIONS as nat, x, y);
}

proof fn lemma_run_avoids_wall(g: Grid, p: Paddle, b: Ball, turns: nat, x: int, y: int)
    requires
        well_formed(g),
        inside(g, x, y),
        g[x][y] is Wall,
        !(b.x == x && b.y == y),
    ensures
        !(run(g, p, b, turns).ball.x == x && run(g, p, b, turns).ball.y == y),
    decreases turns,
{
    if turns > 0 {
        let r = resolve(g, p, b);
        law_step(g, p, b);
        assert(r.grid[x][y] == g[x][y]);
        if r.step matches Ok(s) && s.turns() {
            lemma_run_avoids_wall(r.grid, p, r.ball, (turns - 1) as nat, x, y);
        }
    }
}

/// A ball in play stays in play: a tick that starts with the ball strictly
/// between the walls and above the bottom row never looks off the grid and
/// ends with the ball still there.
pub proof fn law_ball_stays_in_play(g: Grid, p: Paddle, b: Ball)
    requires
        well_formed(g),
        in_play(g, b),
    ensures
        in_play(tick(g, p, b).grid, tick(g, p, b).ball),
        tick(g, p, b).status != Err::<GameStatus, GameError>(GameError::OutOfBounds),
{
    lemma_run_stays_in_play(g, p, b, MAX_REFLECTIONS as nat);
}

proof fn lemma_run_stays_in_play(g: Grid, p: Paddle, b: Ball, turns: nat)
    requires
        well_formed(g),
        in_play(g, b),
    ensures
        in_play(run(g, p, b, turns).grid, run(g, p, b, turns).ball),
        run(g, p, b, turns).status != Err::<GameStatus, GameError>(GameError::OutOfBounds),
        well_formed(run(g, p, b, turns).grid),
    decreases turns,
{
    if turns > 0 {
        let r = resolve(g, p, b);
        law_step(g, p, b);
        if r.step matches Ok(s) && s.turns() {
            lemma_run_stays_in_play(r.grid, p, r.ball, (turns - 1) as nat);
        }
    }
}

/// Block accounting for one tick: the blocks left after the tick and the
/// blocks it cleared add up to the blocks there were. So the count never
/// grows, falls by one for each block hit, and stays put when none is hit.
pub proof fn law_blocks_accounted(g: Grid, p: Paddle, b: Ball)
    requires
        well_formed(g),
    ensures
        well_formed(tick(g, p, b).grid),
        width(tick(g, p, b).grid) == width(g),
        height(tick(g, p, b).grid) == height(g),
        count_blocks(tick(g, p, b).grid) + cleared_in_tick(g, p, b) == count_blocks(g),
        count_blocks(tick(g, p, b).grid) <= count_blocks(g),
        cleared_in_tick(g, p, b) == 0 ==> tick(g, p, b).grid == g,
{
    lemma_run_accounted(g, p, b, MAX_REFLECTIONS as nat);
}

proof fn lemma_run_accounted(g: Grid, p: Paddle, b: Ball, turns: nat)
    requires
        well_formed(g),
    ensures
        well_formed(run(g, p, b, turns).grid),
        width(run(g, p, b, turns).grid) == width(g),
        height(run(g, p, b, turns).grid) == height(g),
        count_blocks(run(g, p, b, turns).grid) + cleared_in_run(g, p, b, turns) == count_blocks(g),
        cleared_in_run(g, p, b, turns) == 0 ==> run(g, p, b, turns).grid == g,
    decreases turns,
{
    if turns > 0 {
        let r = resolve(g, p, b);
        law_step(g, p, b);
        if r.step matches Ok(s) && s.turns() {
            lemma_run_accounted(r.grid, p, r.ball, (turns - 1) as nat);
        }
    }
}

/// Block monotonicity: over any run of ticks the number of blocks never
/// grows. The blocks left at the end and the blocks cleared on the way add up
/// to the blocks at the start, and at every earlier point of the run there
/// were at least as many blocks as at the end.
pub proof fn law_block_monotonicity(g: Grid, b: Ball, ps: Seq<Paddle>, k: int)
    requires
        well_formed(g),
        0 <= k <= ps.len(),
    ensures
        well_formed(replay(g, b, ps).grid),
        count_blocks(replay(g, b, ps).grid) + cleared_in_replay(g, b, ps) == count_blocks(g),
        count_blocks(replay(g, b, ps).grid) <= count_blocks(replay(g, b, ps.take(k)).grid),
    decreases ps.len(),
{
    if ps.len() == 0 {
        assert(ps.take(k) =~= ps);
    } else {
        let init = ps.drop_last();
        let before = replay(g, b, init);
        if k == ps.len() {
            assert(ps.take(k) =~= ps);
            law_block_monotonicity(g, b, init, 0);
        } else {
            assert(ps.take(k) =~= init.take(k));
            law_block_monotonicity(g, b, init, k);
        }
        law_blocks_accounted(before.grid, ps.last(), before.ball);
    }
}

/// The status of a tick: an error or `Lost` apart, it is `Won` exactly when
/// the tick leaves no block, and `Playing` exactly when it leaves some.
pub proof fn law_status(g: Grid, p: Paddle, b: Ball)
    ensures
        ({
            let t = tick(g, p, b);
            &&& t.status == Ok::<GameStatus, GameError>(GameStatus::Won) ==> count_blocks(t.grid)
                == 0
            &&& t.status == Ok::<GameStatus, GameError>(GameStatus::Playing) ==> count_blocks(
                t.grid,
            ) > 0
            &&& t.status is Ok && t.status != Ok::<GameStatus, GameError>(GameStatus::Lost)
                ==> t.status == Ok::<GameStatus, GameError>(standing(t.grid))
        }),
{
    lemma_run_status(g, p, b, MAX_REFLECTIONS as nat);
}

proof fn lemma_run_status(g: Grid, p: Paddle, b: Ball, turns: nat)
    ensures
        ({
            let t = run(g, p, b, turns);
            t.status is Ok && t.status != Ok::<GameStatus, GameError>(GameStatus::Lost)
                ==> t.status == Ok::<GameStatus, GameError>(standing(t.grid))
        }),
    decreases turns,
{
    if turns > 0 {
        let r = resolve(g, p, b);
        if r.step matches Ok(s) && s.turns() {
            lemma_run_status(r.grid, p, r.ball, (turns - 1) as nat);
        }
    }
}

/// Win detection: when a run of at least one tick has cleared as many blocks
/// as the field held at the start, and its last tick neither lost the ball
/// nor met an error, that tick reports `Won` and no block is left.
pub proof fn law_win_detection(g: Grid, b: Ball, ps: Seq<Paddle>)
    requires
        well_formed(g),
        ps.len() > 0,
        cleared_in_replay(g, b, ps) == count_blocks(g),
        replay(g, b, ps).status is Ok,
        replay(g, b, ps).status != Ok::<GameStatus, GameError>(GameStatus::Lost),
    ensures
        replay(g, b, ps).status == Ok::<GameStatus, GameError>(GameStatus::Won),
        count_blocks(replay(g, b, ps).grid) == 0,
{
    law_block_monotonicity(g, b, ps, 0);
    let before = replay(g, b, ps.drop_last());
    law_status(before.grid, ps.last(), before.ball);
}

/// Loss detection: when the cell ahead of the ball lies in the bottom row,
/// between the two corners, the tick reports `Lost` whatever the heading and
/// the paddle, and leaves the ball and the field untouched.
pub proof fn law_loss_detection(g: Grid, p: Paddle, b: Ball)
    requires
        well_formed(g),
        b.next_y() == height(g),
        0 < b.next_x() < width(g),
    ensures
        g[b.next_x()][b.next_y()] is DeadZone,
        tick(g, p, b).status == Ok::<GameStatus, GameError>(GameStatus::Lost),
        tick(g, p, b).ball == b,
        tick(g, p, b).grid == g,
{
    let x = b.next_x();
    let y = b.next_y();
    assert(inside(g, x, y));
    assert(g[x][y] is DeadZone);
}

/// Paddle reflection: when the ball heads downward and the cell ahead is an
/// empty one covered by the paddle, the tick turns the ball upward on the
/// same side, down-left to up-left and down-right to up-right, and leaves it
/// where it is; the field is untouched.
pub proof fn law_paddle_reflection(g: Grid, p: Paddle, b: Ball)
    requires
        well_formed(g),
        inside(g, b.next_x(), b.next_y()),
        g[b.next_x()][b.next_y()] is Empty,
        p.covers(b.next_x(), b.next_y()),
        b.dir.downward(),
    ensures
        tick(g, p, b).ball == b.heading(b.dir.flipped()),
        tick(g, p, b).ball.x == b.x,
        tick(g, p, b).ball.y == b.y,
        b.dir is DownLeft ==> tick(g, p, b).ball.dir is UpLeft,
        b.dir is DownRight ==> tick(g, p, b).ball.dir is UpRight,
        tick(g, p, b).grid == g,
        tick(g, p, b).status == Ok::<GameStatus, GameError>(standing(g)),
{
}

} // verus!
