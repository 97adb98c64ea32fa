//! A whole game: the field, the paddle and the ball, and what one command
//! from the player does to them.

use vstd::prelude::*;

use crate::ball::{Ball, Direction};
use crate::engine::{advance, tick, GameStatus};
use crate::error::GameError;
use crate::field::{init_generate, Field, HEIGHT, WIDTH};
use crate::grid::{initial_grid, width};
use crate::paddle::{settle, Paddle, PADDLE_HALF_WIDTH, PADDLE_STEP};

verus! {

/// The key that quits, `q`.
pub const KEY_QUIT: u8 = 0x71;

/// The key that moves the paddle left, `a`.
pub const KEY_LEFT: u8 = 0x61;

/// The key that moves the paddle right, `d`.
pub const KEY_RIGHT: u8 = 0x64;

/// What the player asks for in one turn.
#[derive(Clone, Copy, Debug, PartialEq, Eq, Structural)]
pub enum Command {
    /// Nothing: the paddle stays.
    Stay,
    /// Shift the paddle one step to the left.
    MoveLeft,
    /// Shift the paddle one step to the right.
    MoveRight,
    /// Give up the game.
    Quit,
}

/// How a game came to its end.
#[derive(Clone, Copy, Debug, PartialEq, Eq, Structural)]
pub enum Ending {
    /// The player gave up.
    Quit,
    /// The ball fell into the dead zone.
    Lost,
    /// The last block was cleared.
    Won,
}

/// The command a key stands for. Keys without a meaning leave the paddle
/// where it is.
pub open spec fn command_of(key: u8) -> Command {
    if key == KEY_QUIT {
        Command::Quit
    } else if key == KEY_RIGHT {
        Command::MoveRight
    } else if key == KEY_LEFT {
        Command::MoveLeft
    } else {
        Command::Stay
    }
}

/// The paddle after a command, in a field of the given width.
pub open spec fn steered(p: Paddle, c: Command, field_width: int) -> Paddle {
    match c {
        Command::MoveLeft => p.anchored(
            settle(p.x - PADDLE_STEP, p.x as int, field_width, p.half_width as int),
        ),
        Command::MoveRight => p.anchored(
            settle(p.x + PADDLE_STEP, p.x as int, field_width, p.half_width as int),
        ),
        _ => p,
    }
}

/// The ending a tick's status brings about, if any.
pub open spec fn ending_of(s: GameStatus) -> Option<Ending> {
    match s {
        GameStatus::Playing => None,
        GameStatus::Lost => Some(Ending::Lost),
        GameStatus::Won => Some(Ending::Won),
    }
}

/// What a turn reports for the outcome of its tick.
pub open spec fn report_of(status: Result<GameStatus, GameError>) -> Result<
    Option<Ending>,
    GameError,
> {
    match status {
        Ok(s) => Ok(ending_of(s)),
        Err(e) => Err(e),
    }
}

/// The command a key stands for: `q` quits, `a` moves left, `d` moves right.
pub fn decode_key(key: u8) -> (c: Command)
    ensures
        c == command_of(key),
{
    if key == KEY_QUIT {
        Command::Quit
    } else if key == KEY_RIGHT {
        Command::MoveRight
    } else if key == KEY_LEFT {
        Command::MoveLeft
    } else {
        Command::Stay
    }
}

/// The line shown when a game has ended.
pub fn closing_message(ending: Ending) -> (text: &'static str)
    ensures
        ending is Won ==> text@ == "Well Done, You Finished!"@,
        !(ending is Won) ==> text@ == "Game Over"@,
{
    match ending {
        Ending::Won => "Well Done, You Finished!",
        Ending::Quit | Ending::Lost => "Game Over",
    }
}

/// A game in progress.
#[derive(Debug)]
pub struct Game {
    pub field: Field,
    pub paddle: Paddle,
    pub ball: Ball,
}

impl Game {
    /// Whether the game's field keeps its invariant.
    pub open spec fn wf(&self) -> bool {
        self.field.wf()
    }

    /// Sets up the standard game: the standard field, the paddle centred
    /// two rows above the bottom, and the ball three rows above the paddle,
    /// heading up and to the left.
    pub fn start() -> (game: Game)
        ensures
            game.wf(),
            game.field@ == initial_grid(WIDTH as int, HEIGHT as int),
            game.paddle == (Paddle { x: 75, y: 38, half_width: 5 }),
            game.ball == (Ball { x: 75, y: 35, dir: Direction::UpLeft }),
    {
        let paddle = Paddle { x: WIDTH / 2, y: HEIGHT - 2, half_width: PADDLE_HALF_WIDTH };
        let ball = Ball { x: paddle.x, y: paddle.y - 3, dir: Direction::UpLeft };
        Game { field: init_generate(), paddle, ball }
    }

    /// Plays one turn. `Quit` ends the game at once and changes nothing. Any
    /// other command first steers the paddle and then plays one tick; the
    /// turn reports the ending the tick brought about, or `None` while the
    /// game goes on.
    pub fn turn(&mut self, command: Command) -> (r: Result<Option<Ending>, GameError>)
        requires
            old(self).wf(),
        ensures
            final(self).wf(),
            command is Quit ==> {
                &&& r == Ok::<Option<Ending>, GameError>(Some(Ending::Quit))
                &&& final(self).field@ == old(self).field@
                &&& final(self).paddle == old(self).paddle
                &&& final(self).ball == old(self).ball
            },
            !(command is Quit) ==> {
                let p = steered(old(self).paddle, command, width(old(self).field@));
                let t = tick(old(self).field@, p, old(self).ball);
                &&& final(self).paddle == p
                &&& final(self).field@ == t.grid
                &&& final(self).ball == t.ball
                &&& r == report_of(t.status)
            },
    {
        match command {
            Command::Quit => {
                return Ok(Some(Ending::Quit));
            },
            Command::MoveLeft => {
                let w = self.field.width();
                self.paddle.move_left(w);
            },
            Command::MoveRight => {
                let w = self.field.width();
                self.paddle.move_right(w);
            },
            Command::Stay => {},
        }
        match advance(&mut self.field, &self.paddle, &mut self.ball) {
            Ok(GameStatus::Playing) => Ok(None),
            Ok(GameStatus::Lost) => Ok(Some(Ending::Lost)),
            Ok(GameStatus::Won) => Ok(Some(Ending::Won)),
            Err(e) => Err(e),
        }
    }
}

} // verus!
