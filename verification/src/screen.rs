//! Drawing: the bytes that paint a game on a terminal.
//!
//! A frame is a run of sprites, each a cursor movement followed by one glyph.
//! Screen positions count from one, so the cell at `(x, y)` of the grid is
//! painted at column `x + 1`, row `y + 1`. The ball and the paddle are painted
//! at the screen position given by their own coordinates.

use vstd::prelude::*;

use crate::ball::Ball;
use crate::cell::Cell;
use crate::field::Field;
use crate::grid::{height, width, Grid};
use crate::paddle::Paddle;

verus! {

/// The glyph of a wall cell, `|`.
pub const WALL_GLYPH: u8 = 0x7C;

/// The glyph of a block, `V`.
pub const BLOCK_GLYPH: u8 = 0x56;

/// The glyph of a dead-zone cell, `#`.
pub const DEAD_ZONE_GLYPH: u8 = 0x23;

/// The glyph of the ball, `O`.
pub const BALL_GLYPH: u8 = 0x4F;

/// The glyph of one cell of the paddle, `_`.
pub const PADDLE_GLYPH: u8 = 0x5F;

/// The decimal digits of `n` in ASCII, without leading zeros.
pub open spec fn decimal(n: nat) -> Seq<u8>
    decreases n,
{
    if n < 10 {
        seq![(0x30 + n) as u8]
    } else {
        decimal(n / 10).push((0x30 + n % 10) as u8)
    }
}

/// The escape sequence that moves the cursor to column `x`, row `y`:
/// `ESC [ y ; x H`, with both numbers in decimal.
pub open spec fn goto_sequence(x: u16, y: u16) -> Seq<u8> {
    seq![0x1Bu8, 0x5Bu8] + decimal(y as nat) + seq![0x3Bu8] + decimal(x as nat) + seq![0x48u8]
}

/// One glyph at one screen position.
pub open spec fn sprite(x: u16, y: u16, glyph: u8) -> Seq<u8> {
    goto_sequence(x, y).push(glyph)
}

/// The glyph a cell is painted with; an empty cell is not painted.
pub open spec fn glyph(c: Cell) -> Option<u8> {
    match c {
        Cell::Wall => Some(WALL_GLYPH),
        Cell::Block => Some(BLOCK_GLYPH),
        Cell::DeadZone => Some(DEAD_ZONE_GLYPH),
        Cell::Empty => None,
    }
}

/// The sprite of the cell at `(x, y)`, or nothing for an empty cell.
pub open spec fn cell_text(g: Grid, x: int, y: int) -> Seq<u8> {
    match glyph(g[x][y]) {
        Some(ch) => sprite((x + 1) as u16, (y + 1) as u16, ch),
        None => Seq::empty(),
    }
}

/// The sprites of the first `rows` cells of column `x`, from the top down.
pub open spec fn column_text(g: Grid, x: int, rows: int) -> Seq<u8>
    decreases rows,
{
    if rows <= 0 {
        Seq::empty()
    } else {
        column_text(g, x, rows - 1) + cell_text(g, x, rows - 1)
    }
}

/// The sprites of the first `cols` columns, from the left.
pub open spec fn grid_text(g: Grid, cols: int) -> Seq<u8>
    decreases cols,
{
    if cols <= 0 {
        Seq::empty()
    } else {
        grid_text(g, cols - 1) + column_text(g, cols - 1, height(g) + 1)
    }
}

/// The leftmost screen column the paddle is painted in.
pub open spec fn paddle_left(p: Paddle) -> int {
    if p.x >= p.half_width {
        p.x - p.half_width
    } else {
        0
    }
}

/// The rightmost screen column the paddle is painted in.
pub open spec fn paddle_right(p: Paddle) -> int {
    if p.x + p.half_width <= u16::MAX {
        p.x + p.half_width
    } else {
        u16::MAX as int
    }
}

/// The sprites of the first `n` cells of the paddle, from the left.
pub open spec fn paddle_text(p: Paddle, n: int) -> Seq<u8>
    decreases n,
{
    if n <= 0 {
        Seq::empty()
    } else {
        paddle_text(p, n - 1) + sprite((paddle_left(p) + n - 1) as u16, p.y, PADDLE_GLYPH)
    }
}

/// A whole frame: every wall, block and dead-zone cell, column by column,
/// then the ball, then the paddle over its span.
pub open spec fn frame(g: Grid, p: Paddle, b: Ball) -> Seq<u8> {
    grid_text(g, width(g) + 1) + sprite(b.x, b.y, BALL_GLYPH) + paddle_text(
        p,
        paddle_right(p) - paddle_left(p) + 1,
    )
}

/// The bytes of termion's cursor movement `Goto(x, y)`, as its conversion to
/// a `String` gives them. Trusted: that conversion joins `ESC [`, the row in
/// decimal, `;`, the column in decimal, and `H`.
#[verifier::external_body]
fn cursor_goto(x: u16, y: u16) -> (r: Vec<u8>)
    ensures
        r@ == goto_sequence(x, y),
{
    String::from(termion::cursor::Goto(x, y)).into_bytes()
}

/// Appends one glyph at one screen position.
fn put(out: &mut Vec<u8>, x: u16, y: u16, glyph: u8)
    ensures
        final(out)@ == old(out)@ + sprite(x, y, glyph),
{
    let mut seq = cursor_goto(x, y);
    out.append(&mut seq);
    out.push(glyph);
    assert(out@ =~= old(out)@ + sprite(x, y, glyph));
}

/// The glyph a cell is painted with; an empty cell is not painted.
pub fn glyph_of(c: Cell) -> (r: Option<u8>)
    ensures
        r == glyph(c),
{
    match c {
        Cell::Wall => Some(WALL_GLYPH),
        Cell::Block => Some(BLOCK_GLYPH),
        Cell::DeadZone => Some(DEAD_ZONE_GLYPH),
        Cell::Empty => None,
    }
}

/// Paints a game: returns the bytes that, written to a terminal, draw the
/// field, the ball and the paddle. The field has to fit the screen's 16-bit
/// positions, which count from one.
pub fn draw(field: &Field, paddle: &Paddle, ball: &Ball) -> (out: Vec<u8>)
    requires
        field.wf(),
        width(field@) < u16::MAX,
        height(field@) < u16::MAX,
    ensures
        out@ == frame(field@, *paddle, *ball),
{
    let w = field.width();
    let h = field.height();
    let ghost g = field@;
    let mut out: Vec<u8> = Vec::new();
    let mut x: u16 = 0;
    while x <= w
        invariant
            field.wf(),
            g == field@,
            w == width(g),
            h == height(g),
            w < u16::MAX,
            h < u16::MAX,
            x <= w + 1,
            out@ == grid_text(g, x as int),
        decreases w + 1 - x,
    {
        let ghost before = out@;
        let mut y: u16 = 0;
        while y <= h
            invariant
                field.wf(),
                g == field@,
                w == width(g),
                h == height(g),
                w < u16::MAX,
                h < u16::MAX,
                x <= w,
                y <= h + 1,
                out@ == before + column_text(g, x as int, y as int),
            decreases h + 1 - y,
        {
            let ghost sofar = out@;
            match field.cell_at(x, y) {
                Ok(c) => {
                    match glyph_of(c) {
                        Some(ch) => {
                            put(&mut out, x + 1, y + 1, ch);
                        },
                        None => {},
                    }
                },
                Err(_) => {},
            }
            assert(out@ =~= before + column_text(g, x as int, y as int + 1)) by {
                assert(out@ == sofar + cell_text(g, x as int, y as int));
            }
            y = y + 1;
        }
        assert(out@ =~= grid_text(g, x as int + 1));
        x = x + 1;
    }
    put(&mut out, ball.x, ball.y, BALL_GLYPH);
    let ghost body = out@;
    let left: u16 = if paddle.x >= paddle.half_width {
        paddle.x - paddle.half_width
    } else {
        0
    };
    let right: u16 = if paddle.half_width <= u16::MAX - paddle.x {
        paddle.x + paddle.half_width
    } else {
        u16::MAX
    };
    let mut n: u32 = 0;
    let count: u32 = (right - left) as u32 + 1;
    while n < count
        invariant
            left == paddle_left(*paddle),
            right == paddle_right(*paddle),
            left <= right,
            count == right - left + 1,
            n <= count,
            out@ == body + paddle_text(*paddle, n as int),
        decreases count - n,
    {
        let ghost sofar = out@;
        put(&mut out, (left as u32 + n) as u16, paddle.y, PADDLE_GLYPH);
        n = n + 1;
        assert(out@ =~= body + paddle_text(*paddle, n as int)) by {
            assert(out@ == sofar + sprite(
                (paddle_left(*paddle) + n - 1) as u16,
                paddle.y,
                PADDLE_GLYPH,
            ));
        }
    }
    assert(out@ =~= frame(g, *paddle, *ball));
    out
}

} // verus!
