//! The playing field: the grid of cells together with a running count of the
//! blocks still standing.

use vstd::prelude::*;

use crate::cell::Cell;
use crate::error::GameError;
use crate::grid::{
    block_rows, clear_outcome, cleared, column_blocks, count_blocks, height, initial_blocks,
    initial_cell, initial_column, initial_grid, lemma_cleared_count,
    lemma_cleared_well_formed, lookup, well_formed, width, Grid, BLOCK_BOTTOM, BLOCK_TOP,
};

verus! {

/// Width of the standard field.
pub const WIDTH: u16 = 150;

/// Height of the standard field.
pub const HEIGHT: u16 = 40;

/// A rectangular field of cells. Its layout is fixed when it is built;
/// afterwards the only change a cell undergoes is a block being cleared.
#[derive(Debug)]
pub struct Field {
    cells: Vec<Vec<Cell>>,
    blocks: u32,
}

impl View for Field {
    type V = Grid;

    closed spec fn view(&self) -> Grid {
        Seq::new(self.cells@.len(), |x: int| self.cells@[x]@)
    }
}

/// The cell a new field holds at `(x, y)`.
fn initial_cell_at(x: u16, y: u16, w: u16, h: u16) -> (c: Cell)
    ensures
        c == initial_cell(x as int, y as int, w as int, h as int),
{
    if x == 0 || x == w || y == 0 {
        Cell::Wall
    } else if y == h {
        Cell::DeadZone
    } else if BLOCK_TOP <= y && y <= BLOCK_BOTTOM {
        Cell::Block
    } else {
        Cell::Empty
    }
}

/// Builds column `x` of a new field and counts the blocks placed in it.
fn build_column(x: u16, w: u16, h: u16) -> (r: (Vec<Cell>, u32))
    requires
        x <= w,
    ensures
        r.0@ == initial_column(x as int, w as int, h as int),
        r.1 == column_blocks(r.0@),
        r.1 == (if 0 < x < w { block_rows(h as int) } else { 0 }),
{
    let mut col: Vec<Cell> = Vec::new();
    let mut placed: u32 = 0;
    let mut y: u16 = 0;
    loop
        invariant_except_break
            y <= h,
            col@.len() == y,
        invariant
            x <= w,
            forall|j: int|
                0 <= j < col@.len() ==> col@[j] == initial_cell(x as int, j, w as int, h as int),
            placed == column_blocks(col@),
            placed == (if 0 < x < w { block_rows(y as int) } else { 0 }),
        ensures
            col@.len() == h + 1,
            placed == (if 0 < x < w { block_rows(h as int) } else { 0 }),
        decreases h - y,
    {
        let c = initial_cell_at(x, y, w, h);
        proof {
            assert(col@.push(c).drop_last() =~= col@);
        }
        col.push(c);
        if c.is_block() {
            placed = placed + 1;
        }
        if y == h {
            break ;
        }
        y = y + 1;
    }
    assert(col@ =~= initial_column(x as int, w as int, h as int));
    (col, placed)
}

/// The number of blocks a new field holds in its first `n` columns.
spec fn blocks_in_prefix(n: int, w: int, h: int) -> int {
    if n <= 1 {
        0
    } else if n <= w {
        (n - 1) * block_rows(h)
    } else {
        initial_blocks(w, h)
    }
}

/// Column `x` adds its blocks to those of the columns before it, and the
/// total stays far below the range of the running count.
proof fn lemma_prefix_step(x: int, w: int, h: int)
    requires
        0 <= x <= w <= u16::MAX,
    ensures
        blocks_in_prefix(x + 1, w, h) == blocks_in_prefix(x, w, h) + (if 0 < x < w {
            block_rows(h)
        } else {
            0
        }),
        0 <= blocks_in_prefix(x, w, h) <= 6 * u16::MAX,
        0 <= blocks_in_prefix(x + 1, w, h) <= 6 * u16::MAX,
{
    let rows = block_rows(h);
    assert(0 <= rows <= 6);
    assert(x * rows == (x - 1) * rows + rows) by (nonlinear_arith);
    assert(x >= 1 ==> 0 <= (x - 1) * rows <= 6 * (x - 1)) by (nonlinear_arith)
        requires
            0 <= rows <= 6,
    ;
    assert(0 <= x * rows <= 6 * x) by (nonlinear_arith)
        requires
            0 <= rows <= 6,
            0 <= x,
    ;
    assert(w >= 1 ==> 0 <= (w - 1) * rows <= 6 * (w - 1)) by (nonlinear_arith)
        requires
            0 <= rows <= 6,
    ;
}

impl Field {
    /// The invariant every field keeps: the grid is well formed and the
    /// running count equals the number of blocks in it.
    pub open spec fn wf(&self) -> bool {
        well_formed(self@) && self.counter() == count_blocks(self@)
    }

    /// The running count of blocks.
    pub closed spec fn counter(&self) -> nat {
        self.blocks as nat
    }

    /// Builds a field with columns `0..=width` and rows `0..=height`: walls
    /// along the left, right and top edges, the dead zone along the rest of
    /// the bottom row, and blocks in the rows of the block region between the
    /// side walls. The bottom row has to lie below the top row.
    pub fn new(width: u16, height: u16) -> (f: Field)
        requires
            height >= 1,
        ensures
            f.wf(),
            f@ == initial_grid(width as int, height as int),
            count_blocks(f@) == initial_blocks(width as int, height as int),
    {
        let mut cells: Vec<Vec<Cell>> = Vec::new();
        let mut blocks: u32 = 0;
        let mut x: u16 = 0;
        let ghost w = width as int;
        let ghost h = height as int;
        loop
            invariant_except_break
                x <= width,
                cells@.len() == x,
            invariant
                w == width,
                h == height,
                h >= 1,
                cells@.len() <= w + 1,
                forall|i: int|
                    0 <= i < cells@.len() ==> (#[trigger] cells@[i])@ == initial_column(i, w, h),
                blocks == count_blocks(Seq::new(cells@.len(), |i: int| cells@[i]@)),
                blocks == blocks_in_prefix(cells@.len() as int, w, h),
            ensures
                cells@.len() == w + 1,
            decreases width - x,
        {
            let (col, placed) = build_column(x, width, height);
            proof {
                lemma_prefix_step(x as int, w, h);
            }
            let ghost before = Seq::new(cells@.len(), |i: int| cells@[i]@);
            cells.push(col);
            blocks = blocks + placed;
            proof {
                let after = Seq::new(cells@.len(), |i: int| cells@[i]@);
                assert(after.drop_last() =~= before);
                assert(after.last() == col@);
            }
            if x == width {
                break ;
            }
            x = x + 1;
        }
        let f = Field { cells, blocks };
        proof {
            assert(f@ =~= initial_grid(w, h));
        }
        f
    }

    /// The index of the last column.
    pub fn width(&self) -> (w: u16)
        requires
            self.wf(),
        ensures
            w == width(self@),
    {
        (self.cells.len() - 1) as u16
    }

    /// The index of the last row.
    pub fn height(&self) -> (h: u16)
        requires
            self.wf(),
        ensures
            h == height(self@),
    {
        (self.cells[0].len() - 1) as u16
    }

    /// The cell at `(x, y)`, or `OutOfBounds` when `x` exceeds the width or
    /// `y` the height. The answer depends on the grid and the coordinate
    /// alone: asking again without clearing a block in between gives the same
    /// cell.
    pub fn cell_at(&self, x: u16, y: u16) -> (r: Result<Cell, GameError>)
        requires
            self.wf(),
        ensures
            r == lookup(self@, x as int, y as int),
    {
        let xi = x as usize;
        let yi = y as usize;
        if xi < self.cells.len() {
            assert(self@[xi as int].len() == height(self@) + 1);
            if yi < self.cells[xi].len() {
                return Ok(self.cells[xi][yi]);
            }
        }
        Err(GameError::OutOfBounds)
    }

    /// Clears the block at `(x, y)`: the cell becomes empty and the count of
    /// remaining blocks drops by one. A coordinate off the grid is refused
    /// with `OutOfBounds` and a cell that is no block with `InvalidClear`;
    /// either way the field is left as it was.
    pub fn clear_block_at(&mut self, x: u16, y: u16) -> (r: Result<(), GameError>)
        requires
            old(self).wf(),
        ensures
            final(self).wf(),
            r == clear_outcome(old(self)@, x as int, y as int),
            r is Ok ==> final(self)@ == cleared(old(self)@, x as int, y as int),
            r is Ok ==> count_blocks(final(self)@) + 1 == count_blocks(old(self)@),
            r is Err ==> final(self)@ == old(self)@,
    {
        match self.cell_at(x, y) {
            Err(e) => Err(e),
            Ok(Cell::Block) => {
                proof {
                    lemma_cleared_count(self@, x as int, y as int);
                    lemma_cleared_well_formed(self@, x as int, y as int);
                }
                self.cells[x as usize][y as usize] = Cell::Empty;
                self.blocks = self.blocks - 1;
                assert(self@ =~= cleared(old(self)@, x as int, y as int));
                Ok(())
            },
            Ok(_) => Err(GameError::InvalidClear),
        }
    }

    /// The number of blocks still standing, read from the running count.
    pub fn remaining_blocks(&self) -> (n: u32)
        requires
            self.wf(),
        ensures
            n == count_blocks(self@),
    {
        self.blocks
    }
}

/// Builds the standard field, 150 columns wide and 40 rows high.
pub fn init_generate() -> (f: Field)
    ensures
        f.wf(),
        f@ == initial_grid(WIDTH as int, HEIGHT as int),
        count_blocks(f@) == 894,
{
    Field::new(WIDTH, HEIGHT)
}

} // verus!
