//! The mathematical model of the playing field: a rectangular grid of cells,
//! indexed by column and then by row, with row 0 at the top.

use vstd::prelude::*;

use crate::cell::Cell;
use crate::error::GameError;

verus! {

/// A grid of cells: `g[x][y]` is the cell in column `x`, row `y`.
pub type Grid = Seq<Seq<Cell>>;

/// First row of the block region laid out in a new field.
pub const BLOCK_TOP: u16 = 2;

/// Last row of the block region laid out in a new field.
pub const BLOCK_BOTTOM: u16 = 7;

/// The index of the last column; columns run from 0 to the width inclusive.
pub open spec fn width(g: Grid) -> int {
    g.len() - 1
}

/// The index of the last row; rows run from 0 to the height inclusive.
pub open spec fn height(g: Grid) -> int {
    g[0].len() - 1
}

/// Whether `(x, y)` names a cell of the grid.
pub open spec fn inside(g: Grid, x: int, y: int) -> bool {
    0 <= x <= width(g) && 0 <= y <= height(g)
}

/// Whether a cell at `(x, y)` of a `w` by `h` field may hold `c`: the left,
/// right and top edges are wall, the rest of the bottom row is dead zone, and
/// every other cell is empty or a block.
pub open spec fn fits(c: Cell, x: int, y: int, w: int, h: int) -> bool {
    if x == 0 || x == w || y == 0 {
        c is Wall
    } else if y == h {
        c is DeadZone
    } else {
        c is Empty || c is Block
    }
}

/// A grid is well formed when it is rectangular, its coordinates fit in 16
/// bits, its bottom row lies below its top row, and every cell fits its
/// position.
pub open spec fn well_formed(g: Grid) -> bool {
    &&& 0 <= width(g) <= u16::MAX
    &&& 1 <= height(g) <= u16::MAX
    &&& forall|x: int| 0 <= x <= width(g) ==> (#[trigger] g[x]).len() == height(g) + 1
    &&& forall|x: int, y: int|
        inside(g, x, y) ==> fits(#[trigger] g[x][y], x, y, width(g), height(g))
}

/// The number of blocks in one column.
pub open spec fn column_blocks(col: Seq<Cell>) -> nat
    decreases col.len(),
{
    if col.len() == 0 {
        0
    } else {
        column_blocks(col.drop_last()) + col.last().weight()
    }
}

/// The number of blocks in the whole grid.
pub open spec fn count_blocks(g: Grid) -> nat
    decreases g.len(),
{
    if g.len() == 0 {
        0
    } else {
        count_blocks(g.drop_last()) + column_blocks(g.last())
    }
}

/// The grid with the cell at `(x, y)` emptied.
pub open spec fn cleared(g: Grid, x: int, y: int) -> Grid {
    g.update(x, g[x].update(y, Cell::Empty))
}

/// The cell a new `w` by `h` field holds at `(x, y)`.
pub open spec fn initial_cell(x: int, y: int, w: int, h: int) -> Cell {
    if x == 0 || x == w || y == 0 {
        Cell::Wall
    } else if y == h {
        Cell::DeadZone
    } else if BLOCK_TOP <= y <= BLOCK_BOTTOM {
        Cell::Block
    } else {
        Cell::Empty
    }
}

/// Column `x` of a new `w` by `h` field.
pub open spec fn initial_column(x: int, w: int, h: int) -> Seq<Cell> {
    Seq::new((h + 1) as nat, |y: int| initial_cell(x, y, w, h))
}

/// The grid of a new `w` by `h` field.
pub open spec fn initial_grid(w: int, h: int) -> Grid {
    Seq::new((w + 1) as nat, |x: int| initial_column(x, w, h))
}

/// The number of rows of the block region that lie above the bottom row of
/// a field of height `h`.
pub open spec fn block_rows(h: int) -> int {
    if h <= BLOCK_TOP {
        0
    } else if h <= BLOCK_BOTTOM {
        h - BLOCK_TOP
    } else {
        BLOCK_BOTTOM - BLOCK_TOP + 1
    }
}

/// The number of blocks a new `w` by `h` field holds: one per row of the
/// block region in each column strictly between the side walls.
pub open spec fn initial_blocks(w: int, h: int) -> int {
    if w >= 2 {
        (w - 1) * block_rows(h)
    } else {
        0
    }
}

/// What a query for the cell at `(x, y)` yields: the cell, or an error when
/// the coordinate is off the grid.
pub open spec fn lookup(g: Grid, x: int, y: int) -> Result<Cell, GameError> {
    if inside(g, x, y) {
        Ok(g[x][y])
    } else {
        Err(GameError::OutOfBounds)
    }
}

/// What a request to clear the cell at `(x, y)` yields: success for a block,
/// and an error for a coordinate off the grid or a cell that is no block.
pub open spec fn clear_outcome(g: Grid, x: int, y: int) -> Result<(), GameError> {
    if !inside(g, x, y) {
        Err(GameError::OutOfBounds)
    } else if g[x][y] is Block {
        Ok(())
    } else {
        Err(GameError::InvalidClear)
    }
}

/// Replacing one cell of a column changes its block count by the difference
/// of the two cells' weights.
pub proof fn lemma_column_update(col: Seq<Cell>, y: int, c: Cell)
    requires
        0 <= y < col.len(),
    ensures
        column_blocks(col.update(y, c)) + col[y].weight() == column_blocks(col) + c.weight(),
    decreases col.len(),
{
    let next = col.update(y, c);
    if y == col.len() - 1 {
        assert(next.drop_last() =~= col.drop_last());
    } else {
        lemma_column_update(col.drop_last(), y, c);
        assert(next.drop_last() =~= col.drop_last().update(y, c));
    }
}

/// Replacing one column of a grid changes its block count by the difference
/// of the two columns' counts.
pub proof fn lemma_grid_update(g: Grid, x: int, col: Seq<Cell>)
    requires
        0 <= x < g.len(),
    ensures
        count_blocks(g.update(x, col)) + column_blocks(g[x]) == count_blocks(g) + column_blocks(
            col,
        ),
    decreases g.len(),
{
    let next = g.update(x, col);
    if x == g.len() - 1 {
        assert(next.drop_last() =~= g.drop_last());
    } else {
        lemma_grid_update(g.drop_last(), x, col);
        assert(next.drop_last() =~= g.drop_last().update(x, col));
    }
}

/// Emptying a cell lowers the block count by one if the cell was a block and
/// leaves it alone otherwise.
pub proof fn lemma_cleared_count(g: Grid, x: int, y: int)
    requires
        0 <= x < g.len(),
        0 <= y < g[x].len(),
    ensures
        count_blocks(cleared(g, x, y)) + g[x][y].weight() == count_blocks(g),
{
    lemma_column_update(g[x], y, Cell::Empty);
    lemma_grid_update(g, x, g[x].update(y, Cell::Empty));
}

/// Emptying a block of a well-formed grid leaves it well formed, with the
/// same extent.
pub proof fn lemma_cleared_well_formed(g: Grid, x: int, y: int)
    requires
        well_formed(g),
        inside(g, x, y),
        g[x][y] is Block,
    ensures
        well_formed(cleared(g, x, y)),
        width(cleared(g, x, y)) == width(g),
        height(cleared(g, x, y)) == height(g),
{
    let next = cleared(g, x, y);
    assert(g[0].len() == height(g) + 1);
    assert(g[x].len() == height(g) + 1);
    assert(next[0].len() == g[0].len());
    assert forall|i: int| 0 <= i <= width(next) implies (#[trigger] next[i]).len() == height(next)
        + 1 by {
        assert(g[i].len() == height(g) + 1);
    }
    assert forall|i: int, j: int| inside(next, i, j) implies fits(
        #[trigger] next[i][j],
        i,
        j,
        width(next),
        height(next),
    ) by {
        assert(fits(g[i][j], i, j, width(g), height(g)));
        assert(fits(g[x][y], x, y, width(g), height(g)));
    }
}

} // verus!
