//! Pixel geometry: a cell starts where the rows above it and the columns
//! left of it end.

use vstd::prelude::*;
use crate::error::GridError;

verus! {

/// A cell as a rendering layer needs it: its 0-based position in the grid
/// and its rectangle in pixels, measured from the grid's top-left corner.
#[derive(Clone, Copy, Debug, PartialEq, Eq, Structural)]
pub struct Cell {
    pub row: usize,
    pub col: usize,
    pub x: usize,
    pub y: usize,
    pub width: usize,
    pub height: usize,
}

/// The sum of the first `n` of `sizes`: where entry `n` starts, in pixels.
pub open spec fn extent(sizes: Seq<usize>, n: int) -> int
    decreases n,
{
    if n <= 0 {
        0
    } else {
        extent(sizes, n - 1) + sizes[n - 1]
    }
}

/// The sum of all of `sizes`.
pub open spec fn total_extent(sizes: Seq<usize>) -> int {
    extent(sizes, sizes.len() as int)
}

/// Whether `cell` is the cell at `(row, col)` of a grid with the given row
/// heights and column widths.
pub open spec fn is_cell_at(
    cell: Cell,
    row_heights: Seq<usize>,
    col_widths: Seq<usize>,
    row: int,
    col: int,
) -> bool {
    &&& cell.row == row
    &&& cell.col == col
    &&& cell.x == extent(col_widths, col)
    &&& cell.y == extent(row_heights, row)
    &&& cell.width == col_widths[col]
    &&& cell.height == row_heights[row]
}

/// A later entry starts no earlier than an earlier one.
pub proof fn lemma_extent_monotone(sizes: Seq<usize>, i: int, j: int)
    requires
        i <= j,
    ensures
        0 <= extent(sizes, i) <= extent(sizes, j),
    decreases j - i, i,
{
    if i < j {
        lemma_extent_monotone(sizes, i, j - 1);
    } else if i > 0 {
        lemma_extent_monotone(sizes, i - 1, i - 1);
    }
}

/// With every one of the first `n` sizes equal to `size`, entry `n` starts
/// at `n * size`.
pub proof fn lemma_extent_uniform(sizes: Seq<usize>, n: int, size: int)
    requires
        0 <= n,
        forall|i: int| 0 <= i < n ==> sizes[i] == size,
    ensures
        extent(sizes, n) == n * size,
    decreases n,
{
    if n > 0 {
        lemma_extent_uniform(sizes, n - 1, size);
        assert((n - 1) * size + size == n * size) by (nonlinear_arith);
    } else {
        assert(0 * size == 0) by (nonlinear_arith);
    }
}

/// Where entry `index` of `sizes` starts: the sum of the sizes before it.
pub fn extent_before(sizes: &[usize], index: usize) -> (start: usize)
    requires
        index <= sizes@.len(),
        total_extent(sizes@) <= usize::MAX,
    ensures
        start == extent(sizes@, index as int),
{
    let mut start: usize = 0;
    let mut i: usize = 0;
    while i < index
        invariant
            i <= index <= sizes@.len(),
            total_extent(sizes@) <= usize::MAX,
            start == extent(sizes@, i as int),
        decreases index - i,
    {
        proof {
            lemma_extent_monotone(sizes@, i + 1, sizes@.len() as int);
        }
        start = start + sizes[i];
        i = i + 1;
    }
    start
}

/// The cell at `(row, col)`: it starts where the columns before `col` and
/// the rows before `row` end, and has the width of its column and the
/// height of its row. An index that is not below its count is refused.
pub fn cell_geometry(row_heights: &[usize], col_widths: &[usize], row: usize, col: usize) -> (cell:
    Result<Cell, GridError>)
    requires
        total_extent(row_heights@) <= usize::MAX,
        total_extent(col_widths@) <= usize::MAX,
    ensures
        row >= row_heights@.len() || col >= col_widths@.len() ==> cell == Err::<Cell, GridError>(
            GridError::OutOfBounds,
        ),
        row < row_heights@.len() && col < col_widths@.len() ==> cell is Ok && is_cell_at(
            cell->Ok_0,
            row_heights@,
            col_widths@,
            row as int,
            col as int,
        ),
{
    if row >= row_heights.len() || col >= col_widths.len() {
        return Err(GridError::OutOfBounds);
    }
    let x: usize = extent_before(col_widths, col);
    let y: usize = extent_before(row_heights, row);
    Ok(Cell { row, col, x, y, width: col_widths[col], height: row_heights[row] })
}

} // verus!
