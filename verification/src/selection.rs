//! The selected cell and how it moves by one step in a direction.

use vstd::prelude::*;
use crate::error::GridError;

verus! {

/// A direction in which the selection moves by one cell.
#[allow(non_camel_case_types)]
#[derive(Clone, Copy, Debug, PartialEq, Eq, Structural)]
pub enum Direction {
    UP,
    DOWN,
    LEFT,
    RIGHT,
}

/// A rectangular selection given by its two corners, both inclusive and
/// 0-based. Every move yields a single cell: both corners on one cell.
#[derive(Clone, Copy, Debug, PartialEq, Eq, Structural)]
pub struct SelectedCellRange {
    pub start_row: usize,
    pub start_col: usize,
    pub end_row: usize,
    pub end_col: usize,
}

/// The smaller of two integers.
pub open spec fn min_int(a: int, b: int) -> int {
    if a <= b {
        a
    } else {
        b
    }
}

/// The larger of two integers.
pub open spec fn max_int(a: int, b: int) -> int {
    if a >= b {
        a
    } else {
        b
    }
}

/// A [`SelectedCellRange`] as mathematical values.
pub struct RangeState {
    pub start_row: int,
    pub start_col: int,
    pub end_row: int,
    pub end_col: int,
}

impl RangeState {
    /// The selection of the single cell at `(row, col)`.
    pub open spec fn at(row: int, col: int) -> RangeState {
        RangeState { start_row: row, start_col: col, end_row: row, end_col: col }
    }

    /// Whether the selection covers exactly one cell.
    pub open spec fn is_single_cell(self) -> bool {
        self.start_row == self.end_row && self.start_col == self.end_col
    }

    /// One row up from the start corner, stopping at row 0.
    pub open spec fn up(self) -> RangeState {
        Self::at(max_int(self.start_row - 1, 0), self.start_col)
    }

    /// One column left from the start corner, stopping at column 0.
    pub open spec fn left(self) -> RangeState {
        Self::at(self.start_row, max_int(self.start_col - 1, 0))
    }

    /// One row down from the start corner, stopping at the last of
    /// `row_bound` rows.
    pub open spec fn down(self, row_bound: int) -> RangeState {
        Self::at(min_int(self.start_row + 1, row_bound - 1), self.start_col)
    }

    /// One column right from the start corner, stopping at `col_bound`
    /// itself: with `col_bound` columns that is one past the last.
    pub open spec fn right(self, col_bound: int) -> RangeState {
        Self::at(self.start_row, min_int(self.start_col + 1, col_bound))
    }

    /// One step in `direction`, in a grid of `row_bound` rows and
    /// `col_bound` columns.
    pub open spec fn stepped(self, direction: Direction, row_bound: int, col_bound: int)
        -> RangeState {
        match direction {
            Direction::UP => self.up(),
            Direction::DOWN => self.down(row_bound),
            Direction::LEFT => self.left(),
            Direction::RIGHT => self.right(col_bound),
        }
    }
}

impl View for SelectedCellRange {
    type V = RangeState;

    open spec fn view(&self) -> RangeState {
        RangeState {
            start_row: self.start_row as int,
            start_col: self.start_col as int,
            end_row: self.end_row as int,
            end_col: self.end_col as int,
        }
    }
}

impl SelectedCellRange {
    /// The selection of the single cell at `(row, col)`.
    pub fn single(row: usize, col: usize) -> (range: Self)
        ensures
            range@ == RangeState::at(row as int, col as int),
    {
        SelectedCellRange { start_row: row, start_col: col, end_row: row, end_col: col }
    }

    /// One row up from the start corner, stopping at row 0.
    pub fn move_up(&self) -> (moved: Self)
        ensures
            moved@ == self@.up(),
    {
        let row: usize = if self.start_row > 0 {
            self.start_row - 1
        } else {
            0
        };
        Self::single(row, self.start_col)
    }

    /// One column left from the start corner, stopping at column 0.
    pub fn move_left(&self) -> (moved: Self)
        ensures
            moved@ == self@.left(),
    {
        let col: usize = if self.start_col > 0 {
            self.start_col - 1
        } else {
            0
        };
        Self::single(self.start_row, col)
    }

    /// One row down from the start corner, stopping at the last of
    /// `boundary` rows. A `boundary` of zero rows is refused.
    pub fn move_down(&self, boundary: usize) -> (moved: Result<Self, GridError>)
        ensures
            boundary == 0 ==> moved is Err && moved->Err_0 == GridError::InvalidBound,
            boundary > 0 ==> moved is Ok && moved->Ok_0@ == self@.down(boundary as int),
    {
        if boundary == 0 {
            return Err(GridError::InvalidBound);
        }
        let row: usize = if self.start_row < boundary - 1 {
            self.start_row + 1
        } else {
            boundary - 1
        };
        Ok(Self::single(row, self.start_col))
    }

    /// One column right from the start corner, stopping at column
    /// `boundary` itself: with `boundary` columns that is one past the last.
    pub fn move_right(&self, boundary: usize) -> (moved: Self)
        ensures
            moved@ == self@.right(boundary as int),
    {
        let col: usize = if self.start_col < boundary {
            self.start_col + 1
        } else {
            boundary
        };
        Self::single(self.start_row, col)
    }
}

} // verus!
