//! The ways in which a call on the grid can be refused.

use vstd::prelude::*;

verus! {

/// Why a call was refused. A refused call leaves the grid as it was.
#[derive(Clone, Copy, Debug, PartialEq, Eq, Structural)]
pub enum GridError {
    /// A row or column index is not below its count, a dimension array does
    /// not match its count, or a viewport dimension is zero.
    OutOfBounds,
    /// A bound of zero was passed where at least one row or column, or a
    /// positive row height, is needed.
    InvalidBound,
}

} // verus!
