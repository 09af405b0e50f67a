//! Screen geometry: the viewport's size and cell coordinates.

use vstd::prelude::*;

verus! {

/// A size in terminal cells.
#[derive(Clone, Copy, Debug, Default, PartialEq, Eq, Structural)]
pub struct Size {
    pub height: usize,
    pub width: usize,
}

/// A zero-based terminal cell: column and row.
#[derive(Clone, Copy, Debug, Default, PartialEq, Eq, Structural)]
pub struct Position {
    pub col: usize,
    pub row: usize,
}

impl Position {
    pub fn new(col: usize, row: usize) -> (r: Self)
        ensures
            r.col == col,
            r.row == row,
    {
        Self { col, row }
    }

    /// This position less `other`, coordinate by coordinate, stopping at zero.
    pub fn saturating_sub(self, other: Position) -> (r: Position)
        ensures
            r.col == if self.col >= other.col {
                self.col - other.col
            } else {
                0
            },
            r.row == if self.row >= other.row {
                self.row - other.row
            } else {
                0
            },
    {
        Position { col: self.col.saturating_sub(other.col), row: self.row.saturating_sub(other.row) }
    }

    /// The position as the 16-bit coordinates a terminal driver takes, or
    /// `None` when either coordinate does not fit.
    pub fn to_terminal(&self) -> (r: Option<(u16, u16)>)
        ensures
            r is Some <==> self.col <= u16::MAX && self.row <= u16::MAX,
            r matches Some((c, w)) ==> c == self.col && w == self.row,
    {
        if self.col <= u16::MAX as usize && self.row <= u16::MAX as usize {
            Some((self.col as u16, self.row as u16))
        } else {
            None
        }
    }
}

} // verus!
