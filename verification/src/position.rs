//! A row and a column.

use vstd::prelude::*;

verus! {

#[derive(Debug, Default, Clone, Copy, PartialEq, Eq, Structural, PartialOrd, Ord)]
pub struct Position {
    pub row: usize,
    pub col: usize,
}

impl Position {
    pub fn new(row: usize, col: usize) -> (position: Position)
        ensures
            position == (Position { row, col }),
    {
        Position { row, col }
    }

    pub fn is_zero(self) -> (b: bool)
        ensures
            b == (self.row == 0 && self.col == 0),
    {
        self.row == 0 && self.col == 0
    }

    /// The sum, row by row and column by column; `None` where either does not
    /// fit.
    pub fn checked_add(self, rhs: Position) -> (sum: Option<Position>)
        ensures
            sum == if self.row + rhs.row <= usize::MAX && self.col + rhs.col <= usize::MAX {
                Some(Position { row: (self.row + rhs.row) as usize, col: (self.col + rhs.col) as usize })
            } else {
                None
            },
    {
        match (self.row.checked_add(rhs.row), self.col.checked_add(rhs.col)) {
            (Some(row), Some(col)) => Some(Position { row, col }),
            _ => None,
        }
    }

    /// The difference, row by row and column by column; `None` where either
    /// would be negative.
    pub fn checked_sub(self, rhs: Position) -> (difference: Option<Position>)
        ensures
            difference == if self.row >= rhs.row && self.col >= rhs.col {
                Some(Position { row: (self.row - rhs.row) as usize, col: (self.col - rhs.col) as usize })
            } else {
                None
            },
    {
        match (self.row.checked_sub(rhs.row), self.col.checked_sub(rhs.col)) {
            (Some(row), Some(col)) => Some(Position { row, col }),
            _ => None,
        }
    }

    /// The position that a pair of row and column names.
    pub fn from_pair(pair: (usize, usize)) -> (position: Position)
        ensures
            position == (Position { row: pair.0, col: pair.1 }),
    {
        Position { row: pair.0, col: pair.1 }
    }
}

} // verus!
