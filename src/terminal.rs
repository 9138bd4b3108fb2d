use vstd::prelude::*;

verus! {

/// An extent on screen, in rows and columns.
#[derive(Copy, Clone, Debug, Default, PartialEq, Eq, Structural)]
pub struct Size {
    pub height: usize,
    pub width: usize,
}

/// A cell on screen: a column and a row, counted from zero.
#[derive(Copy, Clone, Debug, Default, PartialEq, Eq, Structural)]
pub struct Position {
    pub col: usize,
    pub row: usize,
}

impl Position {
    pub fn new(col: usize, row: usize) -> (r: Position)
        ensures
            r.col == col,
            r.row == row,
    {
        Position { col, row }
    }

    /// This position less `other`, each coordinate stopping at zero.
    pub fn saturating_sub(self, other: Position) -> (r: Position)
        ensures
            r.row == if self.row >= other.row { self.row - other.row } else { 0 },
            r.col == if self.col >= other.col { self.col - other.col } else { 0 },
    {
        Position { row: self.row.saturating_sub(other.row), col: self.col.saturating_sub(other.col) }
    }
}

} // verus!
