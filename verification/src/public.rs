//! Shared value types and constants: board positions and the byte bases
//! of the 4-character route notation.

use vstd::prelude::*;

verus! {

/// Byte base of a route string's column characters: `'a'`.
pub const ROUTE_COL_BASE: u8 = 97;

/// Byte base of a route string's row characters: `'0'`.
pub const ROUTE_ROW_BASE: u8 = 48;

/// A board position: row 0 is White's back rank, row 9 Black's;
/// columns run 0..=8 left to right.
#[derive(Debug, Clone, Copy, PartialEq, Eq)]
pub struct Pos {
    pub row: usize,
    pub col: usize,
}

impl Pos {
    /// A position with the given row and column.
    pub fn new(row: usize, col: usize) -> (p: Pos)
        ensures
            p == (Pos { row, col }),
    {
        Pos { row, col }
    }
}

} // verus!
