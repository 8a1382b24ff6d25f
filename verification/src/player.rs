//! Player records: one per side, opaque to this core beyond the side
//! they belong to.

use crate::piece::Side;
use vstd::prelude::*;

verus! {

/// A player, identified by the side it plays.
#[derive(Debug, Clone, Copy, PartialEq, Eq)]
pub struct Player {
    pub side: Side,
}

impl Player {
    /// The player of the White (red) side.
    pub fn new_white() -> (p: Player)
        ensures
            p.side == Side::White,
    {
        Player { side: Side::White }
    }

    /// The player of the Black side.
    pub fn new_black() -> (p: Player)
        ensures
            p.side == Side::Black,
    {
        Player { side: Side::Black }
    }
}

} // verus!
