//! Piece and side model: immutable value types with one-character
//! notation codes, case-distinguished by side as in Xiangqi FEN.

use vstd::prelude::*;

verus! {

/// One of the two players; White is the red side in Xiangqi terms.
#[derive(Debug, Clone, Copy, PartialEq, Eq)]
pub enum Side {
    White,
    Black,
}

/// The seven Xiangqi piece kinds.
#[derive(Debug, Clone, Copy, PartialEq, Eq)]
pub enum Kind {
    King,
    Advisor,
    Bishop,
    Knight,
    Rook,
    Cannon,
    Pawn,
}

/// The one-character notation code of a side: `w` for White, `b` for Black.
pub open spec fn side_char(s: Side) -> char {
    match s {
        Side::White => 'w',
        Side::Black => 'b',
    }
}

/// The one-character notation code of a piece: uppercase for White,
/// lowercase for Black.
pub open spec fn piece_char(kind: Kind, side: Side) -> char {
    match side {
        Side::White => match kind {
            Kind::King => 'K',
            Kind::Advisor => 'A',
            Kind::Bishop => 'B',
            Kind::Knight => 'N',
            Kind::Rook => 'R',
            Kind::Cannon => 'C',
            Kind::Pawn => 'P',
        },
        Side::Black => match kind {
            Kind::King => 'k',
            Kind::Advisor => 'a',
            Kind::Bishop => 'b',
            Kind::Knight => 'n',
            Kind::Rook => 'r',
            Kind::Cannon => 'c',
            Kind::Pawn => 'p',
        },
    }
}

impl Side {
    /// The side's notation code as a string of one character.
    pub fn code(&self) -> (s: String)
        ensures
            s@ =~= seq![side_char(*self)],
    {
        match self {
            Side::White => {
                proof {
                    reveal_strlit("w");
                }
                String::from_str("w")
            },
            Side::Black => {
                proof {
                    reveal_strlit("b");
                }
                String::from_str("b")
            },
        }
    }
}

/// A piece value. `row`/`col` record the position given at construction;
/// the board grid, not these fields, is the authoritative position once
/// the piece has moved.
#[derive(Debug, Clone, Copy, PartialEq, Eq)]
pub struct Piece {
    pub kind: Kind,
    pub side: Side,
    pub row: usize,
    pub col: usize,
}

impl Piece {
    /// A White piece of the given kind at the given coordinates.
    pub fn white(kind: Kind, row: usize, col: usize) -> (p: Piece)
        ensures
            p == (Piece { kind, side: Side::White, row, col }),
    {
        Piece { kind, side: Side::White, row, col }
    }

    /// A Black piece of the given kind at the given coordinates.
    pub fn black(kind: Kind, row: usize, col: usize) -> (p: Piece)
        ensures
            p == (Piece { kind, side: Side::Black, row, col }),
    {
        Piece { kind, side: Side::Black, row, col }
    }

    /// The piece's notation code as a string of one character.
    pub fn code(&self) -> (s: String)
        ensures
            s@ =~= seq![piece_char(self.kind, self.side)],
    {
        match self.side {
            Side::White => match self.kind {
                Kind::King => {
                    proof {
                        reveal_strlit("K");
                    }
                    String::from_str("K")
                },
                Kind::Advisor => {
                    proof {
                        reveal_strlit("A");
                    }
                    String::from_str("A")
                },
                Kind::Bishop => {
                    proof {
                        reveal_strlit("B");
                    }
                    String::from_str("B")
                },
                Kind::Knight => {
                    proof {
                        reveal_strlit("N");
                    }
                    String::from_str("N")
                },
                Kind::Rook => {
                    proof {
                        reveal_strlit("R");
                    }
                    String::from_str("R")
                },
                Kind::Cannon => {
                    proof {
                        reveal_strlit("C");
                    }
                    String::from_str("C")
                },
                Kind::Pawn => {
                    proof {
                        reveal_strlit("P");
                    }
                    String::from_str("P")
                },
            },
            Side::Black => match self.kind {
                Kind::King => {
                    proof {
                        reveal_strlit("k");
                    }
                    String::from_str("k")
                },
                Kind::Advisor => {
                    proof {
                        reveal_strlit("a");
                    }
                    String::from_str("a")
                },
                Kind::Bishop => {
                    proof {
                        reveal_strlit("b");
                    }
                    String::from_str("b")
                },
                Kind::Knight => {
                    proof {
                        reveal_strlit("n");
                    }
                    String::from_str("n")
                },
                Kind::Rook => {
                    proof {
                        reveal_strlit("r");
                    }
                    String::from_str("r")
                },
                Kind::Cannon => {
                    proof {
                        reveal_strlit("c");
                    }
                    String::from_str("c")
                },
                Kind::Pawn => {
                    proof {
                        reveal_strlit("p");
                    }
                    String::from_str("p")
                },
            },
        }
    }
}

} // verus!
