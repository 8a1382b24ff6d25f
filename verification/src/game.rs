//! The game-state aggregate: the board grid, the two players, the turn
//! state machine and the two notation operations.

use crate::fen::{
    append_decimal, append_digit, count_char, fen_chars, lemma_fen_shape, row_fen, row_fen_from,
    rows_prefix,
};
use crate::engine::{engine_last_move, engine_moves, engine_new};
use crate::piece::{Kind, Piece, Side};
use crate::player::Player;
use crate::public::{Pos, ROUTE_COL_BASE, ROUTE_ROW_BASE};
use vstd::prelude::*;
use vstd::string::{StrSliceExecFns, StringExecFns};

verus! {

/// How a game is driven: against the computer, replaying a deduction,
/// or two players at one board.
#[derive(Debug, Clone, Copy, Eq, PartialEq)]
pub enum GameMode {
    AiGame,
    DeduceGame,
    InterGame,
}

/// The side that moves after `s` has moved.
pub open spec fn step_side(s: Side) -> Side {
    match s {
        Side::White => Side::Black,
        Side::Black => Side::White,
    }
}

/// The round counter after `s` has moved: it counts completed White
/// moves, so it advances only when White hands the turn over.
pub open spec fn step_round(s: Side, round: int) -> int {
    if s == Side::White {
        round + 1
    } else {
        round
    }
}

/// The side to move after `n` hand-overs from a state where `s` is to
/// move.
pub open spec fn run_side(s: Side, n: nat) -> Side
    decreases n,
{
    if n == 0 {
        s
    } else {
        step_side(run_side(s, (n - 1) as nat))
    }
}

/// The round counter after `n` hand-overs from a state where `s` is to
/// move and the counter stands at `round`.
pub open spec fn run_round(s: Side, round: int, n: nat) -> int
    decreases n,
{
    if n == 0 {
        round
    } else {
        step_round(run_side(s, (n - 1) as nat), run_round(s, round, (n - 1) as nat))
    }
}

/// Starting from White to move, the side alternates strictly: after `n`
/// hand-overs White is to move exactly when `n` is even. The round
/// counter advances exactly once per White-to-Black hand-over and never
/// on Black-to-White, so it stands at `round + (n + 1) / 2`.
pub proof fn lemma_turn_alternation(round: int, n: nat)
    ensures
        run_side(Side::White, n) == (if n % 2 == 0 {
            Side::White
        } else {
            Side::Black
        }),
        run_round(Side::White, round, n) == round + (n + 1) / 2,
    decreases n,
{
    if n > 0 {
        lemma_turn_alternation(round, (n - 1) as nat);
    }
}

/// A White piece at the given cell, as placed by the initial layout.
pub open spec fn wp(kind: Kind, row: usize, col: usize) -> Option<Piece> {
    Some(Piece { kind, side: Side::White, row, col })
}

/// A Black piece at the given cell, as placed by the initial layout.
pub open spec fn bp(kind: Kind, row: usize, col: usize) -> Option<Piece> {
    Some(Piece { kind, side: Side::Black, row, col })
}

/// A row of nine empty cells.
pub open spec fn empty_row() -> Seq<Option<Piece>> {
    Seq::new(9, |i: int| None::<Piece>)
}

/// Row `r` of the standard Xiangqi starting position.
pub open spec fn initial_row(r: int) -> Seq<Option<Piece>> {
    if r == 0 {
        seq![
            wp(Kind::Rook, 0, 0),
            wp(Kind::Knight, 0, 1),
            wp(Kind::Bishop, 0, 2),
            wp(Kind::Advisor, 0, 3),
            wp(Kind::King, 0, 4),
            wp(Kind::Advisor, 0, 5),
            wp(Kind::Bishop, 0, 6),
            wp(Kind::Knight, 0, 7),
            wp(Kind::Rook, 0, 8),
        ]
    } else if r == 2 {
        seq![
            None,
            wp(Kind::Cannon, 2, 1),
            None,
            None,
            None,
            None,
            None,
            wp(Kind::Cannon, 2, 7),
            None,
        ]
    } else if r == 3 {
        seq![
            wp(Kind::Pawn, 3, 0),
            None,
            wp(Kind::Pawn, 3, 2),
            None,
            wp(Kind::Pawn, 3, 4),
            None,
            wp(Kind::Pawn, 3, 6),
            None,
            wp(Kind::Pawn, 3, 8),
        ]
    } else if r == 6 {
        seq![
            bp(Kind::Pawn, 6, 0),
            None,
            bp(Kind::Pawn, 6, 2),
            None,
            bp(Kind::Pawn, 6, 4),
            None,
            bp(Kind::Pawn, 6, 6),
            None,
            bp(Kind::Pawn, 6, 8),
        ]
    } else if r == 7 {
        seq![
            None,
            bp(Kind::Cannon, 7, 1),
            None,
            None,
            None,
            None,
            None,
            bp(Kind::Cannon, 7, 7),
            None,
        ]
    } else if r == 9 {
        seq![
            bp(Kind::Rook, 9, 0),
            bp(Kind::Knight, 9, 1),
            bp(Kind::Bishop, 9, 2),
            bp(Kind::Advisor, 9, 3),
            bp(Kind::King, 9, 4),
            bp(Kind::Advisor, 9, 5),
            bp(Kind::Bishop, 9, 6),
            bp(Kind::Knight, 9, 7),
            bp(Kind::Rook, 9, 8),
        ]
    } else {
        empty_row()
    }
}

/// The standard starting position, as a sequence of rows.
pub open spec fn initial_board() -> Seq<Seq<Option<Piece>>> {
    Seq::new(10, |r: int| initial_row(r))
}

/// The board grid as a sequence of rows of cells.
pub open spec fn board_view(m: [[Option<Piece>; 9]; 10]) -> Seq<Seq<Option<Piece>>> {
    Seq::new(10, |r: int| m@[r]@)
}

/// Number of occupied cells in the row suffix that starts at cell `i`.
pub open spec fn row_piece_count_from(row: Seq<Option<Piece>>, i: int) -> int
    decreases row.len() - i,
{
    if i < 0 || i >= row.len() {
        0
    } else {
        (if row[i] is Some {
            1int
        } else {
            0int
        }) + row_piece_count_from(row, i + 1)
    }
}

/// Number of occupied cells in one row.
pub open spec fn row_piece_count(row: Seq<Option<Piece>>) -> int {
    row_piece_count_from(row, 0)
}

/// Number of occupied cells in the rows from `i` on.
pub open spec fn rows_piece_count_from(b: Seq<Seq<Option<Piece>>>, i: int) -> int
    decreases b.len() - i,
{
    if i < 0 || i >= b.len() {
        0
    } else {
        row_piece_count(b[i]) + rows_piece_count_from(b, i + 1)
    }
}

/// Number of occupied cells on the whole board.
pub open spec fn board_piece_count(b: Seq<Seq<Option<Piece>>>) -> int {
    rows_piece_count_from(b, 0)
}

/// The standard starting position places exactly 32 pieces: 16 White
/// in rows 0 to 3 and 16 Black in rows 6 to 9.
pub proof fn lemma_initial_piece_count()
    ensures
        board_piece_count(initial_board()) == 32,
{
    reveal_with_fuel(row_piece_count_from, 11);
    assert(row_piece_count(initial_row(0)) == 9);
    assert(row_piece_count(initial_row(1)) == 0);
    assert(row_piece_count(initial_row(2)) == 2);
    assert(row_piece_count(initial_row(3)) == 5);
    assert(row_piece_count(initial_row(4)) == 0);
    assert(row_piece_count(initial_row(5)) == 0);
    assert(row_piece_count(initial_row(6)) == 5);
    assert(row_piece_count(initial_row(7)) == 2);
    assert(row_piece_count(initial_row(8)) == 0);
    assert(row_piece_count(initial_row(9)) == 9);
    reveal_with_fuel(rows_piece_count_from, 12);
    assert(board_piece_count(initial_board()) == 32);
}

/// Whatever pieces stand on the grid, the exported position string
/// holds exactly nine `/` separators: ten row segments, none of them
/// trailing. Together with [`Data::to_fen`]'s postcondition this pins
/// the shape of every exported string.
pub proof fn lemma_to_fen_shape(
    m: [[Option<Piece>; 9]; 10],
    side: Side,
    noeat: int,
    round: int,
)
    requires
        0 <= noeat,
        0 <= round,
    ensures
        count_char(fen_chars(board_view(m), side, noeat, round), '/') == 9,
{
    let bv = board_view(m);
    assert forall|r: int| 0 <= r < bv.len() implies #[trigger] bv[r].len() == 9 by {
        assert(bv[r] == m@[r]@);
    }
    lemma_fen_shape(bv, side, noeat, round);
}

/// The game-state aggregate. The board grid is the authoritative piece
/// placement; the engine handle owns the authoritative move list.
pub struct Data {
    pub white_player: Player,
    pub black_player: Player,
    pub broad_map: [[Option<Piece>; 9]; 10],
    pub round: usize,
    pub noeat_move_num: usize,
    pub current_side: Option<Side>,
    pub engine: chessai::Engine,
    pub mode: Option<GameMode>,
    pub selected: Option<Piece>,
    pub ai_side: Option<Side>,
}

impl Data {
    /// A fresh game: the standard starting layout, both players, a
    /// fresh engine with no committed moves, all counters at zero and
    /// no side active yet.
    pub fn new() -> (d: Data)
        ensures
            board_view(d.broad_map) == initial_board(),
            board_piece_count(board_view(d.broad_map)) == 32,
            engine_moves(d.engine).len() == 0,
            d.round == 0,
            d.noeat_move_num == 0,
            d.current_side is None,
            d.mode is None,
            d.selected is None,
            d.ai_side is None,
            d.white_player.side == Side::White,
            d.black_player.side == Side::Black,
    {
        let broad_map: [[Option<Piece>; 9]; 10] = [
            [
                Some(Piece::white(Kind::Rook, 0, 0)),
                Some(Piece::white(Kind::Knight, 0, 1)),
                Some(Piece::white(Kind::Bishop, 0, 2)),
                Some(Piece::white(Kind::Advisor, 0, 3)),
                Some(Piece::white(Kind::King, 0, 4)),
                Some(Piece::white(Kind::Advisor, 0, 5)),
                Some(Piece::white(Kind::Bishop, 0, 6)),
                Some(Piece::white(Kind::Knight, 0, 7)),
                Some(Piece::white(Kind::Rook, 0, 8)),
            ],
            [None, None, None, None, None, None, None, None, None],
            [
                None,
                Some(Piece::white(Kind::Cannon, 2, 1)),
                None,
                None,
                None,
                None,
                None,
                Some(Piece::white(Kind::Cannon, 2, 7)),
                None,
            ],
            [
                Some(Piece::white(Kind::Pawn, 3, 0)),
                None,
                Some(Piece::white(Kind::Pawn, 3, 2)),
                None,
                Some(Piece::white(Kind::Pawn, 3, 4)),
                None,
                Some(Piece::white(Kind::Pawn, 3, 6)),
                None,
                Some(Piece::white(Kind::Pawn, 3, 8)),
            ],
            [None, None, None, None, None, None, None, None, None],
            [None, None, None, None, None, None, None, None, None],
            [
                Some(Piece::black(Kind::Pawn, 6, 0)),
                None,
                Some(Piece::black(Kind::Pawn, 6, 2)),
                None,
                Some(Piece::black(Kind::Pawn, 6, 4)),
                None,
                Some(Piece::black(Kind::Pawn, 6, 6)),
                None,
                Some(Piece::black(Kind::Pawn, 6, 8)),
            ],
            [
                None,
                Some(Piece::black(Kind::Cannon, 7, 1)),
                None,
                None,
                None,
                None,
                None,
                Some(Piece::black(Kind::Cannon, 7, 7)),
                None,
            ],
            [None, None, None, None, None, None, None, None, None],
            [
                Some(Piece::black(Kind::Rook, 9, 0)),
                Some(Piece::black(Kind::Knight, 9, 1)),
                Some(Piece::black(Kind::Bishop, 9, 2)),
                Some(Piece::black(Kind::Advisor, 9, 3)),
                Some(Piece::black(Kind::King, 9, 4)),
                Some(Piece::black(Kind::Advisor, 9, 5)),
                Some(Piece::black(Kind::Bishop, 9, 6)),
                Some(Piece::black(Kind::Knight, 9, 7)),
                Some(Piece::black(Kind::Rook, 9, 8)),
            ],
        ];
        proof {
            assert(broad_map@[0]@ =~= initial_row(0));
            assert(broad_map@[1]@ =~= initial_row(1));
            assert(broad_map@[2]@ =~= initial_row(2));
            assert(broad_map@[3]@ =~= initial_row(3));
            assert(broad_map@[4]@ =~= initial_row(4));
            assert(broad_map@[5]@ =~= initial_row(5));
            assert(broad_map@[6]@ =~= initial_row(6));
            assert(broad_map@[7]@ =~= initial_row(7));
            assert(broad_map@[8]@ =~= initial_row(8));
            assert(broad_map@[9]@ =~= initial_row(9));
            assert(board_view(broad_map) =~~= initial_board());
            lemma_initial_piece_count();
        }
        Data {
            engine: engine_new(),
            white_player: Player::new_white(),
            black_player: Player::new_black(),
            broad_map,
            round: 0,
            noeat_move_num: 0,
            current_side: None,
            mode: None,
            selected: None,
            ai_side: None,
        }
    }

    /// The engine's most recent committed move, if any, as a typed
    /// position pair in this core's row/column convention.
    pub fn get_last_move(&self) -> (r: Option<(Pos, Pos)>)
        ensures
            r is None <==> engine_moves(self.engine).len() == 0,
            r matches Some(pq) ==> {
                &&& engine_moves(self.engine).len() > 0
                &&& pq.0.row as int == engine_moves(self.engine).last().0
                &&& pq.0.col as int == engine_moves(self.engine).last().1
                &&& pq.1.row as int == engine_moves(self.engine).last().2
                &&& pq.1.col as int == engine_moves(self.engine).last().3
            },
    {
        match engine_last_move(&self.engine) {
            Some((src_row, src_col, dst_row, dst_col)) => {
                Some((Pos::new(src_row, src_col), Pos::new(dst_row, dst_col)))
            },
            None => None,
        }
    }

    /// Export the position as the FEN-like string defined by
    /// [`fen_chars`]. A side must be active.
    pub fn to_fen(&self) -> (r: String)
        requires
            self.current_side is Some,
        ensures
            r@ == fen_chars(
                board_view(self.broad_map),
                self.current_side.unwrap(),
                self.noeat_move_num as int,
                self.round as int,
            ),
            count_char(r@, '/') == 9,
    {
        proof {
            lemma_to_fen_shape(
                self.broad_map,
                self.current_side.unwrap(),
                self.noeat_move_num as int,
                self.round as int,
            );
        }
        let ghost bv = board_view(self.broad_map);
        let mut fen = String::new();
        let mut i: usize = 0;
        while i < 10
            invariant
                i <= 10,
                fen@ == rows_prefix(bv, i as int),
                bv == board_view(self.broad_map),
            decreases 10 - i,
        {
            let ghost row = bv[i as int];
            let mut line = String::new();
            let mut num: usize = 0;
            let mut j: usize = 0;
            while j < 9
                invariant
                    j <= 9,
                    num <= j,
                    i < 10,
                    bv == board_view(self.broad_map),
                    row == bv[i as int],
                    line@ + row_fen_from(row, j as int, num as int) =~= row_fen(row),
                decreases 9 - j,
            {
                let cell = self.broad_map[i][j];
                proof {
                    assert(cell == row[j as int]);
                }
                match cell {
                    Some(piece) => {
                        if num > 0 {
                            append_digit(&mut line, num);
                            num = 0;
                        }
                        let code = piece.code();
                        line.append(code.as_str());
                    },
                    None => {
                        num = num + 1;
                    },
                }
                j = j + 1;
            }
            if num > 0 {
                append_digit(&mut line, num);
            }
            proof {
                assert(line@ =~= row_fen(row));
            }
            if i > 0 {
                proof {
                    reveal_strlit("/");
                }
                fen.append("/");
            }
            fen.append(line.as_str());
            proof {
                assert(fen@ =~= rows_prefix(bv, i as int + 1));
            }
            i = i + 1;
        }
        proof {
            reveal_strlit(" ");
            reveal_strlit(" -- ");
        }
        fen.append(" ");
        let side = self.current_side.unwrap();
        let code = side.code();
        fen.append(code.as_str());
        fen.append(" -- ");
        append_decimal(&mut fen, self.noeat_move_num);
        fen.append(" ");
        append_decimal(&mut fen, self.round);
        proof {
            assert(fen@ =~= fen_chars(
                bv,
                self.current_side.unwrap(),
                self.noeat_move_num as int,
                self.round as int,
            ));
        }
        fen
    }

    /// The player whose turn it is, borrowed for updating. A side must
    /// be active.
    pub fn get_current_player(&mut self) -> (p: &mut Player)
        requires
            old(self).current_side is Some,
        ensures
            old(self).current_side == Some(Side::White) ==> {
                &&& *p == old(self).white_player
                &&& *final(self) == (Data { white_player: *final(p), ..*old(self) })
            },
            old(self).current_side == Some(Side::Black) ==> {
                &&& *p == old(self).black_player
                &&& *final(self) == (Data { black_player: *final(p), ..*old(self) })
            },
    {
        match self.current_side {
            Some(Side::Black) => &mut self.black_player,
            Some(Side::White) => &mut self.white_player,
            None => vstd::pervasive::unreached(),
        }
    }

    /// Hand the turn to the other side; the round counter advances
    /// exactly when White is the side that just moved. A side must be
    /// active.
    pub fn change_side(&mut self)
        requires
            old(self).current_side is Some,
            old(self).current_side == Some(Side::White) ==> old(self).round < usize::MAX,
        ensures
            final(self).current_side == Some(step_side(old(self).current_side.unwrap())),
            final(self).round as int == step_round(
                old(self).current_side.unwrap(),
                old(self).round as int,
            ),
            final(self).broad_map == old(self).broad_map,
            final(self).engine == old(self).engine,
            final(self).white_player == old(self).white_player,
            final(self).black_player == old(self).black_player,
            final(self).noeat_move_num == old(self).noeat_move_num,
            final(self).mode == old(self).mode,
            final(self).selected == old(self).selected,
            final(self).ai_side == old(self).ai_side,
    {
        match self.current_side {
            Some(Side::White) => {
                self.round = self.round + 1;
                self.current_side = Some(Side::Black);
            },
            Some(Side::Black) => {
                self.current_side = Some(Side::White);
            },
            None => {
                vstd::pervasive::unreached::<()>();
            },
        }
    }

    /// Decode a 4-character route string into `((src_row, src_col),
    /// (dst_row, dst_col))` by subtracting the column and row bases.
    pub fn parse_route(&self, route: String) -> (r: ((usize, usize), (usize, usize)))
        requires
            route@.len() >= 4,
            ROUTE_COL_BASE <= route@[0] as int <= 127,
            ROUTE_ROW_BASE <= route@[1] as int <= 127,
            ROUTE_COL_BASE <= route@[2] as int <= 127,
            ROUTE_ROW_BASE <= route@[3] as int <= 127,
        ensures
            r.0.0 as int == route@[1] as int - ROUTE_ROW_BASE,
            r.0.1 as int == route@[0] as int - ROUTE_COL_BASE,
            r.1.0 as int == route@[3] as int - ROUTE_ROW_BASE,
            r.1.1 as int == route@[2] as int - ROUTE_COL_BASE,
    {
        let c0: u32 = route.as_str().get_char(0) as u32;
        let c1: u32 = route.as_str().get_char(1) as u32;
        let c2: u32 = route.as_str().get_char(2) as u32;
        let c3: u32 = route.as_str().get_char(3) as u32;
        let src_col: usize = (c0 - ROUTE_COL_BASE as u32) as usize;
        let src_row: usize = (c1 - ROUTE_ROW_BASE as u32) as usize;
        let dst_col: usize = (c2 - ROUTE_COL_BASE as u32) as usize;
        let dst_row: usize = (c3 - ROUTE_ROW_BASE as u32) as usize;
        ((src_row, src_col), (dst_row, dst_col))
    }
}

} // verus!
