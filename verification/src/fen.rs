//! The FEN-like position notation: the encoding, defined at the
//! specification level, and verified helpers that build it.
//!
//! The board section encodes the 10 rows top to bottom, joined by `/`;
//! within a row each piece becomes its one-character code and each run
//! of consecutive empty cells one digit. The board section is followed
//! by a space, the side to move, the literal placeholder `--`, the
//! no-capture half-move count and the round number, space-separated.

use crate::piece::{piece_char, side_char, Piece, Side};
use vstd::prelude::*;
use vstd::string::StringExecFns;

verus! {

/// The character of a single decimal digit.
pub open spec fn digit_char(n: int) -> char {
    if n == 0 {
        '0'
    } else if n == 1 {
        '1'
    } else if n == 2 {
        '2'
    } else if n == 3 {
        '3'
    } else if n == 4 {
        '4'
    } else if n == 5 {
        '5'
    } else if n == 6 {
        '6'
    } else if n == 7 {
        '7'
    } else if n == 8 {
        '8'
    } else {
        '9'
    }
}

/// The run-length mark for `n` pending empty cells: nothing for a run
/// of zero, one digit otherwise (a run never exceeds 9 on a 9-column
/// row).
pub open spec fn run_chars(n: int) -> Seq<char> {
    if n <= 0 {
        Seq::empty()
    } else {
        seq![digit_char(n)]
    }
}

/// The encoding of the row suffix that starts at cell `i`, with
/// `pending` empty cells seen and not yet flushed.
pub open spec fn row_fen_from(row: Seq<Option<Piece>>, i: int, pending: int) -> Seq<char>
    decreases row.len() - i,
{
    if i < 0 || i >= row.len() {
        run_chars(pending)
    } else {
        match row[i] {
            Some(p) => run_chars(pending) + seq![piece_char(p.kind, p.side)] + row_fen_from(
                row,
                i + 1,
                0,
            ),
            None => row_fen_from(row, i + 1, pending + 1),
        }
    }
}

/// The run-length encoding of one board row.
pub open spec fn row_fen(row: Seq<Option<Piece>>) -> Seq<char> {
    row_fen_from(row, 0, 0)
}

/// The encodings of the first `i` rows, joined by `/`.
pub open spec fn rows_prefix(b: Seq<Seq<Option<Piece>>>, i: int) -> Seq<char>
    decreases i,
{
    if i <= 0 {
        Seq::empty()
    } else if i == 1 {
        row_fen(b[0])
    } else {
        rows_prefix(b, i - 1) + seq!['/'] + row_fen(b[i - 1])
    }
}

/// The board section of the position string: all rows, joined by `/`.
pub open spec fn board_fen(b: Seq<Seq<Option<Piece>>>) -> Seq<char> {
    rows_prefix(b, b.len() as int)
}

/// Decimal representation of a non-negative number, most significant
/// digit first.
pub open spec fn dec_chars(n: int) -> Seq<char>
    decreases n,
{
    if n < 10 {
        seq![digit_char(n)]
    } else {
        dec_chars(n / 10).push(digit_char(n % 10))
    }
}

/// The full position string for a board, a side to move and the two
/// counters.
pub open spec fn fen_chars(
    b: Seq<Seq<Option<Piece>>>,
    side: Side,
    noeat: int,
    round: int,
) -> Seq<char> {
    board_fen(b) + seq![' ', side_char(side), ' ', '-', '-', ' '] + dec_chars(noeat) + seq![' ']
        + dec_chars(round)
}

/// Number of occurrences of `c` in `s`.
pub open spec fn count_char(s: Seq<char>, c: char) -> int
    decreases s.len(),
{
    if s.len() == 0 {
        0
    } else {
        count_char(s.drop_last(), c) + if s.last() == c {
            1int
        } else {
            0int
        }
    }
}

proof fn lemma_count_char_concat(a: Seq<char>, b: Seq<char>, c: char)
    ensures
        count_char(a + b, c) == count_char(a, c) + count_char(b, c),
    decreases b.len(),
{
    if b.len() == 0 {
        assert(a + b =~= a);
    } else {
        lemma_count_char_concat(a, b.drop_last(), c);
        assert((a + b).drop_last() =~= a + b.drop_last());
    }
}

proof fn lemma_count_char_absent(s: Seq<char>, c: char)
    requires
        forall|k: int| 0 <= k < s.len() ==> s[k] != c,
    ensures
        count_char(s, c) == 0,
    decreases s.len(),
{
    if s.len() > 0 {
        lemma_count_char_absent(s.drop_last(), c);
    }
}

proof fn lemma_row_fen_from_no_slash(row: Seq<Option<Piece>>, i: int, pending: int)
    requires
        0 <= i <= row.len(),
        0 <= pending,
        pending + row.len() - i <= 9,
    ensures
        forall|k: int|
            0 <= k < row_fen_from(row, i, pending).len() ==> row_fen_from(row, i, pending)[k]
                != '/',
        pending > 0 || i < row.len() ==> row_fen_from(row, i, pending).len() >= 1,
    decreases row.len() - i,
{
    if i < row.len() {
        match row[i] {
            Some(p) => {
                lemma_row_fen_from_no_slash(row, i + 1, 0);
                let head = run_chars(pending) + seq![piece_char(p.kind, p.side)];
                let rest = row_fen_from(row, i + 1, 0);
                assert(row_fen_from(row, i, pending) =~= head + rest);
                assert(piece_char(p.kind, p.side) != '/');
                assert(digit_char(pending) != '/');
                assert forall|k: int| 0 <= k < (head + rest).len() implies (head + rest)[k]
                    != '/' by {
                    if k < head.len() {
                        assert((head + rest)[k] == head[k]);
                    } else {
                        assert((head + rest)[k] == rest[k - head.len()]);
                    }
                }
            },
            None => {
                lemma_row_fen_from_no_slash(row, i + 1, pending + 1);
            },
        }
    } else {
        assert(digit_char(pending) != '/');
    }
}

proof fn lemma_row_fen_no_slash(row: Seq<Option<Piece>>)
    requires
        row.len() == 9,
    ensures
        forall|k: int| 0 <= k < row_fen(row).len() ==> row_fen(row)[k] != '/',
        row_fen(row).len() >= 1,
        count_char(row_fen(row), '/') == 0,
{
    lemma_row_fen_from_no_slash(row, 0, 0);
    lemma_count_char_absent(row_fen(row), '/');
}

proof fn lemma_dec_chars_digits(n: int)
    ensures
        dec_chars(n).len() >= 1,
        forall|k: int| 0 <= k < dec_chars(n).len() ==> dec_chars(n)[k] != '/',
    decreases n,
{
    if n >= 10 {
        lemma_dec_chars_digits(n / 10);
    }
}

proof fn lemma_rows_prefix_slashes(b: Seq<Seq<Option<Piece>>>, i: int)
    requires
        0 <= i <= b.len(),
        forall|r: int| 0 <= r < b.len() ==> #[trigger] b[r].len() == 9,
    ensures
        count_char(rows_prefix(b, i), '/') == if i <= 1 {
            0int
        } else {
            i - 1
        },
        i > 0 ==> rows_prefix(b, i).len() >= 1 && rows_prefix(b, i).last() != '/',
    decreases i,
{
    if i == 1 {
        lemma_row_fen_no_slash(b[0]);
    } else if i > 1 {
        lemma_rows_prefix_slashes(b, i - 1);
        lemma_row_fen_no_slash(b[i - 1]);
        lemma_count_char_concat(rows_prefix(b, i - 1), seq!['/'], '/');
        lemma_count_char_concat(rows_prefix(b, i - 1) + seq!['/'], row_fen(b[i - 1]), '/');
        assert(count_char(seq!['/'], '/') == 1) by {
            let s = seq!['/'];
            assert(s.drop_last() =~= Seq::<char>::empty());
            assert(count_char(s.drop_last(), '/') == 0);
            assert(s.last() == '/');
        }
    }
}

/// The exported position string of a 10-row board of 9-cell rows holds
/// exactly nine `/` separators, all of them inside the board section —
/// ten row segments, none of them trailing — and after the board
/// section exactly the side code, the `--` placeholder and the two
/// counters, space-separated.
pub proof fn lemma_fen_shape(b: Seq<Seq<Option<Piece>>>, side: Side, noeat: int, round: int)
    requires
        b.len() == 10,
        forall|r: int| 0 <= r < b.len() ==> #[trigger] b[r].len() == 9,
        0 <= noeat,
        0 <= round,
    ensures
        fen_chars(b, side, noeat, round) == board_fen(b) + seq![
            ' ',
            side_char(side),
            ' ',
            '-',
            '-',
            ' ',
        ] + dec_chars(noeat) + seq![' '] + dec_chars(round),
        count_char(board_fen(b), '/') == 9,
        board_fen(b).last() != '/',
        count_char(fen_chars(b, side, noeat, round), '/') == 9,
{
    let tail = seq![' ', side_char(side), ' ', '-', '-', ' '] + dec_chars(noeat) + seq![' ']
        + dec_chars(round);
    lemma_rows_prefix_slashes(b, 10);
    lemma_dec_chars_digits(noeat);
    lemma_dec_chars_digits(round);
    assert(side_char(side) != '/');
    assert(forall|k: int| 0 <= k < tail.len() ==> tail[k] != '/');
    lemma_count_char_absent(tail, '/');
    lemma_count_char_concat(board_fen(b), tail, '/');
    assert(fen_chars(b, side, noeat, round) =~= board_fen(b) + tail);
}

/// An entirely empty row encodes as the single digit `9`.
pub proof fn lemma_row_fen_empty_row(row: Seq<Option<Piece>>)
    requires
        row.len() == 9,
        forall|k: int| 0 <= k < row.len() ==> row[k] is None,
    ensures
        row_fen(row) == seq!['9'],
{
    assert(row_fen_from(row, 9, 9) =~= seq!['9']);
    assert(row_fen_from(row, 8, 8) == row_fen_from(row, 9, 9));
    assert(row_fen_from(row, 7, 7) == row_fen_from(row, 8, 8));
    assert(row_fen_from(row, 6, 6) == row_fen_from(row, 7, 7));
    assert(row_fen_from(row, 5, 5) == row_fen_from(row, 6, 6));
    assert(row_fen_from(row, 4, 4) == row_fen_from(row, 5, 5));
    assert(row_fen_from(row, 3, 3) == row_fen_from(row, 4, 4));
    assert(row_fen_from(row, 2, 2) == row_fen_from(row, 3, 3));
    assert(row_fen_from(row, 1, 1) == row_fen_from(row, 2, 2));
    assert(row_fen_from(row, 0, 0) == row_fen_from(row, 1, 1));
    assert(row_fen(row) =~= seq!['9']);
}

/// A row whose only pieces stand at columns 0 and 8 encodes as the
/// first piece's code, the digit `7` for the run of empty cells, and
/// the last piece's code.
pub proof fn lemma_row_fen_edge_pieces(row: Seq<Option<Piece>>, p0: Piece, p8: Piece)
    requires
        row.len() == 9,
        row[0] == Some(p0),
        row[8] == Some(p8),
        forall|k: int| 1 <= k < 8 ==> row[k] is None,
    ensures
        row_fen(row) == seq![piece_char(p0.kind, p0.side), '7', piece_char(p8.kind, p8.side)],
{
    assert(row_fen_from(row, 9, 0) =~= Seq::<char>::empty());
    assert(row_fen_from(row, 8, 7) =~= seq!['7', piece_char(p8.kind, p8.side)]);
    assert(row_fen_from(row, 7, 6) == row_fen_from(row, 8, 7));
    assert(row_fen_from(row, 6, 5) == row_fen_from(row, 7, 6));
    assert(row_fen_from(row, 5, 4) == row_fen_from(row, 6, 5));
    assert(row_fen_from(row, 4, 3) == row_fen_from(row, 5, 4));
    assert(row_fen_from(row, 3, 2) == row_fen_from(row, 4, 3));
    assert(row_fen_from(row, 2, 1) == row_fen_from(row, 3, 2));
    assert(row_fen_from(row, 1, 0) == row_fen_from(row, 2, 1));
    assert(row_fen_from(row, 1, 0) =~= seq!['7', piece_char(p8.kind, p8.side)]);
    assert(row_fen(row) =~= seq![
        piece_char(p0.kind, p0.side),
        '7',
        piece_char(p8.kind, p8.side),
    ]);
}

/// Append the single decimal digit `n` to `s`.
pub(crate) fn append_digit(s: &mut String, n: usize)
    requires
        n <= 9,
    ensures
        final(s)@ == old(s)@ + seq![digit_char(n as int)],
{
    if n == 0 {
        proof {
            reveal_strlit("0");
        }
        s.append("0");
    } else if n == 1 {
        proof {
            reveal_strlit("1");
        }
        s.append("1");
    } else if n == 2 {
        proof {
            reveal_strlit("2");
        }
        s.append("2");
    } else if n == 3 {
        proof {
            reveal_strlit("3");
        }
        s.append("3");
    } else if n == 4 {
        proof {
            reveal_strlit("4");
        }
        s.append("4");
    } else if n == 5 {
        proof {
            reveal_strlit("5");
        }
        s.append("5");
    } else if n == 6 {
        proof {
            reveal_strlit("6");
        }
        s.append("6");
    } else if n == 7 {
        proof {
            reveal_strlit("7");
        }
        s.append("7");
    } else if n == 8 {
        proof {
            reveal_strlit("8");
        }
        s.append("8");
    } else {
        proof {
            reveal_strlit("9");
        }
        s.append("9");
    }
    proof {
        assert(final(s)@ =~= old(s)@ + seq![digit_char(n as int)]);
    }
}

/// Append the decimal representation of `n` to `s`.
pub(crate) fn append_decimal(s: &mut String, n: usize)
    ensures
        final(s)@ == old(s)@ + dec_chars(n as int),
    decreases n,
{
    if n < 10 {
        append_digit(s, n);
    } else {
        append_decimal(s, n / 10);
        append_digit(s, n % 10);
        proof {
            assert(final(s)@ =~= old(s)@ + dec_chars(n as int));
        }
    }
}

} // verus!
