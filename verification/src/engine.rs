//! Trusted boundary to the external `chessai` search engine.
//!
//! The engine owns the authoritative move list. Its coordinate
//! convention coincides with this core's: its rank 0 is White's (red's)
//! back rank — row 0 here — and its file 0 is the leftmost column. The
//! two wrappers below are the only places where the engine is touched;
//! everything downstream of them is verified.

use vstd::prelude::*;

verus! {

#[verifier::external_type_specification]
#[verifier::external_body]
pub struct ExEngine(chessai::Engine);

/// The moves the engine has committed so far, in commit order, each as
/// `(src_row, src_col, dst_row, dst_col)`.
pub uninterp spec fn engine_moves(e: chessai::Engine) -> Seq<(int, int, int, int)>;

/// Relies on `chessai::Engine::builder().build()`: a freshly built
/// engine starts with an empty move history.
#[verifier::external_body]
pub(crate) fn engine_new() -> (e: chessai::Engine)
    ensures
        engine_moves(e) == Seq::<(int, int, int, int)>::empty(),
{
    chessai::Engine::builder().build()
}

/// Relies on `chessai::Engine::move_history`, `chessai::Move::src`/`dst`
/// and `chessai::Square::rank`/`file`: the squares of the most recent
/// committed move, or nothing when no move has been committed. The
/// history is filled only by `Engine::make_move`, which admits only
/// legal moves, so both squares lie on the 10 x 9 board.
#[verifier::external_body]
pub(crate) fn engine_last_move(e: &chessai::Engine) -> (r: Option<(usize, usize, usize, usize)>)
    ensures
        r is None <==> engine_moves(*e).len() == 0,
        r matches Some(q) ==> {
            &&& engine_moves(*e).len() > 0
            &&& q.0 as int == engine_moves(*e).last().0
            &&& q.1 as int == engine_moves(*e).last().1
            &&& q.2 as int == engine_moves(*e).last().2
            &&& q.3 as int == engine_moves(*e).last().3
            &&& q.0 <= 9 && q.1 <= 8 && q.2 <= 9 && q.3 <= 8
        },
{
    match e.move_history().last() {
        Some(mv) => Some((
            mv.src().rank() as usize,
            mv.src().file() as usize,
            mv.dst().rank() as usize,
            mv.dst().file() as usize,
        )),
        None => None,
    }
}

} // verus!
