use xiangqi_core::game::Data;
use xiangqi_core::piece::Side;
use xiangqi_core::public::Pos;

#[test]
fn to_fen_initial_position() {
    let mut d = Data::new();
    d.current_side = Some(Side::White);
    assert_eq!(
        d.to_fen(),
        "RNBAKABNR/9/1C5C1/P1P1P1P1P/9/9/p1p1p1p1p/1c5c1/9/rnbakabnr w -- 0 0"
    );
}

#[test]
fn to_fen_is_deterministic() {
    let mut d = Data::new();
    d.current_side = Some(Side::Black);
    let first = d.to_fen();
    let second = d.to_fen();
    assert_eq!(first, second);
    assert_eq!(first.matches('/').count(), 9);
}

#[test]
fn to_fen_counters_and_side() {
    let mut d = Data::new();
    d.current_side = Some(Side::Black);
    d.noeat_move_num = 123;
    d.round = 45;
    assert_eq!(
        d.to_fen(),
        "RNBAKABNR/9/1C5C1/P1P1P1P1P/9/9/p1p1p1p1p/1c5c1/9/rnbakabnr b -- 123 45"
    );
}

#[test]
fn to_fen_empty_row_encodes_as_9() {
    let mut d = Data::new();
    d.current_side = Some(Side::White);
    d.broad_map[0] = [None, None, None, None, None, None, None, None, None];
    let fen = d.to_fen();
    assert!(fen.starts_with("9/"));
}

#[test]
fn to_fen_coalesces_inner_run() {
    let mut d = Data::new();
    d.current_side = Some(Side::White);
    for col in 1..8 {
        d.broad_map[0][col] = None;
    }
    let fen = d.to_fen();
    assert!(fen.starts_with("R7R/"));
}

#[test]
fn parse_route_mid_board() {
    // "h2e2": [104, 50, 101, 50]
    let d = Data::new();
    let ((row, col), (dst_row, dst_col)) = d.parse_route(String::from("h2e2"));
    assert_eq!((row, col), (2, 7));
    assert_eq!((dst_row, dst_col), (2, 4));
}

#[test]
fn last_move_none_when_no_moves() {
    let d = Data::new();
    assert_eq!(d.get_last_move(), None);
}

#[test]
fn last_move_reports_most_recent_engine_move() {
    let mut d = Data::new();
    // Central cannon opening: the cannon on (2,7) moves to (2,4).
    let mv = chessai::Move::from_iccs("h2e2").unwrap();
    assert!(d.engine.make_move(mv));
    assert_eq!(d.get_last_move(), Some((Pos::new(2, 7), Pos::new(2, 4))));

    // Black replies: the knight on (9,7) hops to (7,6).
    let reply = chessai::Move::from_iccs("h9g7").unwrap();
    assert!(d.engine.make_move(reply));
    assert_eq!(d.get_last_move(), Some((Pos::new(9, 7), Pos::new(7, 6))));
}
