use xiangqi_core::game::{Data, GameMode};
use xiangqi_core::piece::{Kind, Side};

#[test]
fn test_parse_route() {
    // [97, 48, 105, 57]
    let test_str = String::from("a0i9");
    let ((row, col), (dst_row, dst_col)) = Data::new().parse_route(test_str);
    assert_eq!((row, col), (0, 0));
    assert_eq!((dst_row, dst_col), (9, 8));
}

#[test]
fn test_match() {
    let n = 9;
    match n {
        1 => {
            println!("1")
        }
        9 => {
            println!("9")
        }
        _ => {
            println!("n")
        }
    }
}

#[test]
fn initial_layout_places_32_pieces() {
    let d = Data::new();
    let mut count = 0;
    for row in d.broad_map.iter() {
        for cell in row.iter() {
            if cell.is_some() {
                count += 1;
            }
        }
    }
    assert_eq!(count, 32);
}

#[test]
fn initial_layout_rows() {
    let d = Data::new();
    let back_rank = [
        Kind::Rook,
        Kind::Knight,
        Kind::Bishop,
        Kind::Advisor,
        Kind::King,
        Kind::Advisor,
        Kind::Bishop,
        Kind::Knight,
        Kind::Rook,
    ];
    for col in 0..9 {
        let white = d.broad_map[0][col].unwrap();
        assert_eq!(white.kind, back_rank[col]);
        assert_eq!(white.side, Side::White);
        let black = d.broad_map[9][col].unwrap();
        assert_eq!(black.kind, back_rank[col]);
        assert_eq!(black.side, Side::Black);
    }
    for (cannon_row, side) in [(2, Side::White), (7, Side::Black)] {
        for col in 0..9 {
            match d.broad_map[cannon_row][col] {
                Some(p) => {
                    assert!(col == 1 || col == 7);
                    assert_eq!(p.kind, Kind::Cannon);
                    assert_eq!(p.side, side);
                }
                None => assert!(col != 1 && col != 7),
            }
        }
    }
    for (pawn_row, side) in [(3, Side::White), (6, Side::Black)] {
        for col in 0..9 {
            match d.broad_map[pawn_row][col] {
                Some(p) => {
                    assert!(col % 2 == 0);
                    assert_eq!(p.kind, Kind::Pawn);
                    assert_eq!(p.side, side);
                }
                None => assert!(col % 2 == 1),
            }
        }
    }
    for empty_row in [1, 4, 5, 8] {
        for col in 0..9 {
            assert!(d.broad_map[empty_row][col].is_none());
        }
    }
}

#[test]
fn new_state_defaults() {
    let d = Data::new();
    assert_eq!(d.round, 0);
    assert_eq!(d.noeat_move_num, 0);
    assert!(d.current_side.is_none());
    assert!(d.mode.is_none());
    assert!(d.selected.is_none());
    assert!(d.ai_side.is_none());
    assert_eq!(d.white_player.side, Side::White);
    assert_eq!(d.black_player.side, Side::Black);
}

#[test]
fn mode_selection_and_ai_side_are_plain_state() {
    let mut d = Data::new();
    d.mode = Some(GameMode::AiGame);
    assert_eq!(d.mode, Some(GameMode::AiGame));
    assert_ne!(d.mode, Some(GameMode::InterGame));
    d.ai_side = Some(Side::Black);
    assert_eq!(d.ai_side, Some(Side::Black));
    d.selected = d.broad_map[0][0];
    assert_eq!(d.selected.unwrap().kind, Kind::Rook);
}

#[test]
fn turn_alternation_and_round_count() {
    let mut d = Data::new();
    d.current_side = Some(Side::White);
    assert_eq!(d.round, 0);

    d.change_side();
    assert_eq!(d.current_side, Some(Side::Black));
    assert_eq!(d.round, 1);

    d.change_side();
    assert_eq!(d.current_side, Some(Side::White));
    assert_eq!(d.round, 1);

    d.change_side();
    assert_eq!(d.current_side, Some(Side::Black));
    assert_eq!(d.round, 2);

    d.change_side();
    assert_eq!(d.current_side, Some(Side::White));
    assert_eq!(d.round, 2);
}

#[test]
fn current_player_follows_side() {
    let mut d = Data::new();
    d.current_side = Some(Side::White);
    assert_eq!(d.get_current_player().side, Side::White);
    d.current_side = Some(Side::Black);
    assert_eq!(d.get_current_player().side, Side::Black);
}
