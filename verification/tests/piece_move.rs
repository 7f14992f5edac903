use chess_core::piece::Piece;
use chess_core::piece_move::Move;

#[test]
fn test_simple_move() {
    let simple_move = Move::new(8, 16);
    assert_eq!(simple_move.render(), "A2A3");
}

#[test]
fn test_capture_move() {
    let capture_move =
        Move::new_all_fields(12, 20, None, true, false, false, false, false, false, false, false);
    assert_eq!(capture_move.render(), "E2xE3");
}

#[test]
fn test_en_passant_move() {
    let ep_move =
        Move::new_all_fields(24, 33, None, true, true, false, false, false, false, false, false);
    assert_eq!(ep_move.render(), "A4xB5 e.p.");
}

#[test]
fn test_kingside_castle_move() {
    let castle_move =
        Move::new_all_fields(4, 6, None, false, false, true, false, false, false, false, false);
    assert_eq!(castle_move.render(), "O-O");
}

#[test]
fn test_queenside_castle_move() {
    let castle_move =
        Move::new_all_fields(4, 2, None, false, false, false, true, false, false, false, false);
    assert_eq!(castle_move.render(), "O-O-O");
}

#[test]
fn test_promotion_move() {
    let promo_move = Move::new_all_fields(
        48,
        56,
        Some(Piece::WhiteQueen),
        false,
        false,
        false,
        false,
        false,
        false,
        false,
        false,
    );
    assert_eq!(promo_move.render(), "A7A8=Q");
}

#[test]
fn test_promotion_capture_move() {
    let promo_capture = Move::new_all_fields(
        53,
        62,
        Some(Piece::BlackKnight),
        true,
        false,
        false,
        false,
        false,
        false,
        false,
        false,
    );
    assert_eq!(promo_capture.render(), "F7xG8=N");
}

#[test]
fn test_move_check() {
    let check_move =
        Move::new_all_fields(51, 59, None, false, false, false, false, true, false, false, false);
    assert_eq!(check_move.render(), "D7D8+");
}

#[test]
fn test_move_checkmate() {
    let mate_move =
        Move::new_all_fields(60, 52, None, false, false, false, false, false, true, false, false);
    assert_eq!(mate_move.render(), "E8E7#");
}

#[test]
fn test_full_move_all_conditions() {
    let complex_move = Move::new_all_fields(
        52,
        61,
        Some(Piece::WhiteRook),
        true,
        false,
        false,
        false,
        true,
        false,
        false,
        false,
    );
    assert_eq!(complex_move.render(), "E7xF8=R+");
}

#[test]
fn test_square_names() {
    let m = Move::new(0, 63);
    assert_eq!(m.square_from(), "A1");
    assert_eq!(m.square_to(), "H8");
    let m = Move::new(8, 16);
    assert_eq!(m.square_from(), "A2");
}

#[test]
fn test_checkmate_takes_precedence_over_check() {
    let m = Move::new_all_fields(0, 1, None, false, false, false, false, true, true, false, false);
    assert_eq!(m.render(), "A1B1#");
}

#[test]
fn test_castle_takes_precedence_over_capture() {
    let m = Move::new_all_fields(4, 6, None, true, false, true, false, false, false, false, false);
    assert_eq!(m.render(), "O-O");
}

#[test]
fn test_stalemate_and_draw_do_not_affect_notation() {
    let m = Move::new_all_fields(0, 9, None, false, false, false, false, false, false, true, true);
    assert_eq!(m.render(), "A1B2");
}
