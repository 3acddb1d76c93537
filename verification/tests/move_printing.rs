use chess_notation::chess_common::{ChessCastle, ChessCoordinate, ChessFile, ChessPiece, ChessRank};
use chess_notation::chess_move::ChessMove;

#[test]
pub fn test_castle_kingside() {
    let castle = ChessMove::new().set_castle(ChessCastle::KingsideCastle).build();
    assert!(castle.is_ok());
    assert_eq!(castle.unwrap().to_text(), "O-O");
}

#[test]
pub fn test_castle_queenside() {
    let castle = ChessMove::new().set_castle(ChessCastle::QueensideCastle).build();
    assert!(castle.is_ok());
    assert_eq!(castle.unwrap().to_text(), "O-O-O");
}

#[test]
pub fn test_pawn_move() {
    let mov = ChessMove::new()
        .set_destination(ChessCoordinate::new_opt(Some(ChessFile::E), Some(ChessRank::R4)))
        .set_moving_piece(ChessPiece::Pawn)
        .build();
    assert_eq!(mov.unwrap().to_text(), "e4");
}

#[test]
pub fn test_pawn_capture() {
    let mov = ChessMove::new()
        .set_origin(ChessCoordinate::new_opt(Some(ChessFile::E), None))
        .set_destination(ChessCoordinate::new_opt(Some(ChessFile::D), Some(ChessRank::R5)))
        .set_is_capture(true)
        .build();
    assert_eq!(mov.unwrap().to_text(), "exd5");
}

#[test]
pub fn test_piece_move() {
    let mov = ChessMove::new()
        .set_moving_piece(ChessPiece::Knight)
        .set_destination(ChessCoordinate::new_opt(Some(ChessFile::C), Some(ChessRank::R3)))
        .build();
    assert_eq!(mov.unwrap().to_text(), "Nc3");
}

#[test]
pub fn test_piece_capture() {
    let mov = ChessMove::new()
        .set_moving_piece(ChessPiece::Knight)
        .set_destination(ChessCoordinate::new_opt(Some(ChessFile::C), Some(ChessRank::R3)))
        .set_is_capture(true)
        .build();
    assert_eq!(mov.unwrap().to_text(), "Nxc3");
}

#[test]
pub fn test_move_disambiguity() {
    let mov = ChessMove::new()
        .set_moving_piece(ChessPiece::Knight)
        .set_origin(ChessCoordinate::new_opt(Some(ChessFile::B), None))
        .set_destination(ChessCoordinate::new_opt(Some(ChessFile::C), Some(ChessRank::R3)))
        .build();
    assert_eq!(mov.unwrap().to_text(), "Nbc3");

    let mov = ChessMove::new()
        .set_moving_piece(ChessPiece::Knight)
        .set_origin(ChessCoordinate::new_opt(None, Some(ChessRank::R1)))
        .set_destination(ChessCoordinate::new_opt(Some(ChessFile::C), Some(ChessRank::R3)))
        .build();
    assert_eq!(mov.unwrap().to_text(), "N1c3");

    let mov = ChessMove::new()
        .set_moving_piece(ChessPiece::Knight)
        .set_origin(ChessCoordinate::new_opt(Some(ChessFile::B), Some(ChessRank::R1)))
        .set_destination(ChessCoordinate::new_opt(Some(ChessFile::C), Some(ChessRank::R3)))
        .build();
    assert_eq!(mov.unwrap().to_text(), "Nb1c3");
}

#[test]
pub fn test_capture_disambiguity() {
    let mov = ChessMove::new()
        .set_moving_piece(ChessPiece::Knight)
        .set_origin(ChessCoordinate::new_opt(Some(ChessFile::B), Some(ChessRank::R1)))
        .set_destination(ChessCoordinate::new_opt(Some(ChessFile::C), Some(ChessRank::R3)))
        .set_is_capture(true)
        .build();
    assert_eq!(mov.unwrap().to_text(), "Nb1xc3");
}

#[test]
pub fn test_promotion() {
    let mov = ChessMove::new()
        .set_destination(ChessCoordinate::new_opt(Some(ChessFile::E), Some(ChessRank::R8)))
        .set_promotion(ChessPiece::Queen)
        .build();
    assert_eq!(mov.unwrap().to_text(), "e8=Q");
}

#[test]
pub fn test_checks() {
    let mov = ChessMove::new()
        .set_destination(ChessCoordinate::new_opt(Some(ChessFile::E), Some(ChessRank::R8)))
        .set_promotion(ChessPiece::Queen)
        .set_is_check(true)
        .build();
    assert_eq!(mov.unwrap().to_text(), "e8=Q+");

    let mov = ChessMove::new()
        .set_moving_piece(ChessPiece::Queen)
        .set_destination(ChessCoordinate::new_opt(Some(ChessFile::E), Some(ChessRank::R8)))
        .set_is_check(true)
        .build();
    assert_eq!(mov.unwrap().to_text(), "Qe8+");
}

#[test]
pub fn test_check_mate() {
    let mov = ChessMove::new()
        .set_destination(ChessCoordinate::new_opt(Some(ChessFile::E), Some(ChessRank::R8)))
        .set_promotion(ChessPiece::Queen)
        .set_is_check_mate(true)
        .build();
    assert_eq!(mov.unwrap().to_text(), "e8=Q#");

    let mov = ChessMove::new()
        .set_moving_piece(ChessPiece::Queen)
        .set_destination(ChessCoordinate::new_opt(Some(ChessFile::E), Some(ChessRank::R8)))
        .set_is_check_mate(true)
        .build();
    assert_eq!(mov.unwrap().to_text(), "Qe8#");
}
