use chess_notation::chess_common::{ChessCastle, ChessCoordinate, ChessFile, ChessPiece, ChessRank};
use chess_notation::chess_move::{ChessMove, ChessMoveBuildError};

fn coord(file: Option<ChessFile>, rank: Option<ChessRank>) -> ChessCoordinate {
    ChessCoordinate::new_opt(file, rank)
}

#[allow(clippy::too_many_arguments)]
fn check_move(
    m: &ChessMove,
    origin: Option<ChessCoordinate>,
    destination: Option<ChessCoordinate>,
    moving_piece: Option<ChessPiece>,
    castle: Option<ChessCastle>,
    promotion: Option<ChessPiece>,
    is_capture: bool,
    is_check: bool,
    is_check_mate: bool,
) {
    assert_eq!(m.get_origin().copied(), origin);
    assert_eq!(m.get_destination().copied(), destination);
    assert_eq!(m.get_moving_piece().copied(), moving_piece);
    assert_eq!(m.get_castle().copied(), castle);
    assert_eq!(m.get_promotion().copied(), promotion);
    assert_eq!(m.is_capture(), is_capture);
    assert_eq!(m.is_check(), is_check);
    assert_eq!(m.is_check_mate(), is_check_mate);
}

fn expect_error(text: &str, expected: ChessMoveBuildError) {
    match ChessMove::from(text) {
        Ok(m) => panic!("expected {:?} for {:?}, but parsed {:?}", expected, text, m),
        Err(e) => assert_eq!(e, expected),
    }
}

#[test]
pub fn empty_fails() {
    expect_error("", ChessMoveBuildError::MissingMoveData);
}

#[test]
pub fn nonsense_fails() {
    expect_error("asdf;lkj", ChessMoveBuildError::InvalidMove);
}

#[test]
pub fn non_ascii_string_fails() {
    expect_error("\u{1f914}", ChessMoveBuildError::InvalidInputFormat);
}

#[test]
pub fn kingside_castle_passes() {
    let m = ChessMove::from("O-O").unwrap();
    check_move(
        &m,
        None,
        None,
        Some(ChessPiece::King),
        Some(ChessCastle::KingsideCastle),
        None,
        false,
        false,
        false,
    );
}

#[test]
pub fn queenside_castle_passes() {
    let m = ChessMove::from("O-O-O").unwrap();
    check_move(
        &m,
        None,
        None,
        Some(ChessPiece::King),
        Some(ChessCastle::QueensideCastle),
        None,
        false,
        false,
        false,
    );
}

#[test]
pub fn invalid_castles_fails() {
    expect_error("O", ChessMoveBuildError::InvalidMove);
    expect_error("O-O-O-O", ChessMoveBuildError::InvalidMove);
    expect_error("O-", ChessMoveBuildError::InvalidMove);
}

#[test]
pub fn simple_move_passes() {
    let m = ChessMove::from("e4").unwrap();
    check_move(
        &m,
        None,
        Some(coord(Some(ChessFile::E), Some(ChessRank::R4))),
        Some(ChessPiece::Pawn),
        None,
        None,
        false,
        false,
        false,
    );

    let m = ChessMove::from("Nc3").unwrap();
    check_move(
        &m,
        None,
        Some(coord(Some(ChessFile::C), Some(ChessRank::R3))),
        Some(ChessPiece::Knight),
        None,
        None,
        false,
        false,
        false,
    );

    let m = ChessMove::from("Bf4").unwrap();
    check_move(
        &m,
        None,
        Some(coord(Some(ChessFile::F), Some(ChessRank::R4))),
        Some(ChessPiece::Bishop),
        None,
        None,
        false,
        false,
        false,
    );

    let m = ChessMove::from("Rb1").unwrap();
    check_move(
        &m,
        None,
        Some(coord(Some(ChessFile::B), Some(ChessRank::R1))),
        Some(ChessPiece::Rook),
        None,
        None,
        false,
        false,
        false,
    );

    let m = ChessMove::from("Qd3").unwrap();
    check_move(
        &m,
        None,
        Some(coord(Some(ChessFile::D), Some(ChessRank::R3))),
        Some(ChessPiece::Queen),
        None,
        None,
        false,
        false,
        false,
    );

    let m = ChessMove::from("Kf1").unwrap();
    check_move(
        &m,
        None,
        Some(coord(Some(ChessFile::F), Some(ChessRank::R1))),
        Some(ChessPiece::King),
        None,
        None,
        false,
        false,
        false,
    );
}

#[test]
pub fn move_disambiguity_passes() {
    let m = ChessMove::from("Nec3").unwrap();
    check_move(
        &m,
        Some(coord(Some(ChessFile::E), None)),
        Some(coord(Some(ChessFile::C), Some(ChessRank::R3))),
        Some(ChessPiece::Knight),
        None,
        None,
        false,
        false,
        false,
    );

    let m = ChessMove::from("N5c3").unwrap();
    check_move(
        &m,
        Some(coord(None, Some(ChessRank::R5))),
        Some(coord(Some(ChessFile::C), Some(ChessRank::R3))),
        Some(ChessPiece::Knight),
        None,
        None,
        false,
        false,
        false,
    );

    let m = ChessMove::from("Nb5c3").unwrap();
    check_move(
        &m,
        Some(coord(Some(ChessFile::B), Some(ChessRank::R5))),
        Some(coord(Some(ChessFile::C), Some(ChessRank::R3))),
        Some(ChessPiece::Knight),
        None,
        None,
        false,
        false,
        false,
    );
}

#[test]
pub fn simple_move_fails() {
    expect_error("Pe4", ChessMoveBuildError::InvalidMove);
    expect_error("Bk4", ChessMoveBuildError::InvalidMove);
    expect_error("BF0", ChessMoveBuildError::InvalidMove);
}

#[test]
pub fn simple_capture_passes() {
    let m = ChessMove::from("exd5").unwrap();
    check_move(
        &m,
        Some(coord(Some(ChessFile::E), None)),
        Some(coord(Some(ChessFile::D), Some(ChessRank::R5))),
        Some(ChessPiece::Pawn),
        None,
        None,
        true,
        false,
        false,
    );

    let m = ChessMove::from("Nxd5").unwrap();
    check_move(
        &m,
        None,
        Some(coord(Some(ChessFile::D), Some(ChessRank::R5))),
        Some(ChessPiece::Knight),
        None,
        None,
        true,
        false,
        false,
    );
}

#[test]
pub fn simple_promotion_passes() {
    let m = ChessMove::from("e8=Q").unwrap();
    check_move(
        &m,
        None,
        Some(coord(Some(ChessFile::E), Some(ChessRank::R8))),
        Some(ChessPiece::Pawn),
        None,
        Some(ChessPiece::Queen),
        false,
        false,
        false,
    );
}

#[test]
pub fn capture_promotion_passes() {
    let m = ChessMove::from("exd8=Q").unwrap();
    check_move(
        &m,
        Some(coord(Some(ChessFile::E), None)),
        Some(coord(Some(ChessFile::D), Some(ChessRank::R8))),
        Some(ChessPiece::Pawn),
        None,
        Some(ChessPiece::Queen),
        true,
        false,
        false,
    );
}

#[test]
pub fn simple_check_passes() {
    let m = ChessMove::from("e7+").unwrap();
    check_move(
        &m,
        None,
        Some(coord(Some(ChessFile::E), Some(ChessRank::R7))),
        Some(ChessPiece::Pawn),
        None,
        None,
        false,
        true,
        false,
    );
}

#[test]
pub fn promotion_check_passes() {
    let m = ChessMove::from("e8=Q+").unwrap();
    check_move(
        &m,
        None,
        Some(coord(Some(ChessFile::E), Some(ChessRank::R8))),
        Some(ChessPiece::Pawn),
        None,
        Some(ChessPiece::Queen),
        false,
        true,
        false,
    );
}

#[test]
pub fn simple_check_mate_passes() {
    let m = ChessMove::from("e7#").unwrap();
    check_move(
        &m,
        None,
        Some(coord(Some(ChessFile::E), Some(ChessRank::R7))),
        Some(ChessPiece::Pawn),
        None,
        None,
        false,
        false,
        true,
    );
}

#[test]
pub fn promotion_check_mate_passes() {
    let m = ChessMove::from("e8=Q#").unwrap();
    check_move(
        &m,
        None,
        Some(coord(Some(ChessFile::E), Some(ChessRank::R8))),
        Some(ChessPiece::Pawn),
        None,
        Some(ChessPiece::Queen),
        false,
        false,
        true,
    );
}

#[test]
pub fn complex_moves_passes() {
    let m = ChessMove::from("exd8=Q#").unwrap();
    check_move(
        &m,
        Some(coord(Some(ChessFile::E), None)),
        Some(coord(Some(ChessFile::D), Some(ChessRank::R8))),
        Some(ChessPiece::Pawn),
        None,
        Some(ChessPiece::Queen),
        true,
        false,
        true,
    );

    let m = ChessMove::from("Ne4xd6#").unwrap();
    check_move(
        &m,
        Some(coord(Some(ChessFile::E), Some(ChessRank::R4))),
        Some(coord(Some(ChessFile::D), Some(ChessRank::R6))),
        Some(ChessPiece::Knight),
        None,
        None,
        true,
        false,
        true,
    );
}
