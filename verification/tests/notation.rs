use chess_notation::chess_common::{
    ChessCastle, ChessCoordinate, ChessFile, ChessPiece, ChessRank, ChessTurn,
};
use chess_notation::chess_core::{Board, Team};
use chess_notation::chess_move::{format_move, ChessMove, ChessMoveBuildError};
use chess_notation::chess_pgn::{format_game, PgnDate, PgnGame, PgnResult, PgnRound};
use chess_notation::move_list::MoveList;
use chess_notation::move_parse::parse_move;

fn full_coord(f: ChessFile, r: ChessRank) -> ChessCoordinate {
    ChessCoordinate::new(f, r)
}

#[test]
fn move_list_push_pop_turns() {
    let m1 = ChessMove::from("e4").unwrap();
    let m2 = ChessMove::from("e5").unwrap();

    let mut list = MoveList::new();
    assert_eq!(list.get_turn(), ChessTurn::WhiteToMove);
    assert!(list.pop_move().is_none());

    list.push_move(m1);
    assert_eq!(list.get_turn(), ChessTurn::BlackToMove);
    list.push_move(m2);
    assert_eq!(list.get_turn(), ChessTurn::WhiteToMove);
    assert_eq!(list.moves.len(), 1);
    assert_eq!(list.moves[0].white_move, Some(m1));
    assert_eq!(list.moves[0].black_move, Some(m2));

    assert_eq!(list.pop_move(), Some(m2));
    assert_eq!(list.get_turn(), ChessTurn::BlackToMove);
    assert_eq!(list.pop_move(), Some(m1));
    assert_eq!(list.moves.len(), 0);
    assert_eq!(list.get_turn(), ChessTurn::WhiteToMove);
    assert!(list.pop_move().is_none());
}

#[test]
fn builder_rejects_contradictions() {
    // check and checkmate cannot both be set
    let r = ChessMove::new()
        .set_destination(full_coord(ChessFile::E, ChessRank::R4))
        .set_is_check(true)
        .set_is_check_mate(true)
        .build();
    assert_eq!(r.unwrap_err(), ChessMoveBuildError::ImpossibleMove);

    // a castle never captures
    let r = ChessMove::new()
        .set_castle(ChessCastle::KingsideCastle)
        .set_is_capture(true)
        .build();
    assert_eq!(r.unwrap_err(), ChessMoveBuildError::ImpossibleMove);

    // a castle never promotes
    let r = ChessMove::new()
        .set_castle(ChessCastle::QueensideCastle)
        .set_promotion(ChessPiece::Queen)
        .build();
    assert_eq!(r.unwrap_err(), ChessMoveBuildError::ImpossibleMove);

    // a pawn capture must name its origin file
    let r = ChessMove::new()
        .set_destination(full_coord(ChessFile::D, ChessRank::R5))
        .set_is_capture(true)
        .build();
    assert_eq!(r.unwrap_err(), ChessMoveBuildError::MissingMoveData);

    let r = ChessMove::new()
        .set_origin(ChessCoordinate::from_rank(ChessRank::R4))
        .set_destination(full_coord(ChessFile::D, ChessRank::R5))
        .set_is_capture(true)
        .build();
    assert_eq!(r.unwrap_err(), ChessMoveBuildError::MissingMoveData);

    // a destination must be a complete square
    let r = ChessMove::new()
        .set_destination(ChessCoordinate::from_file(ChessFile::D))
        .build();
    assert_eq!(r.unwrap_err(), ChessMoveBuildError::MissingDestination);

    // without a destination only castling makes sense
    let r = ChessMove::new().set_is_check(true).build();
    assert_eq!(r.unwrap_err(), ChessMoveBuildError::MissingMoveData);
}

#[test]
fn coordinate_queries() {
    let empty = ChessCoordinate::empty();
    assert!(empty.is_empty());
    assert!(!empty.is_partial());
    assert!(!empty.is_complete());

    let mut partial = ChessCoordinate::from_file(ChessFile::A);
    assert!(!partial.is_empty());
    assert!(partial.is_partial());
    assert!(!partial.is_complete());

    partial.set_rank(ChessRank::R8);
    assert!(partial.is_complete());
    assert_eq!(*partial.get_file(), Some(ChessFile::A));
    assert_eq!(*partial.get_rank(), Some(ChessRank::R8));

    assert_eq!(ChessFile::from('h'), Some(ChessFile::H));
    assert_eq!(ChessFile::from('i'), None);
    assert_eq!(ChessRank::from('8'), Some(ChessRank::R8));
    assert_eq!(ChessRank::from('9'), None);
    assert_eq!(ChessPiece::from('Q'), Some(ChessPiece::Queen));
    assert_eq!(ChessPiece::from('P'), None);
    assert_eq!(ChessFile::C.as_usize(), 2);
    assert_eq!(ChessRank::R7.as_usize(), 6);
}

#[test]
fn format_then_parse_round_trips() {
    let samples = [
        "e4", "exd5", "Nc3", "Nbc3", "N1c3", "Nb1c3", "Nb1xc3", "e8=Q", "exd8=N#", "Qe8+",
        "O-O", "O-O-O", "Kxf7", "h8=R+",
    ];
    for text in samples {
        let m = parse_move(text).unwrap();
        let rendered = format_move(&m);
        let again = parse_move(&rendered).unwrap();
        assert_eq!(again, m, "round trip failed through {:?}", rendered);
    }
}

#[test]
fn knight_capture_with_check() {
    let m = parse_move("Nbxd5+").unwrap();
    assert_eq!(m.get_moving_piece().copied(), Some(ChessPiece::Knight));
    assert_eq!(
        m.get_origin().copied(),
        Some(ChessCoordinate::from_file(ChessFile::B))
    );
    assert_eq!(
        m.get_destination().copied(),
        Some(full_coord(ChessFile::D, ChessRank::R5))
    );
    assert!(m.is_capture());
    assert!(m.is_check());
    assert!(!m.is_check_mate());
}

#[test]
fn parser_accepts_nonminimal_forms() {
    // the parser accepts origin hints the formatter would not emit
    let m = ChessMove::from("ee4").unwrap();
    assert_eq!(m.get_origin().copied(), Some(ChessCoordinate::from_file(ChessFile::E)));
    assert_eq!(m.get_destination().copied(), Some(full_coord(ChessFile::E, ChessRank::R4)));

    // trailing text after a check marker is ignored
    let m = ChessMove::from("e4+zzz").unwrap();
    assert!(m.is_check());

    // surrounding whitespace is trimmed away
    let m = ChessMove::from("  e4 \n").unwrap();
    assert_eq!(m.get_destination().copied(), Some(full_coord(ChessFile::E, ChessRank::R4)));

    // the move parser rejects non-ASCII before it trims, so even a
    // Unicode space around a move is a format error
    assert_eq!(
        ChessMove::from("e4\u{a0}").unwrap_err(),
        ChessMoveBuildError::InvalidInputFormat
    );

    // a lone castle marker after the token is swallowed silently
    let m = ChessMove::from("O-O+").unwrap();
    assert!(!m.is_check());
    assert_eq!(m.get_castle().copied(), Some(ChessCastle::KingsideCastle));
}

#[test]
fn parser_edge_cases() {
    // a lone piece letter names no square at all
    assert_eq!(
        ChessMove::from("N").unwrap_err(),
        ChessMoveBuildError::MissingMoveData
    );
    // a capture marker with nothing after it leaves no destination
    assert_eq!(
        ChessMove::from("ex").unwrap_err(),
        ChessMoveBuildError::MissingMoveData
    );
    // a rank alone is an incomplete destination
    assert_eq!(
        ChessMove::from("8").unwrap_err(),
        ChessMoveBuildError::MissingDestination
    );
    // leading dashes are swallowed by the castle scan
    let m = ChessMove::from("-e4").unwrap();
    assert_eq!(m.get_destination().copied(), Some(full_coord(ChessFile::E, ChessRank::R4)));
    // the grammar puts no piece condition on promotion targets
    let m = ChessMove::from("e4=Q").unwrap();
    assert_eq!(m.get_promotion().copied(), Some(ChessPiece::Queen));
    assert_eq!(m.get_destination().copied(), Some(full_coord(ChessFile::E, ChessRank::R4)));
}

#[test]
fn pgn_round_text_and_parse() {
    let r = PgnRound::from("1").unwrap();
    assert_eq!(r.to_text(), "1");

    let r = PgnRound::from(" 4.2.1 ").unwrap();
    assert_eq!(r.to_text(), "4.2.1");

    assert!(PgnRound::from("").is_err());
    assert!(PgnRound::from("1..2").is_err());
    assert!(PgnRound::from("a.b").is_err());
    assert!(PgnRound::from("12x").is_err());
    assert!(PgnRound::from("99999999999").is_err());
    assert!(PgnRound::from("\u{00bd}").is_err());

    // a leading plus sign is how unsigned parsing reads numbers
    let r = PgnRound::from("+7").unwrap();
    assert_eq!(r.to_text(), "7");

    // trimming removes the full Unicode whitespace set
    let r = PgnRound::from("5\u{a0}").unwrap();
    assert_eq!(r.to_text(), "5");
    let r = PgnRound::from("\u{2003}\u{a0}12.7 \u{3000}").unwrap();
    assert_eq!(r.to_text(), "12.7");

    assert_eq!(PgnRound::Unknown.to_text(), "?");
    assert_eq!(PgnRound::Inappropriate.to_text(), "-");
}

#[test]
fn pgn_date_text() {
    assert_eq!(PgnDate::new(Some(1992), Some(11), Some(4)).to_text(), "1992.11.04");
    assert_eq!(PgnDate::new(None, None, None).to_text(), "????.??.??");
    assert_eq!(PgnDate::new(Some(5), None, Some(31)).to_text(), "0005.??.31");
    assert_eq!(PgnDate::new(Some(-44), Some(3), Some(15)).to_text(), "-044.03.15");
    let today = PgnDate::now();
    let text = today.to_text();
    assert_eq!(text.split('.').count(), 3);
}

#[test]
fn pgn_result_text() {
    assert_eq!(PgnResult::WhiteWin.to_text(), "1-0");
    assert_eq!(PgnResult::BlackWin.to_text(), "0-1");
    assert_eq!(PgnResult::Draw.to_text(), "1/2-1/2");
    assert_eq!(PgnResult::Unknown.to_text(), "*");
}

#[test]
fn game_text_small_game() {
    let mut game = PgnGame::new();
    game.set_event(String::from("F/S Return Match"));
    game.set_site(String::from("Belgrade, Serbia JUG"));
    game.set_date(PgnDate::new(Some(1992), Some(11), Some(4)));
    game.set_round(PgnRound::from("29").unwrap());
    game.set_white(String::from("Fischer, Robert J."));
    game.set_black(String::from("Spassky, Boris V."));
    game.set_result(PgnResult::Draw);
    game.push_move(ChessMove::from("e4").unwrap());
    game.push_move(ChessMove::from("e5").unwrap());
    game.push_move(ChessMove::from("Nf3").unwrap());

    let text = format_game(&game);
    let expected = "[Event \"F/S Return Match\"]\n\
                    [Site \"Belgrade, Serbia JUG\"]\n\
                    [Date \"1992.11.04\"]\n\
                    [Round \"29\"]\n\
                    [White \"Fischer, Robert J.\"]\n\
                    [Black \"Spassky, Boris V.\"]\n\
                    [Result \"1/2-1/2\"]\n\
                    \n\
                    1. e4 e5 2. Nf3 1/2-1/2";
    assert_eq!(text, expected);
    assert_eq!(game.to_text(), expected);
}

#[test]
fn game_accessors() {
    let mut game = PgnGame::new();
    assert_eq!(game.get_event().as_str(), "");
    assert_eq!(game.get_site().as_str(), "");
    assert_eq!(game.get_white().as_str(), "");
    assert_eq!(game.get_black().as_str(), "");
    assert!(matches!(game.get_round(), PgnRound::Unknown));
    assert!(matches!(game.get_result(), PgnResult::Unknown));
    assert_eq!(game.get_turn(), ChessTurn::WhiteToMove);

    game.set_event(String::from("Casual"));
    game.set_site(String::from("Home"));
    game.set_white(String::from("Ann"));
    game.set_black(String::from("Ben"));
    game.set_result(PgnResult::WhiteWin);
    game.set_round(PgnRound::from("2").unwrap());
    game.set_date(PgnDate::new(Some(2024), Some(2), Some(29)));
    assert_eq!(game.get_event().as_str(), "Casual");
    assert_eq!(game.get_site().as_str(), "Home");
    assert_eq!(game.get_white().as_str(), "Ann");
    assert_eq!(game.get_black().as_str(), "Ben");
    assert_eq!(game.get_date().to_text(), "2024.02.29");

    let e4 = ChessMove::from("e4").unwrap();
    game.push_move(e4);
    assert_eq!(game.get_turn(), ChessTurn::BlackToMove);
    assert_eq!(game.pop_move(), Some(e4));
    assert_eq!(game.get_turn(), ChessTurn::WhiteToMove);
    assert!(game.pop_move().is_none());
}

#[test]
fn movetext_wraps_under_eighty_columns() {
    let w = ChessMove::from("Nb1xc3+").unwrap();
    let b = ChessMove::from("Qd8xd1#").unwrap();
    let mut list = MoveList::new();
    for _ in 0..30 {
        list.push_move(w);
        list.push_move(b);
    }
    let text = list.to_text();
    let mut unwrapped = String::new();
    for i in 1..=30 {
        if i > 1 {
            unwrapped.push(' ');
        }
        unwrapped.push_str(&format!("{}. Nb1xc3+ Qd8xd1#", i));
    }
    for line in text.lines() {
        assert!(line.len() < 80, "line too long: {:?}", line);
        assert!(!line.is_empty());
    }
    assert_eq!(text.replace('\n', " "), unwrapped);
}

#[test]
fn board_starting_position() {
    let board = Board::new();
    let squares = board.get_squares();

    for f in 0..8 {
        let light_pawn = squares[1][f].get_piece().unwrap();
        assert!(matches!(light_pawn.get_team(), Team::Light));
        assert_eq!(light_pawn.piece_type, ChessPiece::Pawn);
        let dark_pawn = squares[6][f].get_piece().unwrap();
        assert!(matches!(dark_pawn.get_team(), Team::Dark));
        assert_eq!(dark_pawn.piece_type, ChessPiece::Pawn);
        for r in 2..6 {
            assert!(squares[r][f].get_piece().is_none());
        }
    }

    let back = [
        ChessPiece::Rook,
        ChessPiece::Knight,
        ChessPiece::Bishop,
        ChessPiece::Queen,
        ChessPiece::King,
        ChessPiece::Bishop,
        ChessPiece::Knight,
        ChessPiece::Rook,
    ];
    for (f, kind) in back.iter().enumerate() {
        assert_eq!(squares[0][f].get_piece().unwrap().piece_type, *kind);
        assert_eq!(squares[7][f].get_piece().unwrap().piece_type, *kind);
    }

    assert_eq!(
        Board::new().get_squares()[0][4].get_piece().unwrap().get_unicode_symbol(),
        '\u{2654}'
    );
}
