//! The PGN move parser: a left-to-right scan through ordered phases
//! (castle token, piece letter, origin hint, capture marker, destination,
//! promotion, check marker), each consuming zero or more characters and
//! handing the rest to the next, with one character of look-ahead and no
//! backtracking. The grammar is written down as spec functions; the
//! executable scanner is proved to follow them exactly.

use vstd::prelude::*;
use vstd::string::StrSliceExecFns;
use vstd::utf8::is_ascii_chars;
use crate::chess_common::{ChessCastle, ChessCoordinate, ChessFile, ChessPiece, ChessRank};
use crate::chess_move::{ChessMove, ChessMoveBuildError, ChessMoveBuilder};
use crate::text::{trim_ascii, trim_spec};

verus! {

/// The end of the maximal prefix of `O` and `-` characters starting
/// at `i`.
pub open spec fn castle_prefix_end(t: Seq<char>, i: int) -> int
    decreases t.len() - i,
{
    if i < 0 || i >= t.len() {
        t.len() as int
    } else if t[i] == 'O' || t[i] == '-' {
        castle_prefix_end(t, i + 1)
    } else {
        i
    }
}

/// How many `O` characters appear in `t` before index `i`.
pub open spec fn count_o(t: Seq<char>, i: int) -> int
    decreases i,
{
    if i <= 0 {
        0
    } else {
        count_o(t, i - 1) + if t[i - 1] == 'O' {
            1int
        } else {
            0int
        }
    }
}

/// Greedy collection of one coordinate starting at `i`: up to one file
/// letter, then up to one rank digit; collecting a rank ends the
/// collection at once. Yields the file, the rank, and the index of the
/// first character not consumed.
pub open spec fn collect_coord(t: Seq<char>, i: int) -> (Option<ChessFile>, Option<
    ChessRank,
>, int) {
    if 0 <= i < t.len() && ChessFile::spec_from(t[i]) is Some {
        if i + 1 < t.len() && ChessRank::spec_from(t[i + 1]) is Some {
            (ChessFile::spec_from(t[i]), ChessRank::spec_from(t[i + 1]), i + 2)
        } else {
            (ChessFile::spec_from(t[i]), None, i + 1)
        }
    } else if 0 <= i < t.len() && ChessRank::spec_from(t[i]) is Some {
        (None, ChessRank::spec_from(t[i]), i + 1)
    } else {
        (None, None, i)
    }
}

/// The final phase: end of input is success, a `+` marks check, a `#`
/// marks checkmate; anything else is a syntax error. Characters after
/// the marker are not examined.
pub open spec fn scan_checks(t: Seq<char>, i: int, b: ChessMoveBuilder) -> Result<
    ChessMoveBuilder,
    ChessMoveBuildError,
> {
    if i >= t.len() {
        Ok(b)
    } else if t[i] == '+' {
        Ok(ChessMoveBuilder { is_check: true, ..b })
    } else if t[i] == '#' {
        Ok(ChessMoveBuilder { is_check_mate: true, ..b })
    } else {
        Err(ChessMoveBuildError::InvalidMove)
    }
}

/// A `=` must be followed by exactly one piece letter; without a `=`
/// the phase consumes nothing.
pub open spec fn scan_promotion(t: Seq<char>, i: int, b: ChessMoveBuilder) -> Result<
    ChessMoveBuilder,
    ChessMoveBuildError,
> {
    if i >= t.len() {
        Ok(b)
    } else if t[i] == '=' {
        if i + 1 < t.len() && ChessPiece::spec_from(t[i + 1]) is Some {
            scan_checks(t, i + 2, ChessMoveBuilder { promotion: ChessPiece::spec_from(t[i + 1]), ..b })
        } else {
            Err(ChessMoveBuildError::InvalidMove)
        }
    } else {
        scan_checks(t, i, b)
    }
}

/// A coordinate collected here is always the destination.
pub open spec fn scan_destination(t: Seq<char>, i: int, b: ChessMoveBuilder) -> Result<
    ChessMoveBuilder,
    ChessMoveBuildError,
> {
    let (f, r, j) = collect_coord(t, i);
    let b1 = if f is Some || r is Some {
        ChessMoveBuilder { destination: Some(ChessCoordinate { file: f, rank: r }), ..b }
    } else {
        b
    };
    if j >= t.len() {
        Ok(b1)
    } else {
        scan_promotion(t, j, b1)
    }
}

/// An `x` consumes and sets the capture flag; anything else falls
/// through to the destination unconsumed.
pub open spec fn scan_capture(t: Seq<char>, i: int, b: ChessMoveBuilder) -> Result<
    ChessMoveBuilder,
    ChessMoveBuildError,
> {
    if i < t.len() && t[i] == 'x' {
        scan_destination(t, i + 1, ChessMoveBuilder { is_capture: true, ..b })
    } else {
        scan_destination(t, i, b)
    }
}

/// A coordinate collected here is provisionally the origin; it is
/// reinterpreted as the destination when nothing follows it or when a
/// promotion or check marker follows it (a bare move like `e4` has no
/// origin).
pub open spec fn scan_origin(t: Seq<char>, i: int, b: ChessMoveBuilder) -> Result<
    ChessMoveBuilder,
    ChessMoveBuildError,
> {
    let (f, r, j) = collect_coord(t, i);
    let nonempty = f is Some || r is Some;
    let coord = ChessCoordinate { file: f, rank: r };
    if j >= t.len() {
        if nonempty {
            Ok(ChessMoveBuilder { destination: Some(coord), ..b })
        } else {
            Ok(b)
        }
    } else {
        let c = t[j];
        let b1 = if nonempty {
            if c == '=' || c == '+' || c == '#' {
                ChessMoveBuilder { destination: Some(coord), ..b }
            } else {
                ChessMoveBuilder { origin: Some(coord), ..b }
            }
        } else {
            b
        };
        if c == '=' {
            scan_promotion(t, j, b1)
        } else if c == '+' || c == '#' {
            scan_checks(t, j, b1)
        } else {
            scan_capture(t, j, b1)
        }
    }
}

/// One piece letter names the moving piece; a pawn move has no letter
/// and hands its first character on unconsumed.
pub open spec fn scan_piece(t: Seq<char>, i: int, b: ChessMoveBuilder) -> Result<
    ChessMoveBuilder,
    ChessMoveBuildError,
> {
    if i < t.len() && ChessPiece::spec_from(t[i]) is Some {
        scan_origin(t, i + 1, ChessMoveBuilder { moving_piece: ChessPiece::spec_from(t[i]), ..b })
    } else {
        scan_origin(t, i, b)
    }
}

/// The whole scan of a trimmed move string. Two `O`s among the leading
/// castle characters mean a kingside castle and three a queenside one;
/// the character that ends the castle prefix is consumed with it. With
/// no castle characters at all, the scan starts over at the piece
/// letter phase; any other count is a syntax error.
pub open spec fn scan_move(t: Seq<char>) -> Result<ChessMoveBuilder, ChessMoveBuildError> {
    let cp = castle_prefix_end(t, 0);
    let k = count_o(t, cp);
    if k == 2 || k == 3 {
        let b = ChessMoveBuilder {
            castle: Some(
                if k == 2 {
                    ChessCastle::KingsideCastle
                } else {
                    ChessCastle::QueensideCastle
                },
            ),
            moving_piece: Some(ChessPiece::King),
            ..ChessMoveBuilder::spec_empty()
        };
        scan_checks(t, cp + 1, b)
    } else if k == 0 && cp < t.len() {
        scan_piece(t, cp, ChessMoveBuilder::spec_empty())
    } else {
        Err(ChessMoveBuildError::InvalidMove)
    }
}

/// What parsing a move string yields: empty input and non-ASCII input
/// are rejected up front, the input is trimmed, scanned, and the
/// collected fields are validated by the builder.
pub open spec fn spec_parse_move(s: Seq<char>) -> Result<ChessMove, ChessMoveBuildError> {
    if s.len() == 0 {
        Err(ChessMoveBuildError::MissingMoveData)
    } else if !is_ascii_chars(s) {
        Err(ChessMoveBuildError::InvalidInputFormat)
    } else {
        match scan_move(trim_spec(s)) {
            Ok(b) => b.spec_build(),
            Err(e) => Err(e),
        }
    }
}

fn collect_coord_exec(t: &str, i: usize) -> (r: (Option<ChessFile>, Option<ChessRank>, usize))
    requires
        i <= t@.len(),
    ensures
        (r.0, r.1, r.2 as int) == collect_coord(t@, i as int),
        i <= r.2 <= t@.len(),
{
    let len = t.unicode_len();
    if i < len {
        let c = t.get_char(i);
        if let Some(f) = ChessFile::from(c) {
            if i + 1 < len {
                if let Some(r) = ChessRank::from(t.get_char(i + 1)) {
                    return (Some(f), Some(r), i + 2);
                }
            }
            return (Some(f), None, i + 1);
        }
        if let Some(r) = ChessRank::from(c) {
            return (None, Some(r), i + 1);
        }
    }
    (None, None, i)
}

fn scan_checks_exec(t: &str, i: usize, b: ChessMoveBuilder) -> (r: Result<
    ChessMoveBuilder,
    ChessMoveBuildError,
>)
    ensures
        r == scan_checks(t@, i as int, b),
{
    let len = t.unicode_len();
    if i >= len {
        Ok(b)
    } else {
        let c = t.get_char(i);
        if c == '+' {
            Ok(ChessMoveBuilder { is_check: true, ..b })
        } else if c == '#' {
            Ok(ChessMoveBuilder { is_check_mate: true, ..b })
        } else {
            Err(ChessMoveBuildError::InvalidMove)
        }
    }
}

fn scan_promotion_exec(t: &str, i: usize, b: ChessMoveBuilder) -> (r: Result<
    ChessMoveBuilder,
    ChessMoveBuildError,
>)
    ensures
        r == scan_promotion(t@, i as int, b),
{
    let len = t.unicode_len();
    if i >= len {
        Ok(b)
    } else if t.get_char(i) == '=' {
        if i + 1 < len {
            if let Some(p) = ChessPiece::from(t.get_char(i + 1)) {
                return scan_checks_exec(
                    t,
                    i + 2,
                    ChessMoveBuilder { promotion: Some(p), ..b },
                );
            }
        }
        Err(ChessMoveBuildError::InvalidMove)
    } else {
        scan_checks_exec(t, i, b)
    }
}

fn scan_destination_exec(t: &str, i: usize, b: ChessMoveBuilder) -> (r: Result<
    ChessMoveBuilder,
    ChessMoveBuildError,
>)
    requires
        i <= t@.len(),
    ensures
        r == scan_destination(t@, i as int, b),
{
    let (f, r, j) = collect_coord_exec(t, i);
    let b1 = if f.is_some() || r.is_some() {
        ChessMoveBuilder { destination: Some(ChessCoordinate { file: f, rank: r }), ..b }
    } else {
        b
    };
    if j >= t.unicode_len() {
        Ok(b1)
    } else {
        scan_promotion_exec(t, j, b1)
    }
}

fn scan_capture_exec(t: &str, i: usize, b: ChessMoveBuilder) -> (r: Result<
    ChessMoveBuilder,
    ChessMoveBuildError,
>)
    requires
        i <= t@.len(),
    ensures
        r == scan_capture(t@, i as int, b),
{
    let len = t.unicode_len();
    if i < len && t.get_char(i) == 'x' {
        scan_destination_exec(t, i + 1, ChessMoveBuilder { is_capture: true, ..b })
    } else {
        scan_destination_exec(t, i, b)
    }
}

fn scan_origin_exec(t: &str, i: usize, b: ChessMoveBuilder) -> (r: Result<
    ChessMoveBuilder,
    ChessMoveBuildError,
>)
    requires
        i <= t@.len(),
    ensures
        r == scan_origin(t@, i as int, b),
{
    let (f, r, j) = collect_coord_exec(t, i);
    let nonempty = f.is_some() || r.is_some();
    let coord = ChessCoordinate { file: f, rank: r };
    if j >= t.unicode_len() {
        if nonempty {
            Ok(ChessMoveBuilder { destination: Some(coord), ..b })
        } else {
            Ok(b)
        }
    } else {
        let c = t.get_char(j);
        let b1 = if nonempty {
            if c == '=' || c == '+' || c == '#' {
                ChessMoveBuilder { destination: Some(coord), ..b }
            } else {
                ChessMoveBuilder { origin: Some(coord), ..b }
            }
        } else {
            b
        };
        if c == '=' {
            scan_promotion_exec(t, j, b1)
        } else if c == '+' || c == '#' {
            scan_checks_exec(t, j, b1)
        } else {
            scan_capture_exec(t, j, b1)
        }
    }
}

fn scan_piece_exec(t: &str, i: usize, b: ChessMoveBuilder) -> (r: Result<
    ChessMoveBuilder,
    ChessMoveBuildError,
>)
    requires
        i <= t@.len(),
    ensures
        r == scan_piece(t@, i as int, b),
{
    let len = t.unicode_len();
    if i < len {
        if let Some(p) = ChessPiece::from(t.get_char(i)) {
            return scan_origin_exec(t, i + 1, ChessMoveBuilder { moving_piece: Some(p), ..b });
        }
    }
    scan_origin_exec(t, i, b)
}

fn scan_move_exec(t: &str) -> (r: Result<ChessMoveBuilder, ChessMoveBuildError>)
    ensures
        r == scan_move(t@),
{
    let len = t.unicode_len();
    let mut cp: usize = 0;
    let mut k: usize = 0;
    let mut stop = false;
    while cp < len && !stop
        invariant
            0 <= cp <= len,
            len == t@.len(),
            castle_prefix_end(t@, 0) == castle_prefix_end(t@, cp as int),
            k == count_o(t@, cp as int),
            k <= cp,
            stop ==> castle_prefix_end(t@, cp as int) == cp as int,
        decreases
            len - cp,
            (if stop {
                0int
            } else {
                1int
            }),
    {
        let c = t.get_char(cp);
        if c == 'O' {
            k += 1;
            cp += 1;
        } else if c == '-' {
            cp += 1;
        } else {
            stop = true;
        }
    }
    assert(castle_prefix_end(t@, 0) == cp as int);
    if k == 2 || k == 3 {
        let b = ChessMoveBuilder {
            castle: Some(
                if k == 2 {
                    ChessCastle::KingsideCastle
                } else {
                    ChessCastle::QueensideCastle
                },
            ),
            moving_piece: Some(ChessPiece::King),
            ..ChessMoveBuilder::new()
        };
        if cp < len {
            scan_checks_exec(t, cp + 1, b)
        } else {
            assert(scan_checks(t@, cp + 1, b) == Ok::<ChessMoveBuilder, ChessMoveBuildError>(b));
            Ok(b)
        }
    } else if k == 0 && cp < len {
        scan_piece_exec(t, cp, ChessMoveBuilder::new())
    } else {
        Err(ChessMoveBuildError::InvalidMove)
    }
}

impl ChessMove {
    /// Parses one PGN move string into a validated move, or a
    /// classified error saying exactly why it was rejected.
    pub fn from(pgn_move_string: &str) -> (r: Result<ChessMove, ChessMoveBuildError>)
        ensures
            r == spec_parse_move(pgn_move_string@),
    {
        if pgn_move_string.unicode_len() == 0 {
            return Err(ChessMoveBuildError::MissingMoveData);
        }
        if !pgn_move_string.is_ascii() {
            return Err(ChessMoveBuildError::InvalidInputFormat);
        }
        let t = trim_ascii(pgn_move_string);
        match scan_move_exec(t) {
            Ok(b) => b.build(),
            Err(e) => Err(e),
        }
    }
}

/// Parses one PGN move string; the parser entry point.
pub fn parse_move(text: &str) -> (r: Result<ChessMove, ChessMoveBuildError>)
    ensures
        r == spec_parse_move(text@),
{
    ChessMove::from(text)
}

} // verus!
