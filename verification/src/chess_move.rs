//! Structured chess moves: the move record produced by the parser, the
//! builder that validates one, and the formatter that renders a move
//! back to its canonical PGN text.

use vstd::prelude::*;
use crate::chess_common::{ChessCastle, ChessCoordinate, ChessPiece};
use crate::text::push_char;

verus! {

/// One parsed ply. A missing `moving_piece` is only possible before the
/// builder runs; built moves always carry a piece (pawn by default).
#[derive(Clone, Copy, Debug, PartialEq, Eq, Structural)]
pub struct ChessMove {
    pub origin: Option<ChessCoordinate>,
    pub destination: Option<ChessCoordinate>,
    pub moving_piece: Option<ChessPiece>,
    pub castle: Option<ChessCastle>,
    pub promotion: Option<ChessPiece>,
    pub is_capture: bool,
    pub is_check: bool,
    pub is_check_mate: bool,
}

/// Why a move string or a built move was rejected.
#[derive(Clone, Copy, Debug, PartialEq, Eq, Structural)]
pub enum ChessMoveBuildError {
    /// The text breaks the move grammar.
    InvalidMove,
    /// The fields contradict one another (check with checkmate, castle
    /// with capture or promotion).
    ImpossibleMove,
    /// The destination square is incomplete.
    MissingDestination,
    /// The move is empty or semantically incomplete.
    MissingMoveData,
    /// The text is not ASCII.
    InvalidInputFormat,
}

/// What the builder guarantees of every move it accepts.
pub open spec fn move_wf(m: ChessMove) -> bool {
    &&& !(m.is_check && m.is_check_mate)
    &&& (m.castle is Some ==> !m.is_capture && m.promotion is None)
    &&& (m.destination is Some ==> m.destination->0.spec_is_complete())
    &&& (m.destination is None ==> m.castle is Some)
    &&& m.moving_piece is Some
    &&& (m.moving_piece == Some(ChessPiece::Pawn) && m.is_capture ==> m.origin is Some
        && m.origin->0.file is Some)
}

/// Accumulates the fields of a move before validation.
#[derive(Clone, Copy, Debug)]
pub struct ChessMoveBuilder {
    pub origin: Option<ChessCoordinate>,
    pub destination: Option<ChessCoordinate>,
    pub moving_piece: Option<ChessPiece>,
    pub castle: Option<ChessCastle>,
    pub promotion: Option<ChessPiece>,
    pub is_capture: bool,
    pub is_check: bool,
    pub is_check_mate: bool,
}

impl ChessMoveBuilder {
    /// A builder with nothing set.
    pub open spec fn spec_empty() -> ChessMoveBuilder {
        ChessMoveBuilder {
            origin: None,
            destination: None,
            moving_piece: None,
            castle: None,
            promotion: None,
            is_capture: false,
            is_check: false,
            is_check_mate: false,
        }
    }

    pub fn new() -> (b: ChessMoveBuilder)
        ensures
            b == ChessMoveBuilder::spec_empty(),
    {
        ChessMoveBuilder {
            origin: None,
            destination: None,
            moving_piece: None,
            castle: None,
            promotion: None,
            is_capture: false,
            is_check: false,
            is_check_mate: false,
        }
    }

    pub fn set_origin(self, origin: ChessCoordinate) -> (r: ChessMoveBuilder)
        ensures
            r == (ChessMoveBuilder { origin: Some(origin), ..self }),
    {
        ChessMoveBuilder { origin: Some(origin), ..self }
    }

    pub fn set_destination(self, dest: ChessCoordinate) -> (r: ChessMoveBuilder)
        ensures
            r == (ChessMoveBuilder { destination: Some(dest), ..self }),
    {
        ChessMoveBuilder { destination: Some(dest), ..self }
    }

    pub fn set_is_capture(self, capture: bool) -> (r: ChessMoveBuilder)
        ensures
            r == (ChessMoveBuilder { is_capture: capture, ..self }),
    {
        ChessMoveBuilder { is_capture: capture, ..self }
    }

    pub fn set_moving_piece(self, piece: ChessPiece) -> (r: ChessMoveBuilder)
        ensures
            r == (ChessMoveBuilder { moving_piece: Some(piece), ..self }),
    {
        ChessMoveBuilder { moving_piece: Some(piece), ..self }
    }

    pub fn set_castle(self, direction: ChessCastle) -> (r: ChessMoveBuilder)
        ensures
            r == (ChessMoveBuilder { castle: Some(direction), ..self }),
    {
        ChessMoveBuilder { castle: Some(direction), ..self }
    }

    pub fn set_promotion(self, piece: ChessPiece) -> (r: ChessMoveBuilder)
        ensures
            r == (ChessMoveBuilder { promotion: Some(piece), ..self }),
    {
        ChessMoveBuilder { promotion: Some(piece), ..self }
    }

    pub fn set_is_check(self, is_check: bool) -> (r: ChessMoveBuilder)
        ensures
            r == (ChessMoveBuilder { is_check: is_check, ..self }),
    {
        ChessMoveBuilder { is_check: is_check, ..self }
    }

    pub fn set_is_check_mate(self, is_mate: bool) -> (r: ChessMoveBuilder)
        ensures
            r == (ChessMoveBuilder { is_check_mate: is_mate, ..self }),
    {
        ChessMoveBuilder { is_check_mate: is_mate, ..self }
    }

    /// The validation applied when a move is built. Only written
    /// notation rules are checked, not piece movement rules.
    pub open spec fn spec_build(self) -> Result<ChessMove, ChessMoveBuildError> {
        if self.is_check && self.is_check_mate {
            Err(ChessMoveBuildError::ImpossibleMove)
        } else if self.castle is Some && (self.is_capture || self.promotion is Some) {
            Err(ChessMoveBuildError::ImpossibleMove)
        } else if self.destination is Some && !self.destination->0.spec_is_complete() {
            Err(ChessMoveBuildError::MissingDestination)
        } else if self.destination is None && self.castle is None {
            Err(ChessMoveBuildError::MissingMoveData)
        } else {
            let piece = if self.moving_piece is Some {
                self.moving_piece->0
            } else {
                ChessPiece::Pawn
            };
            if piece == ChessPiece::Pawn && self.is_capture && !(self.origin is Some
                && self.origin->0.file is Some) {
                Err(ChessMoveBuildError::MissingMoveData)
            } else {
                Ok(
                    ChessMove {
                        origin: self.origin,
                        destination: self.destination,
                        moving_piece: Some(piece),
                        castle: self.castle,
                        promotion: self.promotion,
                        is_capture: self.is_capture,
                        is_check: self.is_check,
                        is_check_mate: self.is_check_mate,
                    },
                )
            }
        }
    }

    pub fn build(self) -> (r: Result<ChessMove, ChessMoveBuildError>)
        ensures
            r == self.spec_build(),
    {
        if self.is_check && self.is_check_mate {
            return Err(ChessMoveBuildError::ImpossibleMove);
        }
        if self.castle.is_some() && (self.is_capture || self.promotion.is_some()) {
            return Err(ChessMoveBuildError::ImpossibleMove);
        }
        if let Some(dest) = &self.destination {
            if !dest.is_complete() {
                return Err(ChessMoveBuildError::MissingDestination);
            }
        } else if self.castle.is_none() {
            return Err(ChessMoveBuildError::MissingMoveData);
        }
        let piece = match self.moving_piece {
            Some(p) => p,
            None => ChessPiece::Pawn,
        };
        if matches!(piece, ChessPiece::Pawn) && self.is_capture {
            match &self.origin {
                Some(orig) => {
                    if orig.get_file().is_none() {
                        return Err(ChessMoveBuildError::MissingMoveData);
                    }
                },
                None => {
                    return Err(ChessMoveBuildError::MissingMoveData);
                },
            }
        }
        Ok(
            ChessMove {
                origin: self.origin,
                destination: self.destination,
                moving_piece: Some(piece),
                castle: self.castle,
                promotion: self.promotion,
                is_capture: self.is_capture,
                is_check: self.is_check,
                is_check_mate: self.is_check_mate,
            },
        )
    }
}

impl ChessMove {
    /// Starts building a move field by field.
    pub fn new() -> (b: ChessMoveBuilder)
        ensures
            b == ChessMoveBuilder::spec_empty(),
    {
        ChessMoveBuilder::new()
    }

    pub fn get_origin(&self) -> (r: Option<&ChessCoordinate>)
        ensures
            match r {
                Some(c) => self.origin == Some(*c),
                None => self.origin is None,
            },
    {
        match &self.origin {
            Some(o) => Some(o),
            None => None,
        }
    }

    pub fn get_destination(&self) -> (r: Option<&ChessCoordinate>)
        ensures
            match r {
                Some(c) => self.destination == Some(*c),
                None => self.destination is None,
            },
    {
        match &self.destination {
            Some(d) => Some(d),
            None => None,
        }
    }

    pub fn get_moving_piece(&self) -> (r: Option<&ChessPiece>)
        ensures
            match r {
                Some(p) => self.moving_piece == Some(*p),
                None => self.moving_piece is None,
            },
    {
        match &self.moving_piece {
            Some(mp) => Some(mp),
            None => None,
        }
    }

    pub fn get_castle(&self) -> (r: Option<&ChessCastle>)
        ensures
            match r {
                Some(c) => self.castle == Some(*c),
                None => self.castle is None,
            },
    {
        match &self.castle {
            Some(c) => Some(c),
            None => None,
        }
    }

    pub fn get_promotion(&self) -> (r: Option<&ChessPiece>)
        ensures
            match r {
                Some(p) => self.promotion == Some(*p),
                None => self.promotion is None,
            },
    {
        match &self.promotion {
            Some(p) => Some(p),
            None => None,
        }
    }

    pub fn is_capture(&self) -> (b: bool)
        ensures
            b == self.is_capture,
    {
        self.is_capture
    }

    pub fn is_check(&self) -> (b: bool)
        ensures
            b == self.is_check,
    {
        self.is_check
    }

    pub fn is_check_mate(&self) -> (b: bool)
        ensures
            b == self.is_check_mate,
    {
        self.is_check_mate
    }

    /// The canonical PGN text of this move.
    pub fn to_text(&self) -> (r: String)
        ensures
            r@ == spec_format_move(*self),
    {
        format_move(self)
    }
}

/// The castle token.
pub open spec fn fmt_castle(c: ChessCastle) -> Seq<char> {
    match c {
        ChessCastle::KingsideCastle => seq!['O', '-', 'O'],
        ChessCastle::QueensideCastle => seq!['O', '-', 'O', '-', 'O'],
    }
}

/// The piece letter; pawns have none.
pub open spec fn fmt_piece(m: ChessMove) -> Seq<char> {
    match m.moving_piece {
        Some(p) => if p == ChessPiece::Pawn {
            seq![]
        } else {
            seq![p.spec_char()]
        },
        None => seq![],
    }
}

/// The origin hint: its file if present, then its rank, except that a
/// pawn's origin rank is never shown (standard PGN disambiguation
/// shows at most a pawn's origin file).
pub open spec fn fmt_origin(m: ChessMove) -> Seq<char> {
    match m.origin {
        None => seq![],
        Some(o) => (match o.file {
            Some(f) => seq![f.spec_char()],
            None => seq![],
        }) + (match o.rank {
            Some(r) => if m.moving_piece is Some && m.moving_piece->0 != ChessPiece::Pawn {
                seq![r.spec_char()]
            } else {
                seq![]
            },
            None => seq![],
        }),
    }
}

pub open spec fn fmt_capture(m: ChessMove) -> Seq<char> {
    if m.is_capture {
        seq!['x']
    } else {
        seq![]
    }
}

/// The destination square: file then rank, each when present.
pub open spec fn fmt_destination(m: ChessMove) -> Seq<char> {
    match m.destination {
        None => seq![],
        Some(d) => (match d.file {
            Some(f) => seq![f.spec_char()],
            None => seq![],
        }) + (match d.rank {
            Some(r) => seq![r.spec_char()],
            None => seq![],
        }),
    }
}

pub open spec fn fmt_promotion(m: ChessMove) -> Seq<char> {
    match m.promotion {
        Some(p) => seq!['=', p.spec_char()],
        None => seq![],
    }
}

/// The check or checkmate marker; checkmate wins when both are set.
pub open spec fn fmt_checks(m: ChessMove) -> Seq<char> {
    if m.is_check_mate {
        seq!['#']
    } else if m.is_check {
        seq!['+']
    } else {
        seq![]
    }
}

/// The canonical PGN text of a move: the castle token alone if the move
/// castles, else piece letter, origin hint, capture marker, destination
/// and promotion; a check or checkmate marker closes either form.
pub open spec fn spec_format_move(m: ChessMove) -> Seq<char> {
    match m.castle {
        Some(c) => fmt_castle(c) + fmt_checks(m),
        None => fmt_piece(m) + (fmt_origin(m) + (fmt_capture(m) + (fmt_destination(m) + (
        fmt_promotion(m) + fmt_checks(m))))),
    }
}

fn push_castle(out: &mut String, castle: ChessCastle)
    ensures
        final(out)@ == old(out)@ + fmt_castle(castle),
{
    push_char(out, 'O');
    push_char(out, '-');
    push_char(out, 'O');
    if matches!(castle, ChessCastle::QueensideCastle) {
        push_char(out, '-');
        push_char(out, 'O');
    }
    assert(final(out)@ =~= old(out)@ + fmt_castle(castle));
}

fn push_piece(out: &mut String, m: &ChessMove)
    ensures
        final(out)@ == old(out)@ + fmt_piece(*m),
{
    if let Some(p) = &m.moving_piece {
        if !matches!(p, ChessPiece::Pawn) {
            push_char(out, p.to_char());
        }
    }
    assert(final(out)@ =~= old(out)@ + fmt_piece(*m));
}

fn push_origin(out: &mut String, m: &ChessMove)
    ensures
        final(out)@ == old(out)@ + fmt_origin(*m),
{
    if let Some(orig) = &m.origin {
        if let Some(f) = orig.file {
            push_char(out, f.to_char());
        }
        if let Some(rk) = orig.rank {
            if let Some(p) = &m.moving_piece {
                if !matches!(p, ChessPiece::Pawn) {
                    push_char(out, rk.to_char());
                }
            }
        }
    }
    assert(final(out)@ =~= old(out)@ + fmt_origin(*m));
}

fn push_destination(out: &mut String, m: &ChessMove)
    ensures
        final(out)@ == old(out)@ + fmt_destination(*m),
{
    if let Some(dest) = &m.destination {
        if let Some(f) = dest.file {
            push_char(out, f.to_char());
        }
        if let Some(rk) = dest.rank {
            push_char(out, rk.to_char());
        }
    }
    assert(final(out)@ =~= old(out)@ + fmt_destination(*m));
}

fn push_promotion(out: &mut String, m: &ChessMove)
    ensures
        final(out)@ == old(out)@ + fmt_promotion(*m),
{
    if let Some(promote) = &m.promotion {
        push_char(out, '=');
        push_char(out, promote.to_char());
    }
    assert(final(out)@ =~= old(out)@ + fmt_promotion(*m));
}

fn push_checks(out: &mut String, m: &ChessMove)
    ensures
        final(out)@ == old(out)@ + fmt_checks(*m),
{
    if m.is_check_mate {
        push_char(out, '#');
    } else if m.is_check {
        push_char(out, '+');
    }
    assert(final(out)@ =~= old(out)@ + fmt_checks(*m));
}

proof fn lemma_concat_assoc6(
    a: Seq<char>,
    b: Seq<char>,
    c: Seq<char>,
    d: Seq<char>,
    e: Seq<char>,
    f: Seq<char>,
)
    ensures
        a + b + c + d + e + f == a + (b + (c + (d + (e + f)))),
{
    assert(a + b + c + d + e + f =~= a + (b + (c + (d + (e + f)))));
}

/// Renders a move as canonical PGN text.
pub fn format_move(m: &ChessMove) -> (r: String)
    ensures
        r@ == spec_format_move(*m),
{
    let mut out = String::new();
    match &m.castle {
        Some(castle) => {
            push_castle(&mut out, *castle);
            push_checks(&mut out, m);
            assert(out@ =~= fmt_castle(m.castle->0) + fmt_checks(*m));
        },
        None => {
            push_piece(&mut out, m);
            assert(out@ =~= fmt_piece(*m));
            push_origin(&mut out, m);
            if m.is_capture {
                push_char(&mut out, 'x');
            }
            assert(out@ =~= fmt_piece(*m) + fmt_origin(*m) + fmt_capture(*m));
            push_destination(&mut out, m);
            push_promotion(&mut out, m);
            push_checks(&mut out, m);
            proof {
                lemma_concat_assoc6(
                    fmt_piece(*m),
                    fmt_origin(*m),
                    fmt_capture(*m),
                    fmt_destination(*m),
                    fmt_promotion(*m),
                    fmt_checks(*m),
                );
            }
        },
    }
    out
}

} // verus!
