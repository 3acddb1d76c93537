//! The closed vocabulary of chess notation: turns, piece kinds, castle
//! directions, board files and ranks, and (possibly partial) coordinates.

use vstd::prelude::*;

verus! {

/// Whose turn it is to move.
#[derive(Clone, Copy, Debug, PartialEq, Eq, Structural)]
pub enum ChessTurn {
    WhiteToMove,
    BlackToMove,
}

/// A kind of chess piece.
#[derive(Clone, Copy, Debug, PartialEq, Eq, Structural)]
pub enum ChessPiece {
    Pawn,
    Knight,
    Bishop,
    Rook,
    Queen,
    King,
}

impl ChessPiece {
    /// The piece kind denoted by a PGN piece letter, if any.
    /// Pawns have no letter and are never decoded from one.
    pub open spec fn spec_from(c: char) -> Option<ChessPiece> {
        match c {
            'N' => Some(ChessPiece::Knight),
            'B' => Some(ChessPiece::Bishop),
            'R' => Some(ChessPiece::Rook),
            'Q' => Some(ChessPiece::Queen),
            'K' => Some(ChessPiece::King),
            _ => None,
        }
    }

    pub fn from(c: char) -> (r: Option<ChessPiece>)
        ensures
            r == ChessPiece::spec_from(c),
    {
        match c {
            'N' => Some(ChessPiece::Knight),
            'B' => Some(ChessPiece::Bishop),
            'R' => Some(ChessPiece::Rook),
            'Q' => Some(ChessPiece::Queen),
            'K' => Some(ChessPiece::King),
            _ => None,
        }
    }

    /// The canonical letter of this piece kind.
    pub open spec fn spec_char(self) -> char {
        match self {
            ChessPiece::Pawn => 'P',
            ChessPiece::Knight => 'N',
            ChessPiece::Bishop => 'B',
            ChessPiece::Rook => 'R',
            ChessPiece::Queen => 'Q',
            ChessPiece::King => 'K',
        }
    }

    pub fn to_char(self) -> (c: char)
        ensures
            c == self.spec_char(),
    {
        match self {
            ChessPiece::Pawn => 'P',
            ChessPiece::Knight => 'N',
            ChessPiece::Bishop => 'B',
            ChessPiece::Rook => 'R',
            ChessPiece::Queen => 'Q',
            ChessPiece::King => 'K',
        }
    }
}

/// A castling direction.
#[derive(Clone, Copy, Debug, PartialEq, Eq, Structural)]
pub enum ChessCastle {
    KingsideCastle,
    QueensideCastle,
}

/// A board file, `a` through `h`.
#[derive(Clone, Copy, Debug, PartialEq, Eq, Structural)]
pub enum ChessFile {
    A,
    B,
    C,
    D,
    E,
    F,
    G,
    H,
}

impl ChessFile {
    /// The file denoted by a lower-case file letter, if any.
    pub open spec fn spec_from(c: char) -> Option<ChessFile> {
        match c {
            'a' => Some(ChessFile::A),
            'b' => Some(ChessFile::B),
            'c' => Some(ChessFile::C),
            'd' => Some(ChessFile::D),
            'e' => Some(ChessFile::E),
            'f' => Some(ChessFile::F),
            'g' => Some(ChessFile::G),
            'h' => Some(ChessFile::H),
            _ => None,
        }
    }

    pub fn from(c: char) -> (r: Option<ChessFile>)
        ensures
            r == ChessFile::spec_from(c),
    {
        match c {
            'a' => Some(ChessFile::A),
            'b' => Some(ChessFile::B),
            'c' => Some(ChessFile::C),
            'd' => Some(ChessFile::D),
            'e' => Some(ChessFile::E),
            'f' => Some(ChessFile::F),
            'g' => Some(ChessFile::G),
            'h' => Some(ChessFile::H),
            _ => None,
        }
    }

    /// The canonical lower-case letter of this file.
    pub open spec fn spec_char(self) -> char {
        match self {
            ChessFile::A => 'a',
            ChessFile::B => 'b',
            ChessFile::C => 'c',
            ChessFile::D => 'd',
            ChessFile::E => 'e',
            ChessFile::F => 'f',
            ChessFile::G => 'g',
            ChessFile::H => 'h',
        }
    }

    pub fn to_char(self) -> (c: char)
        ensures
            c == self.spec_char(),
    {
        match self {
            ChessFile::A => 'a',
            ChessFile::B => 'b',
            ChessFile::C => 'c',
            ChessFile::D => 'd',
            ChessFile::E => 'e',
            ChessFile::F => 'f',
            ChessFile::G => 'g',
            ChessFile::H => 'h',
        }
    }

    /// The zero-based index of this file, `a` being 0.
    pub open spec fn spec_index(self) -> usize {
        match self {
            ChessFile::A => 0usize,
            ChessFile::B => 1usize,
            ChessFile::C => 2usize,
            ChessFile::D => 3usize,
            ChessFile::E => 4usize,
            ChessFile::F => 5usize,
            ChessFile::G => 6usize,
            ChessFile::H => 7usize,
        }
    }

    pub fn as_usize(self) -> (i: usize)
        ensures
            i == self.spec_index(),
            i < 8,
    {
        match self {
            ChessFile::A => 0,
            ChessFile::B => 1,
            ChessFile::C => 2,
            ChessFile::D => 3,
            ChessFile::E => 4,
            ChessFile::F => 5,
            ChessFile::G => 6,
            ChessFile::H => 7,
        }
    }
}

/// A board rank, `1` through `8`.
#[derive(Clone, Copy, Debug, PartialEq, Eq, Structural)]
pub enum ChessRank {
    R1,
    R2,
    R3,
    R4,
    R5,
    R6,
    R7,
    R8,
}

impl ChessRank {
    /// The rank denoted by a digit character, if any.
    pub open spec fn spec_from(c: char) -> Option<ChessRank> {
        match c {
            '1' => Some(ChessRank::R1),
            '2' => Some(ChessRank::R2),
            '3' => Some(ChessRank::R3),
            '4' => Some(ChessRank::R4),
            '5' => Some(ChessRank::R5),
            '6' => Some(ChessRank::R6),
            '7' => Some(ChessRank::R7),
            '8' => Some(ChessRank::R8),
            _ => None,
        }
    }

    pub fn from(c: char) -> (r: Option<ChessRank>)
        ensures
            r == ChessRank::spec_from(c),
    {
        match c {
            '1' => Some(ChessRank::R1),
            '2' => Some(ChessRank::R2),
            '3' => Some(ChessRank::R3),
            '4' => Some(ChessRank::R4),
            '5' => Some(ChessRank::R5),
            '6' => Some(ChessRank::R6),
            '7' => Some(ChessRank::R7),
            '8' => Some(ChessRank::R8),
            _ => None,
        }
    }

    /// The canonical digit of this rank.
    pub open spec fn spec_char(self) -> char {
        match self {
            ChessRank::R1 => '1',
            ChessRank::R2 => '2',
            ChessRank::R3 => '3',
            ChessRank::R4 => '4',
            ChessRank::R5 => '5',
            ChessRank::R6 => '6',
            ChessRank::R7 => '7',
            ChessRank::R8 => '8',
        }
    }

    pub fn to_char(self) -> (c: char)
        ensures
            c == self.spec_char(),
    {
        match self {
            ChessRank::R1 => '1',
            ChessRank::R2 => '2',
            ChessRank::R3 => '3',
            ChessRank::R4 => '4',
            ChessRank::R5 => '5',
            ChessRank::R6 => '6',
            ChessRank::R7 => '7',
            ChessRank::R8 => '8',
        }
    }

    /// The zero-based index of this rank, rank 1 being 0.
    pub open spec fn spec_index(self) -> usize {
        match self {
            ChessRank::R1 => 0usize,
            ChessRank::R2 => 1usize,
            ChessRank::R3 => 2usize,
            ChessRank::R4 => 3usize,
            ChessRank::R5 => 4usize,
            ChessRank::R6 => 5usize,
            ChessRank::R7 => 6usize,
            ChessRank::R8 => 7usize,
        }
    }

    pub fn as_usize(self) -> (i: usize)
        ensures
            i == self.spec_index(),
            i < 8,
    {
        match self {
            ChessRank::R1 => 0,
            ChessRank::R2 => 1,
            ChessRank::R3 => 2,
            ChessRank::R4 => 3,
            ChessRank::R5 => 4,
            ChessRank::R6 => 5,
            ChessRank::R7 => 6,
            ChessRank::R8 => 7,
        }
    }
}

/// A board coordinate in which either component may be missing.
/// A partial coordinate (file only, or rank only) serves as a
/// disambiguation hint for the origin square of a move; a destination
/// must always be complete.
#[derive(Clone, Copy, Debug, PartialEq, Eq, Structural)]
pub struct ChessCoordinate {
    pub file: Option<ChessFile>,
    pub rank: Option<ChessRank>,
}

impl ChessCoordinate {
    /// Neither component is present.
    pub open spec fn spec_is_empty(self) -> bool {
        self.file is None && self.rank is None
    }

    /// At least one component is present.
    pub open spec fn spec_is_partial(self) -> bool {
        self.file is Some || self.rank is Some
    }

    /// Both components are present.
    pub open spec fn spec_is_complete(self) -> bool {
        self.file is Some && self.rank is Some
    }

    pub fn new(chess_file: ChessFile, chess_rank: ChessRank) -> (r: ChessCoordinate)
        ensures
            r == (ChessCoordinate { file: Some(chess_file), rank: Some(chess_rank) }),
    {
        ChessCoordinate { file: Some(chess_file), rank: Some(chess_rank) }
    }

    pub fn new_opt(chess_file: Option<ChessFile>, chess_rank: Option<ChessRank>) -> (r: Self)
        ensures
            r == (ChessCoordinate { file: chess_file, rank: chess_rank }),
    {
        ChessCoordinate { file: chess_file, rank: chess_rank }
    }

    pub fn from_rank(chess_rank: ChessRank) -> (r: ChessCoordinate)
        ensures
            r == (ChessCoordinate { file: None, rank: Some(chess_rank) }),
    {
        ChessCoordinate { file: None, rank: Some(chess_rank) }
    }

    pub fn from_file(chess_file: ChessFile) -> (r: ChessCoordinate)
        ensures
            r == (ChessCoordinate { file: Some(chess_file), rank: None }),
    {
        ChessCoordinate { file: Some(chess_file), rank: None }
    }

    pub fn empty() -> (r: ChessCoordinate)
        ensures
            r == (ChessCoordinate { file: None, rank: None }),
    {
        ChessCoordinate { file: None, rank: None }
    }

    pub fn is_empty(&self) -> (b: bool)
        ensures
            b == self.spec_is_empty(),
    {
        self.rank.is_none() && self.file.is_none()
    }

    pub fn is_partial(&self) -> (b: bool)
        ensures
            b == self.spec_is_partial(),
    {
        self.rank.is_some() || self.file.is_some()
    }

    pub fn is_complete(&self) -> (b: bool)
        ensures
            b == self.spec_is_complete(),
    {
        self.rank.is_some() && self.file.is_some()
    }

    pub fn get_rank(&self) -> (r: &Option<ChessRank>)
        ensures
            r == &self.rank,
    {
        &self.rank
    }

    pub fn get_file(&self) -> (f: &Option<ChessFile>)
        ensures
            f == &self.file,
    {
        &self.file
    }

    pub fn set_rank(&mut self, chess_rank: ChessRank)
        ensures
            final(self).rank == Some(chess_rank),
            final(self).file == old(self).file,
    {
        self.rank = Some(chess_rank);
    }

    pub fn set_file(&mut self, chess_file: ChessFile)
        ensures
            final(self).file == Some(chess_file),
            final(self).rank == old(self).rank,
    {
        self.file = Some(chess_file);
    }
}

} // verus!
