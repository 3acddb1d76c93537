//! The static board model: an 8x8 grid of squares, each holding an
//! optional piece, reset to the standard starting position. No move
//! application or legality checking lives here.

use vstd::prelude::*;
use crate::chess_common::ChessPiece;

verus! {

/// Which side a piece belongs to.
#[derive(Clone, Copy, Debug, PartialEq, Eq, Structural)]
pub enum Team {
    Light,
    Dark,
}

/// A piece on the board: its side and its kind.
#[derive(Clone, Copy, Debug, PartialEq, Eq, Structural)]
pub struct Piece {
    pub team: Team,
    pub piece_type: ChessPiece,
}

impl Piece {
    pub fn new(team: Team, piece_type: ChessPiece) -> (p: Piece)
        ensures
            p == (Piece { team, piece_type }),
    {
        Piece { team, piece_type }
    }

    /// The chess figure glyph for this piece.
    pub open spec fn spec_unicode_symbol(self) -> char {
        match self.team {
            Team::Dark => match self.piece_type {
                ChessPiece::Pawn => '\u{265f}',
                ChessPiece::Knight => '\u{265e}',
                ChessPiece::Bishop => '\u{265d}',
                ChessPiece::Rook => '\u{265c}',
                ChessPiece::Queen => '\u{265b}',
                ChessPiece::King => '\u{265a}',
            },
            Team::Light => match self.piece_type {
                ChessPiece::Pawn => '\u{2659}',
                ChessPiece::Knight => '\u{2658}',
                ChessPiece::Bishop => '\u{2657}',
                ChessPiece::Rook => '\u{2656}',
                ChessPiece::Queen => '\u{2655}',
                ChessPiece::King => '\u{2654}',
            },
        }
    }

    pub fn get_unicode_symbol(self) -> (c: char)
        ensures
            c == self.spec_unicode_symbol(),
    {
        match self.team {
            Team::Dark => match self.piece_type {
                ChessPiece::Pawn => '\u{265f}',
                ChessPiece::Knight => '\u{265e}',
                ChessPiece::Bishop => '\u{265d}',
                ChessPiece::Rook => '\u{265c}',
                ChessPiece::Queen => '\u{265b}',
                ChessPiece::King => '\u{265a}',
            },
            Team::Light => match self.piece_type {
                ChessPiece::Pawn => '\u{2659}',
                ChessPiece::Knight => '\u{2658}',
                ChessPiece::Bishop => '\u{2657}',
                ChessPiece::Rook => '\u{2656}',
                ChessPiece::Queen => '\u{2655}',
                ChessPiece::King => '\u{2654}',
            },
        }
    }

    pub fn get_team(&self) -> (t: &Team)
        ensures
            t == &self.team,
    {
        &self.team
    }
}

/// One square of the board.
#[derive(Clone, Copy, Debug, PartialEq, Eq, Structural)]
pub struct Square {
    pub piece: Option<Piece>,
}

impl Square {
    pub fn new(p: Option<Piece>) -> (s: Square)
        ensures
            s == (Square { piece: p }),
    {
        Square { piece: p }
    }

    pub fn get_piece(&self) -> (p: &Option<Piece>)
        ensures
            p == &self.piece,
    {
        &self.piece
    }
}

/// The squares of a board, indexed by rank then file.
pub type BoardSquares = [[Square; 8]; 8];

/// The piece standing on the given square in the standard starting
/// position, rank and file both counted from zero.
pub open spec fn starting_square(rank: int, file: int) -> Option<Piece> {
    if rank == 1 {
        Some(Piece { team: Team::Light, piece_type: ChessPiece::Pawn })
    } else if rank == 6 {
        Some(Piece { team: Team::Dark, piece_type: ChessPiece::Pawn })
    } else if rank == 0 || rank == 7 {
        let team = if rank == 0 {
            Team::Light
        } else {
            Team::Dark
        };
        let kind = if file == 0 || file == 7 {
            ChessPiece::Rook
        } else if file == 1 || file == 6 {
            ChessPiece::Knight
        } else if file == 2 || file == 5 {
            ChessPiece::Bishop
        } else if file == 3 {
            ChessPiece::Queen
        } else {
            ChessPiece::King
        };
        Some(Piece { team, piece_type: kind })
    } else {
        None
    }
}

/// The game board.
pub struct Board {
    pub squares: BoardSquares,
}

/// A full rank of the starting position.
fn starting_rank(rank: usize) -> (r: [Square; 8])
    requires
        rank < 8,
    ensures
        forall|f: int| 0 <= f < 8 ==> r@[f] == (Square { piece: starting_square(rank as int, f) }),
{
    let back = rank == 0 || rank == 7;
    let team = if rank <= 1 {
        Team::Light
    } else {
        Team::Dark
    };
    if rank == 1 || rank == 6 {
        let p = Square { piece: Some(Piece { team, piece_type: ChessPiece::Pawn }) };
        let r = [p, p, p, p, p, p, p, p];
        assert forall|f: int| 0 <= f < 8 implies r@[f] == (Square {
            piece: starting_square(rank as int, f),
        }) by {
            assert(r@[f] == p);
        }
        r
    } else if back {
        let rook = Square { piece: Some(Piece { team, piece_type: ChessPiece::Rook }) };
        let knight = Square { piece: Some(Piece { team, piece_type: ChessPiece::Knight }) };
        let bishop = Square { piece: Some(Piece { team, piece_type: ChessPiece::Bishop }) };
        let queen = Square { piece: Some(Piece { team, piece_type: ChessPiece::Queen }) };
        let king = Square { piece: Some(Piece { team, piece_type: ChessPiece::King }) };
        let r = [rook, knight, bishop, queen, king, bishop, knight, rook];
        r
    } else {
        let empty = Square { piece: None };
        let r = [empty, empty, empty, empty, empty, empty, empty, empty];
        assert forall|f: int| 0 <= f < 8 implies r@[f] == (Square {
            piece: starting_square(rank as int, f),
        }) by {
            assert(r@[f] == empty);
        }
        r
    }
}

impl Board {
    /// Every square holds what the starting position puts there.
    pub open spec fn is_starting_position(self) -> bool {
        forall|r: int, f: int|
            0 <= r < 8 && 0 <= f < 8 ==> (#[trigger] self.squares@[r]@[f]) == (Square {
                piece: starting_square(r, f),
            })
    }

    /// A board set up in the standard starting position.
    pub fn new() -> (b: Board)
        ensures
            b.is_starting_position(),
    {
        let mut b = Board {
            squares: [
                [Square { piece: None }; 8],
                [Square { piece: None }; 8],
                [Square { piece: None }; 8],
                [Square { piece: None }; 8],
                [Square { piece: None }; 8],
                [Square { piece: None }; 8],
                [Square { piece: None }; 8],
                [Square { piece: None }; 8],
            ],
        };
        b.new_game();
        b
    }

    /// Resets every square to the standard starting position.
    pub fn new_game(&mut self)
        ensures
            final(self).is_starting_position(),
    {
        self.squares = [
            starting_rank(0),
            starting_rank(1),
            starting_rank(2),
            starting_rank(3),
            starting_rank(4),
            starting_rank(5),
            starting_rank(6),
            starting_rank(7),
        ];
    }

    pub fn get_squares(&self) -> (s: &BoardSquares)
        ensures
            s == &self.squares,
    {
        &self.squares
    }
}

} // verus!
