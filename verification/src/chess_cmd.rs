//! The commands of the interactive board: the data they carry, free of
//! any terminal concerns. The surrounding program maps its own
//! argument-parsing types onto these.

use vstd::prelude::*;

verus! {

/// One command of the interactive board.
#[derive(Clone, Debug)]
pub enum ChessCommands {
    /// Make a chess move given as a PGN move string.
    Move { pgn_move: String },
    /// Undo the last move or moves.
    Undo { undo_count: Option<u8> },
    /// Redo the previously undone move or moves.
    Redo { redo_count: Option<u8> },
    /// Reset the board.
    Reset,
    /// Save the current game into a PGN file.
    Save { file_path: String },
    /// Load a game from a PGN file.
    Load { file_path: String },
    /// Quit the game.
    Quit,
}

/// The parsed command line of the interactive board.
#[derive(Clone, Debug)]
pub struct ChessTuiCmd {
    pub command: ChessCommands,
}

} // verus!
