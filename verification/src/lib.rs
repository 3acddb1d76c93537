//! A verified model of chess notation: the Portable Game Notation (PGN)
//! move grammar, a move parser and formatter, a move list with turn
//! tracking, game records with tag pairs, and a static board layout.

pub mod chess_cmd;
pub mod chess_command;
pub mod chess_common;
pub mod chess_core;
pub mod chess_move;
pub mod chess_pgn;
pub mod move_laws;
pub mod move_list;
pub mod move_parse;
pub mod text;
