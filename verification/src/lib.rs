//! Game-state core of a Xiangqi (Chinese chess) application.
//!
//! The crate owns the canonical 10 x 9 board, tracks the side to move,
//! and translates between the in-memory state and two textual notations:
//! a FEN-like position string and a 4-character route string. Move search
//! is delegated to the external `chessai` engine, reached only through
//! the narrow trusted layer in [`engine`].

pub mod engine;
pub mod fen;
pub mod game;
pub mod piece;
pub mod player;
pub mod public;
