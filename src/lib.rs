//! A chess rules engine: board state, legal move generation (with king
//! safety, castling, en passant and promotion) and the classification of
//! every position (check, checkmate, stalemate, repetition, the 75-move rule,
//! insufficient material), with contracts checked by Verus.
//!
//! The rules are stated in `rules` over a mathematical model of the board;
//! `board` generates moves that provably follow them, and `game` runs the
//! turns, each of whose effects is stated over the model of a game. `laws`
//! holds properties that relate several operations.

pub mod board;
pub mod error;
pub mod game;
pub mod history;
pub mod laws;
pub mod material;
pub mod piece;
pub mod position;
pub mod render;
pub mod rules;
pub mod text;

pub use error::{ChessError, ErrorKind};
pub use game::{Game, GameOverReason, GameState};
pub use history::{HistoryEntry, PositionKey};
pub use piece::{Colour, Piece, PieceType};
pub use position::Position;
