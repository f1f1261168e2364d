//! Bitboard model of a static chess position, and a reader for the
//! Forsyth–Edwards notation (FEN) of one.
pub mod bitboard;
pub mod board;
pub mod fen;
pub mod laws;
pub mod piece;
pub mod render;
pub mod text;

pub use bitboard::{Bitboard, InvalidSquareLabel, Square};
pub use board::{Board, Castling};
pub use fen::FenError;
pub use piece::Piece;
