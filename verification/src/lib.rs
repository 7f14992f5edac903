pub mod bitboard;
pub mod piece;
pub mod piece_move;
pub mod state;
mod text;
