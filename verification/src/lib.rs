//! Move legality for a chess board.
//!
//! The board is a grid of sixty-four tiles, each empty or holding one piece
//! of one side. For a proposed move the library answers whether it obeys
//! the movement rule of the piece on its source square, and applies moves
//! to the board. It knows nothing of turns, check, castling, en passant or
//! promotion.
//!
//! - [`geometry`]: coordinates, distances and the squares between two
//!   squares.
//! - [`piece`]: the sides, the six piece kinds and their movement
//!   predicates.
//! - [`board`]: the tiles, the starting position, reading a tile, the
//!   unconditional move and the board as text.
//! - [`engine`]: judging a proposed move and applying it where it is legal.
//! - [`notation`]: reading a move from a line of text.
//! - [`laws`]: what holds of the rules for every board and every move.

pub mod board;
pub mod engine;
pub mod geometry;
pub mod laws;
pub mod notation;
pub mod piece;
