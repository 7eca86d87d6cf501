//! Kinematics of a falling piece on a fixed playfield and the search for the
//! shortest input sequence that drives a piece from one placement to another.
//!
//! A piece is a [`FallingPiece`]: a shape, an orientation, a place and a
//! spin. It moves against a [`Board`] by shifts, drops and turns; each of
//! them either succeeds or leaves the piece as it was. [`find_path`] finds
//! the best sequence of inputs from one piece to another, and
//! [`find_das_path`] the same without the drops at its end.

pub mod board;
pub mod config;
pub mod falling;
mod frontier;
pub mod kicks;
pub mod moves;
pub mod path;
pub mod piece;
pub mod search;
pub mod wire;

pub use crate::board::{Board, Field};
pub use crate::config::GameConfig;
pub use crate::falling::FallingPiece;
pub use crate::moves::{DasPieceMovement, PieceMovement};
pub use crate::piece::{
    CellColor, Direction, DirectionSet, Piece, PieceState, RotationState, TspinStatus,
};
pub use crate::search::{find_das_path, find_path};
