//! Core simulation of a falling-block puzzle game: a fixed 10 x 24 board
//! accumulates locked tetrominoes, a single active piece falls under a
//! time-driven gravity tick, full rows clear and cascade, and score and
//! difficulty escalate over time.
//!
//! The crate is pure simulation: it consumes already-debounced input edges
//! and integer timestamps and exposes the board, score and difficulty for a
//! host to render.

use vstd::prelude::*;

pub mod board;
pub mod clear;
pub mod collision;
pub mod logic;
pub mod session;
pub mod shapes;
pub mod ticker;

verus! {

/// Number of columns of the board.
pub const BOARD_WIDTH: usize = 10;

/// Number of rows of the board; `y` increases upward.
pub const BOARD_HEIGHT: usize = 24;

/// Number of cells of the board.
pub const BOARD_CELLS: usize = BOARD_WIDTH * BOARD_HEIGHT;

} // verus!
