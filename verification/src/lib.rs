//! A falling-block puzzle engine: a bounded grid of colored cells, seven
//! tetromino shapes, an actively falling piece with collision-checked
//! translation and rotation, locking, row clearing, and scoring.
use vstd::prelude::*;

pub mod grid;
pub mod engine;
pub mod tetris;

verus! {

/// Number of rows in the playing field.
pub const NUM_ROWS: usize = 20;

/// Number of columns in the playing field.
pub const NUM_COLS: usize = 10;

} // verus!
