use vstd::prelude::*;

verus! {

/// Number of columns on the board.
pub const GRID_COLS: u32 = 8;

/// Number of rows on the board.
pub const GRID_ROWS: u32 = 8;

/// Width of one board cell, in pixels.
pub const GRID_CELL_WIDTH: u32 = 32;

/// Height of one board cell, in pixels.
pub const GRID_CELL_HEIGHT: u32 = 32;

/// Width of the whole board, in pixels.
pub const SCREEN_WIDTH: u32 = GRID_COLS * GRID_CELL_WIDTH;

/// Height of the whole board, in pixels.
pub const SCREEN_HEIGHT: u32 = GRID_ROWS * GRID_CELL_HEIGHT;

} // verus!
