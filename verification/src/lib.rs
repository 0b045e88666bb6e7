//! An interactive chessboard core: the coordinate mapping between screen
//! pixels, board cells and rules-engine squares, and the click-driven
//! selection state machine that picks a piece up, previews its legal
//! destinations, and plays a move through the shakmaty rules engine.
pub mod engine;
pub mod grid_position;
pub mod selection;
pub mod util;
