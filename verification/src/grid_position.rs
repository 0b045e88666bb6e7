use vstd::prelude::*;

use crate::util::{GRID_CELL_HEIGHT, GRID_CELL_WIDTH, GRID_COLS, GRID_ROWS};

verus! {

/// Signalled by the coordinate mapper when a grid cell lies outside the
/// board, so that no board square corresponds to it.
#[derive(Clone, Copy, PartialEq, Eq, Structural, Debug)]
pub struct OutOfBounds;

/// A board cell addressed by zero-based column (`x`) and row (`y`) indices.
#[derive(Clone, Copy, PartialEq, Eq, Structural, Debug)]
pub struct GridPosition {
    pub x: u32,
    pub y: u32,
}

/// A rules-engine square: file 0 is file A, rank 0 is rank 1. Column 0 of the
/// grid maps to file 0 and row 0 maps to rank 0, whatever the screen's draw
/// order is.
#[derive(Clone, Copy, PartialEq, Eq, Structural, Debug, Hash, PartialOrd, Ord)]
pub struct SquareId {
    pub file: u8,
    pub rank: u8,
}

/// A screen rectangle in pixel coordinates, used to place a cell's drawing.
#[derive(Clone, Copy, PartialEq, Eq, Structural, Debug)]
pub struct PixelRect {
    pub x: u64,
    pub y: u64,
    pub width: u64,
    pub height: u64,
}

impl GridPosition {
    pub fn new(x: u32, y: u32) -> (p: Self)
        ensures
            p == (GridPosition { x, y }),
    {
        GridPosition { x, y }
    }

    /// The cell that contains the pixel `(px, py)`.
    pub open spec fn spec_from_pixel(px: u32, py: u32) -> GridPosition {
        GridPosition { x: px / GRID_CELL_WIDTH, y: py / GRID_CELL_HEIGHT }
    }

    /// Integer-divides each pixel coordinate by the cell size. Pixels beyond
    /// the board's extent yield a cell with out-of-range components: callers
    /// must validate the range before treating the cell as a board square.
    pub fn from_pixel(px: u32, py: u32) -> (p: Self)
        ensures
            p == Self::spec_from_pixel(px, py),
    {
        GridPosition { x: px / GRID_CELL_WIDTH, y: py / GRID_CELL_HEIGHT }
    }

    /// The pixel rectangle covered by this cell.
    pub open spec fn spec_to_pixel_rect(self) -> PixelRect {
        PixelRect {
            x: (self.x * GRID_CELL_WIDTH) as u64,
            y: (self.y * GRID_CELL_HEIGHT) as u64,
            width: GRID_CELL_WIDTH as u64,
            height: GRID_CELL_HEIGHT as u64,
        }
    }

    pub fn to_pixel_rect(self) -> (r: PixelRect)
        ensures
            r == self.spec_to_pixel_rect(),
    {
        PixelRect {
            x: self.x as u64 * GRID_CELL_WIDTH as u64,
            y: self.y as u64 * GRID_CELL_HEIGHT as u64,
            width: GRID_CELL_WIDTH as u64,
            height: GRID_CELL_HEIGHT as u64,
        }
    }

    /// Whether this cell is drawn in the light color: cells alternate by
    /// `(column + row) % 2`, and the origin cell is light.
    pub fn is_light(self) -> (r: bool)
        ensures
            r == ((self.x + self.y) % 2 == 0),
    {
        self.x % 2 == self.y % 2
    }

    /// The square this cell denotes: column is the file, row is the rank.
    /// A column beyond the board has no square.
    pub open spec fn spec_to_square_id(self) -> Result<SquareId, OutOfBounds> {
        if self.x >= GRID_COLS {
            Err(OutOfBounds)
        } else {
            Ok(SquareId { file: self.x as u8, rank: self.y as u8 })
        }
    }

    /// Maps this cell to the rules engine's square: fails with `OutOfBounds`
    /// exactly when the column is off the board.
    pub fn to_square_id(self) -> (r: Result<SquareId, OutOfBounds>)
        requires
            self.y < GRID_ROWS,
        ensures
            r == self.spec_to_square_id(),
            r is Err <==> self.x >= GRID_COLS,
            r is Ok ==> r->Ok_0.wf(),
    {
        if self.x >= GRID_COLS {
            Err(OutOfBounds)
        } else {
            Ok(SquareId { file: self.x as u8, rank: self.y as u8 })
        }
    }
}

impl SquareId {
    /// A square names a real board location: both coordinates on the board.
    pub open spec fn wf(self) -> bool {
        self.file < GRID_COLS && self.rank < GRID_ROWS
    }

    pub fn new(file: u8, rank: u8) -> (s: Self)
        requires
            file < GRID_COLS,
            rank < GRID_ROWS,
        ensures
            s == (SquareId { file, rank }),
            s.wf(),
    {
        SquareId { file, rank }
    }

    /// The grid cell of this square: file back to column, rank back to row.
    pub open spec fn spec_to_grid_position(self) -> GridPosition {
        GridPosition { x: self.file as u32, y: self.rank as u32 }
    }

    /// Inverse of the cell-to-square mapping; total on every square.
    pub fn to_grid_position(self) -> (p: GridPosition)
        ensures
            p == self.spec_to_grid_position(),
    {
        GridPosition { x: self.file as u32, y: self.rank as u32 }
    }
}

/// Law: the two square mappings are mutual inverses. Every on-board cell maps
/// to a square, and that square maps back to the very same cell.
pub proof fn lemma_square_round_trip(c: GridPosition)
    requires
        c.x < GRID_COLS,
        c.y < GRID_ROWS,
    ensures
        c.spec_to_square_id() is Ok,
        c.spec_to_square_id()->Ok_0.wf(),
        c.spec_to_square_id()->Ok_0.spec_to_grid_position() == c,
{
}

/// Law: the inverse direction. Every square's cell is on the board and maps
/// back to the very same square.
pub proof fn lemma_grid_round_trip(s: SquareId)
    requires
        s.wf(),
    ensures
        s.spec_to_grid_position().x < GRID_COLS,
        s.spec_to_grid_position().y < GRID_ROWS,
        s.spec_to_grid_position().spec_to_square_id() == Ok::<SquareId, OutOfBounds>(s),
{
}

} // verus!
