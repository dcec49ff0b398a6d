//! The dimensions of the standard board and the mapping between a cell's
//! position in row-major order and its coordinates.

use vstd::prelude::*;

verus! {

/// Columns of the standard board.
pub const GRID_WIDTH: u32 = 100;

/// Rows of the standard board.
pub const GRID_HEIGHT: u32 = 100;

/// Edge of one cell on screen, in pixels.
pub const GRID_CELL_SIZE: u32 = 8;

/// The column of position `i` on the standard board. For a negative `i` the
/// quotient and remainder are those of division that rounds toward zero.
pub open spec fn column_of(i: int) -> int {
    if i >= 0 {
        i % (GRID_WIDTH as int)
    } else {
        -((-i) % (GRID_WIDTH as int))
    }
}

/// The row of position `i` on the standard board.
pub open spec fn row_of(i: int) -> int {
    if i >= 0 {
        i / (GRID_WIDTH as int)
    } else {
        -((-i) / (GRID_WIDTH as int))
    }
}

/// The coordinates `(x, y)` of the cell at position `i` of the standard
/// board's row-major order.
pub fn get_coordinates(i: i32) -> (coordinates: (i32, i32))
    ensures
        coordinates.0 == column_of(i as int),
        coordinates.1 == row_of(i as int),
{
    let x: i32 = i % GRID_WIDTH as i32;
    let y: i32 = i / GRID_WIDTH as i32;
    (x, y)
}

} // verus!
