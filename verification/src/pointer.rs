//! From pointer positions on screen to cells of a board.

use vstd::prelude::*;
use crate::board::Board;
use crate::cell::CellState;

verus! {

/// Which button of the pointing device an event is about.
#[derive(Clone, Copy, Debug, PartialEq, Eq, Structural)]
pub enum PointerButton {
    Left,
    Right,
    Middle,
    Other,
}

/// The coordinate of the cell that covers the pixel `(screen_x, screen_y)`
/// when every cell is a square of `cell_size` pixels.
pub open spec fn cell_under(screen_x: int, screen_y: int, cell_size: int) -> (int, int) {
    (screen_x / cell_size, screen_y / cell_size)
}

/// Maps a position on screen to the coordinate of the cell under it. The
/// coordinate may lie outside a given board.
pub fn screen_to_grid(screen_x: u32, screen_y: u32, cell_size: u32) -> (coordinate: (u32, u32))
    requires
        cell_size > 0,
    ensures
        (coordinate.0 as int, coordinate.1 as int) == cell_under(
            screen_x as int,
            screen_y as int,
            cell_size as int,
        ),
    no_unwind
{
    (screen_x / cell_size, screen_y / cell_size)
}

/// Brings the cell under the position `(screen_x, screen_y)` to life. A
/// position that maps outside the board changes nothing.
pub fn apply(grid: &mut Board, screen_x: u32, screen_y: u32, cell_size: u32)
    requires
        cell_size > 0,
    ensures
        final(grid)@ == old(grid)@.set(
            cell_under(screen_x as int, screen_y as int, cell_size as int).0,
            cell_under(screen_x as int, screen_y as int, cell_size as int).1,
            CellState::Alive,
        ),
    no_unwind
{
    let (x, y) = screen_to_grid(screen_x, screen_y, cell_size);
    grid.set_cell(x, y, CellState::Alive);
}

} // verus!
