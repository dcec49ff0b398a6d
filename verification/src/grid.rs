//! The mathematical model of a board: its dimensions and its cells in
//! row-major order, with the update rule stated over it.

use vstd::prelude::*;
use crate::cell::{rule, CellState};

verus! {

/// A board as a mathematical value. The cell at column `x` of row `y` is
/// `cells[y * width + x]`.
pub struct Grid {
    pub width: nat,
    pub height: nat,
    pub cells: Seq<CellState>,
}

impl Grid {
    /// There is exactly one cell for each coordinate.
    pub open spec fn wf(self) -> bool {
        self.cells.len() == self.width * self.height
    }

    /// The coordinate names a cell of the board. Negative coordinates never do.
    pub open spec fn in_bounds(self, x: int, y: int) -> bool {
        0 <= x < self.width && 0 <= y < self.height
    }

    /// The position of `(x, y)` in `cells`.
    pub open spec fn index(self, x: int, y: int) -> int {
        y * self.width + x
    }

    /// The state at `(x, y)`; `None` outside the board.
    pub open spec fn get(self, x: int, y: int) -> Option<CellState> {
        if self.in_bounds(x, y) {
            Some(self.cells[self.index(x, y)])
        } else {
            None
        }
    }

    /// The state at `(x, y)`, where everything outside the board is dead:
    /// the board has edges and does not wrap around.
    pub open spec fn cell(self, x: int, y: int) -> CellState {
        match self.get(x, y) {
            Some(state) => state,
            None => CellState::Dead,
        }
    }

    /// The board with the cell at `(x, y)` replaced; unchanged if `(x, y)` is
    /// outside the board.
    pub open spec fn set(self, x: int, y: int, state: CellState) -> Grid {
        if self.in_bounds(x, y) {
            Grid { cells: self.cells.update(self.index(x, y), state), ..self }
        } else {
            self
        }
    }

    /// How many of the eight cells around `(x, y)` are alive.
    pub open spec fn alive_neighbors(self, x: int, y: int) -> int {
        self.cell(x - 1, y - 1).population() + self.cell(x, y - 1).population()
            + self.cell(x + 1, y - 1).population() + self.cell(x - 1, y).population()
            + self.cell(x + 1, y).population() + self.cell(x - 1, y + 1).population()
            + self.cell(x, y + 1).population() + self.cell(x + 1, y + 1).population()
    }

    /// The state of `(x, y)` one generation later.
    pub open spec fn next_cell(self, x: int, y: int) -> CellState {
        rule(self.cell(x, y), self.alive_neighbors(x, y))
    }

    /// The next generation: every cell is decided from this board alone.
    pub open spec fn step(self) -> Grid {
        Grid {
            width: self.width,
            height: self.height,
            cells: Seq::new(
                self.cells.len(),
                |i: int| self.next_cell(i % (self.width as int), i / (self.width as int)),
            ),
        }
    }

    /// The board after `n` generations.
    pub open spec fn steps(self, n: nat) -> Grid
        decreases n,
    {
        if n == 0 {
            self
        } else {
            self.step().steps((n - 1) as nat)
        }
    }

    /// The board of the same size in which every third cell in row-major
    /// order, starting with the first, is alive and all others are dead.
    pub open spec fn seeded(self) -> Grid {
        Grid {
            width: self.width,
            height: self.height,
            cells: Seq::new(
                self.cells.len(),
                |i: int|
                    if i % 3 == 0 {
                        CellState::Alive
                    } else {
                        CellState::Dead
                    },
            ),
        }
    }

    /// The board of the given size with no live cell.
    pub open spec fn dead(width: nat, height: nat) -> Grid {
        Grid { width, height, cells: Seq::new(width * height, |i: int| CellState::Dead) }
    }
}

/// A coordinate inside a `width` by `height` board has its row-major position
/// inside the cell sequence.
pub proof fn lemma_index_in_range(width: int, height: int, x: int, y: int)
    requires
        0 <= x < width,
        0 <= y < height,
    ensures
        0 <= y * width <= y * width + x < width * height,
{
    assert(0 <= y * width && (y + 1) * width <= height * width) by (nonlinear_arith)
        requires
            0 <= y < height,
            0 < width,
    ;
    assert((y + 1) * width == y * width + width) by (nonlinear_arith);
    assert(height * width == width * height) by (nonlinear_arith);
}

/// Writing a cell keeps the board's size and shape.
pub proof fn lemma_set_preserves_wf(grid: Grid, x: int, y: int, state: CellState)
    requires
        grid.wf(),
    ensures
        grid.set(x, y, state).wf(),
        grid.set(x, y, state).width == grid.width,
        grid.set(x, y, state).height == grid.height,
{
    if grid.in_bounds(x, y) {
        lemma_index_in_range(grid.width as int, grid.height as int, x, y);
    }
}

/// A position inside the cell sequence of a `width` by `height` board is the
/// row-major position of exactly the coordinate `(i % width, i / width)`.
pub proof fn lemma_position_of_index(width: int, height: int, i: int)
    requires
        0 <= width,
        0 <= height,
        0 <= i < width * height,
    ensures
        0 < width,
        0 <= i % width < width,
        0 <= i / width < height,
        (i / width) * width + i % width == i,
{
    assert(0 < width) by (nonlinear_arith)
        requires
            0 <= width,
            0 <= height,
            0 <= i < width * height,
    ;
    vstd::arithmetic::div_mod::lemma_fundamental_div_mod(i, width);
    vstd::arithmetic::div_mod::lemma_mod_bound(i, width);
    assert(width * (i / width) == (i / width) * width) by (nonlinear_arith);
    assert(0 <= i / width < height) by (nonlinear_arith)
        requires
            0 < width,
            0 <= i < width * height,
            (i / width) * width + i % width == i,
            0 <= i % width < width,
    ;
}

/// A read after a write: the written cell holds the written state, every
/// other coordinate reads as before, and a write outside the board changes
/// no read at all.
pub proof fn lemma_get_after_set(grid: Grid, x: int, y: int, state: CellState, qx: int, qy: int)
    requires
        grid.wf(),
    ensures
        grid.set(x, y, state).get(qx, qy) == if qx == x && qy == y && grid.in_bounds(x, y) {
            Some(state)
        } else {
            grid.get(qx, qy)
        },
{
    if grid.in_bounds(x, y) && grid.in_bounds(qx, qy) {
        let width = grid.width as int;
        lemma_index_in_range(width, grid.height as int, x, y);
        lemma_index_in_range(width, grid.height as int, qx, qy);
        if qy != y {
            assert(qy * width + qx != y * width + x) by (nonlinear_arith)
                requires
                    qy != y,
                    0 <= x < width,
                    0 <= qx < width,
            ;
        }
    }
}

/// A write to a coordinate outside the board, negative or too large, leaves
/// the board exactly as it was.
pub proof fn lemma_set_out_of_bounds(grid: Grid, x: int, y: int, state: CellState)
    requires
        !grid.in_bounds(x, y),
    ensures
        grid.set(x, y, state) == grid,
        forall|qx: int, qy: int| grid.set(x, y, state).get(qx, qy) == grid.get(qx, qy),
{
}

/// A generation keeps the board's size and shape, and so does any number of
/// generations.
pub proof fn lemma_steps_preserve_wf(grid: Grid, n: nat)
    requires
        grid.wf(),
    ensures
        grid.step().wf(),
        grid.steps(n).wf(),
        grid.steps(n).width == grid.width,
        grid.steps(n).height == grid.height,
    decreases n,
{
    if n > 0 {
        lemma_steps_preserve_wf(grid.step(), (n - 1) as nat);
    }
}

/// The cell at `(x, y)` of the next generation is decided by the rule from
/// the cell and its neighbours in this generation.
pub proof fn lemma_step_cell(grid: Grid, x: int, y: int)
    requires
        grid.wf(),
    ensures
        grid.step().get(x, y) == if grid.in_bounds(x, y) {
            Some(grid.next_cell(x, y))
        } else {
            None
        },
{
    if grid.in_bounds(x, y) {
        let width = grid.width as int;
        lemma_index_in_range(width, grid.height as int, x, y);
        let i = y * width + x;
        vstd::arithmetic::div_mod::lemma_fundamental_div_mod_converse(i, width, y, x);
    }
}

} // verus!
