//! The executable board.

use vstd::prelude::*;
use crate::cell::CellState;
use crate::grid::{lemma_index_in_range, lemma_position_of_index, Grid};

verus! {

/// A fixed-size board of cells, stored row by row. Its width and height never
/// change after construction, and it always holds `width * height` cells.
pub struct Board {
    cells: Vec<CellState>,
    width: u32,
    height: u32,
}

impl View for Board {
    type V = Grid;

    closed spec fn view(&self) -> Grid {
        Grid { width: self.width as nat, height: self.height as nat, cells: self.cells@ }
    }
}

impl Board {
    #[verifier::type_invariant]
    spec fn inv(self) -> bool {
        self.cells@.len() == self.width * self.height
    }

    /// A board of the given size with every cell dead. A dimension of zero
    /// gives an empty board, on which every coordinate is out of bounds.
    pub fn new(width: u32, height: u32) -> (board: Board)
        requires
            width * height <= u32::MAX,
        ensures
            board@ == Grid::dead(width as nat, height as nat),
            board@.wf(),
    {
        let len: usize = (width as usize) * (height as usize);
        let cells = vec![CellState::Dead; len];
        assert(cells@ =~= Grid::dead(width as nat, height as nat).cells);
        Board { cells, width, height }
    }

    /// The number of columns.
    pub fn width(&self) -> (width: u32)
        ensures
            width == self@.width,
    {
        self.width
    }

    /// The number of rows.
    pub fn height(&self) -> (height: u32)
        ensures
            height == self@.height,
    {
        self.height
    }

    /// The cells in row-major order, one for each coordinate of the board.
    pub fn cells(&self) -> (cells: &Vec<CellState>)
        ensures
            cells@ == self@.cells,
            self@.wf(),
    {
        proof {
            use_type_invariant(self);
        }
        &self.cells
    }

    /// The cell at `(x, y)`, or `None` if the coordinate is outside the board.
    pub fn get_cell(&self, x: u32, y: u32) -> (cell: Option<&CellState>)
        ensures
            cell is Some <==> self@.in_bounds(x as int, y as int),
            cell is Some ==> Some(*cell.unwrap()) == self@.get(x as int, y as int),
        no_unwind
    {
        proof {
            use_type_invariant(self);
        }
        if x < self.width && y < self.height {
            proof {
                lemma_index_in_range(self.width as int, self.height as int, x as int, y as int);
                assert(self.cells.len() == self.cells@.len());
            }
            let i: usize = (y as usize) * (self.width as usize) + (x as usize);
            Some(&self.cells[i])
        } else {
            None
        }
    }

    /// Mutable access to the cell at `(x, y)`, or `None` if the coordinate is
    /// outside the board. Whatever the caller writes through the reference is
    /// the new state of that cell; no other cell changes.
    pub fn get_cell_mut(&mut self, x: u32, y: u32) -> (cell: Option<&mut CellState>)
        ensures
            old(self)@.in_bounds(x as int, y as int) ==> cell is Some
                && *cell.unwrap() == old(self)@.cell(x as int, y as int)
                && final(self)@ == old(self)@.set(x as int, y as int, *final(cell.unwrap())),
            !old(self)@.in_bounds(x as int, y as int) ==> cell is None
                && final(self)@ == old(self)@,
        no_unwind
    {
        proof {
            use_type_invariant(&*self);
        }
        if x < self.width && y < self.height {
            proof {
                lemma_index_in_range(self.width as int, self.height as int, x as int, y as int);
                assert(self.cells.len() == self.cells@.len());
            }
            let i: usize = (y as usize) * (self.width as usize) + (x as usize);
            Some(&mut self.cells[i])
        } else {
            None
        }
    }

    /// Writes `state` to the cell at `(x, y)`. A coordinate outside the board
    /// is ignored: the board is left as it was.
    pub fn set_cell(&mut self, x: u32, y: u32, state: CellState)
        ensures
            final(self)@ == old(self)@.set(x as int, y as int, state),
        no_unwind
    {
        match self.get_cell_mut(x, y) {
            Some(cell) => {
                *cell = state;
            },
            None => {},
        }
    }

    /// The state of the cell at `(x, y)` as a number, where any coordinate
    /// that is negative or otherwise off the board counts as dead.
    fn population_at(&self, x: i64, y: i64) -> (n: u8)
        ensures
            n == self@.cell(x as int, y as int).population(),
        no_unwind
    {
        if x < 0 || y < 0 || x > u32::MAX as i64 || y > u32::MAX as i64 {
            0
        } else {
            match self.get_cell(x as u32, y as u32) {
                Some(state) => state.as_u8(),
                None => 0,
            }
        }
    }

    /// How many of the eight cells around `(x, y)` are alive. Neighbours that
    /// would lie outside the board count as dead, so a cell on the border has
    /// fewer than eight neighbours that can contribute.
    pub fn count_alive_neighbors(&self, x: u32, y: u32) -> (count: u8)
        ensures
            count == self@.alive_neighbors(x as int, y as int),
            count <= 8,
        no_unwind
    {
        let cx: i64 = x as i64;
        let cy: i64 = y as i64;
        let mut count: u8 = 0;
        count = count + self.population_at(cx - 1, cy - 1);
        count = count + self.population_at(cx, cy - 1);
        count = count + self.population_at(cx + 1, cy - 1);
        count = count + self.population_at(cx - 1, cy);
        count = count + self.population_at(cx + 1, cy);
        count = count + self.population_at(cx - 1, cy + 1);
        count = count + self.population_at(cx, cy + 1);
        count = count + self.population_at(cx + 1, cy + 1);
        count
    }

    /// Computes the next generation of this board into `future_board`, which
    /// must have the same dimensions. Every cell of `future_board` is
    /// overwritten, each decided from this board alone; this board is not
    /// changed.
    pub fn update(&self, future_board: &mut Board)
        requires
            old(future_board)@.width == self@.width,
            old(future_board)@.height == self@.height,
        ensures
            final(future_board)@ == self@.step(),
        no_unwind
    {
        proof {
            use_type_invariant(self);
            use_type_invariant(&*future_board);
        }
        let len: usize = self.cells.len();
        let mut i: usize = 0;
        while i < len
            invariant
                i <= len,
                len == self.cells@.len(),
                len == self.width * self.height,
                future_board.cells@.len() == len,
                future_board.width == self.width,
                future_board.height == self.height,
                forall|j: int|
                    0 <= j < i ==> future_board.cells@[j] == self@.next_cell(
                        j % (self.width as int),
                        j / (self.width as int),
                    ),
            decreases len - i,
        {
            proof {
                lemma_position_of_index(self.width as int, self.height as int, i as int);
            }
            let x: u32 = (i % (self.width as usize)) as u32;
            let y: u32 = (i / (self.width as usize)) as u32;
            let alive_neighbors = self.count_alive_neighbors(x, y);
            let next = self.cells[i].next(alive_neighbors);
            future_board.cells[i] = next;
            i = i + 1;
        }
        assert(future_board.cells@ =~= self@.step().cells);
    }

    /// Fills the board with a fixed pattern: every third cell in row-major
    /// order, starting with the first, is alive and all others are dead.
    pub fn randomize(&mut self)
        ensures
            final(self)@ == old(self)@.seeded(),
        no_unwind
    {
        proof {
            use_type_invariant(&*self);
        }
        let len: usize = self.cells.len();
        let mut i: usize = 0;
        while i < len
            invariant
                i <= len,
                self.cells@.len() == len,
                self.width == old(self).width,
                self.height == old(self).height,
                len == self.width * self.height,
                forall|j: int|
                    0 <= j < i ==> self.cells@[j] == (if j % 3 == 0 {
                        CellState::Alive
                    } else {
                        CellState::Dead
                    }),
            decreases len - i,
        {
            if i % 3 == 0 {
                self.cells[i] = CellState::Alive;
            } else {
                self.cells[i] = CellState::Dead;
            }
            i = i + 1;
        }
        assert(self.cells@ =~= old(self)@.seeded().cells);
    }
}

} // verus!
