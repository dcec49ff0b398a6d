//! The state of a single cell and the rule that decides its next state.

use vstd::prelude::*;

verus! {

/// Whether a cell is populated.
#[derive(Clone, Copy, Debug, PartialEq, Eq, Structural)]
pub enum CellState {
    Dead,
    Alive,
}

/// The standard rule: a live cell survives with two or three live neighbours,
/// a dead cell comes alive with exactly three, every other cell is dead.
pub open spec fn rule(state: CellState, alive_neighbors: int) -> CellState {
    match state {
        CellState::Alive => if alive_neighbors == 2 || alive_neighbors == 3 {
            CellState::Alive
        } else {
            CellState::Dead
        },
        CellState::Dead => if alive_neighbors == 3 {
            CellState::Alive
        } else {
            CellState::Dead
        },
    }
}

impl CellState {
    /// What the cell adds to a neighbour count: 1 if alive, 0 if dead.
    pub open spec fn population(self) -> int {
        match self {
            CellState::Alive => 1,
            CellState::Dead => 0,
        }
    }

    /// True for `Alive`.
    pub fn is_alive(&self) -> (alive: bool)
        ensures
            alive == (*self == CellState::Alive),
            alive == (self.population() == 1),
        no_unwind
    {
        match self {
            CellState::Alive => true,
            CellState::Dead => false,
        }
    }

    /// The cell as a number: 1 if alive, 0 if dead.
    pub fn as_u8(&self) -> (n: u8)
        ensures
            n == self.population(),
        no_unwind
    {
        match self {
            CellState::Alive => 1,
            CellState::Dead => 0,
        }
    }

    /// The state of this cell in the next generation, given how many of its
    /// eight neighbours are alive now.
    pub fn next(&self, alive_neighbors: u8) -> (next: CellState)
        ensures
            next == rule(*self, alive_neighbors as int),
        no_unwind
    {
        match (self, alive_neighbors) {
            (CellState::Alive, 2) | (CellState::Alive, 3) => CellState::Alive,
            (CellState::Dead, 3) => CellState::Alive,
            _ => CellState::Dead,
        }
    }
}

} // verus!
