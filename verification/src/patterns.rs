//! Well-known patterns and what the rule does to them.

use vstd::prelude::*;
use crate::cell::CellState;
use crate::grid::{
    lemma_get_after_set, lemma_index_in_range, lemma_position_of_index, lemma_set_preserves_wf,
    lemma_step_cell, lemma_steps_preserve_wf, Grid,
};

verus! {

/// The two by two block with its upper left corner at `(bx, by)`.
pub open spec fn block_at(bx: int, by: int) -> Set<(int, int)> {
    set![(bx, by), (bx + 1, by), (bx, by + 1), (bx + 1, by + 1)]
}

/// The glider that travels down and to the right, in the phase in which its
/// cells fill the three by three box with its upper left corner at
/// `(gx, gy)` as follows:
///
/// ```text
/// . # .
/// . . #
/// # # #
/// ```
pub open spec fn glider_at(gx: int, gy: int) -> Set<(int, int)> {
    set![(gx + 1, gy), (gx + 2, gy + 1), (gx, gy + 2), (gx + 1, gy + 2), (gx + 2, gy + 2)]
}

/// The glider one generation after `glider_at(gx, gy)`.
pub open spec fn glider_second_phase(gx: int, gy: int) -> Set<(int, int)> {
    set![(gx, gy + 1), (gx + 2, gy + 1), (gx + 1, gy + 2), (gx + 2, gy + 2), (gx + 1, gy + 3)]
}

/// The glider two generations after `glider_at(gx, gy)`.
pub open spec fn glider_third_phase(gx: int, gy: int) -> Set<(int, int)> {
    set![(gx + 2, gy + 1), (gx, gy + 2), (gx + 2, gy + 2), (gx + 1, gy + 3), (gx + 2, gy + 3)]
}

/// The glider three generations after `glider_at(gx, gy)`.
pub open spec fn glider_fourth_phase(gx: int, gy: int) -> Set<(int, int)> {
    set![(gx + 1, gy + 1), (gx + 2, gy + 2), (gx + 3, gy + 2), (gx + 1, gy + 3), (gx + 2, gy + 3)]
}

/// `(x, y)` is one of the eight coordinates around `(cx, cy)`.
pub open spec fn adjacent(cx: int, cy: int, x: int, y: int) -> bool {
    cx - 1 <= x <= cx + 1 && cy - 1 <= y <= cy + 1 && !(x == cx && y == cy)
}

/// How many of the eight coordinates around `(x, y)` are in `alive`.
pub open spec fn neighbors_in(alive: Set<(int, int)>, x: int, y: int) -> int {
    (if alive.contains((x - 1, y - 1)) { 1int } else { 0 })
        + (if alive.contains((x, y - 1)) { 1int } else { 0 })
        + (if alive.contains((x + 1, y - 1)) { 1int } else { 0 })
        + (if alive.contains((x - 1, y)) { 1int } else { 0 })
        + (if alive.contains((x + 1, y)) { 1int } else { 0 })
        + (if alive.contains((x - 1, y + 1)) { 1int } else { 0 })
        + (if alive.contains((x, y + 1)) { 1int } else { 0 })
        + (if alive.contains((x + 1, y + 1)) { 1int } else { 0 })
}

impl Grid {
    /// The live cells of the board are exactly those at the coordinates in
    /// `alive`, all of which lie on the board.
    pub open spec fn shows(self, alive: Set<(int, int)>) -> bool {
        &&& self.wf()
        &&& forall|x: int, y: int|
            (#[trigger] self.cell(x, y) == CellState::Alive) <==> alive.contains((x, y))
    }
}

/// A board without a live cell shows the empty pattern.
pub proof fn lemma_dead_shows_nothing(width: nat, height: nat)
    ensures
        Grid::dead(width, height).shows(Set::empty()),
{
    let grid = Grid::dead(width, height);
    assert forall|x: int, y: int| #[trigger] grid.cell(x, y) == CellState::Dead by {
        if grid.in_bounds(x, y) {
            lemma_index_in_range(width as int, height as int, x, y);
        }
    }
}

/// Writing a cell of the board adds its coordinate to the pattern shown, or
/// takes it out.
pub proof fn lemma_set_shows(grid: Grid, alive: Set<(int, int)>, x: int, y: int, state: CellState)
    requires
        grid.shows(alive),
        grid.in_bounds(x, y),
    ensures
        grid.set(x, y, state).shows(
            if state == CellState::Alive {
                alive.insert((x, y))
            } else {
                alive.remove((x, y))
            },
        ),
{
    let after = grid.set(x, y, state);
    lemma_set_preserves_wf(grid, x, y, state);
    assert forall|qx: int, qy: int|
        (#[trigger] after.cell(qx, qy) == CellState::Alive) <==> (if state == CellState::Alive {
            alive.insert((x, y))
        } else {
            alive.remove((x, y))
        }).contains((qx, qy)) by {
        lemma_get_after_set(grid, x, y, state, qx, qy);
        assert((grid.cell(qx, qy) == CellState::Alive) <==> alive.contains((qx, qy)));
    }
}

/// What a board shows after a generation, given what it shows now: if the
/// rule, applied at every coordinate of the board to the pattern `alive`,
/// yields the pattern `born`, then the next generation shows `born`.
proof fn lemma_step_shows(grid: Grid, alive: Set<(int, int)>, born: Set<(int, int)>)
    requires
        grid.shows(alive),
        forall|x: int, y: int|
            grid.in_bounds(x, y) ==> ((#[trigger] grid.next_cell(x, y) == CellState::Alive)
                <==> born.contains((x, y))),
        forall|x: int, y: int| #[trigger] born.contains((x, y)) ==> grid.in_bounds(x, y),
    ensures
        grid.step().shows(born),
        grid.step().width == grid.width,
        grid.step().height == grid.height,
{
    lemma_steps_preserve_wf(grid, 1);
    assert forall|x: int, y: int|
        (#[trigger] grid.step().cell(x, y) == CellState::Alive) <==> born.contains((x, y)) by {
        lemma_step_cell(grid, x, y);
    }
}

/// On a board whose only live cell is at `(cx, cy)`, each of the eight
/// coordinates around it counts one live neighbour and every other
/// coordinate, the cell's own included, counts none.
pub proof fn lemma_lone_cell_neighbors(grid: Grid, cx: int, cy: int, x: int, y: int)
    requires
        grid.shows(set![(cx, cy)]),
    ensures
        grid.alive_neighbors(x, y) == if adjacent(cx, cy, x, y) {
            1int
        } else {
            0int
        },
{
}

/// A block survives a generation unchanged, wherever on the board it stands:
/// each of its cells has three live neighbours, and no dead cell has three.
pub proof fn lemma_block_survives_step(grid: Grid, bx: int, by: int)
    requires
        grid.shows(block_at(bx, by)),
    ensures
        grid.step() == grid,
{
    let block = block_at(bx, by);
    assert forall|x: int, y: int| grid.in_bounds(x, y) implies ((#[trigger] grid.next_cell(x, y)
        == CellState::Alive) <==> block.contains((x, y))) by {
        if block.contains((x, y)) {
            assert(grid.alive_neighbors(x, y) == 3);
        } else {
            assert(grid.alive_neighbors(x, y) != 3);
        }
    }
    assert forall|x: int, y: int| #[trigger] block.contains((x, y)) implies grid.in_bounds(
        x,
        y,
    ) by {
        assert(grid.cell(x, y) == CellState::Alive);
    }
    lemma_step_shows(grid, block, block);
    lemma_same_pattern_same_board(grid.step(), grid, block);
}

/// Two boards of one size that show the same pattern are the same board.
pub proof fn lemma_same_pattern_same_board(a: Grid, b: Grid, alive: Set<(int, int)>)
    requires
        a.shows(alive),
        b.shows(alive),
        a.width == b.width,
        a.height == b.height,
    ensures
        a == b,
{
    assert forall|i: int| 0 <= i < a.cells.len() implies a.cells[i] == b.cells[i] by {
        lemma_position_of_index(a.width as int, a.height as int, i);
        let x = i % (a.width as int);
        let y = i / (a.width as int);
        assert(a.cell(x, y) == a.cells[i]);
        assert(b.cell(x, y) == b.cells[i]);
        assert((a.cell(x, y) == CellState::Alive) == (b.cell(x, y) == CellState::Alive));
    }
    assert(a.cells =~= b.cells);
}

/// Still life: a board that holds a block and nothing else is the same after
/// any number of generations. This holds on every board that has a block on
/// it, whatever its size, so in particular on every board of at least four
/// by four cells.
pub proof fn lemma_block_is_still_life(grid: Grid, bx: int, by: int, n: nat)
    requires
        grid.shows(block_at(bx, by)),
    ensures
        grid.steps(n) == grid,
    decreases n,
{
    if n > 0 {
        lemma_block_survives_step(grid, bx, by);
        lemma_block_is_still_life(grid, bx, by, (n - 1) as nat);
    }
}

/// On a board that shows `alive`, the cell at `(x, y)` is alive in the next
/// generation exactly if the rule says so of the pattern.
proof fn lemma_rule_on_pattern(grid: Grid, alive: Set<(int, int)>, x: int, y: int)
    requires
        grid.shows(alive),
    ensures
        grid.alive_neighbors(x, y) == neighbors_in(alive, x, y),
        (grid.next_cell(x, y) == CellState::Alive) <==> (neighbors_in(alive, x, y) == 3 || (
            alive.contains((x, y)) && neighbors_in(alive, x, y) == 2)),
{
    assert((grid.cell(x, y) == CellState::Alive) <==> alive.contains((x, y)));
}

/// The first of the four generations of a glider.
proof fn lemma_glider_first_step(grid: Grid, gx: int, gy: int)
    requires
        grid.shows(glider_at(gx, gy)),
        0 <= gx,
        gx + 3 < grid.width,
        0 <= gy,
        gy + 3 < grid.height,
    ensures
        grid.step().shows(glider_second_phase(gx, gy)),
        grid.step().width == grid.width,
        grid.step().height == grid.height,
{
    let from = glider_at(gx, gy);
    let to = glider_second_phase(gx, gy);
    assert forall|x: int, y: int| grid.in_bounds(x, y) implies ((#[trigger] grid.next_cell(x, y)
        == CellState::Alive) <==> to.contains((x, y))) by {
        lemma_rule_on_pattern(grid, from, x, y);
    }
    lemma_step_shows(grid, from, to);
}

/// The second of the four generations of a glider.
proof fn lemma_glider_second_step(grid: Grid, gx: int, gy: int)
    requires
        grid.shows(glider_second_phase(gx, gy)),
        0 <= gx,
        gx + 3 < grid.width,
        0 <= gy,
        gy + 3 < grid.height,
    ensures
        grid.step().shows(glider_third_phase(gx, gy)),
        grid.step().width == grid.width,
        grid.step().height == grid.height,
{
    let from = glider_second_phase(gx, gy);
    let to = glider_third_phase(gx, gy);
    assert forall|x: int, y: int| grid.in_bounds(x, y) implies ((#[trigger] grid.next_cell(x, y)
        == CellState::Alive) <==> to.contains((x, y))) by {
        lemma_rule_on_pattern(grid, from, x, y);
    }
    lemma_step_shows(grid, from, to);
}

/// The third of the four generations of a glider.
proof fn lemma_glider_third_step(grid: Grid, gx: int, gy: int)
    requires
        grid.shows(glider_third_phase(gx, gy)),
        0 <= gx,
        gx + 3 < grid.width,
        0 <= gy,
        gy + 3 < grid.height,
    ensures
        grid.step().shows(glider_fourth_phase(gx, gy)),
        grid.step().width == grid.width,
        grid.step().height == grid.height,
{
    let from = glider_third_phase(gx, gy);
    let to = glider_fourth_phase(gx, gy);
    assert forall|x: int, y: int| grid.in_bounds(x, y) implies ((#[trigger] grid.next_cell(x, y)
        == CellState::Alive) <==> to.contains((x, y))) by {
        lemma_rule_on_pattern(grid, from, x, y);
    }
    lemma_step_shows(grid, from, to);
}

/// The last of the four generations of a glider.
proof fn lemma_glider_fourth_step(grid: Grid, gx: int, gy: int)
    requires
        grid.shows(glider_fourth_phase(gx, gy)),
        0 <= gx,
        gx + 3 < grid.width,
        0 <= gy,
        gy + 3 < grid.height,
    ensures
        grid.step().shows(glider_at(gx + 1, gy + 1)),
        grid.step().width == grid.width,
        grid.step().height == grid.height,
{
    let from = glider_fourth_phase(gx, gy);
    let to = glider_at(gx + 1, gy + 1);
    assert forall|x: int, y: int| grid.in_bounds(x, y) implies ((#[trigger] grid.next_cell(x, y)
        == CellState::Alive) <==> to.contains((x, y))) by {
        lemma_rule_on_pattern(grid, from, x, y);
    }
    lemma_step_shows(grid, from, to);
}

/// A glider with a free column to its right and a free row below it is, four
/// generations later, the same glider one cell further right and one cell
/// further down.
pub proof fn lemma_glider_travels(grid: Grid, gx: int, gy: int)
    requires
        grid.shows(glider_at(gx, gy)),
        0 <= gx,
        gx + 3 < grid.width,
        0 <= gy,
        gy + 3 < grid.height,
    ensures
        grid.steps(4).shows(glider_at(gx + 1, gy + 1)),
        grid.steps(4).width == grid.width,
        grid.steps(4).height == grid.height,
{
    let second = grid.step();
    let third = second.step();
    let fourth = third.step();
    assert(grid.steps(4) == fourth.step()) by {
        reveal_with_fuel(Grid::steps, 5);
    }
    lemma_glider_first_step(grid, gx, gy);
    lemma_glider_second_step(second, gx, gy);
    lemma_glider_third_step(third, gx, gy);
    lemma_glider_fourth_step(fourth, gx, gy);
}

} // verus!
