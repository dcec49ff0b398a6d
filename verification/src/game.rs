//! The controller: two boards that take turns as the current generation, the
//! clock that paces them, and the pointer state.

use vstd::prelude::*;
use crate::board::Board;
use crate::cell::CellState;
use crate::clock::{Pace, SimulationClock};
use crate::grid::{lemma_set_preserves_wf, lemma_steps_preserve_wf, Grid};
use crate::layout::{GRID_HEIGHT, GRID_WIDTH};
use crate::pointer::{apply, cell_under, PointerButton};

verus! {

/// The controller as a mathematical value.
pub struct Simulation {
    pub board_1: Grid,
    pub board_2: Grid,
    /// Whether the primary button is held down.
    pub mouse_down: bool,
    /// The number of generations computed so far.
    pub cycle: nat,
    pub pace: Pace,
}

impl Simulation {
    /// Both boards are well formed and of one size.
    pub open spec fn wf(self) -> bool {
        &&& self.board_1.wf()
        &&& self.board_2.wf()
        &&& self.board_1.width == self.board_2.width
        &&& self.board_1.height == self.board_2.height
    }

    /// The first board is the current one: that is so after an even number
    /// of generations.
    pub open spec fn first_is_current(self) -> bool {
        self.cycle % 2 == 0
    }

    /// The board that holds the latest generation: the one that is drawn,
    /// that pointer input edits, and that the next step reads.
    pub open spec fn current(self) -> Grid {
        if self.first_is_current() {
            self.board_1
        } else {
            self.board_2
        }
    }

    /// The board that the next step writes.
    pub open spec fn next(self) -> Grid {
        if self.first_is_current() {
            self.board_2
        } else {
            self.board_1
        }
    }

    /// The controller with its current board replaced.
    pub open spec fn with_current(self, grid: Grid) -> Simulation {
        if self.first_is_current() {
            Simulation { board_1: grid, ..self }
        } else {
            Simulation { board_2: grid, ..self }
        }
    }

    /// The controller with the board that the next step writes replaced.
    pub open spec fn with_next(self, grid: Grid) -> Simulation {
        if self.first_is_current() {
            Simulation { board_2: grid, ..self }
        } else {
            Simulation { board_1: grid, ..self }
        }
    }

    /// One frame at time `now`. If a generation is due, it is computed from
    /// the current board into the other one, the two swap roles, and the
    /// clock starts a new interval at `now`. Otherwise nothing changes.
    pub open spec fn tick(self, now: nat) -> Simulation {
        if self.pace.due(now) {
            Simulation {
                cycle: self.cycle + 1,
                pace: self.pace.record(now),
                ..self.with_next(self.current().step())
            }
        } else {
            self
        }
    }

    /// The cell of the current board under the given position on screen is
    /// brought to life.
    pub open spec fn handle_pointer(
        self,
        screen_x: int,
        screen_y: int,
        cell_size: int,
    ) -> Simulation {
        let (x, y) = cell_under(screen_x, screen_y, cell_size);
        self.with_current(self.current().set(x, y, CellState::Alive))
    }

    /// A button went down at the given position. The primary button starts a
    /// stroke and paints the cell under it; other buttons do nothing.
    pub open spec fn pointer_pressed(
        self,
        button: PointerButton,
        screen_x: int,
        screen_y: int,
        cell_size: int,
    ) -> Simulation {
        if button == PointerButton::Left {
            Simulation { mouse_down: true, ..self }.handle_pointer(screen_x, screen_y, cell_size)
        } else {
            self
        }
    }

    /// A button went up. The primary button ends the stroke.
    pub open spec fn pointer_released(self, button: PointerButton) -> Simulation {
        if button == PointerButton::Left {
            Simulation { mouse_down: false, ..self }
        } else {
            self
        }
    }

    /// The pointer moved to the given position. During a stroke the cell
    /// under it is painted.
    pub open spec fn pointer_moved(
        self,
        screen_x: int,
        screen_y: int,
        cell_size: int,
    ) -> Simulation {
        if self.mouse_down {
            self.handle_pointer(screen_x, screen_y, cell_size)
        } else {
            self
        }
    }
}

/// A frame at which a generation is due swaps the roles of the two boards:
/// the board that was the write target becomes the current one and holds the
/// generation computed from the board that was current, which is itself left
/// as it was and becomes the next write target.
pub proof fn lemma_tick_swaps_buffers(sim: Simulation, now: nat)
    requires
        sim.wf(),
        sim.pace.due(now),
    ensures
        sim.tick(now).first_is_current() != sim.first_is_current(),
        sim.tick(now).current() == sim.current().step(),
        sim.tick(now).next() == sim.current(),
        sim.tick(now).cycle == sim.cycle + 1,
        sim.tick(now).pace == sim.pace.record(now),
        sim.tick(now).mouse_down == sim.mouse_down,
        sim.tick(now).wf(),
{
    lemma_steps_preserve_wf(sim.current(), 1);
}

/// The generation counter never falls: a frame adds one to it if a generation
/// is due and leaves it alone otherwise.
pub proof fn lemma_generation_counter_rises(sim: Simulation, now: nat)
    ensures
        sim.tick(now).cycle == if sim.pace.due(now) {
            sim.cycle + 1
        } else {
            sim.cycle
        },
        sim.tick(now).cycle >= sim.cycle,
{
}

/// A frame at which no generation is due changes nothing.
pub proof fn lemma_tick_waits(sim: Simulation, now: nat)
    requires
        !sim.pace.due(now),
    ensures
        sim.tick(now) == sim,
{
}

/// Pointer input edits the board that is drawn and that the next generation
/// is computed from; the other board, the clock and the generation counter
/// are left alone.
pub proof fn lemma_pointer_edits_current(
    sim: Simulation,
    screen_x: int,
    screen_y: int,
    cell_size: int,
)
    requires
        sim.wf(),
    ensures
        sim.handle_pointer(screen_x, screen_y, cell_size).current() == sim.current().set(
            cell_under(screen_x, screen_y, cell_size).0,
            cell_under(screen_x, screen_y, cell_size).1,
            CellState::Alive,
        ),
        sim.handle_pointer(screen_x, screen_y, cell_size).next() == sim.next(),
        sim.handle_pointer(screen_x, screen_y, cell_size).cycle == sim.cycle,
        sim.handle_pointer(screen_x, screen_y, cell_size).pace == sim.pace,
        sim.handle_pointer(screen_x, screen_y, cell_size).wf(),
{
    let (x, y) = cell_under(screen_x, screen_y, cell_size);
    lemma_set_preserves_wf(sim.current(), x, y, CellState::Alive);
}

/// Owns both boards and advances the simulation.
pub struct GameState {
    board_1: Board,
    board_2: Board,
    mouse_down: bool,
    cycle: u32,
    clock: SimulationClock,
}

impl View for GameState {
    type V = Simulation;

    closed spec fn view(&self) -> Simulation {
        Simulation {
            board_1: self.board_1@,
            board_2: self.board_2@,
            mouse_down: self.mouse_down,
            cycle: self.cycle as nat,
            pace: self.clock@,
        }
    }
}

impl GameState {
    #[verifier::type_invariant]
    spec fn inv(self) -> bool {
        self@.wf()
    }

    /// A controller over two dead boards of the given size, with no
    /// generation computed yet and the first interval starting at `now`.
    pub fn with_dimensions(
        width: u32,
        height: u32,
        now: u64,
        update_interval: u64,
    ) -> (state: GameState)
        requires
            width * height <= u32::MAX,
        ensures
            state@ == (Simulation {
                board_1: Grid::dead(width as nat, height as nat),
                board_2: Grid::dead(width as nat, height as nat),
                mouse_down: false,
                cycle: 0,
                pace: Pace { interval: update_interval as nat, last_step: now as nat },
            }),
            state@.wf(),
    {
        GameState {
            board_1: Board::new(width, height),
            board_2: Board::new(width, height),
            mouse_down: false,
            cycle: 0,
            clock: SimulationClock::new(update_interval, now),
        }
    }

    /// A controller over two dead boards of the standard size. Every cell is
    /// dead until pointer input brings some to life.
    pub fn new(now: u64, update_interval: u64) -> (state: GameState)
        ensures
            state@ == (Simulation {
                board_1: Grid::dead(GRID_WIDTH as nat, GRID_HEIGHT as nat),
                board_2: Grid::dead(GRID_WIDTH as nat, GRID_HEIGHT as nat),
                mouse_down: false,
                cycle: 0,
                pace: Pace { interval: update_interval as nat, last_step: now as nat },
            }),
            state@.wf(),
    {
        GameState::with_dimensions(GRID_WIDTH, GRID_HEIGHT, now, update_interval)
    }

    /// Fills the first board with the fixed seed pattern.
    pub fn randomize(&mut self)
        ensures
            final(self)@ == (Simulation { board_1: old(self)@.board_1.seeded(), ..old(self)@ }),
            final(self)@.wf(),
    {
        proof {
            use_type_invariant(&*self);
        }
        self.board_1.randomize();
    }

    /// The number of generations computed so far.
    pub fn cycle(&self) -> (cycle: u32)
        ensures
            cycle == self@.cycle,
    {
        self.cycle
    }

    /// Whether the primary button is held down.
    pub fn mouse_down(&self) -> (held: bool)
        ensures
            held == self@.mouse_down,
    {
        self.mouse_down
    }

    /// The clock that paces the generations.
    pub fn clock(&self) -> (clock: &SimulationClock)
        ensures
            clock@ == self@.pace,
    {
        &self.clock
    }

    /// The board that holds the latest generation, to be drawn.
    pub fn current_buffer(&self) -> (buffer: &Board)
        ensures
            buffer@ == self@.current(),
            self@.wf(),
    {
        proof {
            use_type_invariant(self);
        }
        if self.cycle % 2 == 0 {
            &self.board_1
        } else {
            &self.board_2
        }
    }

    /// One frame at time `now`: computes the next generation if it is due.
    /// The generation counter must have room for one more where a step is
    /// due.
    pub fn tick(&mut self, now: u64)
        requires
            old(self)@.pace.due(now as nat) ==> old(self)@.cycle < u32::MAX,
        ensures
            final(self)@ == old(self)@.tick(now as nat),
            final(self)@.wf(),
    {
        proof {
            use_type_invariant(&*self);
        }
        if self.clock.should_step(now) {
            self.clock.record_step(now);
            if self.cycle % 2 == 0 {
                self.board_1.update(&mut self.board_2);
            } else {
                self.board_2.update(&mut self.board_1);
            }
            self.cycle = self.cycle + 1;
        }
    }

    /// Brings the cell of the current board under the given position on
    /// screen to life, so that it is drawn at once and counts in the next
    /// generation. A position outside the board changes nothing.
    pub fn handle_pointer(&mut self, screen_x: u32, screen_y: u32, cell_size: u32)
        requires
            cell_size > 0,
        ensures
            final(self)@ == old(self)@.handle_pointer(
                screen_x as int,
                screen_y as int,
                cell_size as int,
            ),
            final(self)@.wf(),
        no_unwind
    {
        proof {
            use_type_invariant(&*self);
            let (x, y) = cell_under(screen_x as int, screen_y as int, cell_size as int);
            lemma_set_preserves_wf(self@.current(), x, y, CellState::Alive);
        }
        if self.cycle % 2 == 0 {
            apply(&mut self.board_1, screen_x, screen_y, cell_size);
        } else {
            apply(&mut self.board_2, screen_x, screen_y, cell_size);
        }
    }

    /// A button went down at the given position on screen.
    pub fn pointer_pressed(
        &mut self,
        button: PointerButton,
        screen_x: u32,
        screen_y: u32,
        cell_size: u32,
    )
        requires
            cell_size > 0,
        ensures
            final(self)@ == old(self)@.pointer_pressed(
                button,
                screen_x as int,
                screen_y as int,
                cell_size as int,
            ),
            final(self)@.wf(),
    {
        proof {
            use_type_invariant(&*self);
        }
        if button == PointerButton::Left {
            self.mouse_down = true;
            self.handle_pointer(screen_x, screen_y, cell_size);
        }
    }

    /// A button went up.
    pub fn pointer_released(&mut self, button: PointerButton)
        ensures
            final(self)@ == old(self)@.pointer_released(button),
            final(self)@.wf(),
    {
        proof {
            use_type_invariant(&*self);
        }
        if button == PointerButton::Left {
            self.mouse_down = false;
        }
    }

    /// The pointer moved to the given position on screen.
    pub fn pointer_moved(&mut self, screen_x: u32, screen_y: u32, cell_size: u32)
        requires
            cell_size > 0,
        ensures
            final(self)@ == old(self)@.pointer_moved(
                screen_x as int,
                screen_y as int,
                cell_size as int,
            ),
            final(self)@.wf(),
    {
        proof {
            use_type_invariant(&*self);
        }
        if self.mouse_down {
            self.handle_pointer(screen_x, screen_y, cell_size);
        }
    }
}

} // verus!
