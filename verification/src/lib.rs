//! Conway's Game of Life on a bounded, non-wrapping grid.
//!
//! The crate holds the simulation engine only: the grid and its update rule,
//! the clock that paces generations, the mapping from pointer positions to
//! cells, and the controller that owns the two buffers. Windowing, drawing
//! and event delivery belong to the host program.

pub mod cell;
pub mod grid;
pub mod patterns;
pub mod board;
pub mod layout;
pub mod clock;
pub mod pointer;
pub mod game;
