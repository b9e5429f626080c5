//! A verified engine for Conway's Game of Life on a bounded rectangular grid.
//!
//! The engine owns the grid data model, the neighbor-counting rule, the
//! per-tick step scheduler and the user-interaction adapter. Rendering,
//! window management and configuration-file I/O are external collaborators
//! that only exchange plain values with this crate.

pub mod cell;
pub mod config;
pub mod grid;
pub mod random;
pub mod rule;
pub mod state;

pub use cell::{Cell, CellState};
pub use config::Config;
pub use grid::{Grid, GridError};
pub use random::RandomSource;
pub use rule::{next_state, step, step_parallel};
pub use state::{Command, State};
