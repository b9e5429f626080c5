//! The simulation state: the live grid plus the pause flag, owned
//! explicitly and passed by exclusive handle rather than kept as ambient
//! globals.
//!
//! The interaction adapter is the `apply` method: it translates the
//! external command stream into direct grid mutations or a pause toggle,
//! using exactly the grid's own row-major addressing. Commands are applied
//! strictly between ticks, never during one.

use vstd::prelude::*;

use crate::cell::CellState;
use crate::grid::{sets_one_cell, Grid};
use crate::rule::{par_next_cells, stepped};

verus! {

/// A user command, delivered by the input collaborator between ticks.
#[derive(Copy, Clone, Debug, PartialEq, Eq, Structural)]
pub enum Command {
    /// Paint the cell under `(x, y)` ALIVE; outside the grid, do nothing.
    SetAlive(usize, usize),
    /// Erase the cell under `(x, y)` to DEAD; outside the grid, do nothing.
    SetDead(usize, usize),
    /// Flip the pause flag, effective from the next scheduled tick.
    TogglePause,
}

/// The simulation: the current grid and the pause flag.
pub struct State {
    pub grid: Grid,
    pub paused: bool,
}

/// What one command does to the simulation state: exactly one cell set for
/// an in-bounds paint or erase, nothing for an out-of-bounds one, and a bare
/// flag flip for a pause toggle.
pub open spec fn applied(s0: State, s1: State, cmd: Command) -> bool {
    match cmd {
        Command::SetAlive(x, y) => {
            &&& s1.paused == s0.paused
            &&& if s0.grid.spec_in_bounds(x as int, y as int) {
                sets_one_cell(
                    s0.grid,
                    s1.grid,
                    s0.grid.spec_index_of(x as int, y as int),
                    CellState::ALIVE,
                )
            } else {
                s1.grid == s0.grid
            }
        },
        Command::SetDead(x, y) => {
            &&& s1.paused == s0.paused
            &&& if s0.grid.spec_in_bounds(x as int, y as int) {
                sets_one_cell(
                    s0.grid,
                    s1.grid,
                    s0.grid.spec_index_of(x as int, y as int),
                    CellState::DEAD,
                )
            } else {
                s1.grid == s0.grid
            }
        },
        Command::TogglePause => s1.grid == s0.grid && s1.paused == !s0.paused,
    }
}

impl State {
    /// Well-formedness of the simulation: its grid is well-formed.
    pub open spec fn wf(self) -> bool {
        self.grid.wf()
    }

    /// A fresh simulation over `grid`, running (not paused).
    pub fn new(grid: Grid) -> (s: State)
        requires
            grid.wf(),
        ensures
            s.wf(),
            s.grid == grid,
            !s.paused,
    {
        State { grid, paused: false }
    }

    /// Flips the pause flag; the grid is untouched, and the flag takes
    /// effect from the next scheduled tick.
    pub fn toggle_pause(&mut self)
        ensures
            final(self).paused == !old(self).paused,
            final(self).grid == old(self).grid,
    {
        self.paused = !self.paused;
    }

    /// One scheduled tick. When paused, nothing happens. Otherwise the grid
    /// is replaced wholesale by its stepped successor: every cell's next
    /// state is computed (in parallel) against the snapshot taken at the
    /// start of the tick, and committed atomically.
    pub fn update(&mut self)
        requires
            old(self).wf(),
        ensures
            final(self).wf(),
            final(self).paused == old(self).paused,
            old(self).paused ==> final(self).grid == old(self).grid,
            !old(self).paused ==> stepped(old(self).grid, final(self).grid),
    {
        if !self.paused {
            let cells = par_next_cells(&self.grid);
            self.grid = Grid { width: self.grid.width, height: self.grid.height, cells };
        }
    }

    /// Applies one user command between ticks.
    pub fn apply(&mut self, cmd: Command)
        requires
            old(self).wf(),
        ensures
            final(self).wf(),
            applied(*old(self), *final(self), cmd),
    {
        match cmd {
            Command::SetAlive(x, y) => self.grid.paint(x, y),
            Command::SetDead(x, y) => self.grid.erase(x, y),
            Command::TogglePause => self.toggle_pause(),
        }
    }
}

} // verus!
