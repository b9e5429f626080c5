//! Cells: a fixed spatial position plus a two-valued life state.

use vstd::prelude::*;

use crate::random::seed_bits;
use crate::random::RandomSource;

verus! {

/// The two states a cell can be in.
#[derive(Copy, Clone, Debug, PartialEq, Eq, Structural)]
pub enum CellState {
    ALIVE,
    DEAD,
}

/// One cell of the grid: an immutable integer position and a mutable state.
///
/// The position is redundant with the cell's index in the grid (the grid
/// invariant ties them together) but is kept so that a render snapshot can
/// hand out `(position, state)` pairs directly.
#[derive(Copy, Clone, Debug, PartialEq, Eq, Structural)]
pub struct Cell {
    pub x: usize,
    pub y: usize,
    pub state: CellState,
}

/// The cell state a single random draw stands for.
pub open spec fn state_of_flip(b: bool) -> CellState {
    if b {
        CellState::ALIVE
    } else {
        CellState::DEAD
    }
}

impl Cell {
    /// A cell at `(x, y)` whose state is decided by one fair coin flip:
    /// ALIVE on a true draw, DEAD otherwise.
    pub fn random(x: usize, y: usize, rng: &mut RandomSource) -> (c: Cell)
        ensures
            c.x == x,
            c.y == y,
            c.state == state_of_flip(
                seed_bits(old(rng).spec_seed())[old(rng).spec_drawn() as int],
            ),
            final(rng).spec_seed() == old(rng).spec_seed(),
            final(rng).spec_drawn() == old(rng).spec_drawn() + 1,
    {
        let state = if rng.flip() {
            CellState::ALIVE
        } else {
            CellState::DEAD
        };
        Cell { x, y, state }
    }
}

} // verus!
