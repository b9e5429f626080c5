//! The grid: a fixed-size collection of cells at fixed positions.
//!
//! Cells are kept in row-major order (x varies fastest); the cell whose
//! position is `(x, y)` sits at index `x + y * width`. The well-formedness
//! predicate `wf` ties every cell's stored position to its index, and every
//! operation preserves it.

use vstd::arithmetic::div_mod::lemma_fundamental_div_mod_converse;
use vstd::pervasive::VecAdditionalExecFns;
use vstd::prelude::*;

use crate::cell::{state_of_flip, Cell, CellState};
use crate::random::{seed_bits, RandomSource};

verus! {

/// Why a grid operation could not be carried out.
#[derive(Copy, Clone, Debug, PartialEq, Eq, Structural)]
pub enum GridError {
    /// A cell index at or beyond `width * height`.
    OutOfRange,
    /// A zero width or height at construction.
    InvalidDimensions,
}

/// A bounded rectangular grid of cells in row-major order.
pub struct Grid {
    pub width: usize,
    pub height: usize,
    pub cells: Vec<Cell>,
}

impl Grid {
    /// Well-formedness: positive dimensions, exactly `width * height` cells,
    /// and each cell's stored position agrees with its index.
    pub open spec fn wf(self) -> bool {
        &&& 0 < self.width
        &&& 0 < self.height
        &&& self.cells@.len() == self.width * self.height
        &&& forall|i: int|
            0 <= i < self.cells@.len() ==> (#[trigger] self.cells@[i]).x == i % (
            self.width as int) && self.cells@[i].y == i / (self.width as int)
    }

    /// The index addressing the cell at `(x, y)`.
    pub open spec fn spec_index_of(self, x: int, y: int) -> int {
        x + y * self.width
    }

    /// The x coordinate of the cell at index `i`.
    pub open spec fn spec_x_of(self, i: int) -> int {
        i % (self.width as int)
    }

    /// The y coordinate of the cell at index `i`.
    pub open spec fn spec_y_of(self, i: int) -> int {
        i / (self.width as int)
    }

    /// Whether `(x, y)` lies strictly within the grid.
    pub open spec fn spec_in_bounds(self, x: int, y: int) -> bool {
        0 <= x < self.width && 0 <= y < self.height
    }
}

/// Row-major addressing keeps every valid coordinate pair inside the cell
/// range of a `w`-by-`h` grid.
pub proof fn lemma_index_in_range(w: int, h: int, x: int, y: int)
    by (nonlinear_arith)
    requires
        0 < w,
        0 < h,
        0 <= x < w,
        0 <= y < h,
    ensures
        0 <= x + y * w < w * h,
{
}

/// Splitting an index below `w * h` by division and remainder lands on a
/// valid coordinate pair that reassembles to the same index.
pub proof fn lemma_div_mod_in_range(w: int, h: int, i: int)
    by (nonlinear_arith)
    requires
        0 < w,
        0 < h,
        0 <= i < w * h,
    ensures
        0 <= i % w < w,
        0 <= i / w < h,
        (i % w) + (i / w) * w == i,
{
}

/// Bijection, one direction: mapping a valid coordinate pair to its index
/// and back recovers the pair.
pub proof fn lemma_position_of_index_of(g: Grid, x: int, y: int)
    requires
        g.wf(),
        g.spec_in_bounds(x, y),
    ensures
        0 <= g.spec_index_of(x, y) < g.cells@.len(),
        g.spec_x_of(g.spec_index_of(x, y)) == x,
        g.spec_y_of(g.spec_index_of(x, y)) == y,
{
    lemma_index_in_range(g.width as int, g.height as int, x, y);
    lemma_fundamental_div_mod_converse(x + y * (g.width as int), g.width as int, y, x);
}

/// Bijection, the other direction: mapping a valid index to its coordinate
/// pair and back recovers the index.
pub proof fn lemma_index_of_position_of(g: Grid, i: int)
    requires
        g.wf(),
        0 <= i < g.cells@.len(),
    ensures
        g.spec_in_bounds(g.spec_x_of(i), g.spec_y_of(i)),
        g.spec_index_of(g.spec_x_of(i), g.spec_y_of(i)) == i,
{
    lemma_div_mod_in_range(g.width as int, g.height as int, i);
}

/// `g1` is `g0` with exactly the cell at index `i` set to state `s`: every
/// other cell, every position and the dimensions are untouched.
pub open spec fn sets_one_cell(g0: Grid, g1: Grid, i: int, s: CellState) -> bool {
    &&& g1.width == g0.width
    &&& g1.height == g0.height
    &&& g1.cells@.len() == g0.cells@.len()
    &&& 0 <= i < g0.cells@.len()
    &&& g1.cells@[i].x == g0.cells@[i].x
    &&& g1.cells@[i].y == g0.cells@[i].y
    &&& g1.cells@[i].state == s
    &&& forall|j: int|
        0 <= j < g0.cells@.len() && j != i ==> g1.cells@[j] == g0.cells@[j]
}

/// `g` holds `width * height` cells in row-major order whose states follow
/// the draw stream of `seed` starting at draw number `start`.
pub open spec fn is_random_grid(g: Grid, width: usize, height: usize, seed: u64, start: nat) -> bool {
    &&& g.wf()
    &&& g.width == width
    &&& g.height == height
    &&& forall|i: int|
        0 <= i < g.cells@.len() ==> (#[trigger] g.cells@[i]).state == state_of_flip(
            seed_bits(seed)[start + i],
        )
}

impl Grid {
    /// The index of the cell at `(x, y)`. Out-of-range coordinates are a
    /// caller error, so they are excluded rather than wrapped or clamped.
    pub fn index_of(&self, x: usize, y: usize) -> (i: usize)
        requires
            self.wf(),
            x < self.width,
            y < self.height,
        ensures
            i == self.spec_index_of(x as int, y as int),
            i < self.cells@.len(),
    {
        proof {
            lemma_index_in_range(self.width as int, self.height as int, x as int, y as int);
            // The cell count is a vector length, so the index fits in usize.
            vstd::std_specs::vec::axiom_spec_len(&self.cells);
        }
        x + y * self.width
    }

    /// The coordinate pair of the cell at `index`; inverse of `index_of`.
    pub fn position_of(&self, index: usize) -> (p: (usize, usize))
        requires
            self.wf(),
            index < self.cells@.len(),
        ensures
            p.0 == self.spec_x_of(index as int),
            p.1 == self.spec_y_of(index as int),
            self.spec_in_bounds(p.0 as int, p.1 as int),
    {
        proof {
            lemma_div_mod_in_range(self.width as int, self.height as int, index as int);
        }
        (index % self.width, index / self.width)
    }

    /// The state of the cell at `index`, or `OutOfRange` for an index at or
    /// beyond `width * height`.
    pub fn get(&self, index: usize) -> (r: Result<CellState, GridError>)
        requires
            self.wf(),
        ensures
            index < self.cells@.len() ==> r == Ok::<CellState, GridError>(
                self.cells@[index as int].state,
            ),
            index >= self.cells@.len() ==> r == Err::<CellState, GridError>(GridError::OutOfRange),
    {
        if index < self.cells.len() {
            Ok(self.cells[index].state)
        } else {
            Err(GridError::OutOfRange)
        }
    }

    /// Sets the state of the cell at `index`, leaving its position and every
    /// other cell untouched; `OutOfRange` for an invalid index.
    pub fn set(&mut self, index: usize, state: CellState) -> (r: Result<(), GridError>)
        requires
            old(self).wf(),
        ensures
            final(self).wf(),
            index < old(self).cells@.len() ==> r == Ok::<(), GridError>(()) && sets_one_cell(
                *old(self),
                *final(self),
                index as int,
                state,
            ),
            index >= old(self).cells@.len() ==> r == Err::<(), GridError>(GridError::OutOfRange)
                && *final(self) == *old(self),
    {
        if index < self.cells.len() {
            let c = self.cells[index];
            self.cells.set(index, Cell { x: c.x, y: c.y, state });
            Ok(())
        } else {
            Err(GridError::OutOfRange)
        }
    }

    /// Sets the cell under `(x, y)` ALIVE. Coordinates outside the grid are
    /// silently ignored, so a pointer outside the grid is a no-op.
    pub fn paint(&mut self, x: usize, y: usize)
        requires
            old(self).wf(),
        ensures
            final(self).wf(),
            old(self).spec_in_bounds(x as int, y as int) ==> sets_one_cell(
                *old(self),
                *final(self),
                old(self).spec_index_of(x as int, y as int),
                CellState::ALIVE,
            ),
            !old(self).spec_in_bounds(x as int, y as int) ==> *final(self) == *old(self),
    {
        if x < self.width && y < self.height {
            let i = self.index_of(x, y);
            let _ = self.set(i, CellState::ALIVE);
        }
    }

    /// Sets the cell under `(x, y)` DEAD, with the same addressing and
    /// bounds policy as `paint`.
    pub fn erase(&mut self, x: usize, y: usize)
        requires
            old(self).wf(),
        ensures
            final(self).wf(),
            old(self).spec_in_bounds(x as int, y as int) ==> sets_one_cell(
                *old(self),
                *final(self),
                old(self).spec_index_of(x as int, y as int),
                CellState::DEAD,
            ),
            !old(self).spec_in_bounds(x as int, y as int) ==> *final(self) == *old(self),
    {
        if x < self.width && y < self.height {
            let i = self.index_of(x, y);
            let _ = self.set(i, CellState::DEAD);
        }
    }

    /// Builds a `width`-by-`height` grid whose cells are drawn from `rng` in
    /// row-major order, each independently ALIVE on a true coin flip.
    /// Zero dimensions are rejected with `InvalidDimensions`.
    pub fn create_random(width: usize, height: usize, rng: &mut RandomSource) -> (r: Result<
        Grid,
        GridError,
    >)
        requires
            width * height <= usize::MAX,
        ensures
            (width == 0 || height == 0) ==> r == Err::<Grid, GridError>(GridError::InvalidDimensions)
                && *final(rng) == *old(rng),
            (0 < width && 0 < height) ==> r is Ok && is_random_grid(
                r->Ok_0,
                width,
                height,
                old(rng).spec_seed(),
                old(rng).spec_drawn(),
            ) && final(rng).spec_seed() == old(rng).spec_seed() && final(rng).spec_drawn() == old(
                rng,
            ).spec_drawn() + width * height,
    {
        if width == 0 || height == 0 {
            return Err(GridError::InvalidDimensions);
        }
        let n = width * height;
        let ghost seed = rng.spec_seed();
        let ghost start = rng.spec_drawn();
        let mut cells: Vec<Cell> = Vec::new();
        for i in 0..n
            invariant
                n == width * height,
                0 < width,
                0 < height,
                cells@.len() == i,
                rng.spec_seed() == seed,
                rng.spec_drawn() == start + i,
                forall|j: int|
                    0 <= j < i as int ==> (#[trigger] cells@[j]).x == j % (width as int)
                        && cells@[j].y == j / (width as int) && cells@[j].state == state_of_flip(
                        seed_bits(seed)[start + j],
                    ),
        {
            proof {
                lemma_div_mod_in_range(width as int, height as int, i as int);
            }
            let x = i % width;
            let y = i / width;
            let c = Cell::random(x, y, rng);
            cells.push(c);
        }
        Ok(Grid { width, height, cells })
    }
}

/// Reproducibility of the randomized initial state: two grids drawn with the
/// same dimensions from the same seed at the same stream position are equal.
pub proof fn lemma_random_grid_reproducible(
    g1: Grid,
    g2: Grid,
    width: usize,
    height: usize,
    seed: u64,
    start: nat,
)
    requires
        is_random_grid(g1, width, height, seed, start),
        is_random_grid(g2, width, height, seed, start),
    ensures
        g1.width == g2.width,
        g1.height == g2.height,
        g1.cells@ =~= g2.cells@,
{
    assert forall|i: int| 0 <= i < g1.cells@.len() implies g1.cells@[i] == g2.cells@[i] by {
        assert(g1.cells@[i].state == g2.cells@[i].state);
        assert(g1.cells@[i].x == g2.cells@[i].x);
        assert(g1.cells@[i].y == g2.cells@[i].y);
    }
}

} // verus!
