//! The rule engine and the step scheduler.
//!
//! `next_state` computes one cell's next state from its live-neighbor count
//! against an immutable snapshot of the grid; neighbors beyond the grid's
//! edge are simply not counted. `step` commits one synchronous tick: every
//! cell's next state is computed against the same snapshot and assembled
//! into a fresh grid. The per-cell computations are independent, so the
//! scheduler may also fan them out across worker threads (`step_parallel`);
//! both paths are pinned to the same mathematical step function.

use rayon::iter::IndexedParallelIterator;
use rayon::iter::IntoParallelRefIterator;
use rayon::iter::ParallelIterator;
use vstd::prelude::*;

use crate::cell::{Cell, CellState};
use crate::grid::{lemma_div_mod_in_range, lemma_index_in_range, Grid};

verus! {

/// The transition policy of the automaton, uniform for every cell:
/// a live cell survives exactly on 2 or 3 live neighbors, a dead cell
/// comes alive exactly on 3.
pub open spec fn spec_rule(s: CellState, live: nat) -> CellState {
    match s {
        CellState::ALIVE => if live < 2 || live > 3 {
            CellState::DEAD
        } else {
            CellState::ALIVE
        },
        CellState::DEAD => if live == 3 {
            CellState::ALIVE
        } else {
            CellState::DEAD
        },
    }
}

/// 1 when `(x, y)` lies within the grid and holds a live cell, else 0.
/// Off-grid coordinates contribute nothing: the grid is bounded, not
/// toroidal.
pub open spec fn spec_alive_at(g: Grid, x: int, y: int) -> nat {
    if g.spec_in_bounds(x, y) && g.cells@[g.spec_index_of(x, y)].state == CellState::ALIVE {
        1
    } else {
        0
    }
}

/// The number of live cells among the up to 8 in-bounds neighbors of
/// `(x, y)`, evaluated against the snapshot `g`.
pub open spec fn spec_live_count(g: Grid, x: int, y: int) -> nat {
    spec_alive_at(g, x - 1, y - 1) + spec_alive_at(g, x, y - 1) + spec_alive_at(g, x + 1, y - 1)
        + spec_alive_at(g, x - 1, y) + spec_alive_at(g, x + 1, y) + spec_alive_at(g, x - 1, y + 1)
        + spec_alive_at(g, x, y + 1) + spec_alive_at(g, x + 1, y + 1)
}

/// The next state of the cell at index `i`: the transition policy applied
/// to its snapshot state and its snapshot live-neighbor count.
pub open spec fn spec_next_state(g: Grid, i: int) -> CellState {
    spec_rule(g.cells@[i].state, spec_live_count(g, g.spec_x_of(i), g.spec_y_of(i)))
}

/// `r` is the committed result of one tick over snapshot `g`: identical
/// dimensions, every position kept, and every cell's state replaced by its
/// next state against `g`.
pub open spec fn stepped(g: Grid, r: Grid) -> bool {
    &&& r.width == g.width
    &&& r.height == g.height
    &&& r.cells@.len() == g.cells@.len()
    &&& forall|i: int|
        0 <= i < g.cells@.len() ==> (#[trigger] r.cells@[i]).x == g.cells@[i].x && r.cells@[i].y
            == g.cells@[i].y && r.cells@[i].state == spec_next_state(g, i)
}

/// Every cell of the grid is DEAD.
pub open spec fn all_dead(g: Grid) -> bool {
    forall|i: int| 0 <= i < g.cells@.len() ==> (#[trigger] g.cells@[i]).state == CellState::DEAD
}

/// On an all-DEAD grid no coordinate contributes a live neighbor.
proof fn lemma_alive_at_zero(g: Grid, x: int, y: int)
    requires
        g.wf(),
        all_dead(g),
    ensures
        spec_alive_at(g, x, y) == 0,
{
    if g.spec_in_bounds(x, y) {
        lemma_index_in_range(g.width as int, g.height as int, x, y);
        assert(g.cells@[g.spec_index_of(x, y)].state == CellState::DEAD);
    }
}

/// No spontaneous life: one tick over an all-DEAD grid yields an all-DEAD
/// grid.
pub proof fn lemma_step_preserves_all_dead(g: Grid, r: Grid)
    requires
        g.wf(),
        all_dead(g),
        stepped(g, r),
    ensures
        all_dead(r),
{
    assert forall|i: int|
        0 <= i < r.cells@.len() implies (#[trigger] r.cells@[i]).state == CellState::DEAD by {
        let x = g.spec_x_of(i);
        let y = g.spec_y_of(i);
        lemma_alive_at_zero(g, x - 1, y - 1);
        lemma_alive_at_zero(g, x, y - 1);
        lemma_alive_at_zero(g, x + 1, y - 1);
        lemma_alive_at_zero(g, x - 1, y);
        lemma_alive_at_zero(g, x + 1, y);
        lemma_alive_at_zero(g, x - 1, y + 1);
        lemma_alive_at_zero(g, x, y + 1);
        lemma_alive_at_zero(g, x + 1, y + 1);
        assert(spec_live_count(g, x, y) == 0);
        assert(g.cells@[i].state == CellState::DEAD);
    }
}

/// Underpopulation: a live cell with zero live neighbors is DEAD after one
/// tick.
pub proof fn lemma_underpopulation(g: Grid, r: Grid, i: int)
    requires
        g.wf(),
        stepped(g, r),
        0 <= i < g.cells@.len(),
        g.cells@[i].state == CellState::ALIVE,
        spec_live_count(g, g.spec_x_of(i), g.spec_y_of(i)) == 0,
    ensures
        r.cells@[i].state == CellState::DEAD,
{
}

/// Determinism: any two committed results of one tick over the same
/// snapshot are equal, however the per-cell computations were evaluated.
pub proof fn lemma_step_deterministic(g: Grid, r1: Grid, r2: Grid)
    requires
        g.wf(),
        stepped(g, r1),
        stepped(g, r2),
    ensures
        r1.width == r2.width,
        r1.height == r2.height,
        r1.cells@ =~= r2.cells@,
{
    assert forall|i: int| 0 <= i < r1.cells@.len() implies r1.cells@[i] == r2.cells@[i] by {
        assert(r1.cells@[i].state == r2.cells@[i].state);
        assert(r1.cells@[i].x == r2.cells@[i].x);
        assert(r1.cells@[i].y == r2.cells@[i].y);
    }
}

/// Whether the in-bounds cell at `(x, y)` is alive in the snapshot.
fn cell_alive(grid: &Grid, x: usize, y: usize) -> (r: bool)
    requires
        grid.wf(),
        x < grid.width,
        y < grid.height,
    ensures
        r == (spec_alive_at(*grid, x as int, y as int) == 1),
{
    let i = grid.index_of(x, y);
    matches!(grid.cells[i].state, CellState::ALIVE)
}

/// The live-neighbor count of the cell at `(x, y)`, over the 8 neighbor
/// offsets with off-grid neighbors skipped.
fn live_count(grid: &Grid, x: usize, y: usize) -> (n: u8)
    requires
        grid.wf(),
        x < grid.width,
        y < grid.height,
    ensures
        n as nat == spec_live_count(*grid, x as int, y as int),
{
    let mut n: u8 = 0;
    if x >= 1 && y >= 1 && cell_alive(grid, x - 1, y - 1) {
        n = n + 1;
    }
    if y >= 1 && cell_alive(grid, x, y - 1) {
        n = n + 1;
    }
    if x + 1 < grid.width && y >= 1 && cell_alive(grid, x + 1, y - 1) {
        n = n + 1;
    }
    if x >= 1 && cell_alive(grid, x - 1, y) {
        n = n + 1;
    }
    if x + 1 < grid.width && cell_alive(grid, x + 1, y) {
        n = n + 1;
    }
    if x >= 1 && y + 1 < grid.height && cell_alive(grid, x - 1, y + 1) {
        n = n + 1;
    }
    if y + 1 < grid.height && cell_alive(grid, x, y + 1) {
        n = n + 1;
    }
    if x + 1 < grid.width && y + 1 < grid.height && cell_alive(grid, x + 1, y + 1) {
        n = n + 1;
    }
    n
}

/// The next state of the cell at `index`, pure in the snapshot; the index is
/// scheduler-supplied and always valid.
pub fn next_state(grid: &Grid, index: usize) -> (r: CellState)
    requires
        grid.wf(),
        index < grid.cells@.len(),
    ensures
        r == spec_next_state(*grid, index as int),
{
    let p = grid.position_of(index);
    let live = live_count(grid, p.0, p.1);
    match grid.cells[index].state {
        CellState::ALIVE => if live < 2 || live > 3 {
            CellState::DEAD
        } else {
            CellState::ALIVE
        },
        CellState::DEAD => if live == 3 {
            CellState::ALIVE
        } else {
            CellState::DEAD
        },
    }
}

/// Every cell's next state against the snapshot, in index order, computed
/// one cell at a time.
pub(crate) fn next_cells(grid: &Grid) -> (r: Vec<Cell>)
    requires
        grid.wf(),
    ensures
        r@.len() == grid.cells@.len(),
        forall|i: int|
            0 <= i < grid.cells@.len() ==> (#[trigger] r@[i]).x == grid.cells@[i].x && r@[i].y
                == grid.cells@[i].y && r@[i].state == spec_next_state(*grid, i),
{
    let n = grid.cells.len();
    let mut out: Vec<Cell> = Vec::new();
    for i in 0..n
        invariant
            grid.wf(),
            n == grid.cells@.len(),
            out@.len() == i,
            forall|j: int|
                0 <= j < i as int ==> (#[trigger] out@[j]).x == grid.cells@[j].x && out@[j].y
                    == grid.cells@[j].y && out@[j].state == spec_next_state(*grid, j),
    {
        let c = grid.cells[i];
        let s = next_state(grid, i);
        out.push(Cell { x: c.x, y: c.y, state: s });
    }
    out
}

/// Every cell's next state against the snapshot, in index order, computed in
/// parallel across worker threads. Each task reads only the shared immutable
/// snapshot and produces its own output slot, so no ordering among tasks is
/// observable in the result.
///
/// Relies on `rayon`: `par_iter().enumerate().map(f).collect::<Vec<_>>()`
/// applies `f` to each `(index, item)` pair exactly once and collects the
/// results of an indexed parallel iterator in index order. `f` itself only
/// calls the verified `next_state` and copies a cell's position.
#[verifier::external_body]
pub(crate) fn par_next_cells(grid: &Grid) -> (r: Vec<Cell>)
    requires
        grid.wf(),
    ensures
        r@.len() == grid.cells@.len(),
        forall|i: int|
            0 <= i < grid.cells@.len() ==> (#[trigger] r@[i]).x == grid.cells@[i].x && r@[i].y
                == grid.cells@[i].y && r@[i].state == spec_next_state(*grid, i),
{
    grid.cells.par_iter().enumerate().map(|(i, c): (usize, &Cell)| Cell {
        x: c.x,
        y: c.y,
        state: next_state(grid, i),
    }).collect::<Vec<Cell>>()
}

/// One synchronous tick: if paused, the grid is returned unchanged and no
/// computation is performed; otherwise a fresh grid of identical dimensions
/// is assembled whose every cell holds its next state against the input
/// snapshot.
pub fn step(grid: Grid, paused: bool) -> (r: Grid)
    requires
        grid.wf(),
    ensures
        r.wf(),
        paused ==> r == grid,
        !paused ==> stepped(grid, r),
{
    if paused {
        grid
    } else {
        let cells = next_cells(&grid);
        Grid { width: grid.width, height: grid.height, cells }
    }
}

/// `step` with the per-cell computations fanned out across worker threads.
/// The contract is the same as `step`'s: parallel evaluation is not
/// observable in the result.
pub fn step_parallel(grid: Grid, paused: bool) -> (r: Grid)
    requires
        grid.wf(),
    ensures
        r.wf(),
        paused ==> r == grid,
        !paused ==> stepped(grid, r),
{
    if paused {
        grid
    } else {
        let cells = par_next_cells(&grid);
        Grid { width: grid.width, height: grid.height, cells }
    }
}

} // verus!
