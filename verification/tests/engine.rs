use game_of_life::cell::{Cell, CellState};
use game_of_life::grid::{Grid, GridError};
use game_of_life::rule::{step, step_parallel};
use game_of_life::state::{Command, State};

fn grid_from(width: usize, height: usize, alive: &[(usize, usize)]) -> Grid {
    let mut cells = Vec::new();
    for y in 0..height {
        for x in 0..width {
            let state = if alive.contains(&(x, y)) {
                CellState::ALIVE
            } else {
                CellState::DEAD
            };
            cells.push(Cell { x, y, state });
        }
    }
    Grid {
        width,
        height,
        cells,
    }
}

fn alive_set(g: &Grid) -> Vec<(usize, usize)> {
    g.cells
        .iter()
        .filter(|c| c.state == CellState::ALIVE)
        .map(|c| (c.x, c.y))
        .collect()
}

#[test]
fn index_position_round_trip() {
    let g = grid_from(4, 3, &[]);
    for y in 0..3 {
        for x in 0..4 {
            let i = g.index_of(x, y);
            assert_eq!(i, x + y * 4);
            assert_eq!(g.position_of(i), (x, y));
        }
    }
    for i in 0..12 {
        let (x, y) = g.position_of(i);
        assert_eq!(g.index_of(x, y), i);
    }
}

#[test]
fn all_dead_grid_stays_all_dead() {
    let g = grid_from(3, 3, &[]);
    let r = step(g, false);
    assert!(alive_set(&r).is_empty());
}

#[test]
fn lone_cell_dies_of_underpopulation() {
    let g = grid_from(3, 3, &[(1, 1)]);
    let r = step(g, false);
    assert!(alive_set(&r).is_empty());
}

#[test]
fn three_by_three_block_in_five_by_five() {
    let before: Vec<(usize, usize)> = (0..3)
        .flat_map(|y| (0..3).map(move |x| (x, y)))
        .collect();
    let g = grid_from(5, 5, &before);
    let r = step(g, false);
    // The center (8 live neighbors) and the block's edge-centers (5 each)
    // die; the block's corners (3 each) survive; the two in-bounds cells
    // orthogonally beyond the block's edge-centers (3 each) are born.
    let mut expected = vec![(0, 0), (2, 0), (0, 2), (2, 2), (3, 1), (1, 3)];
    expected.sort();
    let mut got = alive_set(&r);
    got.sort();
    assert_eq!(got, expected);
}

#[test]
fn block_is_a_still_life() {
    let before = [(1, 1), (2, 1), (1, 2), (2, 2)];
    let g = grid_from(4, 4, &before);
    let r = step(g, false);
    let mut got = alive_set(&r);
    got.sort();
    let mut expected = before.to_vec();
    expected.sort();
    assert_eq!(got, expected);
}

#[test]
fn blinker_oscillates() {
    let g = grid_from(5, 5, &[(1, 2), (2, 2), (3, 2)]);
    let r = step(g, false);
    let mut got = alive_set(&r);
    got.sort();
    assert_eq!(got, vec![(2, 1), (2, 2), (2, 3)]);
    let back = step(r, false);
    let mut again = alive_set(&back);
    again.sort();
    assert_eq!(again, vec![(1, 2), (2, 2), (3, 2)]);
}

#[test]
fn paused_step_changes_nothing() {
    let g = grid_from(5, 5, &[(0, 0), (3, 2), (4, 4)]);
    let copy = grid_from(5, 5, &[(0, 0), (3, 2), (4, 4)]);
    let r = step(g, true);
    assert_eq!(r.width, copy.width);
    assert_eq!(r.height, copy.height);
    assert_eq!(r.cells, copy.cells);
}

#[test]
fn step_is_deterministic_and_parallel_agrees() {
    let pattern = [(0, 0), (1, 0), (1, 1), (4, 3), (5, 3), (6, 3), (2, 6)];
    let r1 = step(grid_from(8, 8, &pattern), false);
    let r2 = step(grid_from(8, 8, &pattern), false);
    let r3 = step_parallel(grid_from(8, 8, &pattern), false);
    assert_eq!(r1.cells, r2.cells);
    assert_eq!(r1.cells, r3.cells);
}

#[test]
fn parallel_blinker_matches_sequential() {
    let g = grid_from(5, 5, &[(1, 2), (2, 2), (3, 2)]);
    let r = step_parallel(g, false);
    let mut got = alive_set(&r);
    got.sort();
    assert_eq!(got, vec![(2, 1), (2, 2), (2, 3)]);
}

#[test]
fn paint_inside_sets_exactly_one_cell() {
    let mut g = grid_from(4, 4, &[]);
    g.paint(2, 1);
    for c in &g.cells {
        if (c.x, c.y) == (2, 1) {
            assert_eq!(c.state, CellState::ALIVE);
        } else {
            assert_eq!(c.state, CellState::DEAD);
        }
    }
}

#[test]
fn erase_inside_sets_exactly_one_cell() {
    let everything: Vec<(usize, usize)> = (0..4)
        .flat_map(|y| (0..4).map(move |x| (x, y)))
        .collect();
    let mut g = grid_from(4, 4, &everything);
    g.erase(0, 3);
    for c in &g.cells {
        if (c.x, c.y) == (0, 3) {
            assert_eq!(c.state, CellState::DEAD);
        } else {
            assert_eq!(c.state, CellState::ALIVE);
        }
    }
}

#[test]
fn paint_and_erase_outside_are_no_ops() {
    let mut g = grid_from(3, 3, &[(1, 1)]);
    let copy = grid_from(3, 3, &[(1, 1)]);
    g.paint(3, 0);
    g.paint(0, 3);
    g.paint(100, 100);
    g.erase(3, 1);
    g.erase(1, 7);
    assert_eq!(g.cells, copy.cells);
}

#[test]
fn get_and_set_report_out_of_range() {
    let mut g = grid_from(2, 2, &[]);
    assert_eq!(g.get(3), Ok(CellState::DEAD));
    assert_eq!(g.get(4), Err(GridError::OutOfRange));
    assert_eq!(g.get(usize::MAX), Err(GridError::OutOfRange));
    assert_eq!(g.set(4, CellState::ALIVE), Err(GridError::OutOfRange));
    assert_eq!(g.set(1, CellState::ALIVE), Ok(()));
    assert_eq!(g.get(1), Ok(CellState::ALIVE));
    assert_eq!(g.cells[1].x, 1);
    assert_eq!(g.cells[1].y, 0);
}

#[test]
fn commands_drive_the_simulation() {
    let mut s = State::new(grid_from(3, 3, &[]));
    assert!(!s.paused);
    s.apply(Command::SetAlive(1, 1));
    assert_eq!(s.grid.get(4), Ok(CellState::ALIVE));
    s.apply(Command::TogglePause);
    assert!(s.paused);
    s.update();
    // Paused: the lone cell survives the scheduled tick untouched.
    assert_eq!(s.grid.get(4), Ok(CellState::ALIVE));
    s.apply(Command::TogglePause);
    assert!(!s.paused);
    s.update();
    // Running again: the lone cell dies of underpopulation.
    assert_eq!(s.grid.get(4), Ok(CellState::DEAD));
    s.apply(Command::SetDead(5, 5));
    assert!(alive_set(&s.grid).is_empty());
}
