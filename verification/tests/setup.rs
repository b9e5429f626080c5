use game_of_life::cell::CellState;
use game_of_life::config::Config;
use game_of_life::grid::{Grid, GridError};
use game_of_life::random::RandomSource;

fn seeded_grid(width: usize, height: usize, seed: u64) -> Result<Grid, GridError> {
    let mut rng = RandomSource::from_seed(seed);
    Grid::create_random(width, height, &mut rng)
}

#[test]
fn zero_dimensions_are_rejected() {
    let mut rng = RandomSource::from_seed(7);
    assert!(matches!(
        Grid::create_random(0, 5, &mut rng),
        Err(GridError::InvalidDimensions)
    ));
    assert!(matches!(
        Grid::create_random(5, 0, &mut rng),
        Err(GridError::InvalidDimensions)
    ));
    assert!(matches!(
        Grid::create_random(0, 0, &mut rng),
        Err(GridError::InvalidDimensions)
    ));
}

#[test]
fn random_grid_has_requested_shape() {
    let g = seeded_grid(6, 4, 99).unwrap();
    assert_eq!(g.width, 6);
    assert_eq!(g.height, 4);
    assert_eq!(g.cells.len(), 24);
    for (i, c) in g.cells.iter().enumerate() {
        assert_eq!(c.x, i % 6);
        assert_eq!(c.y, i / 6);
    }
}

#[test]
fn same_seed_reproduces_the_same_grid() {
    let g1 = seeded_grid(16, 16, 42).unwrap();
    let g2 = seeded_grid(16, 16, 42).unwrap();
    assert_eq!(g1.cells, g2.cells);
}

#[test]
fn random_grid_is_not_constant() {
    // A generator stuck on one answer would fill the grid with one state.
    let g = seeded_grid(32, 32, 2024).unwrap();
    let live = g
        .cells
        .iter()
        .filter(|c| c.state == CellState::ALIVE)
        .count();
    assert!(live > 0);
    assert!(live < 32 * 32);
}

#[test]
fn grid_dimensions_come_from_positive_config() {
    let good = Config {
        title: String::from("life"),
        size: (800, 800),
        resizable: false,
        fullscreen: false,
        maximized: false,
        grid_size: (40, 30),
    };
    assert_eq!(good.grid_dimensions(), Some((40, 30)));

    let bad = Config {
        title: String::from("life"),
        size: (800, 800),
        resizable: false,
        fullscreen: false,
        maximized: false,
        grid_size: (0, 30),
    };
    assert_eq!(bad.grid_dimensions(), None);

    let negative = Config {
        title: String::from("life"),
        size: (800, 800),
        resizable: false,
        fullscreen: false,
        maximized: false,
        grid_size: (12, -3),
    };
    assert_eq!(negative.grid_dimensions(), None);
}
