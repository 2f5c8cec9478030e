use game_of_life::api_types::{Column, Evolving, Grid, Row, Size};
use game_of_life::game_of_life_grid::GameOfLifeGrid;

fn as_matrix(grid: &GameOfLifeGrid) -> Vec<Vec<bool>> {
    let size = grid.size();
    (0..size.height)
        .map(|row| {
            (0..size.width)
                .map(|column| grid.has_cell_at(Row(row), Column(column)))
                .collect()
        })
        .collect()
}

#[test]
fn be_initialize_through_a_lambda() {
    let grid = GameOfLifeGrid::new(Size { width: 3, height: 3 }, |row, column| {
        (row + column) % 2 == 0
    });
    assert_eq!(
        as_matrix(&grid),
        vec![
            vec![true, false, true],
            vec![false, true, false],
            vec![true, false, true]
        ]
    );
}

#[test]
fn stay_dead_when_all_dead() {
    let mut grid = GameOfLifeGrid::new(Size { width: 3, height: 3 }, |_, _| false);
    grid = grid.next_generation();
    assert_eq!(
        as_matrix(&grid),
        vec![
            vec![false, false, false],
            vec![false, false, false],
            vec![false, false, false]
        ]
    );
}

#[test]
fn dies_when_underpopulated() {
    let initial_grid = vec![
        vec![false, true, false],
        vec![false, false, false],
        vec![false, false, false],
    ];

    let mut grid = GameOfLifeGrid::new(Size { width: 3, height: 3 }, |row, column| {
        initial_grid[row][column]
    });
    grid = grid.next_generation();
    assert_eq!(as_matrix(&grid)[0][1], false);
}

#[test]
fn give_birth_when_exactly_3_neighbours() {
    let initial_grid = vec![
        vec![false, true, false],
        vec![true, true, false],
        vec![false, false, false],
    ];

    let mut grid = GameOfLifeGrid::new(Size { width: 3, height: 3 }, |row, column| {
        initial_grid[row][column]
    });
    grid = grid.next_generation();
    assert_eq!(as_matrix(&grid)[0][0], true);
}

#[test]
fn stays_alive_when_2_neighbours() {
    let initial_grid = vec![
        vec![true, false, false],
        vec![false, true, false],
        vec![false, false, true],
    ];

    let mut grid = GameOfLifeGrid::new(Size { width: 3, height: 3 }, |row, column| {
        initial_grid[row][column]
    });
    grid = grid.next_generation();
    assert_eq!(as_matrix(&grid)[1][1], true);
}

#[test]
fn dies_when_overpopulated() {
    let initial_grid = vec![
        vec![true, true, false],
        vec![true, true, false],
        vec![true, false, true],
    ];

    let mut grid = GameOfLifeGrid::new(Size { width: 3, height: 3 }, |row, column| {
        initial_grid[row][column]
    });
    grid = grid.next_generation();
    assert_eq!(as_matrix(&grid)[1][0], false);
}

#[test]
fn square_are_stable() {
    let initial_grid = vec![
        vec![true, true, false],
        vec![true, true, false],
        vec![false, false, false],
    ];

    let mut grid = GameOfLifeGrid::new(Size { width: 3, height: 3 }, |row, column| {
        initial_grid[row][column]
    });
    grid = grid.next_generation();
    assert_eq!(as_matrix(&grid), initial_grid);
}

#[test]
fn flip_flops_fips() {
    let initial_grid = vec![
        vec![false, false, false],
        vec![true, true, true],
        vec![false, false, false],
    ];

    let mut grid = GameOfLifeGrid::new(Size { width: 3, height: 3 }, |row, column| {
        initial_grid[row][column]
    });
    grid = grid.next_generation();
    assert_eq!(
        as_matrix(&grid),
        vec![
            vec![false, true, false],
            vec![false, true, false],
            vec![false, true, false]
        ]
    );
}

#[test]
fn reports_dead_outside_the_grid() {
    let grid = GameOfLifeGrid::new(Size { width: 3, height: 3 }, |_, _| true);
    assert!(!grid.has_cell_at(Row(3), Column(0)));
    assert!(!grid.has_cell_at(Row(0), Column(3)));
    assert!(!grid.has_cell_at(Row(10), Column(10)));
    assert!(grid.has_cell_at(Row(2), Column(2)));
}

#[test]
fn advancing_keeps_the_size() {
    let mut grid = GameOfLifeGrid::new(Size { width: 5, height: 4 }, |row, column| {
        (row * 31 + column * 17) % 3 == 0
    });
    grid = grid.next_generation();
    assert_eq!(grid.size(), Size { width: 5, height: 4 });
    grid = grid.next_generation();
    assert_eq!(grid.size(), Size { width: 5, height: 4 });
}

#[test]
fn dies_when_all_8_neighbours_alive() {
    let mut grid = GameOfLifeGrid::new(Size { width: 3, height: 3 }, |_, _| true);
    grid = grid.next_generation();
    assert!(!grid.has_cell_at(Row(1), Column(1)));
}

#[test]
fn zero_area_grid_is_empty_and_stable() {
    let mut grid = GameOfLifeGrid::new(Size { width: 0, height: 0 }, |_, _| true);
    assert!(!grid.has_cell_at(Row(0), Column(0)));
    grid = grid.next_generation();
    assert_eq!(grid.size(), Size { width: 0, height: 0 });
}
