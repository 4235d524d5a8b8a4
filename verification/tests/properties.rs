use game_of_life::game::world_parts::Cell::{Alive, Dead};
use game_of_life::game::world_parts::Cell;
use game_of_life::game::{GridError, World};

fn world(cells: Vec<Cell>, width: u32, height: u32) -> World {
    World::from_layout(cells, width, height).unwrap()
}

#[test]
fn determinism_two_runs_agree() {
    let layout = vec![
        Alive, Dead, Dead, //
        Dead, Alive, Dead, //
        Alive, Dead, Dead,
    ];
    let mut first = world(layout.clone(), 3, 3);
    let mut second = world(layout, 3, 3);
    first.evolve();
    second.evolve();
    assert_eq!(first.grid, second.grid);
    first.evolve();
    second.evolve();
    assert_eq!(first.grid, second.grid);
}

#[test]
fn count_bound_holds_everywhere() {
    let full = world(vec![Alive; 9], 3, 3);
    for row in 0..3 {
        for col in 0..3 {
            let n = full.get_num_alive_neighbours(row, col);
            assert_eq!(n, 8);
        }
    }
    // on a 1x1 torus every offset wraps back onto the cell itself
    let single = world(vec![Alive], 1, 1);
    let n = single.get_num_alive_neighbours(0, 0);
    assert_eq!(n, 8);
    let single = world(vec![Dead], 1, 1);
    assert_eq!(single.get_num_alive_neighbours(0, 0), 0);
}

#[test]
fn wraparound_corner_counts() {
    let grid = world(
        vec![
            Alive, Dead, Dead, //
            Dead, Dead, Dead, //
            Dead, Dead, Dead,
        ],
        3,
        3,
    );
    // the opposite corner sees the alive cell only through the wrap
    assert_eq!(grid.get_num_alive_neighbours(2, 2), 1);
    // on a 3x3 torus the center is adjacent to every other cell
    assert_eq!(grid.get_num_alive_neighbours(1, 1), 1);

    // on a wider torus the center is not adjacent to the corner, wrap or not
    let mut cells = vec![Dead; 25];
    cells[0] = Alive;
    let wide = world(cells, 5, 5);
    assert_eq!(wide.get_num_alive_neighbours(2, 2), 0);
    assert_eq!(wide.get_num_alive_neighbours(4, 4), 1);
}

#[test]
fn rule_fidelity_center_survives() {
    let mut grid = world(
        vec![
            Alive, Dead, Dead, //
            Dead, Alive, Dead, //
            Alive, Dead, Dead,
        ],
        3,
        3,
    );
    assert_eq!(grid.get_num_alive_neighbours(1, 1), 2);
    grid.evolve();
    assert_eq!(grid.at(1, 1), Ok(Alive));
}

#[test]
fn glider_preserves_population() {
    let mut grid = world(
        vec![
            Dead, Alive, Dead, Dead, Dead, //
            Dead, Dead, Alive, Dead, Dead, //
            Alive, Alive, Alive, Dead, Dead, //
            Dead, Dead, Dead, Dead, Dead, //
            Dead, Dead, Dead, Dead, Dead,
        ],
        5,
        5,
    );
    for _ in 0..4 {
        grid.evolve();
    }
    let population = grid.grid.iter().filter(|c| c.is_alive()).count();
    assert_eq!(population, 5);
}

#[test]
fn boundary_queries_fail() {
    let grid = world(vec![Dead; 6], 3, 2);
    assert_eq!(grid.at(2, 0), Err(GridError::OutOfBounds));
    assert_eq!(grid.at(0, 3), Err(GridError::OutOfBounds));
    assert_eq!(grid.at(1, 2), Ok(Dead));
}

#[test]
fn dimension_mismatch_fails() {
    let r = World::from_layout(vec![Dead; 5], 3, 2);
    assert_eq!(r.unwrap_err(), GridError::InvalidDimensions);
    let r = World::from_layout(vec![], 3, 2);
    assert_eq!(r.unwrap_err(), GridError::InvalidDimensions);
    let r = World::from_layout(vec![], 0, 0);
    assert_eq!(r.unwrap_err(), GridError::InvalidDimensions);
    let r = World::from_layout(vec![Dead; 6], 3, 2);
    assert!(r.is_ok());
}

#[test]
fn block_still_life_is_unchanged() {
    let layout = vec![
        Dead, Dead, Dead, Dead, //
        Dead, Alive, Alive, Dead, //
        Dead, Alive, Alive, Dead, //
        Dead, Dead, Dead, Dead,
    ];
    let mut grid = world(layout.clone(), 4, 4);
    grid.evolve();
    assert_eq!(grid.grid, layout);
}
