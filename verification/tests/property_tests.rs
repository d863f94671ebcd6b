use game_of_life::grid::Grid;

fn live_points(grid: &Grid) -> Vec<(usize, usize)> {
    let (width, height) = grid.dimensions();
    let mut live = Vec::new();
    for x in 0..width {
        for y in 0..height {
            if grid.at(x, y).unwrap() {
                live.push((x, y));
            }
        }
    }
    live
}

#[test]
fn shape_stays_fixed_through_every_operation() {
    // A non-square grid keeps its dimensions through seed, toggle, clock, reset.
    let mut grid = Grid::new(7, 5).unwrap();
    assert_eq!((7, 5), grid.dimensions());
    grid.seed(vec![(6, 4), (0, 0)]).unwrap();
    assert_eq!((7, 5), grid.dimensions());
    grid.change_state_click(3, 2);
    assert_eq!((7, 5), grid.dimensions());
    grid.clock();
    assert_eq!((7, 5), grid.dimensions());
    grid.reset();
    assert_eq!((7, 5), grid.dimensions());
}

#[test]
fn non_square_grid_bounds_follow_each_axis() {
    let grid = Grid::new(7, 5).unwrap();
    assert!(grid.at(6, 4).is_ok());
    assert_eq!((7, 0), grid.at(7, 0).unwrap_err().point());
    assert_eq!((0, 5), grid.at(0, 5).unwrap_err().point());
}

#[test]
fn reset_twice_is_reset_once() {
    let mut grid = Grid::new(10, 10).unwrap();
    grid.seed(vec![(1, 1), (2, 2), (9, 9)]).unwrap();
    grid.reset();
    let after_once = live_points(&grid);
    grid.reset();
    let after_twice = live_points(&grid);
    assert_eq!(after_once, after_twice);
    assert!(after_twice.is_empty());
    assert_eq!((10, 10), grid.dimensions());
}

#[test]
fn toggle_twice_restores_the_prior_state() {
    let mut grid = Grid::new(10, 10).unwrap();
    grid.seed(vec![(2, 3), (5, 5)]).unwrap();
    let before = live_points(&grid);
    grid.change_state_click(5, 5);
    grid.change_state_click(5, 5);
    assert_eq!(before, live_points(&grid));
    grid.change_state_click(7, 1);
    grid.change_state_click(7, 1);
    assert_eq!(before, live_points(&grid));
}

#[test]
fn toggle_out_of_bounds_is_a_silent_no_op() {
    let mut grid = Grid::new(10, 10).unwrap();
    grid.seed(vec![(2, 3)]).unwrap();
    let before = live_points(&grid);
    grid.change_state_click(10, 0);
    grid.change_state_click(0, 10);
    grid.change_state_click(usize::MAX, usize::MAX);
    assert_eq!(before, live_points(&grid));
}

#[test]
fn seed_out_of_bounds_reports_first_point_and_leaves_grid_untouched() {
    // Out-of-bounds seed: the first offending point comes back and the grid
    // stays byte-identical to its prior state.
    let mut grid = Grid::new(10, 10).unwrap();
    let err = grid.seed(vec![(4, 4), (10, 0)]).unwrap_err();
    assert_eq!((10, 0), err.point());
    assert!(live_points(&grid).is_empty());
    assert_eq!(false, grid.at(4, 4).unwrap());
}

#[test]
fn seed_atomicity_preserves_earlier_edits() {
    let mut grid = Grid::new(10, 10).unwrap();
    grid.seed(vec![(1, 1)]).unwrap();
    let before = live_points(&grid);
    let err = grid.seed(vec![(2, 2), (3, 9), (9, 10), (0, 0)]).unwrap_err();
    assert_eq!((9, 10), err.point());
    assert_eq!(before, live_points(&grid));
}

#[test]
fn seed_duplicates_are_idempotent() {
    let mut grid = Grid::new(10, 10).unwrap();
    grid.seed(vec![(2, 2), (2, 2), (2, 2)]).unwrap();
    assert_eq!(vec![(2, 2)], live_points(&grid));
}

#[test]
fn clock_is_deterministic_on_equal_grids() {
    let points = vec![(3, 4), (4, 4), (5, 4), (4, 3)];
    let mut first = Grid::new(10, 10).unwrap();
    let mut second = Grid::new(10, 10).unwrap();
    first.seed(points.clone()).unwrap();
    second.seed(points).unwrap();
    first.clock();
    second.clock();
    assert_eq!(live_points(&first), live_points(&second));
}

#[test]
fn block_away_from_edges_is_a_still_life() {
    let mut grid = Grid::new(10, 10).unwrap();
    grid.seed(vec![(4, 4), (5, 4), (4, 5), (5, 5)]).unwrap();
    let before = live_points(&grid);
    grid.clock();
    assert_eq!(before, live_points(&grid));
    assert_eq!(vec![(4, 4), (4, 5), (5, 4), (5, 5)], live_points(&grid));
}

#[test]
fn empty_grid_is_a_fixed_point() {
    let mut grid = Grid::new(10, 10).unwrap();
    grid.clock();
    assert!(live_points(&grid).is_empty());
}

#[test]
fn corner_cell_with_its_three_neighbours_live_is_born() {
    // The corner's whole neighborhood is three cells; all alive means birth.
    let mut grid = Grid::new(10, 10).unwrap();
    grid.seed(vec![(0, 1), (1, 0), (1, 1)]).unwrap();
    grid.clock();
    assert_eq!(true, grid.at(0, 0).unwrap());
}

#[test]
fn edge_cell_with_its_five_neighbours_live_stays_dead() {
    // An edge cell has five neighbors; five is overpopulation, so no birth.
    let mut grid = Grid::new(10, 10).unwrap();
    grid.seed(vec![(0, 3), (1, 3), (1, 4), (1, 5), (0, 5)]).unwrap();
    assert_eq!(false, grid.at(0, 4).unwrap());
    grid.clock();
    assert_eq!(false, grid.at(0, 4).unwrap());
}

#[test]
fn interior_cell_with_eight_neighbours_live_dies() {
    // An interior cell has exactly eight neighbors; a live cell among eight
    // live neighbors dies of overpopulation.
    let mut grid = Grid::new(10, 10).unwrap();
    grid.seed(vec![
        (3, 3), (4, 3), (5, 3),
        (3, 4), (4, 4), (5, 4),
        (3, 5), (4, 5), (5, 5),
    ])
    .unwrap();
    grid.clock();
    assert_eq!(false, grid.at(4, 4).unwrap());
}

#[test]
fn corner_cell_with_two_neighbours_survives() {
    // A live cell at (0, 0) with only (0, 1) and (1, 0) alive survives.
    let mut grid = Grid::new(10, 10).unwrap();
    grid.seed(vec![(0, 0), (0, 1), (1, 0)]).unwrap();
    grid.clock();
    assert_eq!(true, grid.at(0, 0).unwrap());
}

#[test]
fn blinker_rotates_by_ninety_degrees() {
    let mut grid = Grid::new(10, 10).unwrap();
    grid.seed(vec![(3, 4), (4, 4), (5, 4)]).unwrap();
    grid.clock();
    assert_eq!(vec![(4, 3), (4, 4), (4, 5)], live_points(&grid));
}

#[test]
fn new_rejects_zero_width() {
    assert!(Grid::new(0, 10).is_err());
}

#[test]
fn new_rejects_zero_height() {
    assert!(Grid::new(10, 0).is_err());
}
