use game_of_life::driver::Driver;
use game_of_life::driver::DEFAULT_INTERVAL_MS;
use game_of_life::driver::MAX_INTERVAL_MS;
use game_of_life::grid::Grid;

fn blinker_driver() -> Driver {
    let mut grid = Grid::new(10, 10).unwrap();
    grid.seed(vec![(3, 4), (4, 4), (5, 4)]).unwrap();
    Driver::new(grid)
}

#[test]
fn a_new_driver_is_idle_at_generation_zero() {
    let driver = Driver::new(Grid::new(10, 10).unwrap());
    assert_eq!(0, driver.generation());
    assert!(!driver.is_auto_advancing());
    assert_eq!(DEFAULT_INTERVAL_MS, driver.interval_ms());
    assert_eq!(0, driver.accumulated_ms());
    assert_eq!(((10, 10), 0), driver.snapshot());
}

#[test]
fn step_ticks_once_and_counts_the_generation() {
    let mut driver = blinker_driver();
    driver.step();
    assert_eq!(1, driver.generation());
    assert_eq!(true, driver.grid().at(4, 3).unwrap());
    assert_eq!(true, driver.grid().at(4, 4).unwrap());
    assert_eq!(true, driver.grid().at(4, 5).unwrap());
    assert_eq!(false, driver.grid().at(3, 4).unwrap());
    driver.step();
    assert_eq!(2, driver.generation());
    assert_eq!(true, driver.grid().at(3, 4).unwrap());
}

#[test]
fn start_and_stop_toggle_automatic_mode() {
    let mut driver = blinker_driver();
    driver.start_auto();
    assert!(driver.is_auto_advancing());
    driver.stop_auto();
    assert!(!driver.is_auto_advancing());
}

#[test]
fn set_interval_clamps_into_the_allowed_range() {
    let mut driver = blinker_driver();
    driver.set_interval_ms(250);
    assert_eq!(250, driver.interval_ms());
    driver.set_interval_ms(7000);
    assert_eq!(MAX_INTERVAL_MS, driver.interval_ms());
    driver.set_interval_ms(0);
    assert_eq!(0, driver.interval_ms());
}

#[test]
fn toggle_cell_edits_the_grid_and_pauses_the_simulation() {
    let mut driver = blinker_driver();
    driver.start_auto();
    driver.toggle_cell(0, 0);
    assert!(!driver.is_auto_advancing());
    assert_eq!(true, driver.grid().at(0, 0).unwrap());
    driver.toggle_cell(0, 0);
    assert_eq!(false, driver.grid().at(0, 0).unwrap());
}

#[test]
fn toggle_cell_out_of_bounds_still_pauses_but_changes_nothing() {
    let mut driver = blinker_driver();
    driver.start_auto();
    driver.toggle_cell(10, 0);
    assert!(!driver.is_auto_advancing());
    assert_eq!(true, driver.grid().at(3, 4).unwrap());
    assert_eq!(true, driver.grid().at(4, 4).unwrap());
    assert_eq!(true, driver.grid().at(5, 4).unwrap());
}

#[test]
fn clear_empties_the_grid_and_zeroes_the_counter() {
    let mut driver = blinker_driver();
    driver.step();
    driver.start_auto();
    driver.clear();
    assert_eq!(0, driver.generation());
    assert!(!driver.is_auto_advancing());
    let (width, height) = driver.grid().dimensions();
    assert_eq!((10, 10), (width, height));
    for x in 0..width {
        for y in 0..height {
            assert_eq!(false, driver.grid().at(x, y).unwrap());
        }
    }
}

#[test]
fn advance_accumulates_until_the_interval_is_exceeded() {
    let mut driver = blinker_driver();
    driver.start_auto();
    driver.advance(400);
    assert_eq!(0, driver.generation());
    assert_eq!(400, driver.accumulated_ms());
    driver.advance(600);
    // 1000 is not strictly greater than the 1000 ms interval: no tick yet.
    assert_eq!(0, driver.generation());
    assert_eq!(1000, driver.accumulated_ms());
    driver.advance(1);
    assert_eq!(1, driver.generation());
    assert_eq!(0, driver.accumulated_ms());
    assert_eq!(true, driver.grid().at(4, 3).unwrap());
}

#[test]
fn advance_without_automatic_mode_never_ticks() {
    let mut driver = blinker_driver();
    driver.advance(60_000);
    assert_eq!(0, driver.generation());
    assert_eq!(60_000, driver.accumulated_ms());
    assert_eq!(true, driver.grid().at(3, 4).unwrap());
}

#[test]
fn advance_saturates_instead_of_overflowing() {
    let mut driver = blinker_driver();
    driver.advance(u64::MAX);
    driver.advance(u64::MAX);
    assert_eq!(u64::MAX, driver.accumulated_ms());
    assert_eq!(0, driver.generation());
}
