use life_engine::Cell;
use life_engine::CellState;
use life_engine::Universe;

fn alive_at(u: &Universe, row: usize, col: usize) -> bool {
    u.get_cell(row, col).is_alive()
}

fn assert_exact_live_cells(u: &Universe, expected: &[(usize, usize)]) {
    for row in 0..u.height() {
        for col in 0..u.width() {
            let should_live = expected.contains(&(row, col));
            assert_eq!(
                alive_at(u, row, col),
                should_live,
                "cell ({}, {}) expected {}",
                row,
                col,
                should_live
            );
        }
    }
}

#[test]
fn new_grid_is_all_dead() {
    let u = Universe::new(7, 4);
    assert_eq!(u.width(), 7);
    assert_eq!(u.height(), 4);
    assert_eq!(u.cells().len(), 28);
    assert_eq!(u.count_living_cells(), 0);
}

#[test]
fn zero_dimension_grid_is_empty_and_dead() {
    let u = Universe::new(0, 9);
    assert_eq!(u.cells().len(), 0);
    assert_eq!(u.count_living_cells(), 0);
    assert!(!alive_at(&u, 0, 0));
}

#[test]
fn out_of_bounds_get_returns_dead() {
    let mut u = Universe::new(3, 3);
    u.set_cell(1, 1, Cell::alive());
    assert!(!alive_at(&u, 3, 1));
    assert!(!alive_at(&u, 1, 3));
    assert!(!alive_at(&u, 100, 100));
}

#[test]
fn out_of_bounds_set_is_a_no_op() {
    let mut u = Universe::new(3, 3);
    u.set_cell(0, 0, Cell::alive());
    let before = u.clone();
    u.set_cell(3, 0, Cell::alive());
    u.set_cell(0, 3, Cell::alive());
    u.set_cell(77, 77, Cell::alive());
    assert!(u.is_stable(&before));
}

#[test]
fn out_of_bounds_toggle_is_a_no_op() {
    let mut u = Universe::new(3, 3);
    u.set_cell(2, 2, Cell::alive());
    let before = u.clone();
    u.toggle_cell(3, 3);
    u.toggle_cell(0, 9);
    assert!(u.is_stable(&before));
}

#[test]
fn toggle_is_its_own_inverse() {
    let mut u = Universe::new(4, 4);
    u.toggle_cell(2, 1);
    assert!(alive_at(&u, 2, 1));
    u.toggle_cell(2, 1);
    assert!(!alive_at(&u, 2, 1));

    let mut c = Cell::dead();
    c.toggle();
    assert!(c.is_alive());
    c.toggle();
    assert!(!c.is_alive());
}

#[test]
fn cell_constructors() {
    assert!(Cell::alive().is_alive());
    assert!(!Cell::dead().is_alive());
    assert!(Cell::from_bool(true).is_alive());
    assert!(!Cell::from_bool(false).is_alive());
    assert!(Cell::new(CellState::Alive).is_alive());
    assert!(!Cell::default().is_alive());
    let mut c = Cell::dead();
    c.set_alive();
    assert!(c.is_alive());
    c.set_dead();
    assert!(!c.is_alive());
    c.set_state(CellState::Alive);
    assert!(c.is_alive());
    let mut s = CellState::default();
    assert!(!s.is_alive());
    s.toggle();
    assert!(s.is_alive());
}

#[test]
fn clear_kills_all_and_cleared_grid_ticks_to_itself() {
    let mut u = Universe::new(5, 5);
    u.add_blinker(1, 1);
    let live_before = u.count_living_cells();
    assert_eq!(live_before, 3);
    u.clear();
    assert_eq!(u.count_living_cells(), 0);
    u.tick();
    assert_eq!(u.count_living_cells(), 0);
    // the counts agree only when the grid was all dead to begin with
    assert_ne!(live_before, u.count_living_cells());
}

#[test]
fn lone_cell_dies_in_one_tick() {
    let mut u = Universe::new(5, 5);
    u.set_cell(2, 2, Cell::alive());
    u.tick();
    assert_eq!(u.count_living_cells(), 0);
}

#[test]
fn pair_with_one_neighbor_each_dies_in_one_tick() {
    let mut u = Universe::new(5, 5);
    u.set_cell(2, 1, Cell::alive());
    u.set_cell(2, 2, Cell::alive());
    u.tick();
    assert_eq!(u.count_living_cells(), 0);
}

#[test]
fn block_is_a_still_life() {
    let mut u = Universe::new(5, 5);
    u.set_cells(&[(1, 1), (1, 2), (2, 1), (2, 2)]);
    let before = u.clone();
    u.tick();
    assert!(u.is_stable(&before));
}

#[test]
fn blinker_oscillates_with_period_two() {
    let mut u = Universe::new(5, 5);
    u.add_blinker(1, 1);
    assert_exact_live_cells(&u, &[(1, 1), (1, 2), (1, 3)]);
    u.tick();
    assert_exact_live_cells(&u, &[(0, 2), (1, 2), (2, 2)]);
    u.tick();
    assert_exact_live_cells(&u, &[(1, 1), (1, 2), (1, 3)]);
}

#[test]
fn corner_cell_uses_only_in_bounds_neighbors() {
    // no wraparound: the corner cell sees just three neighbors, and a
    // full 3x3 block in the corner keeps it alive
    let mut u = Universe::new(3, 3);
    u.set_cells(&[(0, 0), (0, 1), (1, 0), (1, 1)]);
    u.tick();
    // each of the four cells has exactly 3 live neighbors: still life
    assert_exact_live_cells(&u, &[(0, 0), (0, 1), (1, 0), (1, 1)]);
}

#[test]
fn no_wraparound_row_at_edge() {
    // a horizontal triple on the top row: with wraparound the pattern
    // would differ; without it, it turns into a vertical pair
    let mut u = Universe::new(3, 3);
    u.add_blinker(0, 0);
    u.tick();
    assert_exact_live_cells(&u, &[(0, 1), (1, 1)]);
}

#[test]
fn glider_translates_one_diagonal_step_every_four_ticks() {
    let mut u = Universe::new(6, 6);
    u.add_glider(0, 0);
    assert_exact_live_cells(&u, &[(0, 1), (1, 2), (2, 0), (2, 1), (2, 2)]);
    for _ in 0..4 {
        u.tick();
    }
    assert_eq!(u.count_living_cells(), 5);
    assert_exact_live_cells(&u, &[(1, 2), (2, 3), (3, 1), (3, 2), (3, 3)]);
}

#[test]
fn glider_offsets_partially_out_of_bounds_are_skipped() {
    let mut u = Universe::new(3, 3);
    u.add_glider(1, 1);
    // only the offsets that land inside the 3x3 grid are written
    assert_exact_live_cells(&u, &[(1, 2)]);
}

#[test]
fn toad_and_beacon_oscillate_with_period_two() {
    let mut toad = Universe::new(6, 6);
    toad.add_toad(1, 1);
    assert_eq!(toad.count_living_cells(), 6);
    let toad0 = toad.clone();
    toad.tick();
    assert!(!toad.is_stable(&toad0));
    toad.tick();
    assert!(toad.is_stable(&toad0));

    let mut beacon = Universe::new(6, 6);
    beacon.add_beacon(1, 1);
    assert_eq!(beacon.count_living_cells(), 8);
    let beacon0 = beacon.clone();
    beacon.tick();
    beacon.tick();
    assert!(beacon.is_stable(&beacon0));
}

#[test]
fn pulsar_has_forty_eight_cells_and_period_three() {
    let mut u = Universe::new(20, 20);
    u.add_pulsar(1, 1);
    assert_eq!(u.count_living_cells(), 48);
    let start = u.clone();
    u.tick();
    assert!(!u.is_stable(&start));
    u.tick();
    u.tick();
    assert!(u.is_stable(&start));
}

#[test]
fn set_cells_skips_out_of_bounds_positions() {
    let mut u = Universe::new(3, 3);
    u.set_cells(&[(0, 0), (1, 1), (9, 9), (2, 5)]);
    assert_exact_live_cells(&u, &[(0, 0), (1, 1)]);
}

#[test]
fn is_stable_compares_dimensions_and_cells() {
    let mut a = Universe::new(3, 3);
    let b = Universe::new(3, 3);
    assert!(a.is_stable(&b));
    a.set_cell(0, 0, Cell::alive());
    assert!(!a.is_stable(&b));
    let c = Universe::new(3, 4);
    let d = Universe::new(4, 3);
    assert!(!c.is_stable(&d));
}

#[test]
fn randomize_zero_density_small_grid_stays_empty() {
    // 6 cells: no minimum-population floor below 11 cells
    let mut u = Universe::new(2, 3);
    u.randomize(0);
    assert_eq!(u.count_living_cells(), 0);
}

#[test]
fn randomize_zero_density_applies_exact_population_floor() {
    // 400 cells: the floor is 400 / 50 = 8, within [3, 10]
    let mut u = Universe::new(20, 20);
    u.randomize(0);
    assert_eq!(u.count_living_cells(), 8);

    // 70 cells: 70 / 50 = 1 clamps up to 3
    let mut small = Universe::new(10, 7);
    small.randomize(0);
    assert_eq!(small.count_living_cells(), 3);

    // 1000 cells: 1000 / 50 = 20 clamps down to 10
    let mut large = Universe::new(40, 25);
    large.randomize(0);
    assert_eq!(large.count_living_cells(), 10);
}

#[test]
fn randomize_full_density_fills_the_grid() {
    let mut u = Universe::new(4, 4);
    u.randomize(1000);
    assert_eq!(u.count_living_cells(), 16);
}

#[test]
fn randomize_guarantees_minimum_activity() {
    let mut u = Universe::new(12, 12);
    u.randomize(500);
    assert!(u.count_living_cells() >= 3);
}

#[test]
fn resize_to_same_dimensions_is_a_strict_no_op() {
    let mut u = Universe::new(8, 6);
    u.randomize(300);
    u.add_glider(1, 1);
    let before = u.clone();
    u.resize_and_redistribute(8, 6, 700);
    assert!(u.is_stable(&before));
}

#[test]
fn resize_changes_dimensions_and_reseeds() {
    let mut u = Universe::new(4, 4);
    u.resize_and_redistribute(10, 7, 0);
    assert_eq!(u.width(), 10);
    assert_eq!(u.height(), 7);
    // at density zero only the population floor remains: 70 cells
    // give a floor of 3, and the grid is too narrow for the glider
    assert_eq!(u.count_living_cells(), 3);
}

#[test]
fn resize_places_glider_on_large_grids() {
    let mut u = Universe::new(4, 4);
    u.resize_and_redistribute(20, 20, 0);
    for (dr, dc) in [(0, 1), (1, 2), (2, 0), (2, 1), (2, 2)] {
        assert!(alive_at(&u, 5 + dr, 5 + dc), "glider cell ({}, {})", 5 + dr, 5 + dc);
    }
}

#[test]
fn resize_places_blinker_on_wide_grids() {
    let mut u = Universe::new(4, 4);
    // width over 30: the blinker lands at (width - 10, 8) when that
    // row fits the new height
    u.resize_and_redistribute(32, 40, 0);
    for (r, c) in [(22, 8), (22, 9), (22, 10)] {
        assert!(alive_at(&u, r, c), "blinker cell ({}, {})", r, c);
    }
    // and is skipped, without a fault, when the row does not fit
    let mut flat = Universe::new(4, 4);
    flat.resize_and_redistribute(40, 20, 0);
    assert!(!alive_at(&flat, 30, 8));
}
