use conway::grid::transition;
use conway::grid::Grid;

fn snapshot(g: &Grid) -> Vec<Vec<bool>> {
    let w = g.width();
    let h = g.height();
    let mut rows: Vec<Vec<bool>> = Vec::new();
    for y in 0..h {
        let mut row: Vec<bool> = Vec::new();
        for x in 0..w {
            row.push(g.get(x, y));
        }
        rows.push(row);
    }
    rows
}

fn assert_all_dead(g: &Grid) {
    for y in 0..g.height() {
        for x in 0..g.width() {
            assert!(!g.get(x, y));
        }
    }
}

#[test]
fn new_grid_is_all_dead() {
    let g = Grid::new(70, 67);
    assert_eq!(g.width(), 70);
    assert_eq!(g.height(), 67);
    assert_all_dead(&g);
}

#[test]
fn write_cell_sets_and_resets_one_cell() {
    let mut g = Grid::new(4, 4);
    g.write_cell(2, 3, true);
    assert!(g.get(2, 3));
    for y in 0..4 {
        for x in 0..4 {
            if (x, y) != (2, 3) {
                assert!(!g.get(x, y));
            }
        }
    }
    g.write_cell(2, 3, false);
    assert_all_dead(&g);
}

#[test]
fn toroidal_wrap_corner_sees_far_corner() {
    // The neighborhood of (0, 0) reaches the opposite corner of the torus.
    let mut g = Grid::new(4, 5);
    g.write_cell(3, 4, true);
    assert_eq!(g.count_neighbors(0, 0), 1);
}

#[test]
fn toroidal_wrap_corner_sees_far_column_and_row() {
    let mut g = Grid::new(4, 5);
    g.write_cell(3, 4, true);
    g.write_cell(3, 0, true);
    g.write_cell(0, 4, true);
    assert_eq!(g.count_neighbors(0, 0), 3);
}

#[test]
fn toroidal_wrap_right_edge_sees_left_edge() {
    let mut g = Grid::new(6, 6);
    g.write_cell(0, 2, true);
    assert_eq!(g.count_neighbors(5, 2), 1);
}

#[test]
fn self_exclusion_lone_cell_has_zero_neighbors() {
    let mut g = Grid::new(5, 4);
    g.write_cell(2, 2, true);
    assert_eq!(g.count_neighbors(2, 2), 0);
}

#[test]
fn self_exclusion_at_corner() {
    let mut g = Grid::new(5, 4);
    g.write_cell(0, 0, true);
    assert_eq!(g.count_neighbors(0, 0), 0);
}

#[test]
fn count_neighbors_full_ring_is_eight() {
    let mut g = Grid::new(5, 5);
    for (x, y) in [(1, 1), (2, 1), (3, 1), (1, 2), (3, 2), (1, 3), (2, 3), (3, 3)] {
        g.write_cell(x, y, true);
    }
    assert_eq!(g.count_neighbors(2, 2), 8);
}

/// Builds a 5x5 grid whose center (2, 2) has the given state and exactly
/// `n` alive neighbors, steps it, and returns the center's next state.
fn center_after_step(alive: bool, n: usize) -> bool {
    let ring = [(1, 1), (2, 1), (3, 1), (1, 2), (3, 2), (1, 3), (2, 3), (3, 3)];
    let mut g = Grid::new(5, 5);
    g.write_cell(2, 2, alive);
    for &(x, y) in ring.iter().take(n) {
        g.write_cell(x, y, true);
    }
    assert_eq!(g.count_neighbors(2, 2), n as u8);
    g.step();
    g.get(2, 2)
}

#[test]
fn transition_rule_exhaustive_through_step() {
    for n in 0..=8 {
        let expected_alive = n == 2 || n == 3;
        let expected_dead = n == 3;
        assert_eq!(center_after_step(true, n), expected_alive, "alive cell with {} neighbors", n);
        assert_eq!(center_after_step(false, n), expected_dead, "dead cell with {} neighbors", n);
    }
}

#[test]
fn transition_rule_exhaustive_direct() {
    for n in 0..=8u8 {
        assert_eq!(transition(true, n), n == 2 || n == 3);
        assert_eq!(transition(false, n), n == 3);
    }
}

#[test]
fn clear_kills_everything_and_is_idempotent() {
    let mut g = Grid::new(6, 7);
    g.write_cell(0, 0, true);
    g.write_cell(5, 6, true);
    g.write_cell(3, 2, true);
    g.clear();
    assert_all_dead(&g);
    let before = snapshot(&g);
    g.clear();
    assert_all_dead(&g);
    assert_eq!(snapshot(&g), before);
}

#[test]
fn empty_board_is_stable() {
    for (w, h) in [(1, 1), (3, 3), (5, 2), (70, 67)] {
        let mut g = Grid::new(w, h);
        g.step();
        assert_all_dead(&g);
    }
}

#[test]
fn block_is_a_still_life() {
    let mut g = Grid::new(6, 5);
    for (x, y) in [(2, 1), (3, 1), (2, 2), (3, 2)] {
        g.write_cell(x, y, true);
    }
    let before = snapshot(&g);
    g.step();
    assert_eq!(snapshot(&g), before);
    g.step();
    assert_eq!(snapshot(&g), before);
}

#[test]
fn block_at_the_corner_is_still_a_still_life() {
    // The block touches the wrap seam of a 3x3 torus and survives there too.
    let mut g = Grid::new(3, 3);
    for (x, y) in [(0, 0), (1, 0), (0, 1), (1, 1)] {
        g.write_cell(x, y, true);
    }
    let before = snapshot(&g);
    g.step();
    assert_eq!(snapshot(&g), before);
}

#[test]
fn lone_cell_dies_of_underpopulation() {
    let mut g = Grid::new(4, 4);
    g.write_cell(1, 1, true);
    g.step();
    assert_all_dead(&g);
}

#[test]
fn blinker_oscillates_with_period_two() {
    // A horizontal bar of three flips to a vertical bar and back.
    let mut g = Grid::new(5, 5);
    for (x, y) in [(1, 2), (2, 2), (3, 2)] {
        g.write_cell(x, y, true);
    }
    let horizontal = snapshot(&g);
    g.step();
    for (x, y) in [(2, 1), (2, 2), (2, 3)] {
        assert!(g.get(x, y));
    }
    assert!(!g.get(1, 2));
    assert!(!g.get(3, 2));
    g.step();
    assert_eq!(snapshot(&g), horizontal);
}

#[test]
fn seed_random_keeps_the_shape() {
    let mut g = Grid::new(70, 67);
    g.seed_random();
    assert_eq!(g.width(), 70);
    assert_eq!(g.height(), 67);
    // With 4690 fair coin flips, an all-dead or all-alive board will not
    // happen in the lifetime of this universe.
    let mut alive = 0usize;
    for y in 0..67 {
        for x in 0..70 {
            if g.get(x, y) {
                alive += 1;
            }
        }
    }
    assert!(alive > 0);
    assert!(alive < 70 * 67);
}
