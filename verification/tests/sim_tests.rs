use conway::control::SimControls;
use conway::grid::{Grid, OutOfBounds};
use conway::neighbors::neighbors_of;
use conway::rules::next_state;
use conway::sim::Simulation;

fn grid_from_cells(width: usize, height: usize, alive: &[(usize, usize)]) -> Grid {
    let mut g = Grid::new(width, height);
    for &(x, y) in alive {
        g.set_alive(x, y, true).unwrap();
    }
    g
}

fn alive_set(g: &Grid) -> Vec<(usize, usize)> {
    let mut out = Vec::new();
    for y in 0..g.height() {
        for x in 0..g.width() {
            if g.get(x, y).unwrap() {
                out.push((x, y));
            }
        }
    }
    out
}

fn copy_committed(g: &Grid) -> Grid {
    let mut c = Grid::new(g.width(), g.height());
    for y in 0..g.height() {
        for x in 0..g.width() {
            c.set_alive(x, y, g.get(x, y).unwrap()).unwrap();
        }
    }
    c
}

#[test]
fn test_basic() {
    assert_eq!(2 + 2, 4);
}

#[test]
fn rule_engine_truth_table() {
    for n in 0..=8u8 {
        assert_eq!(next_state(true, n), n == 2 || n == 3, "live cell with {} neighbors", n);
        assert_eq!(next_state(false, n), n == 3, "dead cell with {} neighbors", n);
    }
}

#[test]
fn boundary_neighbor_candidates() {
    // On a 4x4 grid: corner 3, edge midpoint 5, interior 8.
    assert_eq!(neighbors_of(4, 4, 0, 0).unwrap().len(), 3);
    assert_eq!(neighbors_of(4, 4, 1, 0).unwrap().len(), 5);
    assert_eq!(neighbors_of(4, 4, 1, 1).unwrap().len(), 8);
    // The corner's candidates, in scan order.
    assert_eq!(neighbors_of(4, 4, 0, 0).unwrap(), vec![(1, 0), (0, 1), (1, 1)]);
    // The opposite corner and the remaining edges.
    assert_eq!(neighbors_of(4, 4, 3, 3).unwrap().len(), 3);
    assert_eq!(neighbors_of(4, 4, 0, 2).unwrap().len(), 5);
    assert_eq!(neighbors_of(4, 4, 3, 1).unwrap().len(), 5);
    assert_eq!(neighbors_of(4, 4, 2, 3).unwrap().len(), 5);
}

#[test]
fn neighbors_of_out_of_bounds() {
    assert_eq!(neighbors_of(4, 4, 4, 0), Err(OutOfBounds));
    assert_eq!(neighbors_of(4, 4, 0, 4), Err(OutOfBounds));
    assert_eq!(neighbors_of(4, 4, 100, 100), Err(OutOfBounds));
}

#[test]
fn get_and_set_bounds() {
    let mut g = Grid::new(3, 2);
    assert_eq!(g.get(0, 0), Ok(false));
    assert_eq!(g.get(3, 0), Err(OutOfBounds));
    assert_eq!(g.get(0, 2), Err(OutOfBounds));
    assert_eq!(g.set_alive(2, 1, true), Ok(()));
    assert_eq!(g.get(2, 1), Ok(true));
    assert_eq!(g.set_alive(3, 0, true), Err(OutOfBounds));
    assert_eq!(g.set_alive(0, 2, true), Err(OutOfBounds));
}

#[test]
fn glider_step() {
    // A standard glider on an otherwise dead 5x5 grid.
    let mut g = grid_from_cells(5, 5, &[(1, 0), (2, 1), (0, 2), (1, 2), (2, 2)]);
    g.step();
    assert_eq!(alive_set(&g), vec![(0, 1), (2, 1), (1, 2), (2, 2), (1, 3)]);
}

#[test]
fn blinker_is_updated_synchronously() {
    // A horizontal blinker flips to vertical only if every cell's neighbor
    // count is taken from the previous committed generation; sequential
    // in-place updates would destroy the oscillator.
    let mut g = grid_from_cells(5, 5, &[(1, 1), (2, 1), (3, 1)]);
    g.step();
    assert_eq!(alive_set(&g), vec![(2, 0), (2, 1), (2, 2)]);
    g.step();
    assert_eq!(alive_set(&g), vec![(1, 1), (2, 1), (3, 1)]);
}

#[test]
fn commit_is_what_publishes_a_step() {
    let mut g = grid_from_cells(5, 5, &[(1, 1), (2, 1), (3, 1)]);
    // The rule pass alone must not change the committed, observable state.
    g.compute_next();
    assert_eq!(alive_set(&g), vec![(1, 1), (2, 1), (3, 1)]);
    // The commit publishes the whole new generation at once.
    g.commit();
    assert_eq!(alive_set(&g), vec![(2, 0), (2, 1), (2, 2)]);
}

#[test]
fn step_is_deterministic() {
    // Two independent runs of one step over identical committed grids give
    // bit-identical results.
    let mut a = Grid::new(16, 16);
    a.randomize();
    let mut b = copy_committed(&a);
    a.step();
    b.step();
    assert_eq!(alive_set(&a), alive_set(&b));
}

#[test]
fn pause_freezes_state() {
    let mut sim = Simulation::new(8, 8, 250);
    sim.grid.randomize();
    let before = alive_set(&sim.grid);
    let acc_before = sim.scheduler.accumulated_ms();
    let mut controls = SimControls::new();
    controls.is_paused = true;
    // Far more elapsed time than several periods, over many cycles.
    for _ in 0..50 {
        sim.update(&mut controls, 10_000);
    }
    assert_eq!(alive_set(&sim.grid), before);
    assert_eq!(sim.scheduler.accumulated_ms(), acc_before);
    assert!(controls.is_paused);
}

#[test]
fn resume_continues_from_frozen_accumulator() {
    let mut sim = Simulation::new(4, 4, 250);
    let mut controls = SimControls::new();
    sim.update(&mut controls, 200);
    assert_eq!(sim.scheduler.accumulated_ms(), 200);
    controls.is_paused = true;
    sim.update(&mut controls, 10_000);
    assert_eq!(sim.scheduler.accumulated_ms(), 200);
    controls.is_paused = false;
    // 200 + 100 crosses the 250 ms period once; the remainder is kept.
    sim.update(&mut controls, 100);
    assert_eq!(sim.scheduler.accumulated_ms(), 50);
}

#[test]
fn scheduler_gates_steps_on_the_period() {
    let mut sim = Simulation::new(5, 5, 250);
    let mut controls = SimControls::new();
    for &(x, y) in &[(1, 1), (2, 1), (3, 1)] {
        sim.grid.set_alive(x, y, true).unwrap();
    }
    // 100 + 100 < 250: no step yet.
    sim.update(&mut controls, 100);
    sim.update(&mut controls, 100);
    assert_eq!(alive_set(&sim.grid), vec![(1, 1), (2, 1), (3, 1)]);
    assert_eq!(sim.scheduler.accumulated_ms(), 200);
    // 200 + 100 >= 250: exactly one step fires and the remainder is kept.
    sim.update(&mut controls, 100);
    assert_eq!(alive_set(&sim.grid), vec![(2, 0), (2, 1), (2, 2)]);
    assert_eq!(sim.scheduler.accumulated_ms(), 50);
}

#[test]
fn clear_zeroes_grid() {
    let mut sim = Simulation::new(16, 16, 250);
    sim.grid.randomize();
    let mut controls = SimControls::new();
    controls.should_clear = true;
    sim.update(&mut controls, 0);
    assert!(!controls.should_clear, "clear is one-shot");
    assert!(alive_set(&sim.grid).is_empty());
}

#[test]
fn clear_applies_even_while_paused() {
    let mut sim = Simulation::new(8, 8, 250);
    sim.grid.randomize();
    let mut controls = SimControls::new();
    controls.is_paused = true;
    controls.should_clear = true;
    sim.update(&mut controls, 0);
    assert!(!controls.should_clear);
    assert!(alive_set(&sim.grid).is_empty());
    assert!(controls.is_paused, "pause is persistent");
}

#[test]
fn restart_takes_priority_over_clear() {
    let mut sim = Simulation::new(8, 8, 250);
    let mut controls = SimControls::new();
    controls.should_restart = true;
    controls.should_clear = true;
    sim.update(&mut controls, 0);
    assert!(!controls.should_restart, "restart is consumed");
    assert!(controls.should_clear, "clear stays pending for the next cycle");
    sim.update(&mut controls, 0);
    assert!(!controls.should_clear);
    assert!(alive_set(&sim.grid).is_empty());
}

#[test]
fn restart_density_near_one_half() {
    // Across many randomized trials of a 64x64 grid, the alive fraction
    // stays within 5 percentage points of one half.
    let mut total: usize = 0;
    let trials: usize = 8;
    let cells_per_trial: usize = 64 * 64;
    let mut g = Grid::new(64, 64);
    for _ in 0..trials {
        g.randomize();
        total += alive_set(&g).len();
    }
    let n = trials * cells_per_trial;
    let lo = n * 45 / 100;
    let hi = n * 55 / 100;
    assert!(
        lo <= total && total <= hi,
        "alive fraction out of tolerance: {} of {}",
        total,
        n
    );
}

#[test]
fn randomize_mirrors_pending_state() {
    // After a randomize, an immediate commit must not change the committed
    // state: the pending flags were mirrored.
    let mut g = Grid::new(8, 8);
    g.randomize();
    let before = alive_set(&g);
    g.commit();
    assert_eq!(alive_set(&g), before);
}
