use gravity_sim::config::create_stationary_bodies;
use gravity_sim::fixed::FX_ONE;
use gravity_sim::simulation::{run_simulation_with_time, IntegrationMethod};
use gravity_sim::sweep::{run_stability_sweep, run_sweep, stability_cell};
use gravity_sim::threebody::run_simulation as run_three_body;
use gravity_sim::sweep::initial_bodies3;
use gravity_sim::vec2::Vec2;

fn fx(v: i64) -> i64 {
    v * FX_ONE
}

#[test]
fn preset_wells_match_configuration() {
    let wells = create_stationary_bodies();
    assert_eq!(wells.len(), 3);
    assert_eq!(wells[0].pos, Vec2::new(fx(150), fx(150)));
    assert_eq!(wells[1].pos, Vec2::new(fx(450), fx(150)));
    assert_eq!(wells[2].pos, Vec2::new(fx(300), fx(400)));
    assert_eq!(wells[0].mass, fx(50000));
    assert_eq!(wells[1].mass, fx(30000));
    assert_eq!(wells[2].mass, fx(40000));
    // every preset mass maps below the minimum radius of ten
    for w in &wells {
        assert_eq!(w.radius, fx(10));
    }
    assert_eq!(wells[0].color, [255, 100, 100]);
    assert_eq!(wells[1].color, [100, 255, 100]);
    assert_eq!(wells[2].color, [100, 100, 255]);
}

#[test]
fn sweep_cells_equal_single_runs() {
    let wells = create_stationary_bodies();
    // a 3 by 3 grid placed around the first well by the camera offset
    let cam = Vec2::new(fx(-140), fx(-140));
    let vel = Vec2::new(0, 0);
    let grid = run_sweep(3, 3, &wells, vel, cam, fx(1), IntegrationMethod::RungeKutta4);
    assert_eq!(grid.len(), 9);
    for py in 0..3usize {
        for px in 0..3usize {
            let world = Vec2::new(fx(px as i64) + fx(140), fx(py as i64) + fx(140));
            let single = run_simulation_with_time(world, vel, &wells,
                IntegrationMethod::RungeKutta4);
            assert_eq!(grid[py * 3 + px], single, "cell ({}, {}) disagrees", px, py);
        }
    }
    // these cells sit within the collision threshold of the first well
    assert_eq!(grid[0], Some((0, 0)));
}

#[test]
fn sweep_respects_zoom_and_camera() {
    let wells = create_stationary_bodies();
    // zoom of one half doubles the world step per cell
    let cam = Vec2::new(fx(-440), fx(-140));
    let vel = Vec2::new(0, 0);
    let grid = run_sweep(2, 1, &wells, vel, cam, fx(2), IntegrationMethod::Euler);
    assert_eq!(grid.len(), 2);
    let w0 = Vec2::new(fx(440), fx(140));
    let w1 = Vec2::new(fx(440) + FX_ONE / 2, fx(140));
    assert_eq!(grid[0],
        run_simulation_with_time(w0, vel, &wells, IntegrationMethod::Euler));
    assert_eq!(grid[1],
        run_simulation_with_time(w1, vel, &wells, IntegrationMethod::Euler));
}

#[test]
fn stability_sweep_cells_equal_three_body_runs() {
    // small launch speeds collapse quickly, keeping the grid cheap
    let grid = run_stability_sweep(2, 2, 0, fx(4), fx(-4), 0);
    assert_eq!(grid.len(), 4);
    for py in 0..2usize {
        for px in 0..2usize {
            let direct = stability_cell(px, py, 2, 2, 0, fx(4), fx(-4), 0);
            assert_eq!(grid[py * 2 + px], direct, "cell ({}, {}) disagrees", px, py);
        }
    }
    // the interpolation endpoints reproduce a run built by hand:
    // cell (1, 0) launches with the top of the first range and the bottom
    // of the second
    let mut bodies = initial_bodies3(fx(4), fx(-4));
    let by_hand = run_three_body(&mut bodies);
    assert_eq!(grid[1], by_hand);
}
