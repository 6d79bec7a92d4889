use gravity_sim::fixed::FX_ONE;
use gravity_sim::physics::StationaryBody;
use gravity_sim::simulation::{
    run_simulation, run_simulation_with_time, IntegrationMethod, LiveSimulationState,
    SIMULATION_TIMESTEPS,
};
use gravity_sim::vec2::Vec2;

fn fx(v: i64) -> i64 {
    v * FX_ONE
}

fn well(x: i64, y: i64, mass: i64) -> StationaryBody {
    StationaryBody::new(Vec2::new(x, y), mass, fx(10), [0, 0, 0])
}

fn three_wells(m0: i64, m1: i64, m2: i64) -> Vec<StationaryBody> {
    vec![
        well(fx(150), fx(150), m0),
        well(fx(450), fx(150), m1),
        well(fx(300), fx(400), m2),
    ]
}

#[test]
fn run_to_outcome_is_deterministic() {
    let wells = three_wells(fx(50000), fx(30000), fx(40000));
    let start = Vec2::new(fx(300), fx(300));
    let vel = Vec2::new(fx(4), fx(-2));
    let a = run_simulation_with_time(start, vel, &wells, IntegrationMethod::RungeKutta4);
    let b = run_simulation_with_time(start, vel, &wells, IntegrationMethod::RungeKutta4);
    assert_eq!(a, b);
    let c = run_simulation(start, vel, &wells, IntegrationMethod::RungeKutta4);
    assert_eq!(c, a.map(|(i, _)| i));
}

#[test]
fn particle_at_well_center_collides_at_timestep_zero() {
    let wells = three_wells(fx(50000), fx(30000), fx(40000));
    let start = Vec2::new(fx(450), fx(150));
    let out = run_simulation_with_time(start, Vec2::new(0, 0), &wells,
        IntegrationMethod::RungeKutta4);
    assert_eq!(out.map(|(i, t)| (i, t)), Some((1, 0)));
}

#[test]
fn far_particle_with_tiny_wells_exhausts_budget() {
    // all well masses at a fixed small value; particle far outside their influence
    let wells = three_wells(fx(50), fx(30), fx(40));
    let start = Vec2::new(fx(5000), fx(5000));
    let out = run_simulation_with_time(start, Vec2::new(0, 0), &wells,
        IntegrationMethod::RungeKutta4);
    assert_eq!(out, None);
    let out_euler = run_simulation_with_time(start, Vec2::new(0, 0), &wells,
        IntegrationMethod::Euler);
    assert_eq!(out_euler, None);
}

#[test]
fn live_replay_agrees_with_batch_run() {
    let wells = three_wells(fx(50000), fx(30000), fx(40000));
    let start = Vec2::new(fx(300), fx(300));
    let vel = Vec2::new(0, 0);
    let batch = run_simulation_with_time(start, vel, &wells, IntegrationMethod::RungeKutta4);

    let mut live = LiveSimulationState::new(start, vel, wells.clone(),
        IntegrationMethod::RungeKutta4);
    let mut guard = 0usize;
    while !live.is_finished() {
        live.step();
        guard += 1;
        assert!(guard <= SIMULATION_TIMESTEPS);
    }
    match batch {
        Some((index, timestep)) => {
            assert_eq!(live.collision_body_index, Some(index));
            // the replay advances its counter after the colliding frame
            assert_eq!(live.current_timestep, timestep + 1);
        }
        None => {
            assert_eq!(live.collision_body_index, None);
            assert_eq!(live.current_timestep, SIMULATION_TIMESTEPS);
        }
    }
}

#[test]
fn live_replay_samples_trajectory_and_stops_when_finished() {
    let wells = three_wells(fx(50), fx(30), fx(40));
    let start = Vec2::new(fx(5000), fx(5000));
    let mut live = LiveSimulationState::new(start, Vec2::new(fx(1), 0), wells,
        IntegrationMethod::Euler);
    assert_eq!(live.trajectory_history.len(), 1);
    assert_eq!(live.trajectory_history[0], start);
    for _ in 0..10 {
        live.step();
    }
    // samples at timesteps 0 and 5 on top of the initial position
    assert_eq!(live.trajectory_history.len(), 3);
    assert_eq!(live.current_timestep, 10);
    assert!(!live.is_finished());

    // a finished replay ignores further stepping
    let wells2 = vec![well(fx(5000), fx(5001), fx(50))];
    let mut done = LiveSimulationState::new(start, Vec2::new(0, 0), wells2,
        IntegrationMethod::Euler);
    done.step();
    assert!(done.is_finished());
    assert_eq!(done.collision_body_index, Some(0));
    let t = done.current_timestep;
    let trail_len = done.trajectory_history.len();
    done.step();
    assert_eq!(done.current_timestep, t);
    assert_eq!(done.trajectory_history.len(), trail_len);
}

#[test]
fn run_with_no_wells_exhausts_budget() {
    let wells: Vec<StationaryBody> = Vec::new();
    let out = run_simulation_with_time(Vec2::new(0, 0), Vec2::new(fx(1), fx(2)), &wells,
        IntegrationMethod::RungeKutta4);
    assert_eq!(out, None);
}
