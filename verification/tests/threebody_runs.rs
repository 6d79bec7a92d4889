use gravity_sim::fixed::FX_ONE;
use gravity_sim::threebody::{
    check_pair_collision, get_accelerations, run_simulation, update_bodies, GravBody,
    LiveSimulationState, SIMULATION_TIMESTEPS, SUBSTEP_DT,
};
use gravity_sim::vec2::Vec2;

fn fx(v: i64) -> i64 {
    v * FX_ONE
}

fn symmetric_collapse_bodies() -> Vec<GravBody> {
    vec![
        GravBody::new(Vec2::new(fx(50), 0), Vec2::new(0, 0), fx(160000), fx(1)),
        GravBody::new(Vec2::new(fx(-50), 0), Vec2::new(0, 0), fx(160000), fx(1)),
        GravBody::new(Vec2::new(0, 0), Vec2::new(0, 0), fx(160000), fx(1)),
    ]
}

#[test]
fn mutual_force_at_zero_separation_is_zero() {
    let a = GravBody::new(Vec2::new(fx(3), fx(3)), Vec2::new(0, 0), fx(1000), fx(1));
    let b = GravBody::new(Vec2::new(fx(3), fx(3)), Vec2::new(0, 0), fx(2000), fx(1));
    assert_eq!(a.grav_force(&b), Vec2::new(0, 0));
}

#[test]
fn accelerations_are_symmetric_for_symmetric_bodies() {
    let bodies = symmetric_collapse_bodies();
    let accels = get_accelerations(&bodies);
    assert_eq!(accels.len(), 3);
    // the central body is pulled equally from both sides
    assert_eq!(accels[2], Vec2::new(0, 0));
    // the outer bodies accelerate inward with mirrored values
    assert_eq!(accels[0].x, -accels[1].x);
    assert!(accels[0].x < 0);
    assert_eq!(accels[0].y, 0);
    assert_eq!(accels[1].y, 0);
}

#[test]
fn update_bodies_without_forces_is_straight_line() {
    // a single body feels no force; one substep moves it by velocity * dt
    let mut bodies = vec![GravBody::new(Vec2::new(fx(1), fx(2)), Vec2::new(fx(100), fx(-50)),
        fx(1), fx(1))];
    update_bodies(&mut bodies, fx(1) / 2);
    assert_eq!(bodies[0].vel, Vec2::new(fx(100), fx(-50)));
    assert_eq!(bodies[0].pos, Vec2::new(fx(51), fx(-23)));
}

#[test]
fn pair_collision_uses_summed_radii() {
    let mut bodies = symmetric_collapse_bodies();
    assert!(!check_pair_collision(&bodies));
    // closer than radius + radius == 2
    bodies[0].pos = Vec2::new(fx(1), 0);
    bodies[1].pos = Vec2::new(0, 0);
    assert!(check_pair_collision(&bodies));
}

#[test]
fn symmetric_collapse_collides_within_budget() {
    let mut bodies = symmetric_collapse_bodies();
    let t = run_simulation(&mut bodies);
    assert!(t < SIMULATION_TIMESTEPS, "no collision within the budget");
    // the run is deterministic: an identical start gives the identical time
    let mut again = symmetric_collapse_bodies();
    assert_eq!(run_simulation(&mut again), t);
    // bodies are left in the collided state
    assert!(check_pair_collision(&bodies));
}

#[test]
fn separated_static_bodies_never_collide() {
    // tiny masses, huge separations: the budget runs out
    let mut bodies = vec![
        GravBody::new(Vec2::new(fx(100000), 0), Vec2::new(0, 0), fx(1), fx(1)),
        GravBody::new(Vec2::new(fx(-100000), 0), Vec2::new(0, 0), fx(1), fx(1)),
        GravBody::new(Vec2::new(0, fx(100000)), Vec2::new(0, 0), fx(1), fx(1)),
    ];
    let t = run_simulation(&mut bodies);
    assert_eq!(t, SIMULATION_TIMESTEPS);
}

#[test]
fn substep_length_matches_frame_split() {
    // 0.016 of frame time over 50 substeps, in raw units
    assert_eq!(SUBSTEP_DT, 21);
}

#[test]
fn three_body_replay_agrees_with_batch_run() {
    let mut batch_bodies = symmetric_collapse_bodies();
    let time = run_simulation(&mut batch_bodies);
    assert!(time < SIMULATION_TIMESTEPS);

    let mut live = LiveSimulationState::new(symmetric_collapse_bodies());
    let mut frames = 0usize;
    while live.current_timestep < SIMULATION_TIMESTEPS {
        live.step();
        frames += 1;
        assert!(frames <= SIMULATION_TIMESTEPS);
    }
    // the replay walked the same states: its final bodies match the batch
    for i in 0..3 {
        assert_eq!(live.bodies[i].pos, batch_bodies[i].pos);
        assert_eq!(live.bodies[i].vel, batch_bodies[i].vel);
    }
    // one trail sample per completed collision-free timestep, plus the start
    assert_eq!(live.trajectory_history[0].len(), time + 1);
    // a finished replay ignores further stepping
    let t = live.trajectory_history[0].len();
    live.step();
    assert_eq!(live.trajectory_history[0].len(), t);
    assert_eq!(live.current_timestep, SIMULATION_TIMESTEPS);
}
