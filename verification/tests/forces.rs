use gravity_sim::fixed::FX_ONE;
use gravity_sim::physics::{
    calculate_acceleration, calculate_gravitational_force, check_collision, update_particle_euler,
    update_particle_rk4, StationaryBody, TestParticle,
};
use gravity_sim::vec2::Vec2;

fn fx(v: i64) -> i64 {
    v * FX_ONE
}

fn well(x: i64, y: i64, mass: i64) -> StationaryBody {
    StationaryBody::new(Vec2::new(x, y), mass, fx(10), [0, 0, 0])
}

#[test]
fn force_at_zero_separation_is_exactly_zero() {
    let p = TestParticle::new(Vec2::new(fx(7), fx(-2)), Vec2::new(0, 0), fx(1), fx(1));
    let w = well(fx(7), fx(-2), fx(50000));
    let f = calculate_gravitational_force(&p, &w);
    assert_eq!(f, Vec2::new(0, 0));
}

#[test]
fn force_follows_inverse_square_law() {
    // G = 100, masses 1 and 10000, distance 100: magnitude 100, along +x.
    let p = TestParticle::new(Vec2::new(0, 0), Vec2::new(0, 0), fx(1), fx(1));
    let w = well(fx(100), 0, fx(10000));
    let f = calculate_gravitational_force(&p, &w);
    assert_eq!(f, Vec2::new(fx(100), 0));
}

#[test]
fn acceleration_sums_wells_and_divides_by_mass() {
    let p = TestParticle::new(Vec2::new(0, 0), Vec2::new(0, 0), fx(1), fx(1));
    let wells = vec![well(fx(100), 0, fx(10000))];
    assert_eq!(calculate_acceleration(&p, &wells), Vec2::new(fx(100), 0));

    // two symmetric wells cancel exactly
    let wells2 = vec![well(fx(100), 0, fx(10000)), well(fx(-100), 0, fx(10000))];
    assert_eq!(calculate_acceleration(&p, &wells2), Vec2::new(0, 0));
}

#[test]
fn massless_wells_give_zero_acceleration() {
    let p = TestParticle::new(Vec2::new(fx(1), fx(2)), Vec2::new(fx(3), 0), fx(1), fx(1));
    let wells = vec![well(fx(50), fx(8), 0), well(fx(-4), fx(90), 0)];
    assert_eq!(calculate_acceleration(&p, &wells), Vec2::new(0, 0));
}

#[test]
fn integrators_reduce_to_straight_line_without_forces() {
    // no wells: one substep moves the particle by exactly velocity * dt
    let dt = fx(1) / 2;
    let wells: Vec<StationaryBody> = Vec::new();
    let mut pe = TestParticle::new(Vec2::new(fx(1), fx(1)), Vec2::new(fx(2), fx(-4)), fx(1), fx(1));
    update_particle_euler(&mut pe, &wells, dt);
    assert_eq!(pe.pos, Vec2::new(fx(2), fx(-1)));
    assert_eq!(pe.vel, Vec2::new(fx(2), fx(-4)));

    let mut pr = TestParticle::new(Vec2::new(fx(1), fx(1)), Vec2::new(fx(2), fx(-4)), fx(1), fx(1));
    update_particle_rk4(&mut pr, &wells, dt);
    assert_eq!(pr.pos, Vec2::new(fx(2), fx(-1)));
    assert_eq!(pr.vel, Vec2::new(fx(2), fx(-4)));
}

#[test]
fn integrator_single_substep_exact_values() {
    // one well at (100, 0), mass 10000, G = 100, dt of one substep
    let dt = 105;
    let wells = vec![well(fx(100), 0, fx(10000))];
    let mut pe = TestParticle::new(Vec2::new(0, 0), Vec2::new(0, 0), fx(1), fx(1));
    update_particle_euler(&mut pe, &wells, dt);
    assert_eq!(pe.vel, Vec2::new(10500, 0));
    assert_eq!(pe.pos, Vec2::new(16, 0));

    let mut pr = TestParticle::new(Vec2::new(0, 0), Vec2::new(0, 0), fx(1), fx(1));
    update_particle_rk4(&mut pr, &wells, dt);
    assert_eq!(pr.vel, Vec2::new(10500, 0));
    assert_eq!(pr.pos, Vec2::new(8, 0));
}

#[test]
fn collision_at_well_center_reports_that_well() {
    let wells = vec![well(fx(100), 0, fx(50)), well(fx(300), fx(300), fx(30))];
    let p = TestParticle::new(Vec2::new(fx(300), fx(300)), Vec2::new(0, 0), fx(1), fx(1));
    assert_eq!(check_collision(&p, &wells, fx(15)), Some(1));
    let q = TestParticle::new(Vec2::new(fx(100), 0), Vec2::new(0, 0), fx(1), fx(1));
    assert_eq!(check_collision(&q, &wells, fx(15)), Some(0));
}

#[test]
fn collision_reports_first_well_in_list_order() {
    // both wells within the threshold: the lower index wins
    let wells = vec![well(fx(1), 0, fx(50)), well(fx(-1), 0, fx(30))];
    let p = TestParticle::new(Vec2::new(0, 0), Vec2::new(0, 0), fx(1), fx(1));
    assert_eq!(check_collision(&p, &wells, fx(15)), Some(0));
}

#[test]
fn no_collision_when_farther_than_threshold() {
    let wells = vec![well(fx(100), 0, fx(50)), well(fx(300), fx(300), fx(30))];
    let p = TestParticle::new(Vec2::new(0, 0), Vec2::new(0, 0), fx(1), fx(1));
    assert_eq!(check_collision(&p, &wells, fx(15)), None);
    // exactly at the threshold is not a collision (strict inequality)
    let q = TestParticle::new(Vec2::new(fx(85), 0), Vec2::new(0, 0), fx(1), fx(1));
    assert_eq!(check_collision(&q, &wells, fx(15)), None);
}
