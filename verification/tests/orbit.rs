use gravity_sim::fixed::FX_ONE;
use gravity_sim::physics::{update_particle_euler, update_particle_rk4, StationaryBody,
    TestParticle};
use gravity_sim::vec2::Vec2;

fn fx(v: i64) -> i64 {
    v * FX_ONE
}

/// A particle on a circular orbit around a single well: with G = 100 and a
/// well mass of 10000 at the origin, radius 100 needs speed sqrt(G * M / r)
/// == 100. Runge-Kutta holds the orbital radius within a small tolerance
/// over many steps; explicit Euler visibly drifts away from it over the same
/// step count — the regression guard that distinguishes the two integrators.
#[test]
fn rk4_conserves_orbital_radius_where_euler_drifts() {
    let center = Vec2::new(0, 0);
    let well = StationaryBody::new(center, fx(10000), fx(10), [0, 0, 0]);
    let wells = vec![well];
    let dt = FX_ONE / 50;
    let steps = 1000;
    let radius = fx(100);

    let mut rk4 = TestParticle::new(Vec2::new(radius, 0), Vec2::new(0, fx(100)), fx(1), fx(1));
    let mut worst_rk4: i64 = 0;
    for _ in 0..steps {
        update_particle_rk4(&mut rk4, &wells, dt);
        let dev = (rk4.pos.distance(&center) - radius).abs();
        worst_rk4 = worst_rk4.max(dev);
    }

    let mut euler = TestParticle::new(Vec2::new(radius, 0), Vec2::new(0, fx(100)), fx(1), fx(1));
    let mut worst_euler: i64 = 0;
    for _ in 0..steps {
        update_particle_euler(&mut euler, &wells, dt);
        let dev = (euler.pos.distance(&center) - radius).abs();
        worst_euler = worst_euler.max(dev);
    }

    // Runge-Kutta stays within a tenth of a unit of the orbit
    assert!(worst_rk4 < FX_ONE / 10, "rk4 deviated by {} raw units", worst_rk4);
    // Euler leaves the orbit by more than half a unit
    assert!(worst_euler > FX_ONE / 2, "euler only deviated by {} raw units", worst_euler);
    // and the drift clearly separates the two integrators
    assert!(worst_euler > 8 * worst_rk4);
}
