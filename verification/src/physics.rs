//! The fixed-well scenario: a single moving test particle attracted by
//! immobile wells.
//!
//! The force law is inverse-square gravity; two coincident points attract
//! with exactly zero force, by policy, so every function here is total.

use vstd::prelude::*;
use crate::fixed::FX_HALF;
use crate::fixed::FX_SIX;
use crate::fixed::FX_TWO;
use crate::fixed::fx_div;
use crate::fixed::fx_mul;
use crate::fixed::iabs;
use crate::fixed::spec_fx_div;
use crate::fixed::spec_fx_mul;
use crate::vec2::V2;
use crate::vec2::Vec2;
use crate::vec2::spec_distance;
use crate::vec2::spec_length;
use crate::vec2::spec_normalize;
use crate::vec2::v2_add;
use crate::vec2::v2_div;
use crate::vec2::v2_in_range;
use crate::vec2::v2_scale;
use crate::vec2::v2_sub;
use crate::vec2::v2_zero;

verus! {

/// Gravitational constant of the fixed-well scenario, as a raw fixed-point
/// value (it denotes one hundred). The mutually-interacting scenario uses its
/// own, different constant: the two systems are tuned independently.
pub const G: i64 = 6553600;

/// Mathematical image of a well: position, mass and radius as raw integers.
/// The display color is presentation payload and takes no part in physics.
pub ghost struct WellV {
    pub pos: V2,
    pub mass: int,
    pub radius: int,
}

/// Mathematical image of a test particle.
pub ghost struct ParticleV {
    pub pos: V2,
    pub vel: V2,
    pub mass: int,
    pub radius: int,
}

/// An immobile gravitating body. Its position never changes during a run;
/// the color is carried through untouched for the renderer.
#[derive(Clone, Copy, Debug)]
pub struct StationaryBody {
    pub pos: Vec2,
    pub mass: i64,
    pub radius: i64,
    pub color: [u8; 3],
}

impl View for StationaryBody {
    type V = WellV;

    open spec fn view(&self) -> WellV {
        WellV { pos: self.pos@, mass: self.mass as int, radius: self.radius as int }
    }
}

impl StationaryBody {
    /// A well with the given position, mass, radius and display color.
    pub fn new(pos: Vec2, mass: i64, radius: i64, color: [u8; 3]) -> (r: Self)
        ensures
            r@ == (WellV { pos: pos@, mass: mass as int, radius: radius as int }),
            r.color == color,
    {
        Self { pos, mass, radius, color }
    }
}

/// The moving body of the fixed-well scenario. Wells pull on it; it does not
/// pull back on the wells.
#[derive(Clone, Copy, Debug)]
pub struct TestParticle {
    pub pos: Vec2,
    pub vel: Vec2,
    pub mass: i64,
    pub radius: i64,
}

impl View for TestParticle {
    type V = ParticleV;

    open spec fn view(&self) -> ParticleV {
        ParticleV {
            pos: self.pos@,
            vel: self.vel@,
            mass: self.mass as int,
            radius: self.radius as int,
        }
    }
}

impl TestParticle {
    /// A particle with the given state.
    pub fn new(pos: Vec2, vel: Vec2, mass: i64, radius: i64) -> (r: Self)
        ensures
            r@ == (ParticleV {
                pos: pos@,
                vel: vel@,
                mass: mass as int,
                radius: radius as int,
            }),
    {
        Self { pos, vel, mass, radius }
    }
}

/// The gravitational pull of `w` on `p` under constant `g`: zero when the two
/// positions coincide, otherwise of magnitude `g * p.mass * w.mass / dist^2`
/// along the unit vector from `p` toward `w`.
pub open spec fn spec_grav_force(p: ParticleV, w: WellV, g: int) -> V2 {
    let dir = v2_sub(w.pos, p.pos);
    let dist = spec_length(dir);
    if dist == 0 {
        v2_zero()
    } else {
        let force_mag = spec_fx_div(
            spec_fx_mul(spec_fx_mul(g, p.mass), w.mass),
            spec_fx_mul(dist, dist),
        );
        v2_scale(spec_normalize(dir), force_mag)
    }
}

/// Net force on `p`: the forces of the wells summed in their list order
/// (the fold keeps the order fixed, so repeated runs agree exactly).
pub open spec fn spec_total_force(p: ParticleV, ws: Seq<WellV>, g: int) -> V2
    decreases ws.len(),
{
    if ws.len() == 0 {
        v2_zero()
    } else {
        v2_add(spec_total_force(p, ws.drop_last(), g), spec_grav_force(p, ws.last(), g))
    }
}

/// Acceleration of `p`: net force over mass.
pub open spec fn spec_acceleration(p: ParticleV, ws: Seq<WellV>, g: int) -> V2 {
    v2_div(spec_total_force(p, ws, g), p.mass)
}

/// The images of a list of wells, in order.
pub open spec fn wells_view(s: Seq<StationaryBody>) -> Seq<WellV> {
    Seq::new(s.len(), |i: int| s[i]@)
}

/// Coincident bodies attract with exactly zero force.
pub proof fn lemma_zero_separation_zero_force(p: ParticleV, w: WellV, g: int)
    requires
        p.pos == w.pos,
    ensures
        spec_grav_force(p, w, g) == v2_zero(),
{
    let dir = v2_sub(w.pos, p.pos);
    assert(dir.x == 0 && dir.y == 0);
    assert(spec_length(dir) == 0);
}

/// The gravitational force of one well on the particle.
pub fn calculate_gravitational_force(particle: &TestParticle, stationary_body: &StationaryBody)
    -> (r: Vec2)
    ensures
        r@ == spec_grav_force(particle@, stationary_body@, G as int),
{
    let dir = stationary_body.pos.sub(&particle.pos);
    let dist = dir.length();
    if dist == 0 {
        return Vec2::new(0, 0);
    }
    let force_mag = fx_div(fx_mul(fx_mul(G, particle.mass), stationary_body.mass),
        fx_mul(dist, dist));
    dir.normalize().mul(force_mag)
}

/// The particle's acceleration under all wells, summed in list order.
pub fn calculate_acceleration(particle: &TestParticle, stationary_bodies: &Vec<StationaryBody>)
    -> (r: Vec2)
    ensures
        r@ == spec_acceleration(particle@, wells_view(stationary_bodies@), G as int),
{
    let ghost ws = wells_view(stationary_bodies@);
    let mut total_force = Vec2::new(0, 0);
    let mut i: usize = 0;
    while i < stationary_bodies.len()
        invariant
            i <= stationary_bodies.len(),
            ws == wells_view(stationary_bodies@),
            total_force@ == spec_total_force(particle@, ws.subrange(0, i as int), G as int),
        decreases stationary_bodies.len() - i,
    {
        let f = calculate_gravitational_force(particle, &stationary_bodies[i]);
        total_force = total_force.add(&f);
        proof {
            let pre = ws.subrange(0, i as int);
            let post = ws.subrange(0, i + 1);
            assert(post.drop_last() =~= pre);
            assert(post.last() == ws[i as int]);
        }
        i = i + 1;
    }
    proof {
        assert(ws.subrange(0, ws.len() as int) =~= ws);
    }
    total_force.div(particle.mass)
}

/// One explicit-Euler substep: the velocity absorbs the acceleration of the
/// pre-step state, then the position advances with the updated velocity.
#[verifier::opaque]
pub open spec fn spec_euler_step(p: ParticleV, ws: Seq<WellV>, dt: int, g: int) -> ParticleV {
    let a = spec_acceleration(p, ws, g);
    let vel2 = v2_add(p.vel, v2_scale(a, dt));
    let pos2 = v2_add(p.pos, v2_scale(vel2, dt));
    ParticleV { pos: pos2, vel: vel2, ..p }
}

/// One classical fourth-order Runge-Kutta substep. Every stage is evaluated
/// against the frozen pre-step state advanced by a fraction of the previous
/// stage, never against a partially updated state.
#[verifier::opaque]
pub open spec fn spec_rk4_step(p: ParticleV, ws: Seq<WellV>, dt: int, g: int) -> ParticleV {
    let k1_vel = v2_scale(spec_acceleration(p, ws, g), dt);
    let k1_pos = v2_scale(p.vel, dt);
    let t2 = ParticleV {
        pos: v2_add(p.pos, v2_scale(k1_pos, FX_HALF as int)),
        vel: v2_add(p.vel, v2_scale(k1_vel, FX_HALF as int)),
        ..p
    };
    let k2_vel = v2_scale(spec_acceleration(t2, ws, g), dt);
    let k2_pos = v2_scale(t2.vel, dt);
    let t3 = ParticleV {
        pos: v2_add(p.pos, v2_scale(k2_pos, FX_HALF as int)),
        vel: v2_add(p.vel, v2_scale(k2_vel, FX_HALF as int)),
        ..p
    };
    let k3_vel = v2_scale(spec_acceleration(t3, ws, g), dt);
    let k3_pos = v2_scale(t3.vel, dt);
    let t4 = ParticleV {
        pos: v2_add(p.pos, k3_pos),
        vel: v2_add(p.vel, k3_vel),
        ..p
    };
    let k4_vel = v2_scale(spec_acceleration(t4, ws, g), dt);
    let k4_pos = v2_scale(t4.vel, dt);
    let dvel = v2_div(
        v2_add(v2_add(v2_add(k1_vel, v2_scale(k2_vel, FX_TWO as int)),
            v2_scale(k3_vel, FX_TWO as int)), k4_vel),
        FX_SIX as int,
    );
    let dpos = v2_div(
        v2_add(v2_add(v2_add(k1_pos, v2_scale(k2_pos, FX_TWO as int)),
            v2_scale(k3_pos, FX_TWO as int)), k4_pos),
        FX_SIX as int,
    );
    ParticleV { pos: v2_add(p.pos, dpos), vel: v2_add(p.vel, dvel), ..p }
}

/// Advance the particle by one Euler substep of length `dt`.
pub fn update_particle_euler(
    particle: &mut TestParticle,
    stationary_bodies: &Vec<StationaryBody>,
    dt: i64,
)
    ensures
        final(particle)@ == spec_euler_step(old(particle)@, wells_view(stationary_bodies@), dt as int,
            G as int),
{
    proof {
        reveal(spec_euler_step);
    }
    let acceleration = calculate_acceleration(particle, stationary_bodies);
    particle.vel = particle.vel.add(&acceleration.mul(dt));
    particle.pos = particle.pos.add(&particle.vel.mul(dt));
}

/// Advance the particle by one Runge-Kutta substep of length `dt`.
pub fn update_particle_rk4(
    particle: &mut TestParticle,
    stationary_bodies: &Vec<StationaryBody>,
    dt: i64,
)
    ensures
        final(particle)@ == spec_rk4_step(old(particle)@, wells_view(stationary_bodies@), dt as int,
            G as int),
{
    proof {
        reveal(spec_rk4_step);
    }
    let original_particle = *particle;

    let k1_vel = calculate_acceleration(&original_particle, stationary_bodies).mul(dt);
    let k1_pos = original_particle.vel.mul(dt);

    let mut temp_particle = original_particle;
    temp_particle.pos = original_particle.pos.add(&k1_pos.mul(FX_HALF));
    temp_particle.vel = original_particle.vel.add(&k1_vel.mul(FX_HALF));
    let k2_vel = calculate_acceleration(&temp_particle, stationary_bodies).mul(dt);
    let k2_pos = temp_particle.vel.mul(dt);

    temp_particle = original_particle;
    temp_particle.pos = original_particle.pos.add(&k2_pos.mul(FX_HALF));
    temp_particle.vel = original_particle.vel.add(&k2_vel.mul(FX_HALF));
    let k3_vel = calculate_acceleration(&temp_particle, stationary_bodies).mul(dt);
    let k3_pos = temp_particle.vel.mul(dt);

    temp_particle = original_particle;
    temp_particle.pos = original_particle.pos.add(&k3_pos);
    temp_particle.vel = original_particle.vel.add(&k3_vel);
    let k4_vel = calculate_acceleration(&temp_particle, stationary_bodies).mul(dt);
    let k4_pos = temp_particle.vel.mul(dt);

    particle.vel = particle.vel.add(
        &k1_vel.add(&k2_vel.mul(FX_TWO)).add(&k3_vel.mul(FX_TWO)).add(&k4_vel).div(FX_SIX),
    );
    particle.pos = particle.pos.add(
        &k1_pos.add(&k2_pos.mul(FX_TWO)).add(&k3_pos.mul(FX_TWO)).add(&k4_pos).div(FX_SIX),
    );
}

/// First hit at or after index `k`: the least index `i >= k` whose well is
/// strictly closer to the particle than the threshold.
pub open spec fn first_hit_from(p: ParticleV, ws: Seq<WellV>, threshold: int, k: int) -> Option<
    int,
>
    decreases ws.len() - k,
{
    if k < 0 || k >= ws.len() {
        None
    } else if spec_distance(p.pos, ws[k].pos) < threshold {
        Some(k)
    } else {
        first_hit_from(p, ws, threshold, k + 1)
    }
}

/// The least well index strictly closer to the particle than the threshold.
pub open spec fn spec_first_hit(p: ParticleV, ws: Seq<WellV>, threshold: int) -> Option<int> {
    first_hit_from(p, ws, threshold, 0)
}

/// Index of the first well (in list order) whose center lies strictly within
/// `collision_threshold` of the particle, if any.
pub fn check_collision(
    particle: &TestParticle,
    stationary_bodies: &Vec<StationaryBody>,
    collision_threshold: i64,
) -> (r: Option<usize>)
    ensures
        match r {
            Some(i) => spec_first_hit(particle@, wells_view(stationary_bodies@),
                collision_threshold as int) == Some(i as int),
            None => spec_first_hit(particle@, wells_view(stationary_bodies@),
                collision_threshold as int) is None,
        },
{
    let ghost ws = wells_view(stationary_bodies@);
    let mut i: usize = 0;
    while i < stationary_bodies.len()
        invariant
            i <= stationary_bodies.len(),
            ws == wells_view(stationary_bodies@),
            spec_first_hit(particle@, ws, collision_threshold as int) == first_hit_from(
                particle@, ws, collision_threshold as int, i as int),
        decreases stationary_bodies.len() - i,
    {
        if particle.pos.distance(&stationary_bodies[i].pos) < collision_threshold {
            return Some(i);
        }
        i = i + 1;
    }
    None
}

/// A particle sitting exactly at some well's center is reported as a
/// collision whenever the threshold is positive (the reported index is the
/// first well within the threshold, which is at most that well's own index).
pub proof fn lemma_collision_at_center(p: ParticleV, ws: Seq<WellV>, threshold: int, j: int)
    requires
        threshold > 0,
        0 <= j < ws.len(),
        p.pos == ws[j].pos,
    ensures
        spec_first_hit(p, ws, threshold) is Some,
        spec_first_hit(p, ws, threshold)->Some_0 <= j,
{
    assert(v2_sub(p.pos, ws[j].pos) == v2_zero());
    assert(spec_distance(p.pos, ws[j].pos) == 0);
    lemma_hit_found_before(p, ws, threshold, 0, j);
}

proof fn lemma_hit_found_before(p: ParticleV, ws: Seq<WellV>, threshold: int, k: int, j: int)
    requires
        0 <= k <= j < ws.len(),
        spec_distance(p.pos, ws[j].pos) < threshold,
    ensures
        first_hit_from(p, ws, threshold, k) is Some,
        first_hit_from(p, ws, threshold, k)->Some_0 <= j,
    decreases j - k,
{
    if spec_distance(p.pos, ws[k].pos) < threshold {
    } else {
        lemma_hit_found_before(p, ws, threshold, k + 1, j);
    }
}

/// A particle at least the threshold away from every well is reported as
/// no collision.
pub proof fn lemma_no_collision_when_far(p: ParticleV, ws: Seq<WellV>, threshold: int)
    requires
        forall|i: int| 0 <= i < ws.len() ==> spec_distance(p.pos, ws[i].pos) >= threshold,
    ensures
        spec_first_hit(p, ws, threshold) is None,
{
    lemma_no_hit_from(p, ws, threshold, 0);
}

proof fn lemma_no_hit_from(p: ParticleV, ws: Seq<WellV>, threshold: int, k: int)
    requires
        k >= 0,
        forall|i: int| 0 <= i < ws.len() ==> spec_distance(p.pos, ws[i].pos) >= threshold,
    ensures
        first_hit_from(p, ws, threshold, k) is None,
    decreases ws.len() - k,
{
    if k < ws.len() {
        lemma_no_hit_from(p, ws, threshold, k + 1);
    }
}

/// A massless well exerts exactly zero force.
pub proof fn lemma_massless_zero_force(p: ParticleV, w: WellV, g: int)
    requires
        w.mass == 0,
    ensures
        spec_grav_force(p, w, g) == v2_zero(),
{
    let dir = v2_sub(w.pos, p.pos);
    let dist = spec_length(dir);
    if dist != 0 {
        crate::fixed::lemma_fx_mul_zero(spec_fx_mul(g, p.mass));
        crate::fixed::lemma_fx_div_zero(spec_fx_mul(dist, dist));
        crate::fixed::lemma_fx_mul_zero(spec_normalize(dir).x);
        crate::fixed::lemma_fx_mul_zero(spec_normalize(dir).y);
    }
}

/// In a field of massless wells (or no wells at all) the net force, and so
/// the acceleration, is exactly zero.
pub proof fn lemma_zero_field_zero_accel(p: ParticleV, ws: Seq<WellV>, g: int)
    requires
        forall|i: int| 0 <= i < ws.len() ==> #[trigger] ws[i].mass == 0,
    ensures
        spec_total_force(p, ws, g) == v2_zero(),
        spec_acceleration(p, ws, g) == v2_zero(),
    decreases ws.len(),
{
    if ws.len() > 0 {
        lemma_zero_field_zero_accel(p, ws.drop_last(), g);
        lemma_massless_zero_force(p, ws.last(), g);
    }
    crate::fixed::lemma_fx_div_zero(p.mass);
}

/// With zero acceleration everywhere, one Euler substep is straight-line
/// motion: the velocity is unchanged and the position advances by exactly
/// `velocity * dt`.
pub proof fn lemma_euler_straight_line(p: ParticleV, ws: Seq<WellV>, dt: int, g: int)
    requires
        forall|i: int| 0 <= i < ws.len() ==> #[trigger] ws[i].mass == 0,
        v2_in_range(p.vel),
    ensures
        spec_euler_step(p, ws, dt, g).vel == p.vel,
        spec_euler_step(p, ws, dt, g).pos == v2_add(p.pos, v2_scale(p.vel, dt)),
{
    reveal(spec_euler_step);
    lemma_zero_field_zero_accel(p, ws, g);
    crate::fixed::lemma_fx_mul_zero(dt);
    crate::fixed::lemma_fx_add_zero(p.vel.x);
    crate::fixed::lemma_fx_add_zero(p.vel.y);
}

/// With zero acceleration everywhere, one Runge-Kutta substep is the same
/// straight-line motion: all four stages see the same velocity, and their
/// weighted mean collapses to exactly `velocity * dt`.
pub proof fn lemma_rk4_straight_line(p: ParticleV, ws: Seq<WellV>, dt: int, g: int)
    requires
        forall|i: int| 0 <= i < ws.len() ==> #[trigger] ws[i].mass == 0,
        v2_in_range(p.vel),
        iabs(spec_fx_mul(p.vel.x, dt)) <= i64::MAX as int / 8,
        iabs(spec_fx_mul(p.vel.y, dt)) <= i64::MAX as int / 8,
    ensures
        spec_rk4_step(p, ws, dt, g).vel == p.vel,
        spec_rk4_step(p, ws, dt, g).pos == v2_add(p.pos, v2_scale(p.vel, dt)),
{
    reveal(spec_rk4_step);
    lemma_zero_field_zero_accel(p, ws, g);
    crate::fixed::lemma_fx_mul_zero(dt);
    crate::fixed::lemma_fx_mul_zero(FX_HALF as int);
    crate::fixed::lemma_fx_add_zero(p.vel.x);
    crate::fixed::lemma_fx_add_zero(p.vel.y);
    let k1_pos = v2_scale(p.vel, dt);
    let t2 = ParticleV {
        pos: v2_add(p.pos, v2_scale(k1_pos, FX_HALF as int)),
        vel: p.vel,
        ..p
    };
    lemma_zero_field_zero_accel(t2, ws, g);
    let t3 = ParticleV {
        pos: v2_add(p.pos, v2_scale(k1_pos, FX_HALF as int)),
        vel: p.vel,
        ..p
    };
    lemma_zero_field_zero_accel(t3, ws, g);
    lemma_zero_field_zero_accel(ParticleV { pos: v2_add(p.pos, k1_pos), vel: p.vel, ..p }, ws,
        g);
    crate::fixed::lemma_fx_div_zero(FX_SIX as int);
    crate::fixed::lemma_weighted_mean_of_equal(k1_pos.x);
    crate::fixed::lemma_weighted_mean_of_equal(k1_pos.y);
}

} // verus!
