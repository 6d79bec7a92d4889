//! The mutually-interacting scenario: a small set of bodies that all attract
//! one another.
//!
//! The integrator is system-aware: every Runge-Kutta stage of every body is
//! evaluated against one synchronized snapshot of the whole set, never
//! against a partially updated state. Collisions use the sum of the two
//! bodies' radii as the threshold, pairwise — a policy distinct from the
//! fixed threshold of the fixed-well scenario.

use vstd::prelude::*;
use crate::fixed::FX_HALF;
use crate::fixed::FX_ONE;
use crate::fixed::FX_SIX;
use crate::fixed::FX_TWO;
use crate::fixed::fx_add;
use crate::fixed::fx_div;
use crate::fixed::fx_mul;
use crate::fixed::iabs;
use crate::fixed::spec_fx_add;
use crate::fixed::spec_fx_div;
use crate::fixed::spec_fx_mul;
use crate::vec2::V2;
use crate::vec2::Vec2;
use crate::vec2::spec_distance;
use crate::vec2::spec_length;
use crate::vec2::spec_normalize;
use crate::vec2::v2_add;
use crate::vec2::v2_div;
use crate::vec2::v2_in_range;
use crate::vec2::v2_scale;
use crate::vec2::v2_sub;
use crate::vec2::v2_zero;

verus! {

/// Gravitational constant of this scenario (raw value denoting one). Tuned
/// independently of the fixed-well scenario's constant.
pub const G: i64 = 65536;

/// Outer timesteps in a run's budget.
pub const SIMULATION_TIMESTEPS: usize = 1000;

/// Integration substeps per outer timestep.
pub const SUBSTEPS: usize = 50;

/// Length of one substep: the frame time split over the substeps
/// (raw value denoting about 0.00032).
pub const SUBSTEP_DT: i64 = 21;

/// Mathematical image of a mutually-interacting body.
pub ghost struct GBodyV {
    pub pos: V2,
    pub vel: V2,
    pub mass: int,
    pub radius: int,
}

/// A gravitating body that both attracts and moves.
#[derive(Clone, Copy, Debug)]
pub struct GravBody {
    pub pos: Vec2,
    pub vel: Vec2,
    pub mass: i64,
    pub radius: i64,
}

impl View for GravBody {
    type V = GBodyV;

    open spec fn view(&self) -> GBodyV {
        GBodyV {
            pos: self.pos@,
            vel: self.vel@,
            mass: self.mass as int,
            radius: self.radius as int,
        }
    }
}

/// The images of a list of bodies, in order.
pub open spec fn bodies_view(s: Seq<GravBody>) -> Seq<GBodyV> {
    Seq::new(s.len(), |i: int| s[i]@)
}

/// The pull of `b` on `a`: zero when the two positions coincide, otherwise of
/// magnitude `g * a.mass * b.mass / dist^2` along the unit vector from `a`
/// toward `b`.
pub open spec fn spec_body_force(a: GBodyV, b: GBodyV, g: int) -> V2 {
    let dir = v2_sub(b.pos, a.pos);
    let dist = spec_length(dir);
    if dist == 0 {
        v2_zero()
    } else {
        let force_mag = spec_fx_div(
            spec_fx_mul(spec_fx_mul(g, a.mass), b.mass),
            spec_fx_mul(dist, dist),
        );
        v2_scale(spec_normalize(dir), force_mag)
    }
}

/// Net force on body `i` from the bodies of index below `j`, skipping `i`
/// itself, summed in index order.
pub open spec fn spec_net_force(bs: Seq<GBodyV>, i: int, j: int, g: int) -> V2
    decreases j,
{
    if j <= 0 {
        v2_zero()
    } else {
        let rest = spec_net_force(bs, i, j - 1, g);
        if j - 1 == i {
            rest
        } else {
            v2_add(rest, spec_body_force(bs[i], bs[j - 1], g))
        }
    }
}

/// Acceleration of body `i` under every other body of the set.
pub open spec fn spec_body_accel(bs: Seq<GBodyV>, i: int, g: int) -> V2 {
    v2_div(spec_net_force(bs, i, bs.len() as int, g), bs[i].mass)
}

impl GravBody {
    /// A body with the given state.
    pub fn new(pos: Vec2, vel: Vec2, mass: i64, radius: i64) -> (r: Self)
        ensures
            r@ == (GBodyV {
                pos: pos@,
                vel: vel@,
                mass: mass as int,
                radius: radius as int,
            }),
    {
        Self { pos, vel, mass, radius }
    }

    /// The gravitational pull of `other` on this body.
    pub fn grav_force(&self, other: &Self) -> (r: Vec2)
        ensures
            r@ == spec_body_force(self@, other@, G as int),
    {
        let dir = other.pos.sub(&self.pos);
        let dist = dir.length();
        if dist == 0 {
            return Vec2::new(0, 0);
        }
        let force_mag = fx_div(fx_mul(fx_mul(G, self.mass), other.mass), fx_mul(dist, dist));
        dir.normalize().mul(force_mag)
    }
}

/// Coincident bodies attract with exactly zero force.
pub proof fn lemma_zero_separation_zero_body_force(a: GBodyV, b: GBodyV, g: int)
    requires
        a.pos == b.pos,
    ensures
        spec_body_force(a, b, g) == v2_zero(),
{
    let dir = v2_sub(b.pos, a.pos);
    assert(dir.x == 0 && dir.y == 0);
    assert(spec_length(dir) == 0);
}

/// The acceleration of each body against the current state of the whole set.
pub fn get_accelerations(bodies: &Vec<GravBody>) -> (r: Vec<Vec2>)
    ensures
        r@.len() == bodies@.len(),
        forall|i: int|
            0 <= i < r@.len() ==> r@[i]@ == spec_body_accel(bodies_view(bodies@), i, G as int),
{
    let ghost bs = bodies_view(bodies@);
    let n = bodies.len();
    let mut accels: Vec<Vec2> = Vec::new();
    let mut i: usize = 0;
    while i < n
        invariant
            i <= n,
            n == bodies@.len(),
            bs == bodies_view(bodies@),
            accels@.len() == i,
            forall|q: int| 0 <= q < i ==> accels@[q]@ == spec_body_accel(bs, q, G as int),
        decreases n - i,
    {
        let mut total_force = Vec2::new(0, 0);
        let mut j: usize = 0;
        while j < n
            invariant
                j <= n,
                i < n,
                n == bodies@.len(),
                bs == bodies_view(bodies@),
                total_force@ == spec_net_force(bs, i as int, j as int, G as int),
            decreases n - j,
        {
            if i != j {
                let f = bodies[i].grav_force(&bodies[j]);
                total_force = total_force.add(&f);
            }
            j = j + 1;
        }
        let a = total_force.div(bodies[i].mass);
        accels.push(a);
        i = i + 1;
    }
    accels
}

/// The per-body derivative pair of one stage: `kv = accel * dt` against the
/// stage state, `kp = vel * dt` from the stage state.
pub open spec fn spec_stage_kv(bs: Seq<GBodyV>, dt: int, g: int) -> Seq<V2> {
    Seq::new(bs.len(), |i: int| v2_scale(spec_body_accel(bs, i, g), dt))
}

/// The position derivatives of one stage.
pub open spec fn spec_stage_kp(bs: Seq<GBodyV>, dt: int) -> Seq<V2> {
    Seq::new(bs.len(), |i: int| v2_scale(bs[i].vel, dt))
}

/// The frozen pre-step set advanced by `frac` of a stage's derivatives.
pub open spec fn spec_advance(orig: Seq<GBodyV>, kp: Seq<V2>, kv: Seq<V2>, frac: int) -> Seq<
    GBodyV,
> {
    Seq::new(orig.len(), |i: int| GBodyV {
        pos: v2_add(orig[i].pos, v2_scale(kp[i], frac)),
        vel: v2_add(orig[i].vel, v2_scale(kv[i], frac)),
        ..orig[i]
    })
}

/// The classical Runge-Kutta weighted mean: `(a + 2b + 2c + d) / 6`.
pub open spec fn spec_rk4_combine(a: V2, b: V2, c: V2, d: V2) -> V2 {
    v2_div(
        v2_add(v2_add(v2_add(a, v2_scale(b, FX_TWO as int)), v2_scale(c, FX_TWO as int)), d),
        FX_SIX as int,
    )
}

/// One system-aware Runge-Kutta substep over the whole set: four stages, each
/// evaluated against a consistent snapshot of all bodies, then one combined
/// update per body.
#[verifier::opaque]
pub open spec fn spec_update_bodies(bs: Seq<GBodyV>, dt: int, g: int) -> Seq<GBodyV> {
    let k1v = spec_stage_kv(bs, dt, g);
    let k1p = spec_stage_kp(bs, dt);
    let t2 = spec_advance(bs, k1p, k1v, FX_HALF as int);
    let k2v = spec_stage_kv(t2, dt, g);
    let k2p = spec_stage_kp(t2, dt);
    let t3 = spec_advance(bs, k2p, k2v, FX_HALF as int);
    let k3v = spec_stage_kv(t3, dt, g);
    let k3p = spec_stage_kp(t3, dt);
    let t4 = spec_advance(bs, k3p, k3v, FX_ONE as int);
    let k4v = spec_stage_kv(t4, dt, g);
    let k4p = spec_stage_kp(t4, dt);
    Seq::new(bs.len(), |i: int| GBodyV {
        pos: v2_add(bs[i].pos, spec_rk4_combine(k1p[i], k2p[i], k3p[i], k4p[i])),
        vel: v2_add(bs[i].vel, spec_rk4_combine(k1v[i], k2v[i], k3v[i], k4v[i])),
        ..bs[i]
    })
}

fn copy_bodies(v: &Vec<GravBody>) -> (r: Vec<GravBody>)
    ensures
        r@ =~= v@,
{
    let mut out: Vec<GravBody> = Vec::new();
    let mut i: usize = 0;
    while i < v.len()
        invariant
            i <= v@.len(),
            out@ =~= v@.subrange(0, i as int),
        decreases v@.len() - i,
    {
        out.push(v[i]);
        i = i + 1;
    }
    out
}

fn stage_derivs(state: &Vec<GravBody>, dt: i64) -> (r: (Vec<Vec2>, Vec<Vec2>))
    ensures
        r.0@.len() == state@.len(),
        r.1@.len() == state@.len(),
        forall|i: int|
            0 <= i < state@.len() ==> r.0@[i]@ == spec_stage_kv(bodies_view(state@), dt as int,
                G as int)[i],
        forall|i: int|
            0 <= i < state@.len() ==> r.1@[i]@ == spec_stage_kp(bodies_view(state@), dt as int)[i],
{
    let ghost bs = bodies_view(state@);
    let accels = get_accelerations(state);
    let n = state.len();
    let mut kv: Vec<Vec2> = Vec::new();
    let mut kp: Vec<Vec2> = Vec::new();
    let mut i: usize = 0;
    while i < n
        invariant
            i <= n,
            n == state@.len(),
            bs == bodies_view(state@),
            accels@.len() == n,
            forall|q: int| 0 <= q < n ==> accels@[q]@ == spec_body_accel(bs, q, G as int),
            kv@.len() == i,
            kp@.len() == i,
            forall|q: int| 0 <= q < i ==> kv@[q]@ == v2_scale(spec_body_accel(bs, q, G as int),
                dt as int),
            forall|q: int| 0 <= q < i ==> kp@[q]@ == v2_scale(bs[q].vel, dt as int),
        decreases n - i,
    {
        kv.push(accels[i].mul(dt));
        kp.push(state[i].vel.mul(dt));
        i = i + 1;
    }
    (kv, kp)
}

fn advance(orig: &Vec<GravBody>, kp: &Vec<Vec2>, kv: &Vec<Vec2>, frac: i64) -> (r: Vec<GravBody>)
    requires
        kp@.len() == orig@.len(),
        kv@.len() == orig@.len(),
    ensures
        r@.len() == orig@.len(),
        forall|i: int|
            0 <= i < r@.len() ==> r@[i]@ == spec_advance(bodies_view(orig@),
                Seq::new(kp@.len(), |q: int| kp@[q]@), Seq::new(kv@.len(), |q: int| kv@[q]@),
                frac as int)[i],
{
    let ghost bs = bodies_view(orig@);
    let ghost kps = Seq::new(kp@.len(), |q: int| kp@[q]@);
    let ghost kvs = Seq::new(kv@.len(), |q: int| kv@[q]@);
    let n = orig.len();
    let mut out: Vec<GravBody> = Vec::new();
    let mut i: usize = 0;
    while i < n
        invariant
            i <= n,
            n == orig@.len(),
            bs == bodies_view(orig@),
            kps == Seq::new(kp@.len(), |q: int| kp@[q]@),
            kvs == Seq::new(kv@.len(), |q: int| kv@[q]@),
            kp@.len() == n,
            kv@.len() == n,
            out@.len() == i,
            forall|q: int| 0 <= q < i ==> out@[q]@ == spec_advance(bs, kps, kvs, frac as int)[q],
        decreases n - i,
    {
        let b = GravBody {
            pos: orig[i].pos.add(&kp[i].mul(frac)),
            vel: orig[i].vel.add(&kv[i].mul(frac)),
            mass: orig[i].mass,
            radius: orig[i].radius,
        };
        out.push(b);
        i = i + 1;
    }
    out
}

/// Advance the whole body set by one system-aware Runge-Kutta substep.
pub fn update_bodies(bodies: &mut Vec<GravBody>, dt: i64)
    ensures
        final(bodies)@.len() == old(bodies)@.len(),
        bodies_view(final(bodies)@) == spec_update_bodies(bodies_view(old(bodies)@), dt as int,
            G as int),
{
    let ghost bs = bodies_view(old(bodies)@);
    let n = bodies.len();
    let original_bodies = copy_bodies(bodies);
    proof {
        assert(bodies_view(original_bodies@) =~= bs);
    }

    let (k1v, k1p) = stage_derivs(&original_bodies, dt);
    let ghost k1vs = spec_stage_kv(bs, dt as int, G as int);
    let ghost k1ps = spec_stage_kp(bs, dt as int);
    proof {
        assert(Seq::new(k1p@.len(), |q: int| k1p@[q]@) =~= k1ps);
        assert(Seq::new(k1v@.len(), |q: int| k1v@[q]@) =~= k1vs);
    }
    let temp2 = advance(&original_bodies, &k1p, &k1v, FX_HALF);
    let ghost t2 = spec_advance(bs, k1ps, k1vs, FX_HALF as int);
    proof {
        assert(bodies_view(temp2@) =~= t2);
    }

    let (k2v, k2p) = stage_derivs(&temp2, dt);
    let ghost k2vs = spec_stage_kv(t2, dt as int, G as int);
    let ghost k2ps = spec_stage_kp(t2, dt as int);
    proof {
        assert(Seq::new(k2p@.len(), |q: int| k2p@[q]@) =~= k2ps);
        assert(Seq::new(k2v@.len(), |q: int| k2v@[q]@) =~= k2vs);
    }
    let temp3 = advance(&original_bodies, &k2p, &k2v, FX_HALF);
    let ghost t3 = spec_advance(bs, k2ps, k2vs, FX_HALF as int);
    proof {
        assert(bodies_view(temp3@) =~= t3);
    }

    let (k3v, k3p) = stage_derivs(&temp3, dt);
    let ghost k3vs = spec_stage_kv(t3, dt as int, G as int);
    let ghost k3ps = spec_stage_kp(t3, dt as int);
    proof {
        assert(Seq::new(k3p@.len(), |q: int| k3p@[q]@) =~= k3ps);
        assert(Seq::new(k3v@.len(), |q: int| k3v@[q]@) =~= k3vs);
    }
    let temp4 = advance(&original_bodies, &k3p, &k3v, FX_ONE);
    let ghost t4 = spec_advance(bs, k3ps, k3vs, FX_ONE as int);
    proof {
        assert(bodies_view(temp4@) =~= t4);
    }

    let (k4v, k4p) = stage_derivs(&temp4, dt);
    let ghost k4vs = spec_stage_kv(t4, dt as int, G as int);
    let ghost k4ps = spec_stage_kp(t4, dt as int);
    proof {
        assert(Seq::new(k4p@.len(), |q: int| k4p@[q]@) =~= k4ps);
        assert(Seq::new(k4v@.len(), |q: int| k4v@[q]@) =~= k4vs);
    }

    let mut out: Vec<GravBody> = Vec::new();
    let mut i: usize = 0;
    while i < n
        invariant
            i <= n,
            n == original_bodies@.len(),
            bs == bodies_view(original_bodies@),
            k1p@.len() == n && k1v@.len() == n && k2p@.len() == n && k2v@.len() == n,
            k3p@.len() == n && k3v@.len() == n && k4p@.len() == n && k4v@.len() == n,
            forall|q: int| 0 <= q < n ==> k1p@[q]@ == k1ps[q] && k1v@[q]@ == k1vs[q],
            forall|q: int| 0 <= q < n ==> k2p@[q]@ == k2ps[q] && k2v@[q]@ == k2vs[q],
            forall|q: int| 0 <= q < n ==> k3p@[q]@ == k3ps[q] && k3v@[q]@ == k3vs[q],
            forall|q: int| 0 <= q < n ==> k4p@[q]@ == k4ps[q] && k4v@[q]@ == k4vs[q],
            k1ps == spec_stage_kp(bs, dt as int) && k1vs == spec_stage_kv(bs, dt as int, G as int),
            k2ps == spec_stage_kp(t2, dt as int) && k2vs == spec_stage_kv(t2, dt as int, G as int),
            k3ps == spec_stage_kp(t3, dt as int) && k3vs == spec_stage_kv(t3, dt as int, G as int),
            k4ps == spec_stage_kp(t4, dt as int) && k4vs == spec_stage_kv(t4, dt as int, G as int),
            t2 == spec_advance(bs, k1ps, k1vs, FX_HALF as int),
            t3 == spec_advance(bs, k2ps, k2vs, FX_HALF as int),
            t4 == spec_advance(bs, k3ps, k3vs, FX_ONE as int),
            out@.len() == i,
            forall|q: int|
                0 <= q < i ==> out@[q]@ == (GBodyV {
                    pos: v2_add(bs[q].pos, spec_rk4_combine(k1ps[q], k2ps[q], k3ps[q],
                        k4ps[q])),
                    vel: v2_add(bs[q].vel, spec_rk4_combine(k1vs[q], k2vs[q], k3vs[q],
                        k4vs[q])),
                    mass: bs[q].mass,
                    radius: bs[q].radius,
                }),
        decreases n - i,
    {
        let dpos = k1p[i].add(&k2p[i].mul(FX_TWO)).add(&k3p[i].mul(FX_TWO)).add(&k4p[i]).div(
            FX_SIX);
        let dvel = k1v[i].add(&k2v[i].mul(FX_TWO)).add(&k3v[i].mul(FX_TWO)).add(&k4v[i]).div(
            FX_SIX);
        let b = GravBody {
            pos: original_bodies[i].pos.add(&dpos),
            vel: original_bodies[i].vel.add(&dvel),
            mass: original_bodies[i].mass,
            radius: original_bodies[i].radius,
        };
        out.push(b);
        i = i + 1;
    }
    *bodies = out;
    proof {
        reveal(spec_update_bodies);
        assert(bodies_view(bodies@) =~= spec_update_bodies(bs, dt as int, G as int));
    }
}

/// Two bodies of the set stand closer than the sum of their radii.
pub open spec fn spec_pair_hit(bs: Seq<GBodyV>, i: int, j: int) -> bool {
    spec_distance(bs[i].pos, bs[j].pos) < spec_fx_add(bs[i].radius, bs[j].radius)
}

/// Some pair of the three bodies has collided.
pub open spec fn spec_any_collision3(bs: Seq<GBodyV>) -> bool {
    spec_pair_hit(bs, 0, 1) || spec_pair_hit(bs, 0, 2) || spec_pair_hit(bs, 1, 2)
}

/// Whether any pair of the three bodies stands closer than the sum of its
/// radii.
pub fn check_pair_collision(bodies: &Vec<GravBody>) -> (r: bool)
    requires
        bodies@.len() == 3,
    ensures
        r == spec_any_collision3(bodies_view(bodies@)),
{
    bodies[0].pos.distance(&bodies[1].pos) < fx_add(bodies[0].radius, bodies[1].radius)
        || bodies[0].pos.distance(&bodies[2].pos) < fx_add(bodies[0].radius, bodies[2].radius)
        || bodies[1].pos.distance(&bodies[2].pos) < fx_add(bodies[1].radius, bodies[2].radius)
}

/// Where a burst of substeps ends: whether a pair collided (the burst stops
/// at that substep), and the set's state there.
pub ghost struct Sub3End {
    pub collided: bool,
    pub bodies: Seq<GBodyV>,
}

/// Run up to `k` substeps, stopping at the first substep after which some
/// pair has collided.
pub open spec fn spec_run3_substeps(bs: Seq<GBodyV>, dt: int, g: int, k: nat) -> Sub3End
    decreases k,
{
    if k == 0 {
        Sub3End { collided: false, bodies: bs }
    } else {
        let b2 = spec_update_bodies(bs, dt, g);
        if spec_any_collision3(b2) {
            Sub3End { collided: true, bodies: b2 }
        } else {
            spec_run3_substeps(b2, dt, g, (k - 1) as nat)
        }
    }
}

/// Where a whole run ends: the outer timestep of the first collision (the
/// full budget when no pair ever collides) and the final state of the set.
pub ghost struct Run3End {
    pub time: int,
    pub bodies: Seq<GBodyV>,
}

/// Outcome of running from outer timestep `t` to the budget `n`.
pub open spec fn spec_run3_from(bs: Seq<GBodyV>, t: nat, n: nat) -> Run3End
    decreases n - t,
{
    if t >= n {
        Run3End { time: n as int, bodies: bs }
    } else {
        let end = spec_run3_substeps(bs, SUBSTEP_DT as int, G as int, SUBSTEPS as nat);
        if end.collided {
            Run3End { time: t as int, bodies: end.bodies }
        } else {
            spec_run3_from(end.bodies, t + 1, n)
        }
    }
}

/// The complete outcome of one three-body run: a pure function of the
/// initial state.
pub open spec fn spec_run3(bs: Seq<GBodyV>) -> Run3End {
    spec_run3_from(bs, 0, SIMULATION_TIMESTEPS as nat)
}

/// Run the three bodies to their outcome: the outer timestep of the first
/// pairwise collision, or the full budget when none happens. The bodies are
/// left in their final state.
pub fn run_simulation(bodies: &mut Vec<GravBody>) -> (r: usize)
    requires
        old(bodies)@.len() == 3,
    ensures
        ({
            let end = spec_run3(bodies_view(old(bodies)@));
            r as int == end.time && bodies_view(final(bodies)@) == end.bodies
        }),
{
    let ghost bs0 = bodies_view(bodies@);
    let mut cur = copy_bodies(bodies);
    proof {
        assert(bodies_view(cur@) =~= bs0);
    }
    let mut timestep: usize = 0;
    let mut hit = false;
    while timestep < SIMULATION_TIMESTEPS && !hit
        invariant
            timestep <= SIMULATION_TIMESTEPS,
            cur@.len() == 3,
            bs0 == bodies_view(old(bodies)@),
            !hit ==> spec_run3_from(bs0, 0, SIMULATION_TIMESTEPS as nat) == spec_run3_from(
                bodies_view(cur@), timestep as nat, SIMULATION_TIMESTEPS as nat),
            hit ==> timestep < SIMULATION_TIMESTEPS && spec_run3_from(bs0, 0,
                SIMULATION_TIMESTEPS as nat) == (Run3End { time: timestep as int,
                bodies: bodies_view(cur@) }),
        decreases SIMULATION_TIMESTEPS - timestep, (if hit { 0int } else { 1int }),
    {
        let ghost enter = bodies_view(cur@);
        let mut s: usize = 0;
        let mut collided = false;
        while s < SUBSTEPS && !collided
            invariant
                s <= SUBSTEPS,
                cur@.len() == 3,
                enter.len() == 3,
                !collided ==> spec_run3_substeps(enter, SUBSTEP_DT as int, G as int,
                    SUBSTEPS as nat) == spec_run3_substeps(bodies_view(cur@),
                    SUBSTEP_DT as int, G as int, (SUBSTEPS - s) as nat),
                collided ==> spec_run3_substeps(enter, SUBSTEP_DT as int, G as int,
                    SUBSTEPS as nat) == (Sub3End { collided: true, bodies: bodies_view(
                    cur@) }),
            decreases SUBSTEPS - s, (if collided { 0int } else { 1int }),
        {
            let ghost prev = bodies_view(cur@);
            update_bodies(&mut cur, SUBSTEP_DT);
            if check_pair_collision(&cur) {
                collided = true;
                proof {
                    assert(spec_run3_substeps(prev, SUBSTEP_DT as int, G as int,
                        (SUBSTEPS - s) as nat) == (Sub3End { collided: true,
                        bodies: bodies_view(cur@) }));
                }
            } else {
                proof {
                    assert(spec_run3_substeps(prev, SUBSTEP_DT as int, G as int,
                        (SUBSTEPS - s) as nat) == spec_run3_substeps(bodies_view(cur@),
                        SUBSTEP_DT as int, G as int, (SUBSTEPS - s - 1) as nat));
                }
            }
            s = s + 1;
        }
        proof {
            if !collided {
                assert(spec_run3_substeps(bodies_view(cur@), SUBSTEP_DT as int, G as int,
                    0nat) == (Sub3End { collided: false, bodies: bodies_view(cur@) }));
            }
        }
        if collided {
            hit = true;
        } else {
            timestep = timestep + 1;
        }
    }
    *bodies = cur;
    if hit {
        timestep
    } else {
        proof {
            assert(spec_run3_from(bodies_view(cur@), SIMULATION_TIMESTEPS as nat,
                SIMULATION_TIMESTEPS as nat) == (Run3End { time: SIMULATION_TIMESTEPS as int,
                bodies: bodies_view(cur@) }));
        }
        SIMULATION_TIMESTEPS
    }
}

/// A lone body feels no force from the rest of the set (there is none).
pub proof fn lemma_single_body_zero_accel(s: Seq<GBodyV>, g: int)
    requires
        s.len() == 1,
    ensures
        spec_body_accel(s, 0, g) == v2_zero(),
{
    assert(spec_net_force(s, 0, 1, g) == spec_net_force(s, 0, 0, g));
    assert(spec_net_force(s, 0, 0, g) == v2_zero());
    crate::fixed::lemma_fx_div_zero(s[0].mass);
}

/// With no forces anywhere, one system-aware Runge-Kutta substep moves a
/// lone body in a straight line: the velocity is unchanged and the position
/// advances by exactly `velocity * dt`.
pub proof fn lemma_update_bodies_straight_line(bs: Seq<GBodyV>, dt: int, g: int)
    requires
        bs.len() == 1,
        v2_in_range(bs[0].vel),
        iabs(spec_fx_mul(bs[0].vel.x, dt)) <= i64::MAX as int / 8,
        iabs(spec_fx_mul(bs[0].vel.y, dt)) <= i64::MAX as int / 8,
    ensures
        spec_update_bodies(bs, dt, g).len() == 1,
        spec_update_bodies(bs, dt, g)[0].vel == bs[0].vel,
        spec_update_bodies(bs, dt, g)[0].pos == v2_add(bs[0].pos, v2_scale(bs[0].vel, dt)),
{
    reveal(spec_update_bodies);
    crate::fixed::lemma_fx_mul_zero(dt);
    crate::fixed::lemma_fx_mul_zero(FX_HALF as int);
    crate::fixed::lemma_fx_mul_zero(FX_ONE as int);
    crate::fixed::lemma_fx_add_zero(bs[0].vel.x);
    crate::fixed::lemma_fx_add_zero(bs[0].vel.y);
    crate::fixed::lemma_fx_div_zero(FX_SIX as int);
    lemma_single_body_zero_accel(bs, g);
    let k1v = spec_stage_kv(bs, dt, g);
    let k1p = spec_stage_kp(bs, dt);
    assert(k1v[0] == v2_zero());
    let t2 = spec_advance(bs, k1p, k1v, FX_HALF as int);
    assert(t2[0].vel == bs[0].vel);
    lemma_single_body_zero_accel(t2, g);
    let k2v = spec_stage_kv(t2, dt, g);
    let k2p = spec_stage_kp(t2, dt);
    assert(k2v[0] == v2_zero());
    assert(k2p[0] == k1p[0]);
    let t3 = spec_advance(bs, k2p, k2v, FX_HALF as int);
    assert(t3[0].vel == bs[0].vel);
    lemma_single_body_zero_accel(t3, g);
    let k3v = spec_stage_kv(t3, dt, g);
    let k3p = spec_stage_kp(t3, dt);
    assert(k3v[0] == v2_zero());
    assert(k3p[0] == k1p[0]);
    let t4 = spec_advance(bs, k3p, k3v, FX_ONE as int);
    assert(t4[0].vel == bs[0].vel);
    lemma_single_body_zero_accel(t4, g);
    let k4v = spec_stage_kv(t4, dt, g);
    let k4p = spec_stage_kp(t4, dt);
    assert(k4v[0] == v2_zero());
    assert(k4p[0] == k1p[0]);
    assert(spec_rk4_combine(k1v[0], k2v[0], k3v[0], k4v[0]) == v2_zero());
    crate::fixed::lemma_weighted_mean_of_equal(k1p[0].x);
    crate::fixed::lemma_weighted_mean_of_equal(k1p[0].y);
    assert(spec_rk4_combine(k1p[0], k2p[0], k3p[0], k4p[0]) == k1p[0]);
}

/// Trajectory sampling cadence of the stepped replay, in outer timesteps.
pub const POSITION_SAMPLE_RATE: usize = 1;

/// Mathematical image of a stepped three-body replay: the set's state, one
/// recorded trail per body, and the outer timestep reached (the full budget
/// once the replay has ended).
pub ghost struct Live3V {
    pub bodies: Seq<GBodyV>,
    pub trails: Seq<Seq<V2>>,
    pub timestep: int,
}

/// One frame of replay: a finished state is left untouched; otherwise the
/// set advances one outer timestep's worth of substeps with the same early
/// exit as a batch run. A collision ends the replay by exhausting the
/// counter; otherwise each body's trail is sampled at the fixed cadence.
pub open spec fn spec_live3_step(s: Live3V) -> Live3V {
    if s.timestep >= SIMULATION_TIMESTEPS as int {
        s
    } else {
        let end = spec_run3_substeps(s.bodies, SUBSTEP_DT as int, G as int, SUBSTEPS as nat);
        if end.collided {
            Live3V { bodies: end.bodies, timestep: SIMULATION_TIMESTEPS as int, ..s }
        } else {
            let t2 = s.timestep + 1;
            let trails2 = if t2 % (POSITION_SAMPLE_RATE as int) == 0 {
                Seq::new(s.trails.len(), |i: int| s.trails[i].push(end.bodies[i].pos))
            } else {
                s.trails
            };
            Live3V { bodies: end.bodies, trails: trails2, timestep: t2 }
        }
    }
}

/// A replayed three-body run held as mutable state, advanced one displayed
/// frame at a time by a host loop, through the same substep logic as the
/// batch runs.
pub struct LiveSimulationState {
    pub bodies: Vec<GravBody>,
    pub trajectory_history: Vec<Vec<Vec2>>,
    pub current_timestep: usize,
}

impl View for LiveSimulationState {
    type V = Live3V;

    open spec fn view(&self) -> Live3V {
        Live3V {
            bodies: bodies_view(self.bodies@),
            trails: Seq::new(self.trajectory_history@.len(), |i: int| Seq::new(
                self.trajectory_history@[i]@.len(), |j: int| self.trajectory_history@[i]@[j]@)),
            timestep: self.current_timestep as int,
        }
    }
}

impl LiveSimulationState {
    /// A fresh replay of the given three bodies; each trail starts with its
    /// body's launch position.
    pub fn new(bodies: Vec<GravBody>) -> (r: Self)
        requires
            bodies@.len() == 3,
        ensures
            r@.bodies == bodies_view(bodies@),
            r@.timestep == 0,
            r@.trails.len() == 3,
            forall|i: int| 0 <= i < 3 ==> r@.trails[i] =~= seq![bodies@[i]@.pos],
    {
        let mut trails: Vec<Vec<Vec2>> = Vec::new();
        trails.push(vec![bodies[0].pos]);
        trails.push(vec![bodies[1].pos]);
        trails.push(vec![bodies[2].pos]);
        Self { bodies, trajectory_history: trails, current_timestep: 0 }
    }

    /// Advance by one outer timestep's worth of substeps, exactly as a batch
    /// run would; finished states stay as they are.
    pub fn step(&mut self)
        requires
            old(self)@.bodies.len() == 3,
            old(self)@.trails.len() == 3,
        ensures
            final(self)@ == spec_live3_step(old(self)@),
    {
        if self.current_timestep < SIMULATION_TIMESTEPS {
            let ghost enter = bodies_view(self.bodies@);
            let mut cur = copy_bodies(&self.bodies);
            proof {
                assert(bodies_view(cur@) =~= enter);
            }
            let mut s: usize = 0;
            let mut collided = false;
            while s < SUBSTEPS && !collided
                invariant
                    s <= SUBSTEPS,
                    cur@.len() == 3,
                    !collided ==> spec_run3_substeps(enter, SUBSTEP_DT as int, G as int,
                        SUBSTEPS as nat) == spec_run3_substeps(bodies_view(cur@),
                        SUBSTEP_DT as int, G as int, (SUBSTEPS - s) as nat),
                    collided ==> spec_run3_substeps(enter, SUBSTEP_DT as int, G as int,
                        SUBSTEPS as nat) == (Sub3End { collided: true, bodies: bodies_view(
                        cur@) }),
                decreases SUBSTEPS - s, (if collided { 0int } else { 1int }),
            {
                let ghost prev = bodies_view(cur@);
                update_bodies(&mut cur, SUBSTEP_DT);
                if check_pair_collision(&cur) {
                    collided = true;
                    proof {
                        assert(spec_run3_substeps(prev, SUBSTEP_DT as int, G as int,
                            (SUBSTEPS - s) as nat) == (Sub3End { collided: true,
                            bodies: bodies_view(cur@) }));
                    }
                } else {
                    proof {
                        assert(spec_run3_substeps(prev, SUBSTEP_DT as int, G as int,
                            (SUBSTEPS - s) as nat) == spec_run3_substeps(bodies_view(cur@),
                            SUBSTEP_DT as int, G as int, (SUBSTEPS - s - 1) as nat));
                    }
                }
                s = s + 1;
            }
            proof {
                if !collided {
                    assert(spec_run3_substeps(bodies_view(cur@), SUBSTEP_DT as int, G as int,
                        0nat) == (Sub3End { collided: false, bodies: bodies_view(cur@) }));
                }
            }
            self.bodies = cur;
            if collided {
                self.current_timestep = SIMULATION_TIMESTEPS;
            } else {
                self.current_timestep = self.current_timestep + 1;
                if self.current_timestep % POSITION_SAMPLE_RATE == 0 {
                    let mut t0 = self.trajectory_history[0].clone();
                    let mut t1 = self.trajectory_history[1].clone();
                    let mut t2v = self.trajectory_history[2].clone();
                    t0.push(self.bodies[0].pos);
                    t1.push(self.bodies[1].pos);
                    t2v.push(self.bodies[2].pos);
                    let mut trails: Vec<Vec<Vec2>> = Vec::new();
                    trails.push(t0);
                    trails.push(t1);
                    trails.push(t2v);
                    self.trajectory_history = trails;
                }
            }
            proof {
                assert(final(self)@.trails =~~= spec_live3_step(old(self)@).trails);
                assert(final(self)@ == spec_live3_step(old(self)@));
            }
        }
    }
}

} // verus!
