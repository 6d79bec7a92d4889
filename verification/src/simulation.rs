//! Single-run outcome classification and stepped replay for the fixed-well
//! scenario.
//!
//! A run advances the particle through outer timesteps of several substeps
//! each and stops at the first substep whose post-state violates the
//! collision threshold; the outcome records the well hit and the outer
//! timestep at which it happened. The early exit is deliberate: the reported
//! timestep is the coarse collision time the sweep colors by.

use vstd::prelude::*;
use crate::physics::G;
use crate::physics::ParticleV;
use crate::physics::StationaryBody;
use crate::physics::TestParticle;
use crate::physics::WellV;
use crate::physics::check_collision;
use crate::physics::spec_euler_step;
use crate::physics::spec_first_hit;
use crate::physics::spec_rk4_step;
use crate::physics::update_particle_euler;
use crate::physics::update_particle_rk4;
use crate::physics::wells_view;
use crate::vec2::V2;
use crate::vec2::Vec2;

verus! {

/// Outer timesteps in a run's budget.
pub const SIMULATION_TIMESTEPS: usize = 2000;

/// Integration substeps per outer timestep.
pub const SUBSTEPS: usize = 10;

/// Mass of the probe particle (raw value denoting one).
pub const TEST_PARTICLE_MASS: i64 = 65536;

/// Radius of the probe particle (raw value denoting one).
pub const TEST_PARTICLE_RADIUS: i64 = 65536;

/// Center-to-center distance under which the particle has hit a well
/// (raw value denoting fifteen). A single constant, regardless of radius:
/// this scenario's policy, distinct from the sum-of-radii policy of the
/// mutually-interacting scenario.
pub const COLLISION_THRESHOLD: i64 = 983040;

/// Length of one substep: the frame time split over the substeps
/// (raw value denoting about 0.0016).
pub const SUBSTEP_DT: i64 = 105;

/// Trajectory sampling cadence of the stepped replay, in outer timesteps.
pub const TRAJECTORY_SAMPLE_RATE: usize = 5;

/// The two selectable integrators. Runge-Kutta is the accurate default;
/// Euler is kept as the cheap, visibly less accurate alternative.
#[derive(Clone, Copy, Debug, PartialEq, Eq, Structural)]
pub enum IntegrationMethod {
    Euler,
    RungeKutta4,
}

/// One substep under the selected integrator.
pub open spec fn spec_substep(
    p: ParticleV,
    ws: Seq<WellV>,
    dt: int,
    g: int,
    method: IntegrationMethod,
) -> ParticleV {
    match method {
        IntegrationMethod::Euler => spec_euler_step(p, ws, dt, g),
        IntegrationMethod::RungeKutta4 => spec_rk4_step(p, ws, dt, g),
    }
}

/// Where a burst of substeps ends: the particle state reached, and the index
/// of the well hit if a substep's post-state violated the threshold (the
/// burst stops at that substep).
pub ghost struct SubstepsEnd {
    pub hit: Option<int>,
    pub particle: ParticleV,
}

/// Run up to `k` substeps, stopping at the first collision.
pub open spec fn spec_run_substeps(
    p: ParticleV,
    ws: Seq<WellV>,
    threshold: int,
    dt: int,
    g: int,
    method: IntegrationMethod,
    k: nat,
) -> SubstepsEnd
    decreases k,
{
    if k == 0 {
        SubstepsEnd { hit: None, particle: p }
    } else {
        let p2 = spec_substep(p, ws, dt, g, method);
        match spec_first_hit(p2, ws, threshold) {
            Some(i) => SubstepsEnd { hit: Some(i), particle: p2 },
            None => spec_run_substeps(p2, ws, threshold, dt, g, method, (k - 1) as nat),
        }
    }
}

/// Outcome of running from outer timestep `t` to the budget `n`: the well hit
/// and the outer timestep of the hit, or `None` when the budget is exhausted.
pub open spec fn spec_run_from(
    p: ParticleV,
    ws: Seq<WellV>,
    threshold: int,
    dt: int,
    g: int,
    method: IntegrationMethod,
    t: nat,
    n: nat,
) -> Option<(int, int)>
    decreases n - t,
{
    if t >= n {
        None
    } else {
        let end = spec_run_substeps(p, ws, threshold, dt, g, method, SUBSTEPS as nat);
        match end.hit {
            Some(i) => Some((i, t as int)),
            None => spec_run_from(end.particle, ws, threshold, dt, g, method, t + 1, n),
        }
    }
}

/// The executable outcome `r` agrees with the mathematical outcome `o`.
pub open spec fn outcome_matches(r: Option<(usize, usize)>, o: Option<(int, int)>) -> bool {
    match r {
        Some(p) => o == Some((p.0 as int, p.1 as int)),
        None => o is None,
    }
}

/// Runs are deterministic: the contract of a run pins its result to the
/// mathematical outcome of its inputs, and two executable outcomes that
/// match one mathematical outcome are the same outcome. So identical inputs
/// always produce an identical result, run after run.
pub proof fn lemma_outcome_unique(
    r1: Option<(usize, usize)>,
    r2: Option<(usize, usize)>,
    o: Option<(int, int)>,
)
    requires
        outcome_matches(r1, o),
        outcome_matches(r2, o),
    ensures
        r1 == r2,
{
}

/// The probe particle launched at `start` with velocity `vel`.
pub open spec fn spec_initial_particle(start: V2, vel: V2) -> ParticleV {
    ParticleV {
        pos: start,
        vel: vel,
        mass: TEST_PARTICLE_MASS as int,
        radius: TEST_PARTICLE_RADIUS as int,
    }
}

/// The complete outcome of one run: a pure function of the initial condition,
/// the wells and the integrator, which is what makes runs reproducible.
pub open spec fn spec_run(
    start: V2,
    vel: V2,
    ws: Seq<WellV>,
    method: IntegrationMethod,
) -> Option<(int, int)> {
    spec_run_from(
        spec_initial_particle(start, vel),
        ws,
        COLLISION_THRESHOLD as int,
        SUBSTEP_DT as int,
        G as int,
        method,
        0,
        SIMULATION_TIMESTEPS as nat,
    )
}

#[verifier::rlimit(60)]
fn run_substeps(
    particle: TestParticle,
    stationary_bodies: &Vec<StationaryBody>,
    integration_method: IntegrationMethod,
) -> (r: (TestParticle, Option<usize>))
    ensures
        ({
            let end = spec_run_substeps(particle@, wells_view(stationary_bodies@),
                COLLISION_THRESHOLD as int, SUBSTEP_DT as int, G as int, integration_method,
                SUBSTEPS as nat);
            r.0@ == end.particle && match r.1 {
                Some(i) => end.hit == Some(i as int),
                None => end.hit is None,
            }
        }),
{
    let ghost ws = wells_view(stationary_bodies@);
    let ghost p0 = particle@;
    let mut p = particle;
    let mut s: usize = 0;
    while s < SUBSTEPS
        invariant
            s <= SUBSTEPS,
            ws == wells_view(stationary_bodies@),
            p0 == particle@,
            spec_run_substeps(p0, ws, COLLISION_THRESHOLD as int, SUBSTEP_DT as int, G as int,
                integration_method, SUBSTEPS as nat) == spec_run_substeps(p@, ws,
                COLLISION_THRESHOLD as int, SUBSTEP_DT as int, G as int, integration_method,
                (SUBSTEPS - s) as nat),
        decreases SUBSTEPS - s,
    {
        let ghost prev = p@;
        match integration_method {
            IntegrationMethod::Euler => {
                update_particle_euler(&mut p, stationary_bodies, SUBSTEP_DT);
            },
            IntegrationMethod::RungeKutta4 => {
                update_particle_rk4(&mut p, stationary_bodies, SUBSTEP_DT);
            },
        }
        proof {
            assert(p@ == spec_substep(prev, ws, SUBSTEP_DT as int, G as int,
                integration_method));
        }
        if let Some(collision_index) = check_collision(&p, stationary_bodies,
            COLLISION_THRESHOLD) {
            proof {
                assert(spec_run_substeps(prev, ws, COLLISION_THRESHOLD as int,
                    SUBSTEP_DT as int, G as int, integration_method, (SUBSTEPS - s) as nat)
                    == (SubstepsEnd { hit: Some(collision_index as int), particle: p@ }));
            }
            return (p, Some(collision_index));
        }
        proof {
            assert(spec_run_substeps(prev, ws, COLLISION_THRESHOLD as int, SUBSTEP_DT as int,
                G as int, integration_method, (SUBSTEPS - s) as nat) == spec_run_substeps(
                p@, ws, COLLISION_THRESHOLD as int, SUBSTEP_DT as int, G as int,
                integration_method, (SUBSTEPS - s - 1) as nat));
        }
        s = s + 1;
    }
    proof {
        assert(spec_run_substeps(p@, ws, COLLISION_THRESHOLD as int, SUBSTEP_DT as int,
            G as int, integration_method, 0nat) == (SubstepsEnd { hit: None, particle: p@ }));
    }
    (p, None)
}

/// Classify one initial condition, reporting only the well hit.
pub fn run_simulation(
    start_pos: Vec2,
    initial_velocity: Vec2,
    stationary_bodies: &Vec<StationaryBody>,
    integration_method: IntegrationMethod,
) -> (r: Option<usize>)
    ensures
        ({
            let o = spec_run(start_pos@, initial_velocity@, wells_view(stationary_bodies@),
                integration_method);
            match r {
                Some(i) => o is Some && o->Some_0.0 == i as int,
                None => o is None,
            }
        }),
{
    match run_simulation_with_time(start_pos, initial_velocity, stationary_bodies,
        integration_method) {
        Some((i, _t)) => Some(i),
        None => None,
    }
}

/// Classify one initial condition: the well hit and the outer timestep of the
/// hit, or `None` when the full budget passes without a collision. The result
/// is a pure function of the arguments, so identical inputs always give the
/// identical outcome.
#[verifier::rlimit(60)]
pub fn run_simulation_with_time(
    start_pos: Vec2,
    initial_velocity: Vec2,
    stationary_bodies: &Vec<StationaryBody>,
    integration_method: IntegrationMethod,
) -> (r: Option<(usize, usize)>)
    ensures
        outcome_matches(r, spec_run(start_pos@, initial_velocity@,
            wells_view(stationary_bodies@), integration_method)),
{
    let ghost ws = wells_view(stationary_bodies@);
    let mut particle = TestParticle::new(start_pos, initial_velocity, TEST_PARTICLE_MASS,
        TEST_PARTICLE_RADIUS);
    let ghost p0 = particle@;
    let mut timestep: usize = 0;
    while timestep < SIMULATION_TIMESTEPS
        invariant
            timestep <= SIMULATION_TIMESTEPS,
            ws == wells_view(stationary_bodies@),
            p0 == spec_initial_particle(start_pos@, initial_velocity@),
            spec_run_from(p0, ws, COLLISION_THRESHOLD as int, SUBSTEP_DT as int, G as int,
                integration_method, 0, SIMULATION_TIMESTEPS as nat) == spec_run_from(particle@,
                ws, COLLISION_THRESHOLD as int, SUBSTEP_DT as int, G as int, integration_method,
                timestep as nat, SIMULATION_TIMESTEPS as nat),
        decreases SIMULATION_TIMESTEPS - timestep,
    {
        let ghost prev = particle@;
        let (p2, hit) = run_substeps(particle, stationary_bodies, integration_method);
        particle = p2;
        if let Some(collision_index) = hit {
            proof {
                assert(spec_run_from(prev, ws, COLLISION_THRESHOLD as int, SUBSTEP_DT as int,
                    G as int, integration_method, timestep as nat, SIMULATION_TIMESTEPS as nat)
                    == Some((collision_index as int, timestep as int)));
            }
            return Some((collision_index, timestep));
        }
        proof {
            assert(spec_run_from(prev, ws, COLLISION_THRESHOLD as int, SUBSTEP_DT as int,
                G as int, integration_method, timestep as nat, SIMULATION_TIMESTEPS as nat)
                == spec_run_from(particle@, ws, COLLISION_THRESHOLD as int, SUBSTEP_DT as int,
                G as int, integration_method, (timestep + 1) as nat,
                SIMULATION_TIMESTEPS as nat));
        }
        timestep = timestep + 1;
    }
    proof {
        assert(spec_run_from(particle@, ws, COLLISION_THRESHOLD as int, SUBSTEP_DT as int,
            G as int, integration_method, SIMULATION_TIMESTEPS as nat,
            SIMULATION_TIMESTEPS as nat) is None);
    }
    None
}

/// Mathematical image of a stepped replay: the live particle, the wells, the
/// sampled trajectory, the outer timestep reached, and the well hit once the
/// run has collided.
pub ghost struct LiveV {
    pub particle: ParticleV,
    pub wells: Seq<WellV>,
    pub trail: Seq<V2>,
    pub timestep: int,
    pub hit: Option<int>,
    pub method: IntegrationMethod,
}

/// One frame of replay: a finished state is left untouched; otherwise the
/// particle advances one outer timestep's worth of substeps with the same
/// early exit as a batch run, the trajectory is sampled at the fixed cadence,
/// and the timestep counter moves on.
pub open spec fn spec_live_step(s: LiveV) -> LiveV {
    if s.timestep >= SIMULATION_TIMESTEPS as int || s.hit is Some {
        s
    } else {
        let end = spec_run_substeps(s.particle, s.wells, COLLISION_THRESHOLD as int,
            SUBSTEP_DT as int, G as int, s.method, SUBSTEPS as nat);
        let trail2 = if s.timestep % (TRAJECTORY_SAMPLE_RATE as int) == 0 {
            s.trail.push(end.particle.pos)
        } else {
            s.trail
        };
        LiveV { particle: end.particle, trail: trail2, timestep: s.timestep + 1, hit: end.hit,
            ..s }
    }
}

/// A replayed run held as mutable state, advanced one displayed frame at a
/// time by a host loop. It reproduces exactly the per-substep logic of the
/// batch runs, driven through the same step function.
pub struct LiveSimulationState {
    pub particle: TestParticle,
    pub stationary_bodies: Vec<StationaryBody>,
    pub trajectory_history: Vec<Vec2>,
    pub current_timestep: usize,
    pub collision_body_index: Option<usize>,
    pub integration_method: IntegrationMethod,
}

impl View for LiveSimulationState {
    type V = LiveV;

    open spec fn view(&self) -> LiveV {
        LiveV {
            particle: self.particle@,
            wells: wells_view(self.stationary_bodies@),
            trail: Seq::new(self.trajectory_history@.len(), |i: int| self.trajectory_history@[i]@),
            timestep: self.current_timestep as int,
            hit: match self.collision_body_index {
                Some(i) => Some(i as int),
                None => None,
            },
            method: self.integration_method,
        }
    }
}

impl LiveSimulationState {
    /// A fresh replay at the given initial condition; the trajectory starts
    /// with the launch position.
    pub fn new(
        start_pos: Vec2,
        initial_velocity: Vec2,
        stationary_bodies: Vec<StationaryBody>,
        integration_method: IntegrationMethod,
    ) -> (r: Self)
        ensures
            r@.particle == spec_initial_particle(start_pos@, initial_velocity@),
            r@.wells == wells_view(stationary_bodies@),
            r@.trail =~= seq![start_pos@],
            r@.timestep == 0,
            r@.hit is None,
            r@.method == integration_method,
    {
        let particle = TestParticle::new(start_pos, initial_velocity, TEST_PARTICLE_MASS,
            TEST_PARTICLE_RADIUS);
        Self {
            particle,
            stationary_bodies,
            trajectory_history: vec![start_pos],
            current_timestep: 0,
            collision_body_index: None,
            integration_method,
        }
    }

    /// Advance by one outer timestep's worth of substeps, exactly as a batch
    /// run would; finished states stay as they are.
    pub fn step(&mut self)
        ensures
            final(self)@ == spec_live_step(old(self)@),
    {
        if self.current_timestep < SIMULATION_TIMESTEPS && self.collision_body_index.is_none() {
            let (p2, hit) = run_substeps(self.particle, &self.stationary_bodies,
                self.integration_method);
            self.particle = p2;
            self.collision_body_index = hit;
            if self.current_timestep % TRAJECTORY_SAMPLE_RATE == 0 {
                self.trajectory_history.push(self.particle.pos);
            }
            self.current_timestep = self.current_timestep + 1;
            proof {
                assert(self@.trail =~= spec_live_step(old(self)@).trail);
                assert(self@ == spec_live_step(old(self)@));
            }
        } else {
            proof {
                assert(self@ == spec_live_step(old(self)@));
            }
        }
    }

    /// Whether the replay has ended: a collision was found, or the budget ran
    /// out.
    pub fn is_finished(&self) -> (r: bool)
        ensures
            r == (self@.hit is Some || self@.timestep >= SIMULATION_TIMESTEPS as int),
    {
        self.collision_body_index.is_some() || self.current_timestep >= SIMULATION_TIMESTEPS
    }
}

} // verus!
