//! Batch sweeps: classify a whole rectangular grid of initial conditions.
//!
//! Cells are fully independent, so the grid is evaluated by a data-parallel
//! map; each worker owns its private particle state and reads the shared
//! well configuration immutably. The per-cell result is a pure function of
//! the cell's coordinates and the shared configuration, so iteration order
//! cannot affect it, and the parallel path agrees exactly with calling the
//! single-run simulator on the cell's initial condition.

use vstd::prelude::*;
use crate::fixed::FX_ONE;
use crate::fixed::fx_add;
use crate::fixed::fx_div;
use crate::fixed::fx_mul;
use crate::fixed::fx_sub;
use crate::fixed::spec_fx_add;
use crate::fixed::spec_fx_div;
use crate::fixed::spec_fx_mul;
use crate::fixed::spec_fx_sub;
use crate::physics::StationaryBody;
use crate::physics::WellV;
use crate::physics::wells_view;
use crate::simulation::IntegrationMethod;
use crate::simulation::outcome_matches;
use crate::simulation::run_simulation_with_time;
use crate::simulation::spec_run;
use crate::threebody::GBodyV;
use crate::threebody::GravBody;
use crate::threebody::bodies_view;
use crate::threebody::run_simulation;
use crate::threebody::spec_run3;
use crate::vec2::V2;
use crate::vec2::Vec2;
use rayon::iter::IntoParallelIterator;
use rayon::iter::ParallelIterator;

verus! {

/// A grid coordinate mapped to fixed point: raw value `p * FX_ONE`.
pub open spec fn spec_coord(p: int) -> int {
    p * (FX_ONE as int)
}

fn coord_fx(p: usize) -> (r: i64)
    requires
        p <= 0x7fffffff,
    ensures
        r as int == spec_coord(p as int),
{
    (p as i64) * FX_ONE
}

/// World position of a grid cell: the pixel coordinate scaled by the zoom
/// and shifted by the camera offset, per axis.
pub open spec fn spec_world_pos(px: int, py: int, cam: V2, zoom: int) -> V2 {
    V2 {
        x: spec_fx_sub(spec_fx_div(spec_coord(px), zoom), cam.x),
        y: spec_fx_sub(spec_fx_div(spec_coord(py), zoom), cam.y),
    }
}

/// Outcome of the cell at `(px, py)`: the single-run outcome of a particle
/// launched at the cell's world position with the shared initial velocity.
pub open spec fn spec_cell(
    px: int,
    py: int,
    cam: V2,
    zoom: int,
    vel: V2,
    ws: Seq<WellV>,
    method: IntegrationMethod,
) -> Option<(int, int)> {
    spec_run(spec_world_pos(px, py, cam, zoom), vel, ws, method)
}

/// Outcome of the cell at row-major linear index `i` in a grid `w` wide.
pub open spec fn spec_cell_linear(
    i: int,
    w: int,
    cam: V2,
    zoom: int,
    vel: V2,
    ws: Seq<WellV>,
    method: IntegrationMethod,
) -> Option<(int, int)> {
    spec_cell(i % w, i / w, cam, zoom, vel, ws, method)
}

/// A row-major linear index decomposes into the cell coordinates it was
/// built from, so a sweep cell equals the single run at those coordinates.
pub proof fn lemma_grid_index(px: int, py: int, w: int)
    requires
        0 <= px < w,
        0 <= py,
    ensures
        (py * w + px) % w == px,
        (py * w + px) / w == py,
{
    vstd::arithmetic::div_mod::lemma_fundamental_div_mod_converse(py * w + px, w, py, px);
}

/// Every cell of a sweep equals the single-run outcome at that cell's
/// coordinates: the batch and single paths agree exactly.
pub proof fn lemma_sweep_matches_single(
    px: int,
    py: int,
    w: int,
    cam: V2,
    zoom: int,
    vel: V2,
    ws: Seq<WellV>,
    method: IntegrationMethod,
)
    requires
        0 <= px < w,
        0 <= py,
    ensures
        spec_cell_linear(py * w + px, w, cam, zoom, vel, ws, method) == spec_run(
            spec_world_pos(px, py, cam, zoom), vel, ws, method),
{
    lemma_grid_index(px, py, w);
}

fn world_pos(px: usize, py: usize, cam: Vec2, zoom: i64) -> (r: Vec2)
    requires
        px <= 0x7fffffff,
        py <= 0x7fffffff,
    ensures
        r@ == spec_world_pos(px as int, py as int, cam@, zoom as int),
{
    Vec2::new(fx_sub(fx_div(coord_fx(px), zoom), cam.x), fx_sub(fx_div(coord_fx(py), zoom),
        cam.y))
}

fn cell_at(
    i: usize,
    w: usize,
    stationary_bodies: &Vec<StationaryBody>,
    initial_velocity: Vec2,
    camera_offset: Vec2,
    zoom_factor: i64,
    integration_method: IntegrationMethod,
) -> (r: Option<(usize, usize)>)
    requires
        0 < w <= 0x7fffffff,
        i <= 0x7fffffff,
    ensures
        outcome_matches(r, spec_cell_linear(i as int, w as int, camera_offset@,
            zoom_factor as int, initial_velocity@, wells_view(stationary_bodies@),
            integration_method)),
{
    let px = i % w;
    let py = i / w;
    let start = world_pos(px, py, camera_offset, zoom_factor);
    run_simulation_with_time(start, initial_velocity, stationary_bodies, integration_method)
}

/// Relies on rayon's indexed parallel iterator: `into_par_iter` over a range,
/// `map`, and `collect` into a `Vec` preserve the range's order and apply the
/// mapped function to every index exactly once; the closure only calls the
/// verified per-cell function, whose contract gives each element's value.
#[verifier::external_body]
fn sweep_cells_parallel(
    n: usize,
    w: usize,
    stationary_bodies: &Vec<StationaryBody>,
    initial_velocity: Vec2,
    camera_offset: Vec2,
    zoom_factor: i64,
    integration_method: IntegrationMethod,
) -> (r: Vec<Option<(usize, usize)>>)
    requires
        0 < w <= 0x7fffffff,
        n <= 0x7fffffff,
    ensures
        r@.len() == n,
        forall|i: int|
            0 <= i < n ==> outcome_matches(r@[i], spec_cell_linear(i, w as int, camera_offset@,
                zoom_factor as int, initial_velocity@, wells_view(stationary_bodies@),
                integration_method)),
{
    (0..n).into_par_iter().map(|i| cell_at(i, w, stationary_bodies, initial_velocity,
        camera_offset, zoom_factor, integration_method)).collect()
}

/// Classify every cell of a `width` by `height` grid, in parallel. The result
/// is row-major: the cell at `(px, py)` sits at index `py * width + px`, and
/// its value is exactly the single-run outcome of that cell's initial
/// condition.
pub fn run_sweep(
    width: usize,
    height: usize,
    stationary_bodies: &Vec<StationaryBody>,
    initial_velocity: Vec2,
    camera_offset: Vec2,
    zoom_factor: i64,
    integration_method: IntegrationMethod,
) -> (r: Vec<Option<(usize, usize)>>)
    requires
        width <= 4096,
        height <= 4096,
    ensures
        r@.len() == width * height,
        forall|px: int, py: int|
            0 <= px < width && 0 <= py < height ==> outcome_matches(
                #[trigger] r@[py * width + px],
                spec_run(spec_world_pos(px, py, camera_offset@, zoom_factor as int),
                    initial_velocity@, wells_view(stationary_bodies@), integration_method)),
{
    if width == 0 || height == 0 {
        let empty: Vec<Option<(usize, usize)>> = Vec::new();
        return empty;
    }
    proof {
        assert(width * height <= 4096 * 4096) by (nonlinear_arith)
            requires
                width <= 4096,
                height <= 4096;
    }
    let n = width * height;
    let r = sweep_cells_parallel(n, width, stationary_bodies, initial_velocity, camera_offset,
        zoom_factor, integration_method);
    proof {
        assert forall|px: int, py: int| 0 <= px < width && 0 <= py < height implies
            outcome_matches(#[trigger] r@[py * width + px], spec_run(spec_world_pos(px, py,
                camera_offset@, zoom_factor as int), initial_velocity@,
                wells_view(stationary_bodies@), integration_method)) by {
            assert(0 <= py * width + px < n) by (nonlinear_arith)
                requires
                    0 <= px < width,
                    0 <= py < height,
                    n == width * height;
            lemma_sweep_matches_single(px, py, width as int, camera_offset@,
                zoom_factor as int, initial_velocity@, wells_view(stationary_bodies@),
                integration_method);
        }
    }
    r
}

/// Linear interpolation of a scalar range by grid position: the value at
/// `p` of `size` evenly spaced samples from `minv` to `maxv`.
pub open spec fn spec_axis_value(minv: int, maxv: int, p: int, size: int) -> int {
    spec_fx_add(minv, spec_fx_mul(spec_fx_sub(maxv, minv), spec_fx_div(spec_coord(p),
        spec_coord(size - 1))))
}

fn axis_value(minv: i64, maxv: i64, p: usize, size: usize) -> (r: i64)
    requires
        p <= 0x7fffffff,
        0 < size <= 0x7fffffff,
    ensures
        r as int == spec_axis_value(minv as int, maxv as int, p as int, size as int),
{
    let denom = (size as i64 - 1) * FX_ONE;
    proof {
        assert(denom as int == spec_coord(size as int - 1));
    }
    fx_add(minv, fx_mul(fx_sub(maxv, minv), fx_div(coord_fx(p), denom)))
}

/// Raw x-coordinate magnitude of the two offset starting bodies (fifty).
pub const STABILITY_BODY_X: i64 = 3276800;

/// Raw mass of each of the three preset bodies (one hundred sixty thousand).
pub const STABILITY_BODY_MASS: i64 = 10485760000;

/// Raw radius of each of the three preset bodies (one).
pub const STABILITY_BODY_RADIUS: i64 = 65536;

/// The preset three-body start: equal masses at (50, 0), (-50, 0) and the
/// origin, the two offset bodies launched straight up or down with the
/// cell's vertical speeds, the central body at rest.
pub open spec fn spec_initial_bodies3(vy1: int, vy2: int) -> Seq<GBodyV> {
    seq![
        GBodyV {
            pos: V2 { x: STABILITY_BODY_X as int, y: 0 },
            vel: V2 { x: 0, y: vy1 },
            mass: STABILITY_BODY_MASS as int,
            radius: STABILITY_BODY_RADIUS as int,
        },
        GBodyV {
            pos: V2 { x: -STABILITY_BODY_X as int, y: 0 },
            vel: V2 { x: 0, y: vy2 },
            mass: STABILITY_BODY_MASS as int,
            radius: STABILITY_BODY_RADIUS as int,
        },
        GBodyV {
            pos: V2 { x: 0, y: 0 },
            vel: V2 { x: 0, y: 0 },
            mass: STABILITY_BODY_MASS as int,
            radius: STABILITY_BODY_RADIUS as int,
        },
    ]
}

/// The preset three-body set with the given vertical launch speeds.
pub fn initial_bodies3(vy1: i64, vy2: i64) -> (r: Vec<GravBody>)
    ensures
        r@.len() == 3,
        bodies_view(r@) == spec_initial_bodies3(vy1 as int, vy2 as int),
{
    let mut out: Vec<GravBody> = Vec::new();
    out.push(GravBody::new(Vec2::new(STABILITY_BODY_X, 0), Vec2::new(0, vy1),
        STABILITY_BODY_MASS, STABILITY_BODY_RADIUS));
    out.push(GravBody::new(Vec2::new(-STABILITY_BODY_X, 0), Vec2::new(0, vy2),
        STABILITY_BODY_MASS, STABILITY_BODY_RADIUS));
    out.push(GravBody::new(Vec2::new(0, 0), Vec2::new(0, 0), STABILITY_BODY_MASS,
        STABILITY_BODY_RADIUS));
    proof {
        assert(bodies_view(out@) =~= spec_initial_bodies3(vy1 as int, vy2 as int));
    }
    out
}

/// Time to collision of the stability cell at `(px, py)`: the three-body run
/// whose two launch speeds are the cell's coordinates mapped linearly over
/// the given ranges.
pub open spec fn spec_stability_cell(
    px: int,
    py: int,
    w: int,
    h: int,
    vy1_min: int,
    vy1_max: int,
    vy2_min: int,
    vy2_max: int,
) -> int {
    let vy1 = spec_axis_value(vy1_min, vy1_max, px, w);
    let vy2 = spec_axis_value(vy2_min, vy2_max, py, h);
    spec_run3(spec_initial_bodies3(vy1, vy2)).time
}

/// Time to collision of one stability cell.
pub fn stability_cell(
    px: usize,
    py: usize,
    w: usize,
    h: usize,
    vy1_min: i64,
    vy1_max: i64,
    vy2_min: i64,
    vy2_max: i64,
) -> (r: usize)
    requires
        0 < w <= 0x7fffffff,
        0 < h <= 0x7fffffff,
        px <= 0x7fffffff,
        py <= 0x7fffffff,
    ensures
        r as int == spec_stability_cell(px as int, py as int, w as int, h as int,
            vy1_min as int, vy1_max as int, vy2_min as int, vy2_max as int),
{
    let vy1 = axis_value(vy1_min, vy1_max, px, w);
    let vy2 = axis_value(vy2_min, vy2_max, py, h);
    let mut bodies = initial_bodies3(vy1, vy2);
    run_simulation(&mut bodies)
}

fn stability_cell_at(
    i: usize,
    w: usize,
    h: usize,
    vy1_min: i64,
    vy1_max: i64,
    vy2_min: i64,
    vy2_max: i64,
) -> (r: usize)
    requires
        0 < w <= 0x7fffffff,
        0 < h <= 0x7fffffff,
        i <= 0x7fffffff,
    ensures
        r as int == spec_stability_cell((i as int) % (w as int), (i as int) / (w as int),
            w as int, h as int, vy1_min as int, vy1_max as int, vy2_min as int, vy2_max as int),
{
    let px = i % w;
    let py = i / w;
    stability_cell(px, py, w, h, vy1_min, vy1_max, vy2_min, vy2_max)
}

/// Relies on rayon's indexed parallel iterator: `into_par_iter` over a range,
/// `map`, and `collect` into a `Vec` preserve the range's order and apply the
/// mapped function to every index exactly once; the closure only calls the
/// verified per-cell function, whose contract gives each element's value.
#[verifier::external_body]
fn stability_cells_parallel(
    n: usize,
    w: usize,
    h: usize,
    vy1_min: i64,
    vy1_max: i64,
    vy2_min: i64,
    vy2_max: i64,
) -> (r: Vec<usize>)
    requires
        0 < w <= 0x7fffffff,
        0 < h <= 0x7fffffff,
        n <= 0x7fffffff,
    ensures
        r@.len() == n,
        forall|i: int|
            0 <= i < n ==> r@[i] as int == spec_stability_cell(i % (w as int), i / (w as int),
                w as int, h as int, vy1_min as int, vy1_max as int, vy2_min as int,
                vy2_max as int),
{
    (0..n).into_par_iter().map(|i| stability_cell_at(i, w, h, vy1_min, vy1_max, vy2_min,
        vy2_max)).collect()
}

/// Classify every cell of a `width` by `height` stability grid, in parallel.
/// Row-major: the cell at `(px, py)` sits at index `py * width + px` and
/// holds the time to collision of the three-body run launched with that
/// cell's speeds.
pub fn run_stability_sweep(
    width: usize,
    height: usize,
    vy1_min: i64,
    vy1_max: i64,
    vy2_min: i64,
    vy2_max: i64,
) -> (r: Vec<usize>)
    requires
        0 < width <= 4096,
        0 < height <= 4096,
    ensures
        r@.len() == width * height,
        forall|px: int, py: int|
            0 <= px < width && 0 <= py < height ==> #[trigger] r@[py * width + px] as int
                == spec_stability_cell(px, py, width as int, height as int, vy1_min as int,
                vy1_max as int, vy2_min as int, vy2_max as int),
{
    proof {
        assert(width * height <= 4096 * 4096) by (nonlinear_arith)
            requires
                width <= 4096,
                height <= 4096;
    }
    let n = width * height;
    let r = stability_cells_parallel(n, width, height, vy1_min, vy1_max, vy2_min, vy2_max);
    proof {
        assert forall|px: int, py: int| 0 <= px < width && 0 <= py < height implies
            #[trigger] r@[py * width + px] as int == spec_stability_cell(px, py, width as int,
                height as int, vy1_min as int, vy1_max as int, vy2_min as int, vy2_max as int)
            by {
            assert(0 <= py * width + px < n) by (nonlinear_arith)
                requires
                    0 <= px < width,
                    0 <= py < height,
                    n == width * height;
            lemma_grid_index(px, py, width as int);
        }
    }
    r
}

} // verus!
