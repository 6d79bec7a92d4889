//! The fixed-well example configuration: three wells of preset position,
//! mass and display color.

use vstd::prelude::*;
use crate::fixed::fx_div;
use crate::fixed::fx_sqrt;
use crate::fixed::spec_fx_div;
use crate::fixed::spec_fx_sqrt;
use crate::physics::StationaryBody;
use crate::vec2::Vec2;

verus! {

/// Side length, in cells, of the classification image's grid.
pub const IMAGE_SIZE: u32 = 600;

/// Color of a cell whose run ends without a collision.
pub const DEFAULT_NON_COLLISION_COLOR: [u8; 3] = [20, 20, 20];

/// Raw value denoting one thousand, the divisor of the mass-to-radius rule.
pub const RADIUS_MASS_DIVISOR: i64 = 65536000;

/// Raw value denoting ten, the smallest well radius.
pub const MIN_WELL_RADIUS: i64 = 655360;

/// A well's radius grows with the square root of its mass but never falls
/// under the minimum: `max(sqrt(mass / 1000), 10)`.
pub open spec fn spec_well_radius(mass: int) -> int {
    let s = spec_fx_sqrt(spec_fx_div(mass, RADIUS_MASS_DIVISOR as int));
    if s < MIN_WELL_RADIUS as int {
        MIN_WELL_RADIUS as int
    } else {
        s
    }
}

fn well_radius(mass: i64) -> (r: i64)
    ensures
        r as int == spec_well_radius(mass as int),
{
    let s = fx_sqrt(fx_div(mass, RADIUS_MASS_DIVISOR));
    if s < MIN_WELL_RADIUS {
        MIN_WELL_RADIUS
    } else {
        s
    }
}

/// The three preset wells: a red, a green and a blue one, at fixed positions
/// (150, 150), (450, 150) and (300, 400), with masses 50000, 30000 and 40000
/// (all as raw fixed-point values).
pub fn create_stationary_bodies() -> (r: Vec<StationaryBody>)
    ensures
        r@.len() == 3,
        r@[0]@.pos.x == 9830400 && r@[0]@.pos.y == 9830400,
        r@[1]@.pos.x == 29491200 && r@[1]@.pos.y == 9830400,
        r@[2]@.pos.x == 19660800 && r@[2]@.pos.y == 26214400,
        r@[0]@.mass == 3276800000 && r@[1]@.mass == 1966080000 && r@[2]@.mass == 2621440000,
        r@[0]@.radius == spec_well_radius(3276800000),
        r@[1]@.radius == spec_well_radius(1966080000),
        r@[2]@.radius == spec_well_radius(2621440000),
        r@[0].color@ == seq![255u8, 100u8, 100u8],
        r@[1].color@ == seq![100u8, 255u8, 100u8],
        r@[2].color@ == seq![100u8, 100u8, 255u8],
{
    let mut out: Vec<StationaryBody> = Vec::new();
    out.push(StationaryBody::new(Vec2::new(9830400, 9830400), 3276800000,
        well_radius(3276800000), [255, 100, 100]));
    out.push(StationaryBody::new(Vec2::new(29491200, 9830400), 1966080000,
        well_radius(1966080000), [100, 255, 100]));
    out.push(StationaryBody::new(Vec2::new(19660800, 26214400), 2621440000,
        well_radius(2621440000), [100, 100, 255]));
    out
}

} // verus!
