//! Two-dimensional vectors over the fixed-point scalar.
//!
//! Every operation is pure: it returns a new vector and leaves its operands
//! untouched. `normalize` of the zero vector is the zero vector, by policy,
//! so no operation can signal an error.

use vstd::prelude::*;
use crate::fixed::fx_add;
use crate::fixed::fx_div;
use crate::fixed::fx_mul;
use crate::fixed::fx_sqrt;
use crate::fixed::fx_sub;
use crate::fixed::spec_fx_add;
use crate::fixed::spec_fx_div;
use crate::fixed::spec_fx_mul;
use crate::fixed::spec_fx_sqrt;
use crate::fixed::spec_fx_sub;
use crate::fixed::iabs;
use crate::fixed::is_sqrt;
use crate::fixed::sqrt_floor;
use crate::fixed::tdiv;

verus! {

/// Mathematical image of a vector: both raw coordinates as unbounded integers.
pub ghost struct V2 {
    pub x: int,
    pub y: int,
}

/// The zero vector's image.
pub open spec fn v2_zero() -> V2 {
    V2 { x: 0, y: 0 }
}

/// Both coordinates lie in the raw `i64` range (every `Vec2`'s image does).
pub open spec fn v2_in_range(v: V2) -> bool {
    i64::MIN <= v.x <= i64::MAX && i64::MIN <= v.y <= i64::MAX
}

/// Componentwise sum.
pub open spec fn v2_add(a: V2, b: V2) -> V2 {
    V2 { x: spec_fx_add(a.x, b.x), y: spec_fx_add(a.y, b.y) }
}

/// Componentwise difference.
pub open spec fn v2_sub(a: V2, b: V2) -> V2 {
    V2 { x: spec_fx_sub(a.x, b.x), y: spec_fx_sub(a.y, b.y) }
}

/// Scaling by a scalar.
pub open spec fn v2_scale(a: V2, s: int) -> V2 {
    V2 { x: spec_fx_mul(a.x, s), y: spec_fx_mul(a.y, s) }
}

/// Division by a scalar (zero divisor yields the zero vector).
pub open spec fn v2_div(a: V2, s: int) -> V2 {
    V2 { x: spec_fx_div(a.x, s), y: spec_fx_div(a.y, s) }
}

/// Euclidean length: `sqrt(x^2 + y^2)` in fixed point.
pub open spec fn spec_length(a: V2) -> int {
    spec_fx_sqrt(spec_fx_add(spec_fx_mul(a.x, a.x), spec_fx_mul(a.y, a.y)))
}

/// Unit vector in the direction of `a`; the zero vector when `a` has length zero.
pub open spec fn spec_normalize(a: V2) -> V2 {
    let len = spec_length(a);
    if len != 0 {
        V2 { x: spec_fx_div(a.x, len), y: spec_fx_div(a.y, len) }
    } else {
        v2_zero()
    }
}

/// Dot product.
pub open spec fn spec_dot(a: V2, b: V2) -> int {
    spec_fx_add(spec_fx_mul(a.x, b.x), spec_fx_mul(a.y, b.y))
}

/// Distance between two points.
pub open spec fn spec_distance(a: V2, b: V2) -> int {
    spec_length(v2_sub(a, b))
}

/// Linear interpolation from `a` toward `b` by parameter `t`.
pub open spec fn spec_lerp(a: V2, b: V2, t: int) -> V2 {
    V2 {
        x: spec_fx_add(a.x, spec_fx_mul(spec_fx_sub(b.x, a.x), t)),
        y: spec_fx_add(a.y, spec_fx_mul(spec_fx_sub(b.y, a.y), t)),
    }
}

/// A 2D vector of fixed-point scalars (raw values scaled by `FX_ONE`).
#[derive(Clone, Copy, PartialEq, Eq, Structural, Debug)]
pub struct Vec2 {
    pub x: i64,
    pub y: i64,
}

impl View for Vec2 {
    type V = V2;

    open spec fn view(&self) -> V2 {
        V2 { x: self.x as int, y: self.y as int }
    }
}

impl Vec2 {
    /// The vector with the given raw coordinates.
    pub fn new(x: i64, y: i64) -> (r: Self)
        ensures
            r@ == (V2 { x: x as int, y: y as int }),
    {
        Vec2 { x, y }
    }

    /// Componentwise sum, saturating.
    pub fn add(&self, other: &Vec2) -> (r: Vec2)
        ensures
            r@ == v2_add(self@, other@),
    {
        Vec2 { x: fx_add(self.x, other.x), y: fx_add(self.y, other.y) }
    }

    /// Componentwise difference, saturating.
    pub fn sub(&self, other: &Vec2) -> (r: Vec2)
        ensures
            r@ == v2_sub(self@, other@),
    {
        Vec2 { x: fx_sub(self.x, other.x), y: fx_sub(self.y, other.y) }
    }

    /// Scaling by a scalar, saturating.
    pub fn mul(&self, s: i64) -> (r: Vec2)
        ensures
            r@ == v2_scale(self@, s as int),
    {
        Vec2 { x: fx_mul(self.x, s), y: fx_mul(self.y, s) }
    }

    /// Division by a scalar; the zero vector when `s` is zero.
    pub fn div(&self, s: i64) -> (r: Vec2)
        ensures
            r@ == v2_div(self@, s as int),
    {
        Vec2 { x: fx_div(self.x, s), y: fx_div(self.y, s) }
    }

    /// Euclidean length.
    pub fn length(&self) -> (r: i64)
        ensures
            r as int == spec_length(self@),
    {
        fx_sqrt(fx_add(fx_mul(self.x, self.x), fx_mul(self.y, self.y)))
    }

    /// Unit vector in the same direction; the zero vector if the length is zero.
    pub fn normalize(&self) -> (r: Vec2)
        ensures
            r@ == spec_normalize(self@),
    {
        let len = self.length();
        if len != 0 {
            Vec2 { x: fx_div(self.x, len), y: fx_div(self.y, len) }
        } else {
            Vec2 { x: 0, y: 0 }
        }
    }

    /// Dot product.
    pub fn dot(&self, other: &Vec2) -> (r: i64)
        ensures
            r as int == spec_dot(self@, other@),
    {
        fx_add(fx_mul(self.x, other.x), fx_mul(self.y, other.y))
    }

    /// Distance to another point.
    pub fn distance(&self, other: &Vec2) -> (r: i64)
        ensures
            r as int == spec_distance(self@, other@),
    {
        self.sub(other).length()
    }

    /// Linear interpolation toward `other` by parameter `t` (`FX_ONE` is one).
    pub fn lerp(&self, other: &Vec2, t: i64) -> (r: Vec2)
        ensures
            r@ == spec_lerp(self@, other@, t as int),
    {
        Vec2 {
            x: fx_add(self.x, fx_mul(fx_sub(other.x, self.x), t)),
            y: fx_add(self.y, fx_mul(fx_sub(other.y, self.y), t)),
        }
    }
}

/// The zero vector normalizes to itself and its normalization has length
/// exactly zero; so a zero result of `normalize` never divides by zero.
pub proof fn lemma_normalize_zero(a: V2)
    requires
        a == v2_zero(),
    ensures
        spec_normalize(a) == v2_zero(),
        spec_length(spec_normalize(a)) == 0,
{
    assert(spec_length(a) == 0);
}

/// A square term of the length sum is never negative.
proof fn lemma_sq_term_nonneg(n: int)
    ensures
        spec_fx_mul(n, n) >= 0,
{
    assert(n * n >= 0) by (nonlinear_arith);
    if n * n != 0 {
        vstd::arithmetic::div_mod::lemma_div_pos_is_pos(n * n, crate::fixed::FX_ONE as int);
    } else {
        vstd::arithmetic::div_mod::lemma_div_of0(crate::fixed::FX_ONE as int);
    }
}

/// Dividing a coordinate of magnitude at least half the length by the
/// length leaves at least half a unit.
proof fn lemma_div_component_large(c: int, l: int)
    requires
        l >= 1,
        2 * iabs(c) >= l,
    ensures
        iabs(spec_fx_div(c, l)) >= 32768,
{
    let s = crate::fixed::FX_ONE as int;
    let m = iabs(c);
    assert(iabs(c * s) == m * s) by (nonlinear_arith)
        requires
            m == iabs(c),
            s > 0;
    assert(m * s >= l * 32768);
    vstd::arithmetic::div_mod::lemma_div_is_ordered(l * 32768, m * s, l);
    vstd::arithmetic::div_mod::lemma_div_multiples_vanish(32768, l);
    assert((m * s) / l >= 32768);
    assert(iabs(tdiv(c * s, l)) == (m * s) / l);
}

/// Squaring a scalar of magnitude at least half a unit leaves at least a
/// quarter unit.
proof fn lemma_sq_term_large(n: int)
    requires
        iabs(n) >= 32768,
    ensures
        spec_fx_mul(n, n) >= 16384,
{
    let s = crate::fixed::FX_ONE as int;
    assert(n * n >= 32768 * 32768) by (nonlinear_arith)
        requires
            iabs(n) >= 32768;
    vstd::arithmetic::div_mod::lemma_div_is_ordered((32768 * 32768) as int, n * n, s);
    vstd::arithmetic::div_mod::lemma_div_multiples_vanish(16384, s);
    assert((n * n) / s >= 16384);
}

/// A vector of length at least one normalizes to a vector whose length is
/// not zero: on that domain, a zero normalized length happens only for the
/// zero vector. (Below one unit, truncation can make a short nonzero vector
/// normalize to zero.)
pub proof fn lemma_normalize_of_long_vector_nonzero(a: V2)
    requires
        v2_in_range(a),
        spec_length(a) >= crate::fixed::FX_ONE as int,
    ensures
        spec_normalize(a) != v2_zero(),
        spec_length(spec_normalize(a)) > 0,
{
    let s = crate::fixed::FX_ONE as int;
    let x = a.x;
    let y = a.y;
    let qx = spec_fx_mul(x, x);
    let qy = spec_fx_mul(y, y);
    let q = spec_fx_add(qx, qy);
    let l = spec_length(a);
    lemma_sq_term_nonneg(x);
    lemma_sq_term_nonneg(y);
    assert(q > 0);
    crate::fixed::lemma_sqrt_exists(q * s);
    assert(is_sqrt(q * s, l));

    // the squared length bounds the true squares from below
    assert(x * x >= 0 && y * y >= 0) by (nonlinear_arith);
    vstd::arithmetic::div_mod::lemma_fundamental_div_mod(x * x, s);
    vstd::arithmetic::div_mod::lemma_mod_bound(x * x, s);
    vstd::arithmetic::div_mod::lemma_fundamental_div_mod(y * y, s);
    vstd::arithmetic::div_mod::lemma_mod_bound(y * y, s);
    assert(qx * s <= x * x) by (nonlinear_arith)
        requires
            qx <= (x * x) / s,
            s * ((x * x) / s) <= x * x,
            s > 0,
            (x * x) / s >= 0;
    assert(qy * s <= y * y) by (nonlinear_arith)
        requires
            qy <= (y * y) / s,
            s * ((y * y) / s) <= y * y,
            s > 0,
            (y * y) / s >= 0;
    assert(q * s <= x * x + y * y) by (nonlinear_arith)
        requires
            q <= qx + qy,
            qx * s <= x * x,
            qy * s <= y * y,
            s > 0;

    // the larger coordinate carries at least half the length
    let m = if iabs(x) >= iabs(y) { iabs(x) } else { iabs(y) };
    assert(x * x + y * y <= 2 * m * m) by (nonlinear_arith)
        requires
            m >= iabs(x),
            m >= iabs(y),
            m >= 0;
    assert(l * l <= 2 * m * m);
    assert(2 * m >= l) by (nonlinear_arith)
        requires
            l * l <= 2 * m * m,
            l >= 1,
            m >= 0;

    // so that coordinate normalizes to at least half a unit
    let n = spec_normalize(a);
    if iabs(x) >= iabs(y) {
        lemma_div_component_large(x, l);
        assert(iabs(n.x) >= 32768);
        lemma_sq_term_large(n.x);
        lemma_sq_term_nonneg(n.y);
    } else {
        lemma_div_component_large(y, l);
        assert(iabs(n.y) >= 32768);
        lemma_sq_term_large(n.y);
        lemma_sq_term_nonneg(n.x);
    }
    let qn = spec_fx_add(spec_fx_mul(n.x, n.x), spec_fx_mul(n.y, n.y));
    assert(qn >= 16384);
    crate::fixed::lemma_sqrt_exists(qn * s);
    let r = sqrt_floor(qn * s);
    assert(r > 0) by (nonlinear_arith)
        requires
            is_sqrt(qn * s, r),
            qn * s >= 16384 * 65536;
    assert(spec_length(n) == r);
}

} // verus!
