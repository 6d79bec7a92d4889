//! Deterministic fixed-point scalar arithmetic.
//!
//! A scalar is an `i64` whose raw value denotes the real number `raw / FX_ONE`.
//! Every operation is total and saturates at the `i64` range, so the physics
//! built on top of it has an exact mathematical meaning for every input and
//! never panics or overflows.

use vstd::prelude::*;

verus! {

/// Raw units per whole unit: a raw value `v` denotes the real number `v / 65536`.
pub const FX_ONE: i64 = 65536;

/// Raw value denoting one half.
pub const FX_HALF: i64 = 32768;

/// Raw value denoting two.
pub const FX_TWO: i64 = 131072;

/// Raw value denoting six (the divisor of the Runge-Kutta weighted sum).
pub const FX_SIX: i64 = 393216;

/// Magnitude of a mathematical integer.
pub open spec fn iabs(v: int) -> int {
    if v < 0 {
        -v
    } else {
        v
    }
}

/// Saturation of a mathematical integer into the raw `i64` range.
pub open spec fn fx_clamp(v: int) -> int {
    if v > i64::MAX {
        i64::MAX as int
    } else if v < i64::MIN {
        i64::MIN as int
    } else {
        v
    }
}

/// Truncating (round-toward-zero) division, the rounding used by all
/// fixed-point operations. Stated in sign-magnitude form so it is defined
/// directly, without reference to any machine operator.
pub open spec fn tdiv(p: int, q: int) -> int
    recommends
        q != 0,
{
    if ((p < 0) != (q < 0)) {
        -(iabs(p) / iabs(q))
    } else {
        iabs(p) / iabs(q)
    }
}

/// Raw-value sum: exact integer sum, saturated.
pub open spec fn spec_fx_add(a: int, b: int) -> int {
    fx_clamp(a + b)
}

/// Raw-value difference: exact integer difference, saturated.
pub open spec fn spec_fx_sub(a: int, b: int) -> int {
    fx_clamp(a - b)
}

/// Raw-value product: `(a * b) / FX_ONE` rounded toward zero, saturated.
pub open spec fn spec_fx_mul(a: int, b: int) -> int {
    fx_clamp(tdiv(a * b, FX_ONE as int))
}

/// Raw-value quotient: `(a * FX_ONE) / b` rounded toward zero, saturated.
/// Division by zero is defined to yield zero: the physics never signals.
pub open spec fn spec_fx_div(a: int, b: int) -> int {
    if b == 0 {
        0
    } else {
        fx_clamp(tdiv(a * (FX_ONE as int), b))
    }
}

/// `r` is the integer square root of `x`.
pub open spec fn is_sqrt(x: int, r: int) -> bool {
    r >= 0 && r * r <= x && x < (r + 1) * (r + 1)
}

/// The integer square root of `x` (meaningful for `x >= 0`).
pub open spec fn sqrt_floor(x: int) -> int {
    choose|r: int| is_sqrt(x, r)
}

/// Raw-value square root: `sqrt(a / FX_ONE) == sqrt(a * FX_ONE) / FX_ONE`,
/// rounded down. Nonpositive inputs yield zero.
pub open spec fn spec_fx_sqrt(a: int) -> int {
    if a <= 0 {
        0
    } else {
        sqrt_floor(a * (FX_ONE as int))
    }
}

/// Any witness of `is_sqrt` is the unique integer square root.
pub proof fn lemma_sqrt_floor_of_witness(x: int, r: int)
    requires
        is_sqrt(x, r),
    ensures
        sqrt_floor(x) == r,
{
    assert(is_sqrt(x, sqrt_floor(x)));
    let c = sqrt_floor(x);
    if c < r {
        assert((c + 1) * (c + 1) <= r * r) by (nonlinear_arith)
            requires
                0 <= c < r;
    }
    if r < c {
        assert((r + 1) * (r + 1) <= c * c) by (nonlinear_arith)
            requires
                0 <= r < c;
    }
}

fn clamp_i128(v: i128) -> (r: i64)
    ensures
        r as int == fx_clamp(v as int),
{
    if v > i64::MAX as i128 {
        i64::MAX
    } else if v < i64::MIN as i128 {
        i64::MIN
    } else {
        v as i64
    }
}

fn abs_i128(v: i128) -> (r: u128)
    requires
        v > i128::MIN,
    ensures
        r as int == iabs(v as int),
{
    if v < 0 {
        (-v) as u128
    } else {
        v as u128
    }
}

fn tdiv_i128(p: i128, q: i128) -> (r: i128)
    requires
        q != 0,
        p > i128::MIN,
        q > i128::MIN,
    ensures
        r as int == tdiv(p as int, q as int),
{
    let pm = abs_i128(p);
    let qm = abs_i128(q);
    let m = pm / qm;
    proof {
        assert(pm as int / qm as int <= pm as int) by (nonlinear_arith)
            requires
                (qm as int) >= 1,
                (pm as int) >= 0;
    }
    if (p < 0) != (q < 0) {
        -(m as i128)
    } else {
        m as i128
    }
}

/// Saturating fixed-point sum.
pub fn fx_add(a: i64, b: i64) -> (r: i64)
    ensures
        r as int == spec_fx_add(a as int, b as int),
{
    clamp_i128(a as i128 + b as i128)
}

/// Saturating fixed-point difference.
pub fn fx_sub(a: i64, b: i64) -> (r: i64)
    ensures
        r as int == spec_fx_sub(a as int, b as int),
{
    clamp_i128(a as i128 - b as i128)
}

/// Saturating fixed-point product, rounded toward zero.
pub fn fx_mul(a: i64, b: i64) -> (r: i64)
    ensures
        r as int == spec_fx_mul(a as int, b as int),
{
    proof {
        assert((a as int) * (b as int) <= 0x40000000000000000000000000000000
            && (a as int) * (b as int) >= -0x40000000000000000000000000000000) by (nonlinear_arith)
            requires
                -0x8000000000000000 <= (a as int) <= 0x7fffffffffffffff,
                -0x8000000000000000 <= (b as int) <= 0x7fffffffffffffff;
    }
    let p: i128 = (a as i128) * (b as i128);
    let q = tdiv_i128(p, FX_ONE as i128);
    clamp_i128(q)
}

/// Saturating fixed-point quotient, rounded toward zero; zero when `b == 0`.
pub fn fx_div(a: i64, b: i64) -> (r: i64)
    ensures
        r as int == spec_fx_div(a as int, b as int),
{
    if b == 0 {
        0
    } else {
        proof {
            assert((a as int) * (FX_ONE as int) <= 0x40000000000000000000000000000000
                && (a as int) * (FX_ONE as int) >= -0x40000000000000000000000000000000)
                by (nonlinear_arith)
                requires
                    -0x8000000000000000 <= (a as int) <= 0x7fffffffffffffff;
        }
        let p: i128 = (a as i128) * (FX_ONE as i128);
        let q = tdiv_i128(p, b as i128);
        clamp_i128(q)
    }
}

fn isqrt_u128(x: u128) -> (r: u128)
    requires
        x < 0x100000000000000000000,
    ensures
        is_sqrt(x as int, r as int),
{
    let mut lo: u128 = 0;
    let mut hi: u128 = 0x10000000000;
    proof {
        assert((0x10000000000 as int) * (0x10000000000 as int) == 0x100000000000000000000)
            by (nonlinear_arith);
    }
    while lo + 1 < hi
        invariant
            lo < hi <= 0x10000000000,
            (lo as int) * (lo as int) <= x as int,
            (x as int) < (hi as int) * (hi as int),
        decreases hi - lo,
    {
        let mid = lo + (hi - lo) / 2;
        proof {
            assert((mid as int) * (mid as int) <= 0x100000000000000000000) by (nonlinear_arith)
                requires
                    0 <= (mid as int) <= 0x10000000000;
        }
        if mid * mid <= x {
            lo = mid;
        } else {
            hi = mid;
        }
    }
    lo
}

/// Fixed-point square root, rounded down; zero on nonpositive inputs.
pub fn fx_sqrt(a: i64) -> (r: i64)
    ensures
        r as int == spec_fx_sqrt(a as int),
{
    if a <= 0 {
        return 0;
    }
    proof {
        assert((a as int) * (FX_ONE as int) < 0x100000000000000000000) by (nonlinear_arith)
            requires
                0 < (a as int) <= 0x7fffffffffffffff,
                FX_ONE as int == 0x10000;
    }
    let x: u128 = (a as u128) * (FX_ONE as u128);
    let r = isqrt_u128(x);
    proof {
        lemma_sqrt_floor_of_witness(x as int, r as int);
        assert(r as int <= 0x10000000000) by (nonlinear_arith)
            requires
                is_sqrt(x as int, r as int),
                (x as int) < 0x100000000000000000000;
    }
    r as i64
}

/// The raw value denoting the whole number `v`.
pub fn fx_from_int(v: i32) -> (r: i64)
    ensures
        r as int == v as int * (FX_ONE as int),
{
    proof {
        assert(-0x800000000000 <= (v as int) * (FX_ONE as int) <= 0x800000000000)
            by (nonlinear_arith)
            requires
                -0x80000000 <= (v as int) <= 0x7fffffff,
                FX_ONE as int == 0x10000;
    }
    (v as i64) * (FX_ONE as i64)
}

/// Multiplying by zero gives exactly zero.
pub proof fn lemma_fx_mul_zero(a: int)
    ensures
        spec_fx_mul(a, 0) == 0,
        spec_fx_mul(0, a) == 0,
{
    vstd::arithmetic::div_mod::lemma_div_of0(FX_ONE as int);
}

/// A zero numerator gives exactly zero, whatever the divisor.
pub proof fn lemma_fx_div_zero(b: int)
    ensures
        spec_fx_div(0, b) == 0,
{
    if b != 0 {
        vstd::arithmetic::div_mod::lemma_div_of0(iabs(b));
    }
}

/// Adding zero changes nothing, for values in the raw range.
pub proof fn lemma_fx_add_zero(a: int)
    requires
        i64::MIN <= a <= i64::MAX,
    ensures
        spec_fx_add(a, 0) == a,
        spec_fx_add(0, a) == a,
{
}

/// The Runge-Kutta weighted mean `(x + 2x + 2x + x) / 6` of four equal
/// stage values is exactly that value, away from the saturation bound.
pub proof fn lemma_weighted_mean_of_equal(x: int)
    requires
        iabs(x) <= i64::MAX as int / 8,
    ensures
        spec_fx_div(
            spec_fx_add(spec_fx_add(spec_fx_add(x, spec_fx_mul(x, FX_TWO as int)),
                spec_fx_mul(x, FX_TWO as int)), x),
            FX_SIX as int,
        ) == x,
{
    let s = FX_ONE as int;
    assert(spec_fx_mul(x, FX_TWO as int) == 2 * x) by {
        assert(x * (FX_TWO as int) == s * (2 * x));
        if x >= 0 {
            vstd::arithmetic::div_mod::lemma_div_multiples_vanish(2 * x, s);
            assert(tdiv(x * (FX_TWO as int), s) == 2 * x);
        } else {
            assert(iabs(x * (FX_TWO as int)) == s * (-2 * x));
            vstd::arithmetic::div_mod::lemma_div_multiples_vanish(-2 * x, s);
            assert(iabs(x * (FX_TWO as int)) / s == -2 * x);
            assert(tdiv(x * (FX_TWO as int), s) == 2 * x);
        }
    }
    let sum = spec_fx_add(spec_fx_add(spec_fx_add(x, 2 * x), 2 * x), x);
    assert(sum == 6 * x);
    assert(spec_fx_div(6 * x, FX_SIX as int) == x) by {
        assert((6 * x) * s == (FX_SIX as int) * x);
        if x >= 0 {
            vstd::arithmetic::div_mod::lemma_div_multiples_vanish(x, FX_SIX as int);
            assert(tdiv((6 * x) * s, FX_SIX as int) == x);
        } else {
            assert(iabs((6 * x) * s) == (FX_SIX as int) * (-x));
            vstd::arithmetic::div_mod::lemma_div_multiples_vanish(-x, FX_SIX as int);
            assert(iabs((6 * x) * s) / iabs(FX_SIX as int) == -x);
            assert(tdiv((6 * x) * s, FX_SIX as int) == x);
        }
    }
}

/// Every nonnegative integer has an integer square root, so `sqrt_floor`
/// denotes it.
pub proof fn lemma_sqrt_exists(x: int)
    requires
        x >= 0,
    ensures
        is_sqrt(x, sqrt_floor(x)),
    decreases x,
{
    if x == 0 {
        assert(is_sqrt(0, 0));
    } else {
        lemma_sqrt_exists(x - 1);
        let r = sqrt_floor(x - 1);
        if (r + 1) * (r + 1) <= x {
            assert(is_sqrt(x, r + 1)) by (nonlinear_arith)
                requires
                    is_sqrt(x - 1, r),
                    (r + 1) * (r + 1) <= x;
        } else {
            assert(is_sqrt(x, r));
        }
    }
}

} // verus!
