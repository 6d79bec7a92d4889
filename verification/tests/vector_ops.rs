use gravity_sim::fixed::{fx_add, fx_div, fx_mul, fx_sqrt, fx_sub, FX_ONE};
use gravity_sim::vec2::Vec2;

fn fx(v: i64) -> i64 {
    v * FX_ONE
}

#[test]
fn scalar_arithmetic_exact() {
    assert_eq!(fx_add(fx(3), fx(4)), fx(7));
    assert_eq!(fx_sub(fx(3), fx(4)), fx(-1));
    // 1.5 * 2.5 == 3.75 exactly in fixed point
    assert_eq!(fx_mul(98304, 163840), 245760);
    assert_eq!(fx_mul(fx(-3), fx(2)), fx(-6));
    // division rounds toward zero, symmetrically
    assert_eq!(fx_div(fx(7), fx(2)), 229376);
    assert_eq!(fx_div(fx(-7), fx(2)), -229376);
    // division by zero is defined as zero
    assert_eq!(fx_div(fx(5), 0), 0);
    assert_eq!(fx_sqrt(fx(2)), 92681);
    assert_eq!(fx_sqrt(fx(25)), fx(5));
    assert_eq!(fx_sqrt(-fx(1)), 0);
}

#[test]
fn scalar_arithmetic_saturates() {
    assert_eq!(fx_add(i64::MAX, fx(1)), i64::MAX);
    assert_eq!(fx_sub(i64::MIN, fx(1)), i64::MIN);
    assert_eq!(fx_mul(i64::MAX, fx(2)), i64::MAX);
    assert_eq!(fx_mul(i64::MAX, fx(-2)), i64::MIN);
}

#[test]
fn length_of_three_four_is_five() {
    let v = Vec2::new(fx(3), fx(4));
    assert_eq!(v.length(), fx(5));
}

#[test]
fn normalize_of_nonzero_vector_has_unit_length() {
    let v = Vec2::new(fx(3), fx(4));
    let n = v.normalize();
    assert_eq!(n.x, 39321);
    assert_eq!(n.y, 52428);
    let len = n.length();
    assert!((len - FX_ONE).abs() <= 4, "length {} not close to one", len);

    let w = Vec2::new(fx(-120), fx(7)).normalize();
    assert!((w.length() - FX_ONE).abs() <= 4);
}

#[test]
fn normalize_of_zero_vector_is_zero() {
    let z = Vec2::new(0, 0);
    let n = z.normalize();
    assert_eq!(n, Vec2::new(0, 0));
    assert_eq!(n.length(), 0);
}

#[test]
fn vector_arithmetic_exact() {
    let a = Vec2::new(fx(1), fx(2));
    let b = Vec2::new(fx(3), fx(-5));
    assert_eq!(a.add(&b), Vec2::new(fx(4), fx(-3)));
    assert_eq!(a.sub(&b), Vec2::new(fx(-2), fx(7)));
    assert_eq!(a.mul(fx(3)), Vec2::new(fx(3), fx(6)));
    assert_eq!(b.div(fx(2)), Vec2::new(98304, -163840));
}

#[test]
fn dot_product_exact() {
    let a = Vec2::new(98304, fx(2));
    let b = Vec2::new(fx(4), fx(-3));
    assert_eq!(a.dot(&b), 0);
}

#[test]
fn distance_exact() {
    let a = Vec2::new(fx(1), fx(1));
    let b = Vec2::new(fx(4), fx(5));
    assert_eq!(a.distance(&b), fx(5));
    assert_eq!(a.distance(&a), 0);
}

#[test]
fn lerp_exact() {
    let a = Vec2::new(0, 0);
    let b = Vec2::new(fx(10), fx(20));
    let quarter = FX_ONE / 4;
    assert_eq!(a.lerp(&b, quarter), Vec2::new(163840, 327680));
    assert_eq!(a.lerp(&b, 0), a);
    assert_eq!(a.lerp(&b, FX_ONE), b);
}

#[test]
fn multiplication_rounds_toward_zero() {
    let just_over_one = FX_ONE + 1;
    assert_eq!(fx_mul(just_over_one, just_over_one), FX_ONE + 2);
    assert_eq!(fx_mul(-just_over_one, just_over_one), -(FX_ONE + 2));
    assert_eq!(fx_div(fx(7), fx(-2)), -229376);
    assert_eq!(fx_div(fx(-7), fx(-2)), 229376);
}
