use render_harness::math::{FX_ONE, Vec3Fx, cross_fx, dot_fx, isqrt, mul_div_tz, normalize_fx};

fn v3(x: i64, y: i64, z: i64) -> Vec3Fx {
    Vec3Fx { x, y, z }
}

fn dot_exact(a: &Vec3Fx, b: &Vec3Fx) -> i128 {
    a.x as i128 * b.x as i128 + a.y as i128 * b.y as i128 + a.z as i128 * b.z as i128
}

#[test]
fn isqrt_small_values() {
    assert_eq!(isqrt(0), 0);
    assert_eq!(isqrt(1), 1);
    assert_eq!(isqrt(2), 1);
    assert_eq!(isqrt(3), 1);
    assert_eq!(isqrt(4), 2);
    assert_eq!(isqrt(15), 3);
    assert_eq!(isqrt(16), 4);
    assert_eq!(isqrt(17), 4);
}

#[test]
fn isqrt_large_values() {
    assert_eq!(isqrt(1 << 32), 1 << 16);
    assert_eq!(isqrt((1 << 32) - 1), (1 << 16) - 1);
    assert_eq!(isqrt(u64::MAX), (1 << 32) - 1);
}

#[test]
fn mul_div_rounds_toward_zero() {
    assert_eq!(mul_div_tz(7, 1, 2), 3);
    assert_eq!(mul_div_tz(-7, 1, 2), -3);
    assert_eq!(mul_div_tz(-3, FX_ONE, 2), -98304);
    assert_eq!(mul_div_tz(5, 0, 3), 0);
}

#[test]
fn normalize_axis_vectors_are_exact() {
    let f = normalize_fx(&v3(0, 0, -7 * FX_ONE));
    assert_eq!((f.x, f.y, f.z), (0, 0, -FX_ONE));
    let r = normalize_fx(&v3(3 * FX_ONE, 0, 0));
    assert_eq!((r.x, r.y, r.z), (FX_ONE, 0, 0));
}

#[test]
fn normalize_stays_within_one_unit() {
    let n = normalize_fx(&v3(12345, -54321, 777));
    assert!(n.x.abs() <= FX_ONE);
    assert!(n.y.abs() <= FX_ONE);
    assert!(n.z.abs() <= FX_ONE);
}

#[test]
fn cross_of_axes() {
    let x = v3(FX_ONE, 0, 0);
    let y = v3(0, FX_ONE, 0);
    let c = cross_fx(&x, &y);
    assert_eq!((c.x, c.y, c.z), (0, 0, FX_ONE));
}

#[test]
fn dot_of_unit_axes() {
    let x = v3(FX_ONE, 0, 0);
    let y = v3(0, FX_ONE, 0);
    assert_eq!(dot_fx(&x, &y), 0);
    assert_eq!(dot_fx(&x, &x), FX_ONE);
}

#[test]
fn basis_chain_orthogonal_on_skewed_up_hint() {
    // Aim along +x with an up hint at 45 degrees: the derived basis is
    // exactly orthogonal (and here exactly unit length, since every
    // normalization quotient is exact).
    let aim = v3(FX_ONE, 0, 0);
    let up_hint = v3(FX_ONE, FX_ONE, 0);
    let f = normalize_fx(&aim);
    let right = normalize_fx(&cross_fx(&f, &up_hint));
    let up = cross_fx(&right, &f);
    assert_eq!((f.x, f.y, f.z), (FX_ONE, 0, 0));
    assert_eq!((right.x, right.y, right.z), (0, 0, FX_ONE));
    assert_eq!((up.x, up.y, up.z), (0, FX_ONE, 0));
    assert_eq!(dot_exact(&f, &right), 0);
    assert_eq!(dot_exact(&f, &up), 0);
    assert_eq!(dot_exact(&right, &up), 0);
}
