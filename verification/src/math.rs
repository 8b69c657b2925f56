//! Fixed-point scalar arithmetic.
//!
//! All geometric quantities in this library are carried as signed 64-bit
//! fixed-point numbers scaled by [`FX_ONE`]: the integer `n` stands for the
//! real number `n / FX_ONE`. Products are formed exactly in 128 bits and
//! rescaled with a division that rounds toward zero.

use vstd::prelude::*;

verus! {

use vstd::arithmetic::div_mod::{
    lemma_div_is_ordered, lemma_div_by_multiple, lemma_div_pos_is_pos, lemma_div_of0,
};

/// Number of fixed-point units that stand for the real number one.
pub const FX_ONE: i64 = 65536;

/// Division rounding toward zero, defined for a positive divisor.
///
/// Spec-level `/` on `int` is Euclidean; executable code rounds quotients
/// toward zero, and this function states that rounding exactly.
pub open spec fn div_tz(a: int, d: int) -> int {
    if a >= 0 {
        a / d
    } else {
        -((-a) / d)
    }
}

/// A fixed-point product: the exact integer product rescaled by `FX_ONE`,
/// rounding toward zero.
pub open spec fn fx_mul(a: int, b: int) -> int {
    div_tz(a * b, FX_ONE as int)
}

/// A fixed-point quotient: `a / b` carried out as `a * FX_ONE / b`,
/// rounding toward zero.
pub open spec fn fx_div(a: int, b: int) -> int {
    div_tz(a * FX_ONE, b)
}

/// Rounding toward zero never enlarges a bound on the dividend.
pub proof fn lemma_div_tz_bound(a: int, d: int, m: int)
    requires
        d > 0,
        -m <= a <= m,
    ensures
        -(m / d) <= div_tz(a, d) <= m / d,
{
    if a >= 0 {
        lemma_div_is_ordered(a, m, d);
        lemma_div_pos_is_pos(a, d);
    } else {
        lemma_div_is_ordered(-a, m, d);
        lemma_div_pos_is_pos(-a, d);
    }
}

/// Dividing an exact multiple rounds to the exact quotient.
pub proof fn lemma_div_tz_multiple(t: int, d: int)
    requires
        d > 0,
    ensures
        div_tz(t * d, d) == t,
{
    if t >= 0 {
        lemma_div_by_multiple(t, d);
    } else {
        lemma_div_by_multiple(-t, d);
        assert(-(t * d) == (-t) * d) by (nonlinear_arith);
    }
}

/// Negating one factor negates a fixed-point product exactly: the
/// truncating division is symmetric about zero.
pub proof fn lemma_fx_mul_neg(a: int, b: int)
    ensures
        fx_mul(-a, b) == -fx_mul(a, b),
{
    assert((-a) * b == -(a * b)) by (nonlinear_arith);
    if a * b == 0 {
        lemma_div_of0(FX_ONE as int);
    }
}

/// Quotient of a 128-bit value by a positive 64-bit divisor, rounding
/// toward zero, with the result required to fit in 64 bits.
fn div_tz_i128(p: i128, d: i64) -> (r: i64)
    requires
        d > 0,
        p != i128::MIN,
        -0x7fff_ffff_ffff_ffff <= div_tz(p as int, d as int) <= 0x7fff_ffff_ffff_ffff,
    ensures
        r == div_tz(p as int, d as int),
{
    if p >= 0 {
        let q: u128 = (p as u128) / (d as u128);
        assert(q == p as int / d as int);
        q as i64
    } else {
        let m: u128 = (-p) as u128;
        let q: u128 = m / (d as u128);
        assert(q == (-(p as int)) / (d as int));
        -(q as i64)
    }
}

/// Floor of the square root of a natural number.
pub open spec fn sqrt_floor(n: nat) -> nat
    decreases n,
{
    if n == 0 {
        0
    } else {
        let r = sqrt_floor((n - 1) as nat);
        if (r + 1) * (r + 1) <= n {
            (r + 1) as nat
        } else {
            r
        }
    }
}

/// `sqrt_floor(n)` is the unique natural number whose square is at most `n`
/// and whose successor's square exceeds `n`.
pub proof fn lemma_sqrt_floor(n: nat)
    ensures
        sqrt_floor(n) * sqrt_floor(n) <= n,
        n < (sqrt_floor(n) + 1) * (sqrt_floor(n) + 1),
    decreases n,
{
    if n > 0 {
        lemma_sqrt_floor((n - 1) as nat);
        let r = sqrt_floor((n - 1) as nat);
        if (r + 1) * (r + 1) <= n {
            assert(sqrt_floor(n) == r + 1);
            assert(n < (r + 2) * (r + 2)) by (nonlinear_arith)
                requires
                    n - 1 < (r + 1) * (r + 1),
                    r >= 0,
            ;
            assert((sqrt_floor(n) + 1) * (sqrt_floor(n) + 1) == (r + 2) * (r + 2));
            assert(sqrt_floor(n) * sqrt_floor(n) == (r + 1) * (r + 1));
        } else {
            assert(sqrt_floor(n) == r);
            assert(r * r <= n - 1 <= n);
            assert(n < (r + 1) * (r + 1));
            assert((sqrt_floor(n) + 1) * (sqrt_floor(n) + 1) == (r + 1) * (r + 1));
        }
    } else {
        assert(sqrt_floor(n) == 0);
        assert((sqrt_floor(n) + 1) * (sqrt_floor(n) + 1) == 1) by (nonlinear_arith)
            requires
                sqrt_floor(n) == 0,
        ;
    }
}

/// Only one natural number can sit at the floor of a square root.
pub proof fn lemma_sqrt_floor_unique(n: nat, r: nat)
    requires
        r * r <= n,
        n < (r + 1) * (r + 1),
    ensures
        r == sqrt_floor(n),
{
    lemma_sqrt_floor(n);
    let s = sqrt_floor(n);
    assert(r == s) by (nonlinear_arith)
        requires
            r * r <= n,
            n < (r + 1) * (r + 1),
            s * s <= n,
            n < (s + 1) * (s + 1),
            r >= 0,
            s >= 0,
    ;
}

/// The square root floor never decreases as its argument grows.
pub proof fn lemma_sqrt_floor_monotone(a: nat, b: nat)
    requires
        a <= b,
    ensures
        sqrt_floor(a) <= sqrt_floor(b),
{
    lemma_sqrt_floor(a);
    lemma_sqrt_floor(b);
    let ra = sqrt_floor(a);
    let rb = sqrt_floor(b);
    assert(ra <= rb) by (nonlinear_arith)
        requires
            ra * ra <= a,
            b < (rb + 1) * (rb + 1),
            a <= b,
            ra >= 0,
            rb >= 0,
    ;
}

/// Integer square root, rounded down.
pub fn isqrt(n: u64) -> (r: u64)
    ensures
        r == sqrt_floor(n as nat),
{
    let mut lo: u64 = 0;
    let mut hi: u64 = 0x1_0000_0000;
    proof {
        assert((0x1_0000_0000 as int) * (0x1_0000_0000 as int) > n as int);
    }
    while lo + 1 < hi
        invariant
            0 <= lo < hi <= 0x1_0000_0000,
            (lo as int) * (lo as int) <= n as int,
            (n as int) < (hi as int) * (hi as int),
        decreases hi - lo,
    {
        let mid: u64 = lo + (hi - lo) / 2;
        proof {
            assert((mid as int) * (mid as int) <= 0x1_0000_0000 * 0x1_0000_0000)
                by (nonlinear_arith)
                requires
                    0 <= mid as int <= 0x1_0000_0000,
            ;
        }
        let sq: u128 = (mid as u128) * (mid as u128);
        if sq <= n as u128 {
            lo = mid;
        } else {
            hi = mid;
        }
    }
    proof {
        lemma_sqrt_floor_unique(n as nat, lo as nat);
    }
    lo
}

/// `a * b / d`, with the product taken exactly and the division rounding
/// toward zero. The result must fit in 64 bits.
pub fn mul_div_tz(a: i64, b: i64, d: i64) -> (r: i64)
    requires
        d > 0,
        -0x7fff_ffff_ffff_ffff <= div_tz(a * b, d as int) <= 0x7fff_ffff_ffff_ffff,
    ensures
        r == div_tz(a * b, d as int),
{
    proof {
        assert(-0x4000_0000_0000_0000_0000_0000_0000_0000 <= a as int * b as int
            <= 0x4000_0000_0000_0000_0000_0000_0000_0000) by (nonlinear_arith)
            requires
                -0x8000_0000_0000_0000 <= a as int <= 0x7fff_ffff_ffff_ffff,
                -0x8000_0000_0000_0000 <= b as int <= 0x7fff_ffff_ffff_ffff,
        ;
    }
    let p: i128 = (a as i128) * (b as i128);
    div_tz_i128(p, d)
}

/// Bound on the coordinates accepted by the geometric operations below:
/// 2^23 fixed-point units, or ±128 in real units. Keeping inputs inside it
/// keeps every intermediate product inside 64 bits after rescaling.
pub const FX_COORD_BOUND: i64 = 0x80_0000;

/// A three-component fixed-point vector.
#[derive(Clone, Copy, PartialEq, Eq, Structural, Debug)]
pub struct Vec3Fx {
    pub x: i64,
    pub y: i64,
    pub z: i64,
}

/// A four-component fixed-point vector; a column of a matrix.
#[derive(Clone, Copy, PartialEq, Eq, Structural, Debug)]
pub struct Vec4Fx {
    pub x: i64,
    pub y: i64,
    pub z: i64,
    pub w: i64,
}

impl Vec3Fx {
    /// Every coordinate lies within `±b`.
    pub open spec fn bounded(self, b: int) -> bool {
        &&& -b <= self.x <= b
        &&& -b <= self.y <= b
        &&& -b <= self.z <= b
    }
}

/// Exact dot product of the integer coordinates.
pub open spec fn dot_exact(a: Vec3Fx, b: Vec3Fx) -> int {
    a.x * b.x + a.y * b.y + a.z * b.z
}

/// Exact squared Euclidean length of the integer coordinates.
pub open spec fn norm2(v: Vec3Fx) -> int {
    dot_exact(v, v)
}

/// First coordinate of the exact cross product.
pub open spec fn cross_exact_x(a: Vec3Fx, b: Vec3Fx) -> int {
    a.y * b.z - a.z * b.y
}

/// Second coordinate of the exact cross product.
pub open spec fn cross_exact_y(a: Vec3Fx, b: Vec3Fx) -> int {
    a.z * b.x - a.x * b.z
}

/// Third coordinate of the exact cross product.
pub open spec fn cross_exact_z(a: Vec3Fx, b: Vec3Fx) -> int {
    a.x * b.y - a.y * b.x
}

/// Fixed-point dot product: each product is rescaled on its own, then the
/// three terms are summed.
pub open spec fn fx_dot(a: Vec3Fx, b: Vec3Fx) -> int {
    fx_mul(a.x as int, b.x as int) + fx_mul(a.y as int, b.y as int) + fx_mul(
        a.z as int,
        b.z as int,
    )
}

/// First coordinate of the fixed-point cross product: the exact coordinate,
/// rescaled once.
pub open spec fn fx_cross_x(a: Vec3Fx, b: Vec3Fx) -> int {
    div_tz(cross_exact_x(a, b), FX_ONE as int)
}

/// Second coordinate of the fixed-point cross product.
pub open spec fn fx_cross_y(a: Vec3Fx, b: Vec3Fx) -> int {
    div_tz(cross_exact_y(a, b), FX_ONE as int)
}

/// Third coordinate of the fixed-point cross product.
pub open spec fn fx_cross_z(a: Vec3Fx, b: Vec3Fx) -> int {
    div_tz(cross_exact_z(a, b), FX_ONE as int)
}

/// Length of `v` in fixed-point units: the square root floor of the exact
/// squared length.
pub open spec fn fx_len(v: Vec3Fx) -> int {
    sqrt_floor(norm2(v) as nat) as int
}

/// One coordinate of `v` scaled to unit length: `v.x * FX_ONE / len`.
pub open spec fn fx_normalize_x(v: Vec3Fx) -> int {
    div_tz(v.x * FX_ONE, fx_len(v))
}

/// See [`fx_normalize_x`].
pub open spec fn fx_normalize_y(v: Vec3Fx) -> int {
    div_tz(v.y * FX_ONE, fx_len(v))
}

/// See [`fx_normalize_x`].
pub open spec fn fx_normalize_z(v: Vec3Fx) -> int {
    div_tz(v.z * FX_ONE, fx_len(v))
}

/// Cross-product orthogonality over raw coordinates: the dot product of
/// either factor with the cross product vanishes identically.
proof fn lemma_cross_orthogonal_components(ax: int, ay: int, az: int, bx: int, by: int, bz: int)
    ensures
        ax * (ay * bz - az * by) + ay * (az * bx - ax * bz) + az * (ax * by - ay * bx) == 0,
        bx * (ay * bz - az * by) + by * (az * bx - ax * bz) + bz * (ax * by - ay * bx) == 0,
{
    assert(ax * (ay * bz - az * by) + ay * (az * bx - ax * bz) + az * (ax * by - ay * bx) == 0)
        by (nonlinear_arith);
    assert(bx * (ay * bz - az * by) + by * (az * bx - ax * bz) + bz * (ax * by - ay * bx) == 0)
        by (nonlinear_arith);
}

/// The exact cross product of two vectors is orthogonal to both, whatever
/// the vectors are: the dot product of either input with the cross product
/// vanishes identically. This is the exact-arithmetic heart of the claim
/// that a camera basis built from cross products is pairwise orthogonal;
/// the fixed-point rescaling of each coordinate rounds toward zero and is
/// not covered by this statement.
pub proof fn lemma_cross_orthogonal(a: Vec3Fx, b: Vec3Fx)
    ensures
        a.x * cross_exact_x(a, b) + a.y * cross_exact_y(a, b) + a.z * cross_exact_z(a, b) == 0,
        b.x * cross_exact_x(a, b) + b.y * cross_exact_y(a, b) + b.z * cross_exact_z(a, b) == 0,
{
    lemma_cross_orthogonal_components(
        a.x as int,
        a.y as int,
        a.z as int,
        b.x as int,
        b.y as int,
        b.z as int,
    );
}

/// A camera basis is derived as forward, right = forward × up-hint, and
/// true up = right × forward. At exact arithmetic that chain is pairwise
/// orthogonal for every forward vector and every up hint, even ones that
/// are far from perpendicular to each other; only the unit-length claim
/// needs the normalization steps, whose rounding this exact statement
/// does not cover.
pub proof fn lemma_basis_chain_orthogonal(f: Vec3Fx, up: Vec3Fx)
    ensures
        f.x * cross_exact_x(f, up) + f.y * cross_exact_y(f, up) + f.z * cross_exact_z(f, up) == 0,
        up.x * cross_exact_x(f, up) + up.y * cross_exact_y(f, up) + up.z * cross_exact_z(f, up)
            == 0,
        f.x * (cross_exact_y(f, up) * f.z - cross_exact_z(f, up) * f.y) + f.y * (cross_exact_z(
            f,
            up,
        ) * f.x - cross_exact_x(f, up) * f.z) + f.z * (cross_exact_x(f, up) * f.y - cross_exact_y(
            f,
            up,
        ) * f.x) == 0,
        cross_exact_x(f, up) * (cross_exact_y(f, up) * f.z - cross_exact_z(f, up) * f.y)
            + cross_exact_y(f, up) * (cross_exact_z(f, up) * f.x - cross_exact_x(f, up) * f.z)
            + cross_exact_z(f, up) * (cross_exact_x(f, up) * f.y - cross_exact_y(f, up) * f.x)
            == 0,
{
    lemma_cross_orthogonal(f, up);
    lemma_cross_orthogonal_components(
        cross_exact_x(f, up),
        cross_exact_y(f, up),
        cross_exact_z(f, up),
        f.x as int,
        f.y as int,
        f.z as int,
    );
}

/// A fixed-point product of bounded factors is bounded by the rescaled
/// product of the bounds.
pub proof fn lemma_fx_mul_bound(a: int, b: int, ba: int, bb: int)
    requires
        -ba <= a <= ba,
        -bb <= b <= bb,
        0 <= ba,
        0 <= bb,
    ensures
        -((ba * bb) / (FX_ONE as int)) <= fx_mul(a, b) <= (ba * bb) / (FX_ONE as int),
{
    assert(-(ba * bb) <= a * b <= ba * bb) by (nonlinear_arith)
        requires
            -ba <= a <= ba,
            -bb <= b <= bb,
            0 <= ba,
            0 <= bb,
    ;
    lemma_div_tz_bound(a * b, FX_ONE as int, ba * bb);
}

/// A fixed-point cross product of bounded factors is bounded by twice the
/// rescaled product of the bounds.
pub proof fn lemma_fx_cross_bound(a: Vec3Fx, b: Vec3Fx, ba: int, bb: int)
    requires
        a.bounded(ba),
        b.bounded(bb),
        0 <= ba,
        0 <= bb,
    ensures
        -((2 * ba * bb) / (FX_ONE as int)) <= fx_cross_x(a, b) <= (2 * ba * bb) / (FX_ONE as int),
        -((2 * ba * bb) / (FX_ONE as int)) <= fx_cross_y(a, b) <= (2 * ba * bb) / (FX_ONE as int),
        -((2 * ba * bb) / (FX_ONE as int)) <= fx_cross_z(a, b) <= (2 * ba * bb) / (FX_ONE as int),
{
    assert(-(2 * ba * bb) <= cross_exact_x(a, b) <= 2 * ba * bb && -(2 * ba * bb)
        <= cross_exact_y(a, b) <= 2 * ba * bb && -(2 * ba * bb) <= cross_exact_z(a, b) <= 2 * ba
        * bb) by (nonlinear_arith)
        requires
            a.bounded(ba),
            b.bounded(bb),
            0 <= ba,
            0 <= bb,
    ;
    lemma_div_tz_bound(cross_exact_x(a, b), FX_ONE as int, 2 * ba * bb);
    lemma_div_tz_bound(cross_exact_y(a, b), FX_ONE as int, 2 * ba * bb);
    lemma_div_tz_bound(cross_exact_z(a, b), FX_ONE as int, 2 * ba * bb);
}

/// A fixed-point dot product of bounded factors is bounded by three times
/// the rescaled product of the bounds.
pub proof fn lemma_fx_dot_bound(a: Vec3Fx, b: Vec3Fx, ba: int, bb: int)
    requires
        a.bounded(ba),
        b.bounded(bb),
        0 <= ba,
        0 <= bb,
    ensures
        -(3 * ((ba * bb) / (FX_ONE as int))) <= fx_dot(a, b) <= 3 * ((ba * bb) / (FX_ONE as int)),
{
    lemma_fx_mul_bound(a.x as int, b.x as int, ba, bb);
    lemma_fx_mul_bound(a.y as int, b.y as int, ba, bb);
    lemma_fx_mul_bound(a.z as int, b.z as int, ba, bb);
}

/// Exact squared length of a bounded vector.
pub fn norm2_u64(v: &Vec3Fx) -> (r: u64)
    requires
        v.bounded(0x4000_0000),
    ensures
        r == norm2(*v),
{
    proof {
        assert(0 <= (v.x as int) * (v.x as int) <= 0x1000_0000_0000_0000 && 0 <= (v.y as int) * (
        v.y as int) <= 0x1000_0000_0000_0000 && 0 <= (v.z as int) * (v.z as int)
            <= 0x1000_0000_0000_0000) by (nonlinear_arith)
            requires
                -0x4000_0000 <= v.x as int <= 0x4000_0000,
                -0x4000_0000 <= v.y as int <= 0x4000_0000,
                -0x4000_0000 <= v.z as int <= 0x4000_0000,
        ;
    }
    let p: i128 = (v.x as i128) * (v.x as i128) + (v.y as i128) * (v.y as i128) + (v.z as i128) * (
    v.z as i128);
    p as u64
}

/// One cross-product coordinate: `p * q - s * t`, rescaled by `FX_ONE`
/// rounding toward zero.
fn cross_term(p: i64, q: i64, s: i64, t: i64) -> (r: i64)
    requires
        -0x4000_0000 <= p <= 0x4000_0000,
        -0x4000_0000 <= q <= 0x4000_0000,
        -0x4000_0000 <= s <= 0x4000_0000,
        -0x4000_0000 <= t <= 0x4000_0000,
    ensures
        r == div_tz(p * q - s * t, FX_ONE as int),
{
    proof {
        assert(-0x1000_0000_0000_0000 <= (p as int) * (q as int) <= 0x1000_0000_0000_0000
            && -0x1000_0000_0000_0000 <= (s as int) * (t as int) <= 0x1000_0000_0000_0000)
            by (nonlinear_arith)
            requires
                -0x4000_0000 <= p as int <= 0x4000_0000,
                -0x4000_0000 <= q as int <= 0x4000_0000,
                -0x4000_0000 <= s as int <= 0x4000_0000,
                -0x4000_0000 <= t as int <= 0x4000_0000,
        ;
        lemma_div_tz_bound(p * q - s * t, FX_ONE as int, 0x2000_0000_0000_0000);
    }
    let d: i128 = (p as i128) * (q as i128) - (s as i128) * (t as i128);
    div_tz_i128(d, FX_ONE)
}

/// Fixed-point dot product.
pub fn dot_fx(a: &Vec3Fx, b: &Vec3Fx) -> (r: i64)
    requires
        a.bounded(0x4000_0000),
        b.bounded(0x4000_0000),
    ensures
        r == fx_dot(*a, *b),
{
    proof {
        assert(-0x1000_0000_0000_0000 <= (a.x as int) * (b.x as int) <= 0x1000_0000_0000_0000
            && -0x1000_0000_0000_0000 <= (a.y as int) * (b.y as int) <= 0x1000_0000_0000_0000
            && -0x1000_0000_0000_0000 <= (a.z as int) * (b.z as int) <= 0x1000_0000_0000_0000)
            by (nonlinear_arith)
            requires
                -0x4000_0000 <= a.x as int <= 0x4000_0000,
                -0x4000_0000 <= a.y as int <= 0x4000_0000,
                -0x4000_0000 <= a.z as int <= 0x4000_0000,
                -0x4000_0000 <= b.x as int <= 0x4000_0000,
                -0x4000_0000 <= b.y as int <= 0x4000_0000,
                -0x4000_0000 <= b.z as int <= 0x4000_0000,
        ;
        lemma_div_tz_bound(a.x * b.x, FX_ONE as int, 0x1000_0000_0000_0000);
        lemma_div_tz_bound(a.y * b.y, FX_ONE as int, 0x1000_0000_0000_0000);
        lemma_div_tz_bound(a.z * b.z, FX_ONE as int, 0x1000_0000_0000_0000);
    }
    let tx = mul_div_tz(a.x, b.x, FX_ONE);
    let ty = mul_div_tz(a.y, b.y, FX_ONE);
    let tz = mul_div_tz(a.z, b.z, FX_ONE);
    tx + ty + tz
}

/// Fixed-point cross product.
pub fn cross_fx(a: &Vec3Fx, b: &Vec3Fx) -> (r: Vec3Fx)
    requires
        a.bounded(0x4000_0000),
        b.bounded(0x4000_0000),
    ensures
        r.x == fx_cross_x(*a, *b),
        r.y == fx_cross_y(*a, *b),
        r.z == fx_cross_z(*a, *b),
{
    Vec3Fx {
        x: cross_term(a.y, b.z, a.z, b.y),
        y: cross_term(a.z, b.x, a.x, b.z),
        z: cross_term(a.x, b.y, a.y, b.x),
    }
}

/// No coordinate exceeds the length of its vector.
pub proof fn lemma_coord_le_len(v: Vec3Fx)
    requires
        v.bounded(0x4000_0000),
    ensures
        -fx_len(v) <= v.x <= fx_len(v),
        -fx_len(v) <= v.y <= fx_len(v),
        -fx_len(v) <= v.z <= fx_len(v),
{
    assert((v.x as int) * (v.x as int) <= norm2(v) && (v.y as int) * (v.y as int) <= norm2(v) && (
    v.z as int) * (v.z as int) <= norm2(v)) by (nonlinear_arith);
    lemma_coord_le_len_one(v.x as int, norm2(v));
    lemma_coord_le_len_one(v.y as int, norm2(v));
    lemma_coord_le_len_one(v.z as int, norm2(v));
}

/// A coordinate whose square is at most `n2` is at most `sqrt_floor(n2)`
/// in magnitude.
proof fn lemma_coord_le_len_one(c: int, n2: int)
    requires
        c * c <= n2,
    ensures
        -(sqrt_floor(n2 as nat) as int) <= c <= sqrt_floor(n2 as nat) as int,
{
    let m = if c >= 0 {
        c
    } else {
        -c
    };
    assert(m * m == c * c && m * m < (m + 1) * (m + 1)) by (nonlinear_arith)
        requires
            (c >= 0 && m == c) || (c < 0 && m == -c),
    ;
    lemma_sqrt_floor_unique((m * m) as nat, m as nat);
    lemma_sqrt_floor_monotone((m * m) as nat, n2 as nat);
}

/// Scaling a bounded vector to unit length. Each coordinate of the result
/// is the exact quotient `v_i * FX_ONE / len`, rounded toward zero, and so
/// lies within `±FX_ONE`.
pub fn normalize_fx(v: &Vec3Fx) -> (r: Vec3Fx)
    requires
        v.bounded(0x4000_0000),
        norm2(*v) > 0,
    ensures
        r.x == fx_normalize_x(*v),
        r.y == fx_normalize_y(*v),
        r.z == fx_normalize_z(*v),
        r.bounded(FX_ONE as int),
{
    let n2: u64 = norm2_u64(v);
    let n: u64 = isqrt(n2);
    proof {
        lemma_sqrt_floor(n2 as nat);
        assert(norm2(*v) <= 0x3000_0000_0000_0000) by (nonlinear_arith)
            requires
                v.bounded(0x4000_0000),
        ;
        assert(n >= 1) by (nonlinear_arith)
            requires
                n2 as int >= 1,
                (n2 as int) < ((n as int) + 1) * ((n as int) + 1),
                n as int >= 0,
        ;
        assert((n as int) < 0x8000_0000) by (nonlinear_arith)
            requires
                (n as int) * (n as int) <= n2 as int,
                0 <= n as int,
                n2 as int <= 0x3000_0000_0000_0000,
        ;
        lemma_coord_le_len(*v);
        lemma_normalize_coord(v.x as int, n as int);
        lemma_normalize_coord(v.y as int, n as int);
        lemma_normalize_coord(v.z as int, n as int);
    }
    Vec3Fx {
        x: mul_div_tz(v.x, FX_ONE, n as i64),
        y: mul_div_tz(v.y, FX_ONE, n as i64),
        z: mul_div_tz(v.z, FX_ONE, n as i64),
    }
}

/// Dividing `c * FX_ONE` by a length that bounds `c` lands within `±FX_ONE`.
pub proof fn lemma_normalize_coord(c: int, n: int)
    requires
        n >= 1,
        -n <= c <= n,
    ensures
        -(FX_ONE as int) <= div_tz(c * FX_ONE, n) <= FX_ONE as int,
{
    assert(-(n * FX_ONE) <= c * FX_ONE <= n * FX_ONE) by (nonlinear_arith)
        requires
            -n <= c <= n,
            n >= 1,
    ;
    lemma_div_tz_bound(c * FX_ONE, n, n * FX_ONE);
    lemma_div_by_multiple(FX_ONE as int, n);
    assert(n * FX_ONE == FX_ONE * n) by (nonlinear_arith);
}

} // verus!
