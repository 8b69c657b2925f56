//! Camera model and transform derivation.
//!
//! An orthographic camera holds an eye position, an aim direction, an up
//! hint, an aspect ratio and a depth range, all as fixed-point values. From
//! these it derives an orthonormal basis (forward, right, up), a view
//! matrix that carries world space into camera space, and an orthographic
//! projection whose clip depth runs from zero to one.

use vstd::prelude::*;

verus! {

use crate::math::{
    Vec3Fx, Vec4Fx, FX_ONE, FX_COORD_BOUND, fx_mul, fx_div, fx_dot, fx_cross_x, fx_cross_y,
    fx_cross_z, fx_normalize_x, fx_normalize_y, fx_normalize_z, fx_len, norm2, dot_fx, cross_fx,
    normalize_fx, mul_div_tz, lemma_fx_mul_bound, lemma_fx_cross_bound, lemma_fx_dot_bound,
    lemma_div_tz_bound, lemma_div_tz_multiple, lemma_fx_mul_neg, lemma_coord_le_len,
    lemma_normalize_coord, lemma_sqrt_floor,
};
use vstd::arithmetic::div_mod::{lemma_div_by_multiple, lemma_div_nonincreasing};

/// A 4-by-4 fixed-point matrix, stored as four columns as the GPU expects.
#[derive(Clone, Copy, PartialEq, Eq, Structural, Debug)]
pub struct Mat4Fx {
    pub c0: Vec4Fx,
    pub c1: Vec4Fx,
    pub c2: Vec4Fx,
    pub c3: Vec4Fx,
}

impl Vec4Fx {
    /// Every coordinate lies within `±b`.
    pub open spec fn bounded4(self, b: int) -> bool {
        &&& -b <= self.x <= b
        &&& -b <= self.y <= b
        &&& -b <= self.z <= b
        &&& -b <= self.w <= b
    }
}

impl Mat4Fx {
    /// Every entry lies within `±b`.
    pub open spec fn bounded(self, b: int) -> bool {
        &&& self.c0.bounded4(b)
        &&& self.c1.bounded4(b)
        &&& self.c2.bounded4(b)
        &&& self.c3.bounded4(b)
    }
}

/// The fixed-point identity matrix.
pub open spec fn spec_identity() -> Mat4Fx {
    Mat4Fx {
        c0: Vec4Fx { x: FX_ONE, y: 0, z: 0, w: 0 },
        c1: Vec4Fx { x: 0, y: FX_ONE, z: 0, w: 0 },
        c2: Vec4Fx { x: 0, y: 0, z: FX_ONE, w: 0 },
        c3: Vec4Fx { x: 0, y: 0, z: 0, w: FX_ONE },
    }
}

/// First coordinate of `m` applied to the point `p` taken with homogeneous
/// coordinate one: fixed-point products summed along the row.
pub open spec fn spec_transform_x(m: Mat4Fx, p: Vec3Fx) -> int {
    fx_mul(m.c0.x as int, p.x as int) + fx_mul(m.c1.x as int, p.y as int) + fx_mul(
        m.c2.x as int,
        p.z as int,
    ) + fx_mul(m.c3.x as int, FX_ONE as int)
}

/// See [`spec_transform_x`].
pub open spec fn spec_transform_y(m: Mat4Fx, p: Vec3Fx) -> int {
    fx_mul(m.c0.y as int, p.x as int) + fx_mul(m.c1.y as int, p.y as int) + fx_mul(
        m.c2.y as int,
        p.z as int,
    ) + fx_mul(m.c3.y as int, FX_ONE as int)
}

/// See [`spec_transform_x`].
pub open spec fn spec_transform_z(m: Mat4Fx, p: Vec3Fx) -> int {
    fx_mul(m.c0.z as int, p.x as int) + fx_mul(m.c1.z as int, p.y as int) + fx_mul(
        m.c2.z as int,
        p.z as int,
    ) + fx_mul(m.c3.z as int, FX_ONE as int)
}

/// See [`spec_transform_x`].
pub open spec fn spec_transform_w(m: Mat4Fx, p: Vec3Fx) -> int {
    fx_mul(m.c0.w as int, p.x as int) + fx_mul(m.c1.w as int, p.y as int) + fx_mul(
        m.c2.w as int,
        p.z as int,
    ) + fx_mul(m.c3.w as int, FX_ONE as int)
}

/// Apply `m` to the point `p` with homogeneous coordinate one.
pub fn transform_point(m: &Mat4Fx, p: &Vec3Fx) -> (r: Vec4Fx)
    requires
        m.bounded(0x4000_0000),
        p.bounded(0x4000_0000),
    ensures
        r.x == spec_transform_x(*m, *p),
        r.y == spec_transform_y(*m, *p),
        r.z == spec_transform_z(*m, *p),
        r.w == spec_transform_w(*m, *p),
{
    Vec4Fx {
        x: transform_row(m.c0.x, m.c1.x, m.c2.x, m.c3.x, p),
        y: transform_row(m.c0.y, m.c1.y, m.c2.y, m.c3.y, p),
        z: transform_row(m.c0.z, m.c1.z, m.c2.z, m.c3.z, p),
        w: transform_row(m.c0.w, m.c1.w, m.c2.w, m.c3.w, p),
    }
}

/// One row of a matrix-point product.
fn transform_row(e0: i64, e1: i64, e2: i64, e3: i64, p: &Vec3Fx) -> (r: i64)
    requires
        -0x4000_0000 <= e0 <= 0x4000_0000,
        -0x4000_0000 <= e1 <= 0x4000_0000,
        -0x4000_0000 <= e2 <= 0x4000_0000,
        -0x4000_0000 <= e3 <= 0x4000_0000,
        p.bounded(0x4000_0000),
    ensures
        r == fx_mul(e0 as int, p.x as int) + fx_mul(e1 as int, p.y as int) + fx_mul(
            e2 as int,
            p.z as int,
        ) + fx_mul(e3 as int, FX_ONE as int),
{
    proof {
        lemma_div_by_multiple(0x1_0000_0000_0000, 0x1_0000);
        lemma_fx_mul_bound(e0 as int, p.x as int, 0x4000_0000, 0x4000_0000);
        lemma_fx_mul_bound(e1 as int, p.y as int, 0x4000_0000, 0x4000_0000);
        lemma_fx_mul_bound(e2 as int, p.z as int, 0x4000_0000, 0x4000_0000);
        lemma_fx_mul_bound(e3 as int, FX_ONE as int, 0x4000_0000, 0x4000_0000);
    }
    let t0 = mul_div_tz(e0, p.x, FX_ONE);
    let t1 = mul_div_tz(e1, p.y, FX_ONE);
    let t2 = mul_div_tz(e2, p.z, FX_ONE);
    let t3 = mul_div_tz(e3, FX_ONE, FX_ONE);
    t0 + t1 + t2 + t3
}

/// A depth range: the near and far planes of the projected volume.
#[derive(Clone, Copy, PartialEq, Eq, Structural, Debug)]
pub struct FxRange {
    pub start: i64,
    pub end: i64,
}

/// The per-frame transform pair handed to the GPU: a view matrix and a
/// projection matrix. A plain value with no identity beyond its contents,
/// recomputed every frame rather than cached.
#[derive(Clone, Copy, PartialEq, Eq, Structural, Debug)]
pub struct CameraUniforms {
    pub view: Mat4Fx,
    pub project: Mat4Fx,
}

impl CameraUniforms {
    /// Identity transforms: the neutral uniforms before any camera is applied.
    pub fn new() -> (u: CameraUniforms)
        ensures
            u.view == spec_identity(),
            u.project == spec_identity(),
    {
        CameraUniforms { view: identity_fx(), project: identity_fx() }
    }
}

/// Build the fixed-point identity matrix.
fn identity_fx() -> (m: Mat4Fx)
    ensures
        m == spec_identity(),
{
    Mat4Fx {
        c0: Vec4Fx { x: FX_ONE, y: 0, z: 0, w: 0 },
        c1: Vec4Fx { x: 0, y: FX_ONE, z: 0, w: 0 },
        c2: Vec4Fx { x: 0, y: 0, z: FX_ONE, w: 0 },
        c3: Vec4Fx { x: 0, y: 0, z: 0, w: FX_ONE },
    }
}

/// An orthographic camera: eye position, aim direction (not necessarily
/// unit length), up hint, aspect ratio and depth range.
#[derive(Clone, Copy, PartialEq, Eq, Structural, Debug)]
pub struct OrthoCamera {
    pub position: Vec3Fx,
    pub aimdir: Vec3Fx,
    pub up: Vec3Fx,
    pub aspect: i64,
    pub zrange: FxRange,
}

/// Forward axis: the aim direction scaled to unit length.
pub open spec fn spec_forward(c: OrthoCamera) -> Vec3Fx {
    Vec3Fx {
        x: fx_normalize_x(c.aimdir) as i64,
        y: fx_normalize_y(c.aimdir) as i64,
        z: fx_normalize_z(c.aimdir) as i64,
    }
}

/// Right axis before normalization: forward crossed with the up hint.
pub open spec fn spec_right_raw(c: OrthoCamera) -> Vec3Fx {
    Vec3Fx {
        x: fx_cross_x(spec_forward(c), c.up) as i64,
        y: fx_cross_y(spec_forward(c), c.up) as i64,
        z: fx_cross_z(spec_forward(c), c.up) as i64,
    }
}

/// Right axis: the raw right axis scaled to unit length.
pub open spec fn spec_right(c: OrthoCamera) -> Vec3Fx {
    Vec3Fx {
        x: fx_normalize_x(spec_right_raw(c)) as i64,
        y: fx_normalize_y(spec_right_raw(c)) as i64,
        z: fx_normalize_z(spec_right_raw(c)) as i64,
    }
}

/// True up axis: right crossed with forward, so that the basis is
/// orthogonal even when the up hint is not perpendicular to the aim.
pub open spec fn spec_up(c: OrthoCamera) -> Vec3Fx {
    Vec3Fx {
        x: fx_cross_x(spec_right(c), spec_forward(c)) as i64,
        y: fx_cross_y(spec_right(c), spec_forward(c)) as i64,
        z: fx_cross_z(spec_right(c), spec_forward(c)) as i64,
    }
}

/// The view matrix: basis vectors across the rows, forward negated, and a
/// translation column holding the negated fixed-point dot of each basis
/// vector with the eye position (the forward row's translation keeps the
/// positive dot, matching the negated row).
pub open spec fn spec_view(c: OrthoCamera) -> Mat4Fx {
    let r = spec_right(c);
    let u = spec_up(c);
    let f = spec_forward(c);
    Mat4Fx {
        c0: Vec4Fx { x: r.x, y: u.x, z: (-f.x) as i64, w: 0 },
        c1: Vec4Fx { x: r.y, y: u.y, z: (-f.y) as i64, w: 0 },
        c2: Vec4Fx { x: r.z, y: u.z, z: (-f.z) as i64, w: 0 },
        c3: Vec4Fx {
            x: (-fx_dot(r, c.position)) as i64,
            y: (-fx_dot(u, c.position)) as i64,
            z: fx_dot(f, c.position) as i64,
            w: FX_ONE,
        },
    }
}

/// The orthographic projection: horizontal clip extent fixed at one unit
/// either side, vertical extent at the aspect ratio either side, and the
/// depth range mapped to clip depth zero-to-one.
pub open spec fn spec_project(c: OrthoCamera) -> Mat4Fx {
    let fmn = c.zrange.end - c.zrange.start;
    Mat4Fx {
        c0: Vec4Fx { x: FX_ONE, y: 0, z: 0, w: 0 },
        c1: Vec4Fx { x: 0, y: fx_div(FX_ONE as int, c.aspect as int) as i64, z: 0, w: 0 },
        c2: Vec4Fx { x: 0, y: 0, z: (-fx_div(FX_ONE as int, fmn)) as i64, w: 0 },
        c3: Vec4Fx { x: 0, y: 0, z: (-fx_div(c.zrange.start as int, fmn)) as i64, w: FX_ONE },
    }
}

impl OrthoCamera {
    /// A camera the transform derivation accepts: coordinates bounded so
    /// that fixed-point products cannot overflow, a positive aspect ratio,
    /// an ordered depth range, an aim direction that is not the zero
    /// vector, and an up hint not parallel to the aim (the rounded right
    /// axis does not collapse to zero).
    pub open spec fn wf(self) -> bool {
        &&& self.position.bounded(FX_COORD_BOUND as int)
        &&& self.aimdir.bounded(FX_COORD_BOUND as int)
        &&& self.up.bounded(FX_COORD_BOUND as int)
        &&& 0 < self.aspect <= FX_COORD_BOUND
        &&& -FX_COORD_BOUND <= self.zrange.start
        &&& self.zrange.start < self.zrange.end <= FX_COORD_BOUND
        &&& norm2(self.aimdir) > 0
        &&& norm2(spec_right_raw(self)) > 0
    }

    /// Bundle the camera attributes; nothing is derived yet.
    pub fn new(position: Vec3Fx, aimdir: Vec3Fx, up: Vec3Fx, aspect: i64, zrange: FxRange) -> (c:
        OrthoCamera)
        ensures
            c.position == position,
            c.aimdir == aimdir,
            c.up == up,
            c.aspect == aspect,
            c.zrange == zrange,
    {
        OrthoCamera { position, aimdir, up, aspect, zrange }
    }

    /// Derive the view and projection matrices. The view matrix carries
    /// the camera's own eye position exactly to the origin of camera
    /// space, rounding included.
    pub fn compute_camera_uniforms(&self) -> (u: CameraUniforms)
        requires
            self.wf(),
        ensures
            u.view == spec_view(*self),
            u.project == spec_project(*self),
            spec_transform_x(u.view, self.position) == 0,
            spec_transform_y(u.view, self.position) == 0,
            spec_transform_z(u.view, self.position) == 0,
            spec_transform_w(u.view, self.position) == FX_ONE,
    {
        proof {
            lemma_basis_bounds(*self);
        }
        let fwd = normalize_fx(&self.aimdir);
        proof {
            assert(fwd == spec_forward(*self));
        }
        let right_raw = cross_fx(&fwd, &self.up);
        proof {
            assert(right_raw == spec_right_raw(*self));
        }
        let right = normalize_fx(&right_raw);
        proof {
            assert(right == spec_right(*self));
        }
        let up = cross_fx(&right, &fwd);
        proof {
            assert(up == spec_up(*self));
            lemma_fx_dot_bound(right, self.position, FX_ONE as int, FX_COORD_BOUND as int);
            lemma_fx_dot_bound(up, self.position, 2 * FX_ONE as int, FX_COORD_BOUND as int);
            lemma_fx_dot_bound(fwd, self.position, FX_ONE as int, FX_COORD_BOUND as int);
            lemma_div_by_multiple(FX_COORD_BOUND as int, FX_ONE as int);
            lemma_div_by_multiple(2 * FX_COORD_BOUND as int, FX_ONE as int);
        }
        let tr = dot_fx(&right, &self.position);
        let tu = dot_fx(&up, &self.position);
        let tf = dot_fx(&fwd, &self.position);
        let view = Mat4Fx {
            c0: Vec4Fx { x: right.x, y: up.x, z: -fwd.x, w: 0 },
            c1: Vec4Fx { x: right.y, y: up.y, z: -fwd.y, w: 0 },
            c2: Vec4Fx { x: right.z, y: up.z, z: -fwd.z, w: 0 },
            c3: Vec4Fx { x: -tr, y: -tu, z: tf, w: FX_ONE },
        };
        let project = ortho_project(self.aspect, self.zrange);
        proof {
            assert(view == spec_view(*self));
            lemma_view_maps_eye_to_origin(*self);
        }
        CameraUniforms { view, project }
    }
}

/// The orthographic projection matrix for the fixed clip extents.
fn ortho_project(aspect: i64, zrange: FxRange) -> (m: Mat4Fx)
    requires
        0 < aspect <= FX_COORD_BOUND,
        -FX_COORD_BOUND <= zrange.start,
        zrange.start < zrange.end <= FX_COORD_BOUND,
    ensures
        m == spec_project(OrthoCamera {
            position: Vec3Fx { x: 0, y: 0, z: 0 },
            aimdir: Vec3Fx { x: 0, y: 0, z: 0 },
            up: Vec3Fx { x: 0, y: 0, z: 0 },
            aspect,
            zrange,
        }),
        m.c1.y == fx_div(FX_ONE as int, aspect as int),
        m.c2.z == -fx_div(FX_ONE as int, (zrange.end - zrange.start) as int),
        m.c3.z == -fx_div(zrange.start as int, (zrange.end - zrange.start) as int),
{
    let fmn = zrange.end - zrange.start;
    proof {
        lemma_div_tz_bound(FX_ONE as int * FX_ONE as int, aspect as int, 0x1_0000_0000);
        lemma_div_nonincreasing(0x1_0000_0000, aspect as int);
        lemma_div_tz_bound(FX_ONE as int * FX_ONE as int, fmn as int, 0x1_0000_0000);
        lemma_div_nonincreasing(0x1_0000_0000, fmn as int);
        lemma_fx_mul_bound(zrange.start as int, FX_ONE as int, FX_COORD_BOUND as int, FX_ONE as int);
        lemma_div_tz_bound(
            zrange.start as int * FX_ONE as int,
            fmn as int,
            FX_COORD_BOUND as int * FX_ONE as int,
        );
        lemma_div_nonincreasing(FX_COORD_BOUND as int * FX_ONE as int, fmn as int);
    }
    let sy = mul_div_tz(FX_ONE, FX_ONE, aspect);
    let sz = mul_div_tz(FX_ONE, FX_ONE, fmn);
    let tz = mul_div_tz(zrange.start, FX_ONE, fmn);
    Mat4Fx {
        c0: Vec4Fx { x: FX_ONE, y: 0, z: 0, w: 0 },
        c1: Vec4Fx { x: 0, y: sy, z: 0, w: 0 },
        c2: Vec4Fx { x: 0, y: 0, z: -sz, w: 0 },
        c3: Vec4Fx { x: 0, y: 0, z: -tz, w: FX_ONE },
    }
}

/// The derived basis vectors stay within small fixed-point bounds: the two
/// normalized axes within one unit, the raw right axis within the rescaled
/// cross-product bound, and the true up axis within two units.
pub proof fn lemma_basis_bounds(c: OrthoCamera)
    requires
        c.wf(),
    ensures
        spec_forward(c).bounded(FX_ONE as int),
        spec_right_raw(c).bounded(0x100_0000),
        spec_right(c).bounded(FX_ONE as int),
        spec_up(c).bounded(2 * FX_ONE as int),
{
    lemma_normalize_bounds(c.aimdir);
    lemma_fx_cross_bound(spec_forward(c), c.up, FX_ONE as int, FX_COORD_BOUND as int);
    lemma_div_by_multiple(2 * FX_COORD_BOUND as int, FX_ONE as int);
    lemma_normalize_bounds(spec_right_raw(c));
    lemma_fx_cross_bound(spec_right(c), spec_forward(c), FX_ONE as int, FX_ONE as int);
    lemma_div_by_multiple(2 * FX_ONE as int, FX_ONE as int);
}

/// The coordinates of a normalized vector stay within one fixed-point unit.
proof fn lemma_normalize_bounds(v: Vec3Fx)
    requires
        v.bounded(0x4000_0000),
        norm2(v) > 0,
    ensures
        -(FX_ONE as int) <= fx_normalize_x(v) <= FX_ONE as int,
        -(FX_ONE as int) <= fx_normalize_y(v) <= FX_ONE as int,
        -(FX_ONE as int) <= fx_normalize_z(v) <= FX_ONE as int,
{
    lemma_sqrt_floor(norm2(v) as nat);
    assert(fx_len(v) >= 1) by (nonlinear_arith)
        requires
            norm2(v) >= 1,
            norm2(v) < (fx_len(v) + 1) * (fx_len(v) + 1),
            fx_len(v) >= 0,
    ;
    lemma_coord_le_len(v);
    lemma_normalize_coord(v.x as int, fx_len(v));
    lemma_normalize_coord(v.y as int, fx_len(v));
    lemma_normalize_coord(v.z as int, fx_len(v));
}

/// The view matrix carries the camera's eye position exactly to the origin
/// of camera space: in every row the fixed-point dot of the basis vector
/// with the eye cancels the translation stored in that row, so no rounding
/// is left over.
pub proof fn lemma_view_maps_eye_to_origin(c: OrthoCamera)
    requires
        c.wf(),
    ensures
        spec_transform_x(spec_view(c), c.position) == 0,
        spec_transform_y(spec_view(c), c.position) == 0,
        spec_transform_z(spec_view(c), c.position) == 0,
        spec_transform_w(spec_view(c), c.position) == FX_ONE,
{
    lemma_basis_bounds(c);
    let r = spec_right(c);
    let u = spec_up(c);
    let f = spec_forward(c);
    let p = c.position;
    lemma_fx_dot_bound(r, p, FX_ONE as int, FX_COORD_BOUND as int);
    lemma_fx_dot_bound(u, p, 2 * FX_ONE as int, FX_COORD_BOUND as int);
    lemma_fx_dot_bound(f, p, FX_ONE as int, FX_COORD_BOUND as int);
    lemma_div_by_multiple(FX_COORD_BOUND as int, FX_ONE as int);
    lemma_div_by_multiple(2 * FX_COORD_BOUND as int, FX_ONE as int);
    lemma_div_tz_multiple(-fx_dot(r, p), FX_ONE as int);
    lemma_div_tz_multiple(-fx_dot(u, p), FX_ONE as int);
    lemma_div_tz_multiple(fx_dot(f, p), FX_ONE as int);
    lemma_div_tz_multiple(0, FX_ONE as int);
    lemma_div_tz_multiple(FX_ONE as int, FX_ONE as int);
    lemma_fx_mul_neg(f.x as int, p.x as int);
    lemma_fx_mul_neg(f.y as int, p.y as int);
    lemma_fx_mul_neg(f.z as int, p.z as int);
}

} // verus!
