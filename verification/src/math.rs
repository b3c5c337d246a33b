//! Fixed-point vectors and matrices.
//!
//! A `Mat4Fp` is column-major, like the column vectors a scene graph hands
//! over: the first three columns are the rotation/scale part, the fourth is
//! the translation. Points are transformed by the full matrix; normals are
//! transformed by the cofactor (transposed-adjugate) matrix of the upper
//! 3x3, oriented by the sign of its determinant. That matrix is a positive
//! multiple of the inverse-transpose, so normal directions stay correct
//! under non-uniform scale; shaders renormalize magnitudes.

use vstd::prelude::*;
use crate::fp::{
    fp_mul, fp_mul_spec, fp_within, lemma_fp_mul_coord_bound, lemma_fp_mul_normal_bound,
    FP_COORD_LIMIT, FP_NORMAL_LIMIT,
};

verus! {

/// A fixed-point 3-component vector.
#[derive(Clone, Copy, Debug, PartialEq, Eq, Structural)]
pub struct Vec3Fp {
    pub x: i64,
    pub y: i64,
    pub z: i64,
}

/// A fixed-point 4-component vector (one matrix column).
#[derive(Clone, Copy, Debug, PartialEq, Eq, Structural)]
pub struct Vec4Fp {
    pub x: i64,
    pub y: i64,
    pub z: i64,
    pub w: i64,
}

/// A fixed-point 4x4 matrix, stored as four columns.
#[derive(Clone, Copy, Debug, PartialEq, Eq, Structural)]
pub struct Mat4Fp {
    pub c0: Vec4Fp,
    pub c1: Vec4Fp,
    pub c2: Vec4Fp,
    pub c3: Vec4Fp,
}

/// A fixed-point 3x3 matrix, stored as three columns.
#[derive(Clone, Copy, Debug, PartialEq, Eq, Structural)]
pub struct Mat3Fp {
    pub c0: Vec3Fp,
    pub c1: Vec3Fp,
    pub c2: Vec3Fp,
}

pub open spec fn vec3_within(v: Vec3Fp, bound: int) -> bool {
    fp_within(v.x as int, bound) && fp_within(v.y as int, bound) && fp_within(v.z as int, bound)
}

pub open spec fn vec4_within(v: Vec4Fp, bound: int) -> bool {
    fp_within(v.x as int, bound) && fp_within(v.y as int, bound) && fp_within(v.z as int, bound)
        && fp_within(v.w as int, bound)
}

/// All entries of a world transform lie within the coordinate bound.
pub open spec fn mat4_bounded(m: Mat4Fp) -> bool {
    vec4_within(m.c0, FP_COORD_LIMIT as int) && vec4_within(m.c1, FP_COORD_LIMIT as int)
        && vec4_within(m.c2, FP_COORD_LIMIT as int) && vec4_within(m.c3, FP_COORD_LIMIT as int)
}

/// All entries of a derived normal matrix lie within the normal bound.
pub open spec fn mat3_normal_bounded(n: Mat3Fp) -> bool {
    vec3_within(n.c0, FP_NORMAL_LIMIT as int) && vec3_within(n.c1, FP_NORMAL_LIMIT as int)
        && vec3_within(n.c2, FP_NORMAL_LIMIT as int)
}

/// The identity transform.
pub open spec fn mat4_identity() -> Mat4Fp {
    Mat4Fp {
        c0: Vec4Fp { x: crate::fp::FP_ONE, y: 0, z: 0, w: 0 },
        c1: Vec4Fp { x: 0, y: crate::fp::FP_ONE, z: 0, w: 0 },
        c2: Vec4Fp { x: 0, y: 0, z: crate::fp::FP_ONE, w: 0 },
        c3: Vec4Fp { x: 0, y: 0, z: 0, w: crate::fp::FP_ONE },
    }
}

impl Mat4Fp {
    /// Builds the identity transform.
    pub fn identity() -> (m: Mat4Fp)
        ensures
            m == mat4_identity(),
            mat4_bounded(m),
    {
        Mat4Fp {
            c0: Vec4Fp { x: crate::fp::FP_ONE, y: 0, z: 0, w: 0 },
            c1: Vec4Fp { x: 0, y: crate::fp::FP_ONE, z: 0, w: 0 },
            c2: Vec4Fp { x: 0, y: 0, z: crate::fp::FP_ONE, w: 0 },
            c3: Vec4Fp { x: 0, y: 0, z: 0, w: crate::fp::FP_ONE },
        }
    }

    /// The translation column of the transform: the entity's world position.
    pub fn translation(&self) -> (p: Vec3Fp)
        ensures
            p == (Vec3Fp { x: self.c3.x, y: self.c3.y, z: self.c3.z }),
    {
        Vec3Fp { x: self.c3.x, y: self.c3.y, z: self.c3.z }
    }
}

/// X component of `m * (p, 1)`.
pub open spec fn tp_x_spec(m: Mat4Fp, p: Vec3Fp) -> int {
    fp_mul_spec(m.c0.x as int, p.x as int) + fp_mul_spec(m.c1.x as int, p.y as int)
        + fp_mul_spec(m.c2.x as int, p.z as int) + m.c3.x as int
}

/// Y component of `m * (p, 1)`.
pub open spec fn tp_y_spec(m: Mat4Fp, p: Vec3Fp) -> int {
    fp_mul_spec(m.c0.y as int, p.x as int) + fp_mul_spec(m.c1.y as int, p.y as int)
        + fp_mul_spec(m.c2.y as int, p.z as int) + m.c3.y as int
}

/// Z component of `m * (p, 1)`.
pub open spec fn tp_z_spec(m: Mat4Fp, p: Vec3Fp) -> int {
    fp_mul_spec(m.c0.z as int, p.x as int) + fp_mul_spec(m.c1.z as int, p.y as int)
        + fp_mul_spec(m.c2.z as int, p.z as int) + m.c3.z as int
}

/// The world-space position of `p` under the transform `m`.
pub open spec fn transform_point_spec(m: Mat4Fp, p: Vec3Fp) -> Vec3Fp {
    Vec3Fp { x: tp_x_spec(m, p) as i64, y: tp_y_spec(m, p) as i64, z: tp_z_spec(m, p) as i64 }
}

/// Applies the point transform; exact with respect to `transform_point_spec`.
pub fn transform_point(m: &Mat4Fp, p: Vec3Fp) -> (r: Vec3Fp)
    requires
        mat4_bounded(*m),
        vec3_within(p, FP_COORD_LIMIT as int),
    ensures
        r == transform_point_spec(*m, p),
        vec3_within(r, 0x4000_0000_0000),
{
    proof {
        lemma_fp_mul_coord_bound(m.c0.x as int, p.x as int);
        lemma_fp_mul_coord_bound(m.c1.x as int, p.y as int);
        lemma_fp_mul_coord_bound(m.c2.x as int, p.z as int);
        lemma_fp_mul_coord_bound(m.c0.y as int, p.x as int);
        lemma_fp_mul_coord_bound(m.c1.y as int, p.y as int);
        lemma_fp_mul_coord_bound(m.c2.y as int, p.z as int);
        lemma_fp_mul_coord_bound(m.c0.z as int, p.x as int);
        lemma_fp_mul_coord_bound(m.c1.z as int, p.y as int);
        lemma_fp_mul_coord_bound(m.c2.z as int, p.z as int);
    }
    let x = fp_mul(m.c0.x, p.x) + fp_mul(m.c1.x, p.y) + fp_mul(m.c2.x, p.z) + m.c3.x;
    let y = fp_mul(m.c0.y, p.x) + fp_mul(m.c1.y, p.y) + fp_mul(m.c2.y, p.z) + m.c3.y;
    let z = fp_mul(m.c0.z, p.x) + fp_mul(m.c1.z, p.y) + fp_mul(m.c2.z, p.z) + m.c3.z;
    Vec3Fp { x, y, z }
}

/// X component of `n * v` for a 3x3 matrix.
pub open spec fn tn_x_spec(n: Mat3Fp, v: Vec3Fp) -> int {
    fp_mul_spec(n.c0.x as int, v.x as int) + fp_mul_spec(n.c1.x as int, v.y as int)
        + fp_mul_spec(n.c2.x as int, v.z as int)
}

/// Y component of `n * v` for a 3x3 matrix.
pub open spec fn tn_y_spec(n: Mat3Fp, v: Vec3Fp) -> int {
    fp_mul_spec(n.c0.y as int, v.x as int) + fp_mul_spec(n.c1.y as int, v.y as int)
        + fp_mul_spec(n.c2.y as int, v.z as int)
}

/// Z component of `n * v` for a 3x3 matrix.
pub open spec fn tn_z_spec(n: Mat3Fp, v: Vec3Fp) -> int {
    fp_mul_spec(n.c0.z as int, v.x as int) + fp_mul_spec(n.c1.z as int, v.y as int)
        + fp_mul_spec(n.c2.z as int, v.z as int)
}

/// The transformed normal direction of `v` under the normal matrix `n`.
pub open spec fn transform_normal_spec(n: Mat3Fp, v: Vec3Fp) -> Vec3Fp {
    Vec3Fp { x: tn_x_spec(n, v) as i64, y: tn_y_spec(n, v) as i64, z: tn_z_spec(n, v) as i64 }
}

/// Applies the normal transform; exact with respect to
/// `transform_normal_spec`.
pub fn transform_normal(n: &Mat3Fp, v: Vec3Fp) -> (r: Vec3Fp)
    requires
        mat3_normal_bounded(*n),
        vec3_within(v, FP_COORD_LIMIT as int),
    ensures
        r == transform_normal_spec(*n, v),
{
    proof {
        lemma_fp_mul_normal_bound(n.c0.x as int, v.x as int);
        lemma_fp_mul_normal_bound(n.c1.x as int, v.y as int);
        lemma_fp_mul_normal_bound(n.c2.x as int, v.z as int);
        lemma_fp_mul_normal_bound(n.c0.y as int, v.x as int);
        lemma_fp_mul_normal_bound(n.c1.y as int, v.y as int);
        lemma_fp_mul_normal_bound(n.c2.y as int, v.z as int);
        lemma_fp_mul_normal_bound(n.c0.z as int, v.x as int);
        lemma_fp_mul_normal_bound(n.c1.z as int, v.y as int);
        lemma_fp_mul_normal_bound(n.c2.z as int, v.z as int);
    }
    let x = fp_mul(n.c0.x, v.x) + fp_mul(n.c1.x, v.y) + fp_mul(n.c2.x, v.z);
    let y = fp_mul(n.c0.y, v.x) + fp_mul(n.c1.y, v.y) + fp_mul(n.c2.y, v.z);
    let z = fp_mul(n.c0.z, v.x) + fp_mul(n.c1.z, v.y) + fp_mul(n.c2.z, v.z);
    Vec3Fp { x, y, z }
}

/// Exact (unscaled) determinant of the upper 3x3 of `m`; only its sign is
/// used, and scaling by `FP_ONE` powers does not change the sign.
pub open spec fn det3_spec(m: Mat4Fp) -> int {
    let a = m.c0.x as int;
    let b = m.c1.x as int;
    let c = m.c2.x as int;
    let d = m.c0.y as int;
    let e = m.c1.y as int;
    let f = m.c2.y as int;
    let g = m.c0.z as int;
    let h = m.c1.z as int;
    let i = m.c2.z as int;
    a * (e * i - f * h) - b * (d * i - f * g) + c * (d * h - e * g)
}

/// The cofactor matrix of the upper 3x3 of `m`, oriented by the sign of the
/// determinant: a positive multiple of the inverse-transpose whenever the
/// determinant is nonzero, and the plain cofactor matrix when it is zero.
pub open spec fn normal_matrix_spec(m: Mat4Fp) -> Mat3Fp {
    let a = m.c0.x as int;
    let b = m.c1.x as int;
    let c = m.c2.x as int;
    let d = m.c0.y as int;
    let e = m.c1.y as int;
    let f = m.c2.y as int;
    let g = m.c0.z as int;
    let h = m.c1.z as int;
    let i = m.c2.z as int;
    let s: int = if det3_spec(m) < 0 { -1 } else { 1 };
    let n00 = s * (fp_mul_spec(e, i) - fp_mul_spec(f, h));
    let n01 = s * (fp_mul_spec(f, g) - fp_mul_spec(d, i));
    let n02 = s * (fp_mul_spec(d, h) - fp_mul_spec(e, g));
    let n10 = s * (fp_mul_spec(c, h) - fp_mul_spec(b, i));
    let n11 = s * (fp_mul_spec(a, i) - fp_mul_spec(c, g));
    let n12 = s * (fp_mul_spec(b, g) - fp_mul_spec(a, h));
    let n20 = s * (fp_mul_spec(b, f) - fp_mul_spec(c, e));
    let n21 = s * (fp_mul_spec(c, d) - fp_mul_spec(a, f));
    let n22 = s * (fp_mul_spec(a, e) - fp_mul_spec(b, d));
    Mat3Fp {
        c0: Vec3Fp { x: n00 as i64, y: n10 as i64, z: n20 as i64 },
        c1: Vec3Fp { x: n01 as i64, y: n11 as i64, z: n21 as i64 },
        c2: Vec3Fp { x: n02 as i64, y: n12 as i64, z: n22 as i64 },
    }
}

/// A 2x2 fixed-point determinant of coordinate-bounded entries.
fn fp_det2(a: i64, b: i64, c: i64, d: i64) -> (r: i64)
    requires
        fp_within(a as int, FP_COORD_LIMIT as int),
        fp_within(b as int, FP_COORD_LIMIT as int),
        fp_within(c as int, FP_COORD_LIMIT as int),
        fp_within(d as int, FP_COORD_LIMIT as int),
    ensures
        r as int == fp_mul_spec(a as int, b as int) - fp_mul_spec(c as int, d as int),
        fp_within(r as int, FP_NORMAL_LIMIT as int),
{
    proof {
        lemma_fp_mul_coord_bound(a as int, b as int);
        lemma_fp_mul_coord_bound(c as int, d as int);
    }
    fp_mul(a, b) - fp_mul(c, d)
}

/// The sign of the exact determinant of the upper 3x3 of `m`:
/// `-1`, `0`, or `1`.
fn det3_sign(m: &Mat4Fp) -> (s: i64)
    requires
        mat4_bounded(*m),
    ensures
        s == 1 ==> det3_spec(*m) > 0,
        s == 0 ==> det3_spec(*m) == 0,
        s == -1 ==> det3_spec(*m) < 0,
        s == 1 || s == 0 || s == -1,
{
    let a = m.c0.x as i128;
    let b = m.c1.x as i128;
    let c = m.c2.x as i128;
    let d = m.c0.y as i128;
    let e = m.c1.y as i128;
    let f = m.c2.y as i128;
    let g = m.c0.z as i128;
    let h = m.c1.z as i128;
    let i = m.c2.z as i128;
    proof {
        assert({
            &&& fp_within((e as int) * (i as int), 0x4000_0000int * 0x4000_0000int)
            &&& fp_within((f as int) * (h as int), 0x4000_0000int * 0x4000_0000int)
            &&& fp_within((d as int) * (i as int), 0x4000_0000int * 0x4000_0000int)
            &&& fp_within((f as int) * (g as int), 0x4000_0000int * 0x4000_0000int)
            &&& fp_within((d as int) * (h as int), 0x4000_0000int * 0x4000_0000int)
            &&& fp_within((e as int) * (g as int), 0x4000_0000int * 0x4000_0000int)
        }) by (nonlinear_arith)
            requires
                -0x4000_0000 <= e as int <= 0x4000_0000,
                -0x4000_0000 <= i as int <= 0x4000_0000,
                -0x4000_0000 <= f as int <= 0x4000_0000,
                -0x4000_0000 <= h as int <= 0x4000_0000,
                -0x4000_0000 <= d as int <= 0x4000_0000,
                -0x4000_0000 <= g as int <= 0x4000_0000,
        ;
    }
    let m0: i128 = e * i - f * h;
    let m1: i128 = d * i - f * g;
    let m2: i128 = d * h - e * g;
    proof {
        assert({
            &&& fp_within(
                (a as int) * (m0 as int),
                0x4000_0000int * (2 * (0x4000_0000int * 0x4000_0000int)),
            )
            &&& fp_within(
                (b as int) * (m1 as int),
                0x4000_0000int * (2 * (0x4000_0000int * 0x4000_0000int)),
            )
            &&& fp_within(
                (c as int) * (m2 as int),
                0x4000_0000int * (2 * (0x4000_0000int * 0x4000_0000int)),
            )
        }) by (nonlinear_arith)
            requires
                -0x4000_0000 <= a as int <= 0x4000_0000,
                -0x4000_0000 <= b as int <= 0x4000_0000,
                -0x4000_0000 <= c as int <= 0x4000_0000,
                -(2 * (0x4000_0000int * 0x4000_0000int)) <= m0 as int
                    <= 2 * (0x4000_0000int * 0x4000_0000int),
                -(2 * (0x4000_0000int * 0x4000_0000int)) <= m1 as int
                    <= 2 * (0x4000_0000int * 0x4000_0000int),
                -(2 * (0x4000_0000int * 0x4000_0000int)) <= m2 as int
                    <= 2 * (0x4000_0000int * 0x4000_0000int),
        ;
    }
    let det: i128 = a * m0 - b * m1 + c * m2;
    if det > 0 {
        1
    } else if det < 0 {
        -1
    } else {
        0
    }
}

/// Computes the normal matrix; exact with respect to `normal_matrix_spec`.
pub fn normal_matrix(m: &Mat4Fp) -> (n: Mat3Fp)
    requires
        mat4_bounded(*m),
    ensures
        n == normal_matrix_spec(*m),
        mat3_normal_bounded(n),
{
    let s = det3_sign(m);
    let neg = s == -1;
    let n00 = fp_det2(m.c1.y, m.c2.z, m.c2.y, m.c1.z);
    let n01 = fp_det2(m.c2.y, m.c0.z, m.c0.y, m.c2.z);
    let n02 = fp_det2(m.c0.y, m.c1.z, m.c1.y, m.c0.z);
    let n10 = fp_det2(m.c2.x, m.c1.z, m.c1.x, m.c2.z);
    let n11 = fp_det2(m.c0.x, m.c2.z, m.c2.x, m.c0.z);
    let n12 = fp_det2(m.c1.x, m.c0.z, m.c0.x, m.c1.z);
    let n20 = fp_det2(m.c1.x, m.c2.y, m.c2.x, m.c1.y);
    let n21 = fp_det2(m.c2.x, m.c0.y, m.c0.x, m.c2.y);
    let n22 = fp_det2(m.c0.x, m.c1.y, m.c1.x, m.c0.y);
    let n = if neg {
        Mat3Fp {
            c0: Vec3Fp { x: -n00, y: -n10, z: -n20 },
            c1: Vec3Fp { x: -n01, y: -n11, z: -n21 },
            c2: Vec3Fp { x: -n02, y: -n12, z: -n22 },
        }
    } else {
        Mat3Fp {
            c0: Vec3Fp { x: n00, y: n10, z: n20 },
            c1: Vec3Fp { x: n01, y: n11, z: n21 },
            c2: Vec3Fp { x: n02, y: n12, z: n22 },
        }
    };
    n
}

/// Squared distance between two coordinate-bounded points, in raw
/// fixed-point units squared.
pub open spec fn distance_sq_spec(a: Vec3Fp, b: Vec3Fp) -> int {
    let dx = a.x as int - b.x as int;
    let dy = a.y as int - b.y as int;
    let dz = a.z as int - b.z as int;
    dx * dx + dy * dy + dz * dz
}

/// Computes the squared distance between two points; exact with respect
/// to `distance_sq_spec`.
pub fn distance_sq(a: Vec3Fp, b: Vec3Fp) -> (r: u64)
    requires
        vec3_within(a, FP_COORD_LIMIT as int),
        vec3_within(b, FP_COORD_LIMIT as int),
    ensures
        r as int == distance_sq_spec(a, b),
{
    let dx: i64 = a.x - b.x;
    let dy: i64 = a.y - b.y;
    let dz: i64 = a.z - b.z;
    proof {
        assert({
            &&& 0 <= (dx as int) * (dx as int) <= (2 * 0x4000_0000int) * (2 * 0x4000_0000int)
            &&& 0 <= (dy as int) * (dy as int) <= (2 * 0x4000_0000int) * (2 * 0x4000_0000int)
            &&& 0 <= (dz as int) * (dz as int) <= (2 * 0x4000_0000int) * (2 * 0x4000_0000int)
        }) by (nonlinear_arith)
            requires
                -(2 * 0x4000_0000int) <= dx as int <= 2 * 0x4000_0000int,
                -(2 * 0x4000_0000int) <= dy as int <= 2 * 0x4000_0000int,
                -(2 * 0x4000_0000int) <= dz as int <= 2 * 0x4000_0000int,
        ;
    }
    let sx: i128 = (dx as i128) * (dx as i128);
    let sy: i128 = (dy as i128) * (dy as i128);
    let sz: i128 = (dz as i128) * (dz as i128);
    (sx + sy + sz) as u64
}

} // verus!
