//! The 4x4 affine transform and its composition algebra.
//!
//! Entries are fixed-point scalars in row-major order; row 3 carries the
//! translation and the homogeneous one. Every operation states its result
//! entry by entry as an exact function of the old entries, so callers can
//! reason about composed transforms without rereading any body.

use vstd::prelude::*;
use crate::fixed::{FX_ONE, FX_HALF, iabs, tdiv, fxm, fx_mul, fx_tdiv, isqrt, sqrt_floor,
    lemma_fxm_bound, lemma_fxm_one, lemma_fxm_zero, lemma_tdiv_bounds};
use crate::trig::{spec_sin, spec_cos, sin_cos, near_unit, lemma_sc_near_unit, ANGLE_MAX, NEAR_EPS};

verus! {

/// Largest entry magnitude the composition operators accept; ten million in
/// real units, far beyond the scene, and small enough that a product of two
/// such transforms cannot overflow a scalar.
pub const ENTRY_MAX: i64 = 100_000_000_000;

/// A 3-vector of fixed-point scalars.
#[derive(Clone, Copy, Debug, PartialEq, Eq, Structural)]
pub struct Vec3 {
    pub x: i64,
    pub y: i64,
    pub z: i64,
}

/// A homogeneous 4-vector of fixed-point scalars.
#[derive(Clone, Copy, Debug, PartialEq, Eq, Structural)]
pub struct Vec4 {
    pub x: i64,
    pub y: i64,
    pub z: i64,
    pub w: i64,
}

/// A 4x4 row-major transform of fixed-point scalars.
#[derive(Clone, Copy, Debug, PartialEq, Eq, Structural)]
pub struct AffineMatrix {
    pub m00: i64,
    pub m01: i64,
    pub m02: i64,
    pub m03: i64,
    pub m10: i64,
    pub m11: i64,
    pub m12: i64,
    pub m13: i64,
    pub m20: i64,
    pub m21: i64,
    pub m22: i64,
    pub m23: i64,
    pub m30: i64,
    pub m31: i64,
    pub m32: i64,
    pub m33: i64,
}

impl AffineMatrix {
    /// Entry at row `r`, column `c`, as a mathematical integer.
    pub open spec fn e(self, r: int, c: int) -> int {
        if r == 0 {
            if c == 0 { self.m00 as int } else if c == 1 { self.m01 as int }
            else if c == 2 { self.m02 as int } else { self.m03 as int }
        } else if r == 1 {
            if c == 0 { self.m10 as int } else if c == 1 { self.m11 as int }
            else if c == 2 { self.m12 as int } else { self.m13 as int }
        } else if r == 2 {
            if c == 0 { self.m20 as int } else if c == 1 { self.m21 as int }
            else if c == 2 { self.m22 as int } else { self.m23 as int }
        } else {
            if c == 0 { self.m30 as int } else if c == 1 { self.m31 as int }
            else if c == 2 { self.m32 as int } else { self.m33 as int }
        }
    }

    /// Every entry is bounded by `b` in magnitude.
    pub open spec fn bounded(self, b: int) -> bool {
        &&& iabs(self.m00 as int) <= b
        &&& iabs(self.m01 as int) <= b
        &&& iabs(self.m02 as int) <= b
        &&& iabs(self.m03 as int) <= b
        &&& iabs(self.m10 as int) <= b
        &&& iabs(self.m11 as int) <= b
        &&& iabs(self.m12 as int) <= b
        &&& iabs(self.m13 as int) <= b
        &&& iabs(self.m20 as int) <= b
        &&& iabs(self.m21 as int) <= b
        &&& iabs(self.m22 as int) <= b
        &&& iabs(self.m23 as int) <= b
        &&& iabs(self.m30 as int) <= b
        &&& iabs(self.m31 as int) <= b
        &&& iabs(self.m32 as int) <= b
        &&& iabs(self.m33 as int) <= b
    }
}

/// The identity transform value.
pub open spec fn ident_m() -> AffineMatrix {
    AffineMatrix {
        m00: FX_ONE, m01: 0, m02: 0, m03: 0,
        m10: 0, m11: FX_ONE, m12: 0, m13: 0,
        m20: 0, m21: 0, m22: FX_ONE, m23: 0,
        m30: 0, m31: 0, m32: 0, m33: FX_ONE,
    }
}

/// Entry `(r, c)` of the matrix product `a * b`, in fixed-point arithmetic:
/// row `r` of `a` against column `c` of `b`.
pub open spec fn mul_e(a: AffineMatrix, b: AffineMatrix, r: int, c: int) -> int {
    fxm(a.e(r, 0), b.e(0, c)) + fxm(a.e(r, 1), b.e(1, c)) + fxm(a.e(r, 2), b.e(2, c))
        + fxm(a.e(r, 3), b.e(3, c))
}

/// A four-term fixed-point dot product, the kernel of the matrix product.
fn dot4(a0: i64, b0: i64, a1: i64, b1: i64, a2: i64, b2: i64, a3: i64, b3: i64) -> (r: i64)
    requires
        iabs(a0 as int) <= ENTRY_MAX as int,
        iabs(a1 as int) <= ENTRY_MAX as int,
        iabs(a2 as int) <= ENTRY_MAX as int,
        iabs(a3 as int) <= ENTRY_MAX as int,
        iabs(b0 as int) <= ENTRY_MAX as int,
        iabs(b1 as int) <= ENTRY_MAX as int,
        iabs(b2 as int) <= ENTRY_MAX as int,
        iabs(b3 as int) <= ENTRY_MAX as int,
    ensures
        r as int == fxm(a0 as int, b0 as int) + fxm(a1 as int, b1 as int)
            + fxm(a2 as int, b2 as int) + fxm(a3 as int, b3 as int),
{
    proof {
        lemma_fxm_bound(a0 as int, b0 as int, ENTRY_MAX as int, ENTRY_MAX as int);
        lemma_fxm_bound(a1 as int, b1 as int, ENTRY_MAX as int, ENTRY_MAX as int);
        lemma_fxm_bound(a2 as int, b2 as int, ENTRY_MAX as int, ENTRY_MAX as int);
        lemma_fxm_bound(a3 as int, b3 as int, ENTRY_MAX as int, ENTRY_MAX as int);
    }
    let t0: i64 = fx_mul(a0, b0);
    let t1: i64 = fx_mul(a1, b1);
    let t2: i64 = fx_mul(a2, b2);
    let t3: i64 = fx_mul(a3, b3);
    t0 + t1 + t2 + t3
}

impl AffineMatrix {
    /// A fresh transform, the identity.
    pub fn new() -> (r: Self)
        ensures
            r == ident_m(),
    {
        Self::ident()
    }

    /// The identity transform.
    pub fn ident() -> (r: Self)
        ensures
            r == ident_m(),
    {
        AffineMatrix {
            m00: FX_ONE, m01: 0, m02: 0, m03: 0,
            m10: 0, m11: FX_ONE, m12: 0, m13: 0,
            m20: 0, m21: 0, m22: FX_ONE, m23: 0,
            m30: 0, m31: 0, m32: 0, m33: FX_ONE,
        }
    }

    /// Shift the composed translation row by the given offsets; every other
    /// entry is untouched.
    pub fn translate(&mut self, x: i64, y: i64, z: i64)
        requires
            i64::MIN <= old(self).m30 + x <= i64::MAX,
            i64::MIN <= old(self).m31 + y <= i64::MAX,
            i64::MIN <= old(self).m32 + z <= i64::MAX,
        ensures
            translate_rel(*old(self), *final(self), x as int, y as int, z as int),
    {
        self.m30 = self.m30 + x;
        self.m31 = self.m31 + y;
        self.m32 = self.m32 + z;
    }

    /// Overwrite the translation row, ignoring prior composed state.
    pub fn set_translate(&mut self, x: i64, y: i64, z: i64)
        ensures
            *final(self) == (AffineMatrix { m30: x, m31: y, m32: z, ..*old(self) }),
    {
        self.m30 = x;
        self.m31 = y;
        self.m32 = z;
    }

    /// Multiply the diagonal scale entries by the given factors.
    pub fn scale(&mut self, x: i64, y: i64, z: i64)
        requires
            iabs(old(self).m00 as int) <= ENTRY_MAX as int,
            iabs(old(self).m11 as int) <= ENTRY_MAX as int,
            iabs(old(self).m22 as int) <= ENTRY_MAX as int,
            iabs(x as int) <= ENTRY_MAX as int,
            iabs(y as int) <= ENTRY_MAX as int,
            iabs(z as int) <= ENTRY_MAX as int,
        ensures
            final(self).m00 as int == fxm(old(self).m00 as int, x as int),
            final(self).m11 as int == fxm(old(self).m11 as int, y as int),
            final(self).m22 as int == fxm(old(self).m22 as int, z as int),
            forall|r: int, c: int|
                0 <= r < 4 && 0 <= c < 4 && !(r == c && r < 3)
                    ==> final(self).e(r, c) == old(self).e(r, c),
    {
        proof {
            lemma_fxm_bound(self.m00 as int, x as int, ENTRY_MAX as int, ENTRY_MAX as int);
            lemma_fxm_bound(self.m11 as int, y as int, ENTRY_MAX as int, ENTRY_MAX as int);
            lemma_fxm_bound(self.m22 as int, z as int, ENTRY_MAX as int, ENTRY_MAX as int);
        }
        self.m00 = fx_mul(self.m00, x);
        self.m11 = fx_mul(self.m11, y);
        self.m22 = fx_mul(self.m22, z);
    }

    /// Overwrite the diagonal scale entries.
    pub fn set_scale(&mut self, x: i64, y: i64, z: i64)
        ensures
            *final(self) == (AffineMatrix { m00: x, m11: y, m22: z, ..*old(self) }),
    {
        self.m00 = x;
        self.m11 = y;
        self.m22 = z;
    }

    /// The matrix product `self * other` as a new transform.
    pub fn times(&self, other: &Self) -> (r: Self)
        requires
            self.bounded(ENTRY_MAX as int),
            other.bounded(ENTRY_MAX as int),
        ensures
            forall|i: int, j: int|
                0 <= i < 4 && 0 <= j < 4 ==> #[trigger] r.e(i, j) == mul_e(*self, *other, i, j),
    {
        let r = AffineMatrix {
            m00: dot4(self.m00, other.m00, self.m01, other.m10, self.m02, other.m20, self.m03, other.m30),
            m01: dot4(self.m00, other.m01, self.m01, other.m11, self.m02, other.m21, self.m03, other.m31),
            m02: dot4(self.m00, other.m02, self.m01, other.m12, self.m02, other.m22, self.m03, other.m32),
            m03: dot4(self.m00, other.m03, self.m01, other.m13, self.m02, other.m23, self.m03, other.m33),
            m10: dot4(self.m10, other.m00, self.m11, other.m10, self.m12, other.m20, self.m13, other.m30),
            m11: dot4(self.m10, other.m01, self.m11, other.m11, self.m12, other.m21, self.m13, other.m31),
            m12: dot4(self.m10, other.m02, self.m11, other.m12, self.m12, other.m22, self.m13, other.m32),
            m13: dot4(self.m10, other.m03, self.m11, other.m13, self.m12, other.m23, self.m13, other.m33),
            m20: dot4(self.m20, other.m00, self.m21, other.m10, self.m22, other.m20, self.m23, other.m30),
            m21: dot4(self.m20, other.m01, self.m21, other.m11, self.m22, other.m21, self.m23, other.m31),
            m22: dot4(self.m20, other.m02, self.m21, other.m12, self.m22, other.m22, self.m23, other.m32),
            m23: dot4(self.m20, other.m03, self.m21, other.m13, self.m22, other.m23, self.m23, other.m33),
            m30: dot4(self.m30, other.m00, self.m31, other.m10, self.m32, other.m20, self.m33, other.m30),
            m31: dot4(self.m30, other.m01, self.m31, other.m11, self.m32, other.m21, self.m33, other.m31),
            m32: dot4(self.m30, other.m02, self.m31, other.m12, self.m32, other.m22, self.m33, other.m32),
            m33: dot4(self.m30, other.m03, self.m31, other.m13, self.m32, other.m23, self.m33, other.m33),
        };
        r
    }

    /// Compose `other` onto the current value in place.
    pub fn multiply(&mut self, other: &Self)
        requires
            old(self).bounded(ENTRY_MAX as int),
            other.bounded(ENTRY_MAX as int),
        ensures
            forall|i: int, j: int|
                0 <= i < 4 && 0 <= j < 4
                    ==> #[trigger] final(self).e(i, j) == mul_e(*old(self), *other, i, j),
    {
        let t = self.times(other);
        *self = t;
    }

    /// Blend every entry toward `other` with weight `alpha` in `[0, 1]`, the
    /// per-frame smoothing primitive.
    pub fn combine(&mut self, other: Self, alpha: i64)
        requires
            0 <= alpha <= FX_ONE,
            old(self).bounded(ENTRY_MAX as int),
            other.bounded(ENTRY_MAX as int),
        ensures
            combine_rel(*old(self), *final(self), other, alpha as int),
    {
        let a = *self;
        self.m00 = blend(a.m00, other.m00, alpha);
        self.m01 = blend(a.m01, other.m01, alpha);
        self.m02 = blend(a.m02, other.m02, alpha);
        self.m03 = blend(a.m03, other.m03, alpha);
        self.m10 = blend(a.m10, other.m10, alpha);
        self.m11 = blend(a.m11, other.m11, alpha);
        self.m12 = blend(a.m12, other.m12, alpha);
        self.m13 = blend(a.m13, other.m13, alpha);
        self.m20 = blend(a.m20, other.m20, alpha);
        self.m21 = blend(a.m21, other.m21, alpha);
        self.m22 = blend(a.m22, other.m22, alpha);
        self.m23 = blend(a.m23, other.m23, alpha);
        self.m30 = blend(a.m30, other.m30, alpha);
        self.m31 = blend(a.m31, other.m31, alpha);
        self.m32 = blend(a.m32, other.m32, alpha);
        self.m33 = blend(a.m33, other.m33, alpha);
    }

    /// Apply the upper-left 3x3 block to a 3-vector, dropping the
    /// homogeneous row.
    pub fn multiply_3d(&self, point: Vec3) -> (r: Vec3)
        requires
            self.bounded(ENTRY_MAX as int),
            iabs(point.x as int) <= ENTRY_MAX as int,
            iabs(point.y as int) <= ENTRY_MAX as int,
            iabs(point.z as int) <= ENTRY_MAX as int,
        ensures
            r.x as int == apply3_e(*self, point, 0),
            r.y as int == apply3_e(*self, point, 1),
            r.z as int == apply3_e(*self, point, 2),
    {
        Vec3 {
            x: dot4(self.m00, point.x, self.m01, point.y, self.m02, point.z, 0, 0),
            y: dot4(self.m10, point.x, self.m11, point.y, self.m12, point.z, 0, 0),
            z: dot4(self.m20, point.x, self.m21, point.y, self.m22, point.z, 0, 0),
        }
    }

    /// Apply the full matrix to a homogeneous 4-vector.
    pub fn multiply_4d(&self, point: Vec4) -> (r: Vec4)
        requires
            self.bounded(ENTRY_MAX as int),
            iabs(point.x as int) <= ENTRY_MAX as int,
            iabs(point.y as int) <= ENTRY_MAX as int,
            iabs(point.z as int) <= ENTRY_MAX as int,
            iabs(point.w as int) <= ENTRY_MAX as int,
        ensures
            r.x as int == apply4_e(*self, point, 0),
            r.y as int == apply4_e(*self, point, 1),
            r.z as int == apply4_e(*self, point, 2),
            r.w as int == apply4_e(*self, point, 3),
    {
        Vec4 {
            x: dot4(self.m00, point.x, self.m01, point.y, self.m02, point.z, self.m03, point.w),
            y: dot4(self.m10, point.x, self.m11, point.y, self.m12, point.z, self.m13, point.w),
            z: dot4(self.m20, point.x, self.m21, point.y, self.m22, point.z, self.m23, point.w),
            w: dot4(self.m30, point.x, self.m31, point.y, self.m32, point.z, self.m33, point.w),
        }
    }
}

/// Largest coordinate magnitude accepted by `rotate_towards`; fifty
/// thousand real units, so squared distances stay within a scalar.
pub const POS_MAX: i64 = 500_000_000;

impl AffineMatrix {
    /// Compose a rotation about the X axis onto rows 1 and 2 in place.
    pub fn rotate_x(&mut self, angle: i64)
        requires
            -ANGLE_MAX <= angle <= ANGLE_MAX,
            old(self).bounded(ENTRY_MAX as int),
        ensures
            rotate_x_rel(*old(self), *final(self), spec_sin(angle as int), spec_cos(angle as int)),
    {
        let (s, c) = sin_cos(angle);
        proof {
            lemma_sc_near_unit(angle as int);
            lemma_rot_products(self.m11 as int, self.m12 as int, s as int, c as int);
            lemma_rot_products(self.m21 as int, self.m22 as int, s as int, c as int);
        }
        let t11: i64 = fx_mul(self.m11, c) - fx_mul(self.m12, s);
        let t12: i64 = fx_mul(self.m11, s) + fx_mul(self.m12, c);
        let t21: i64 = fx_mul(self.m21, c) - fx_mul(self.m22, s);
        let t22: i64 = fx_mul(self.m21, s) + fx_mul(self.m22, c);
        self.m11 = t11;
        self.m12 = t12;
        self.m21 = t21;
        self.m22 = t22;
    }

    /// Overwrite rows 1 and 2 with a pure rotation about the X axis.
    pub fn set_rotate_x(&mut self, angle: i64)
        requires
            -ANGLE_MAX <= angle <= ANGLE_MAX,
        ensures
            set_rotate_x_rel(*old(self), *final(self), spec_sin(angle as int), spec_cos(angle as int)),
    {
        let (s, c) = sin_cos(angle);
        proof {
            lemma_sc_near_unit(angle as int);
        }
        self.m11 = c;
        self.m12 = -s;
        self.m21 = s;
        self.m22 = c;
    }

    /// Compose a rotation about the Y axis onto rows 0 and 2 in place.
    pub fn rotate_y(&mut self, angle: i64)
        requires
            -ANGLE_MAX <= angle <= ANGLE_MAX,
            old(self).bounded(ENTRY_MAX as int),
        ensures
            rotate_y_rel(*old(self), *final(self), spec_sin(angle as int), spec_cos(angle as int)),
    {
        let (s, c) = sin_cos(angle);
        proof {
            lemma_sc_near_unit(angle as int);
            lemma_rot_products(self.m00 as int, self.m02 as int, s as int, c as int);
            lemma_rot_products(self.m20 as int, self.m22 as int, s as int, c as int);
        }
        let t00: i64 = fx_mul(self.m00, c) + fx_mul(self.m02, s);
        let t02: i64 = -fx_mul(self.m00, s) + fx_mul(self.m02, c);
        let t20: i64 = fx_mul(self.m20, c) + fx_mul(self.m22, s);
        let t22: i64 = -fx_mul(self.m20, s) + fx_mul(self.m22, c);
        self.m00 = t00;
        self.m02 = t02;
        self.m20 = t20;
        self.m22 = t22;
    }

    /// Overwrite rows 0 and 2 with a pure rotation about the Y axis.
    pub fn set_rotate_y(&mut self, angle: i64)
        requires
            -ANGLE_MAX <= angle <= ANGLE_MAX,
        ensures
            set_rotate_y_rel(*old(self), *final(self), spec_sin(angle as int), spec_cos(angle as int)),
    {
        let (s, c) = sin_cos(angle);
        proof {
            lemma_sc_near_unit(angle as int);
        }
        self.m00 = c;
        self.m02 = s;
        self.m20 = -s;
        self.m22 = c;
    }

    /// Compose a rotation about the Z axis onto rows 0 and 1 in place.
    pub fn rotate_z(&mut self, angle: i64)
        requires
            -ANGLE_MAX <= angle <= ANGLE_MAX,
            old(self).bounded(ENTRY_MAX as int),
        ensures
            rotate_z_rel(*old(self), *final(self), spec_sin(angle as int), spec_cos(angle as int)),
    {
        let (s, c) = sin_cos(angle);
        proof {
            lemma_sc_near_unit(angle as int);
            lemma_rot_products(self.m00 as int, self.m01 as int, s as int, c as int);
            lemma_rot_products(self.m10 as int, self.m11 as int, s as int, c as int);
        }
        let t00: i64 = fx_mul(self.m00, c) - fx_mul(self.m01, s);
        let t01: i64 = fx_mul(self.m00, s) + fx_mul(self.m01, c);
        let t10: i64 = fx_mul(self.m10, c) - fx_mul(self.m11, s);
        let t11: i64 = fx_mul(self.m10, s) + fx_mul(self.m11, c);
        self.m00 = t00;
        self.m01 = t01;
        self.m10 = t10;
        self.m11 = t11;
    }

    /// Overwrite rows 0 and 1 with a pure rotation about the Z axis.
    pub fn set_rotate_z(&mut self, angle: i64)
        requires
            -ANGLE_MAX <= angle <= ANGLE_MAX,
        ensures
            set_rotate_z_rel(*old(self), *final(self), spec_sin(angle as int), spec_cos(angle as int)),
    {
        let (s, c) = sin_cos(angle);
        proof {
            lemma_sc_near_unit(angle as int);
        }
        self.m00 = c;
        self.m01 = -s;
        self.m10 = s;
        self.m11 = c;
    }

    /// Overwrite the 3x3 block with the combined Euler rotation, Z then Y
    /// then X applied to a row vector, in the closed form the renderer
    /// expects.
    pub fn set_rotate(&mut self, x: i64, y: i64, z: i64)
        requires
            -ANGLE_MAX <= x <= ANGLE_MAX,
            -ANGLE_MAX <= y <= ANGLE_MAX,
            -ANGLE_MAX <= z <= ANGLE_MAX,
        ensures
            set_rotate_rel(*old(self), *final(self),
                spec_sin(x as int), spec_cos(x as int),
                spec_sin(y as int), spec_cos(y as int),
                spec_sin(z as int), spec_cos(z as int)),
    {
        let (sx, cx) = sin_cos(x);
        let (sy, cy) = sin_cos(y);
        let (sz, cz) = sin_cos(z);
        proof {
            lemma_sc_near_unit(x as int);
            lemma_sc_near_unit(y as int);
            lemma_sc_near_unit(z as int);
            lemma_unit_products(sx as int, cx as int, sy as int, cy as int, sz as int, cz as int);
        }
        self.m00 = fx_mul(cy, cz);
        self.m01 = fx_mul(cy, sz);
        self.m02 = -sy;
        self.m10 = fx_mul(fx_mul(sx, sy), cz) - fx_mul(cx, sz);
        self.m11 = fx_mul(fx_mul(sx, sy), sz) + fx_mul(cx, cz);
        self.m12 = fx_mul(sx, cy);
        self.m20 = fx_mul(fx_mul(cx, sy), cz) + fx_mul(sx, sz);
        self.m21 = fx_mul(fx_mul(cx, sy), sz) - fx_mul(sx, cz);
        self.m22 = fx_mul(cx, cy);
    }
}

/// The squared length of the direction from `o` to `t`.
pub open spec fn rt_len2(o: Vec3, t: Vec3) -> int {
    (t.x - o.x) * (t.x - o.x) + (t.y - o.y) * (t.y - o.y) + (t.z - o.z) * (t.z - o.z)
}

/// The length of the direction, rounded down; exact in scale, since the
/// fixed-point factors of the squares multiply out.
pub open spec fn rt_mag(o: Vec3, t: Vec3) -> int {
    sqrt_floor(rt_len2(o, t))
}

/// The length of the direction's shadow in the XY plane, rounded down.
pub open spec fn rt_rho(o: Vec3, t: Vec3) -> int {
    sqrt_floor((t.x - o.x) * (t.x - o.x) + (t.y - o.y) * (t.y - o.y))
}

/// Sine of the inclination step: minus the normalised Z component.
pub open spec fn rt_sphi(o: Vec3, t: Vec3) -> int {
    -tdiv((t.z - o.z) * (FX_ONE as int), rt_mag(o, t))
}

/// Cosine of the inclination step: the normalised XY shadow length.
pub open spec fn rt_cphi(o: Vec3, t: Vec3) -> int {
    tdiv(rt_rho(o, t) * (FX_ONE as int), rt_mag(o, t))
}

/// Sine of the azimuth step: minus the normalised X component; straight up
/// or down the azimuth is taken as zero, as `atan2(0, 0)` is.
pub open spec fn rt_sth(o: Vec3, t: Vec3) -> int {
    if rt_rho(o, t) == 0 {
        -(FX_ONE as int)
    } else {
        -tdiv((t.x - o.x) * (FX_ONE as int), rt_rho(o, t))
    }
}

/// Cosine of the azimuth step: the normalised Y component.
pub open spec fn rt_cth(o: Vec3, t: Vec3) -> int {
    if rt_rho(o, t) == 0 {
        0
    } else {
        tdiv((t.y - o.y) * (FX_ONE as int), rt_rho(o, t))
    }
}

/// A pure X rotation with the given sine and cosine.
pub open spec fn xrot_m(s: int, c: int) -> AffineMatrix {
    AffineMatrix {
        m00: FX_ONE, m01: 0, m02: 0, m03: 0,
        m10: 0, m11: c as i64, m12: (-s) as i64, m13: 0,
        m20: 0, m21: s as i64, m22: c as i64, m23: 0,
        m30: 0, m31: 0, m32: 0, m33: FX_ONE,
    }
}

/// A pure Y rotation with the given sine and cosine.
pub open spec fn yrot_m(s: int, c: int) -> AffineMatrix {
    AffineMatrix {
        m00: c as i64, m01: 0, m02: s as i64, m03: 0,
        m10: 0, m11: FX_ONE, m12: 0, m13: 0,
        m20: (-s) as i64, m21: 0, m22: c as i64, m23: 0,
        m30: 0, m31: 0, m32: 0, m33: FX_ONE,
    }
}

/// A pure Z rotation with the given sine and cosine.
pub open spec fn zrot_m(s: int, c: int) -> AffineMatrix {
    AffineMatrix {
        m00: c as i64, m01: (-s) as i64, m02: 0, m03: 0,
        m10: s as i64, m11: c as i64, m12: 0, m13: 0,
        m20: 0, m21: 0, m22: FX_ONE, m23: 0,
        m30: 0, m31: 0, m32: 0, m33: FX_ONE,
    }
}

/// The matrix product as a value, for transforms whose product entries fit
/// a scalar.
pub open spec fn times_m(a: AffineMatrix, b: AffineMatrix) -> AffineMatrix {
    AffineMatrix {
        m00: mul_e(a, b, 0, 0) as i64, m01: mul_e(a, b, 0, 1) as i64,
        m02: mul_e(a, b, 0, 2) as i64, m03: mul_e(a, b, 0, 3) as i64,
        m10: mul_e(a, b, 1, 0) as i64, m11: mul_e(a, b, 1, 1) as i64,
        m12: mul_e(a, b, 1, 2) as i64, m13: mul_e(a, b, 1, 3) as i64,
        m20: mul_e(a, b, 2, 0) as i64, m21: mul_e(a, b, 2, 1) as i64,
        m22: mul_e(a, b, 2, 2) as i64, m23: mul_e(a, b, 2, 3) as i64,
        m30: mul_e(a, b, 3, 0) as i64, m31: mul_e(a, b, 3, 1) as i64,
        m32: mul_e(a, b, 3, 2) as i64, m33: mul_e(a, b, 3, 3) as i64,
    }
}

/// The transform `rotate_towards` overwrites its receiver with: the
/// inclination rotation times the azimuth rotation times a fixed quarter
/// turn about Y, exactly as composed in fixed-point arithmetic.
pub open spec fn rotate_towards_m(o: Vec3, t: Vec3) -> AffineMatrix {
    times_m(
        times_m(zrot_m(rt_sphi(o, t), rt_cphi(o, t)), xrot_m(rt_sth(o, t), rt_cth(o, t))),
        yrot_m(-(FX_ONE as int), 0),
    )
}

impl AffineMatrix {
    /// Overwrite the transform with the rotation that takes the local +Y
    /// axis to the direction from `origin` to `target`, derived through the
    /// spherical angles of that direction. The direction must not be zero.
    pub fn rotate_towards(&mut self, origin: Vec3, target: Vec3)
        requires
            iabs(origin.x as int) <= POS_MAX as int,
            iabs(origin.y as int) <= POS_MAX as int,
            iabs(origin.z as int) <= POS_MAX as int,
            iabs(target.x as int) <= POS_MAX as int,
            iabs(target.y as int) <= POS_MAX as int,
            iabs(target.z as int) <= POS_MAX as int,
            origin != target,
        ensures
            *final(self) == rotate_towards_m(origin, target),
            final(self).bounded(16 * FX_ONE as int),
    {
        let dx: i64 = target.x - origin.x;
        let dy: i64 = target.y - origin.y;
        let dz: i64 = target.z - origin.z;
        proof {
            assert(0 <= dx * dx <= 1_000_000_000_000_000_000 && 0 <= dy * dy
                <= 1_000_000_000_000_000_000 && 0 <= dz * dz <= 1_000_000_000_000_000_000)
                by (nonlinear_arith)
                requires iabs(dx as int) <= 1_000_000_000, iabs(dy as int) <= 1_000_000_000,
                    iabs(dz as int) <= 1_000_000_000 {};
            assert(dx != 0 || dy != 0 || dz != 0);
            assert(dx * dx + dy * dy + dz * dz > 0) by (nonlinear_arith)
                requires dx != 0 || dy != 0 || dz != 0 {};
        }
        let n2: i64 = dx * dx + dy * dy + dz * dz;
        let r2: i64 = dx * dx + dy * dy;
        let mag_u: u64 = isqrt(n2 as u64);
        let rho_u: u64 = isqrt(r2 as u64);
        proof {
            assert(mag_u <= 2_000_000_000 && rho_u <= 2_000_000_000) by (nonlinear_arith)
                requires mag_u * mag_u <= 3_000_000_000_000_000_000u64 as int,
                    rho_u * rho_u <= 3_000_000_000_000_000_000u64 as int {};
        }
        let mag: i64 = mag_u as i64;
        let rho: i64 = rho_u as i64;
        proof {
            lemma_rt_components(dx as int, dy as int, dz as int, n2 as int, r2 as int,
                mag as int, rho as int);
        }
        let s_phi: i64 = -fx_tdiv(dz * FX_ONE, mag);
        let c_phi: i64 = fx_tdiv(rho * FX_ONE, mag);
        let s_th: i64 = if rho == 0 { -FX_ONE } else { -fx_tdiv(dx * FX_ONE, rho) };
        let c_th: i64 = if rho == 0 { 0 } else { fx_tdiv(dy * FX_ONE, rho) };

        let phi_rotation = AffineMatrix {
            m00: c_phi, m01: -s_phi, m02: 0, m03: 0,
            m10: s_phi, m11: c_phi, m12: 0, m13: 0,
            m20: 0, m21: 0, m22: FX_ONE, m23: 0,
            m30: 0, m31: 0, m32: 0, m33: FX_ONE,
        };
        let theta_rotation = AffineMatrix {
            m00: FX_ONE, m01: 0, m02: 0, m03: 0,
            m10: 0, m11: c_th, m12: -s_th, m13: 0,
            m20: 0, m21: s_th, m22: c_th, m23: 0,
            m30: 0, m31: 0, m32: 0, m33: FX_ONE,
        };
        let y_rotation = AffineMatrix {
            m00: 0, m01: 0, m02: -FX_ONE, m03: 0,
            m10: 0, m11: FX_ONE, m12: 0, m13: 0,
            m20: FX_ONE, m21: 0, m22: 0, m23: 0,
            m30: 0, m31: 0, m32: 0, m33: FX_ONE,
        };
        proof {
            assert(phi_rotation == zrot_m(rt_sphi(origin, target), rt_cphi(origin, target)));
            assert(theta_rotation == xrot_m(rt_sth(origin, target), rt_cth(origin, target)));
            assert(y_rotation == yrot_m(-(FX_ONE as int), 0));
        }
        let pt = phi_rotation.times(&theta_rotation);
        proof {
            lemma_small_product(phi_rotation, theta_rotation, pt,
                FX_ONE as int, FX_ONE as int, 4 * FX_ONE as int);
        }
        let r = pt.times(&y_rotation);
        proof {
            lemma_small_product(pt, y_rotation, r,
                4 * FX_ONE as int, FX_ONE as int, 16 * FX_ONE as int);
        }
        *self = r;
    }
}

/// Bounds on the normalised spherical components: each is at most one in
/// magnitude, because the component magnitudes never exceed the lengths
/// they are divided by.
proof fn lemma_rt_components(dx: int, dy: int, dz: int, n2: int, r2: int, mag: int, rho: int)
    requires
        n2 == dx * dx + dy * dy + dz * dz,
        r2 == dx * dx + dy * dy,
        n2 > 0,
        mag == sqrt_floor(n2),
        rho == sqrt_floor(r2),
    ensures
        mag > 0,
        rho >= 0,
        mag <= n2,
        iabs(tdiv(dz * (FX_ONE as int), mag)) <= FX_ONE as int,
        iabs(tdiv(rho * (FX_ONE as int), mag)) <= FX_ONE as int,
        rho > 0 ==> iabs(tdiv(dx * (FX_ONE as int), rho)) <= FX_ONE as int,
        rho > 0 ==> iabs(tdiv(dy * (FX_ONE as int), rho)) <= FX_ONE as int,
{
    assert(dx * dx >= 0 && dy * dy >= 0 && dz * dz >= 0) by (nonlinear_arith);
    crate::fixed::lemma_sqrt_floor_bracket(n2);
    crate::fixed::lemma_sqrt_floor_bracket(r2);
    if mag == 0 {
        assert(n2 < 1 * 1);
        assert(false);
    }
    assert(mag <= n2) by (nonlinear_arith)
        requires mag >= 1, mag * mag <= n2 {};
    lemma_component_le(n2, mag, dz);
    assert(rho * rho <= n2) by (nonlinear_arith)
        requires rho * rho <= r2, r2 + dz * dz == n2, dz * dz >= 0 {};
    lemma_component_le(n2, mag, rho);
    if rho > 0 {
        lemma_component_le(r2, rho, dx);
        lemma_component_le(r2, rho, dy);
    }
}

/// A value whose square is within the squared length has magnitude at most
/// the floor length, so its normalised form is at most one.
proof fn lemma_component_le(n2: int, mag: int, v: int)
    requires
        mag > 0,
        v * v <= n2,
        n2 < (mag + 1) * (mag + 1),
    ensures
        iabs(tdiv(v * (FX_ONE as int), mag)) <= FX_ONE as int,
{
    assert(iabs(v) <= mag) by (nonlinear_arith)
        requires v * v <= n2, n2 < (mag + 1) * (mag + 1), mag > 0 {};
    lemma_tdiv_bounds(v * (FX_ONE as int), mag);
    let q = tdiv(v * (FX_ONE as int), mag);
    assert(iabs(v * (FX_ONE as int)) <= mag * (FX_ONE as int)) by (nonlinear_arith)
        requires iabs(v) <= mag, mag > 0 {};
    assert(iabs(q) <= FX_ONE as int) by (nonlinear_arith)
        requires iabs(q) * mag <= mag * (FX_ONE as int), mag > 0, iabs(q) >= 0 {};
}

/// A product of bounded transforms equals the spec product value and is
/// itself bounded: each product entry is four blended terms, each within
/// the operand bounds.
pub proof fn lemma_small_product(a: AffineMatrix, b: AffineMatrix, r: AffineMatrix, ba: int, bb: int, bnd: int)
    requires
        0 <= ba,
        0 <= bb,
        a.bounded(ba),
        b.bounded(bb),
        4 * (ba * bb) <= bnd * (FX_ONE as int),
        bnd <= 0x7fff_ffff_ffff_ffff,
        forall|i: int, j: int|
            0 <= i < 4 && 0 <= j < 4 ==> #[trigger] r.e(i, j) == mul_e(a, b, i, j),
    ensures
        r == times_m(a, b),
        r.bounded(bnd),
{
    assert forall|i: int, j: int| 0 <= i < 4 && 0 <= j < 4
        implies iabs(#[trigger] mul_e(a, b, i, j)) <= bnd by {
        lemma_fxm_bound(a.e(i, 0), b.e(0, j), ba, bb);
        lemma_fxm_bound(a.e(i, 1), b.e(1, j), ba, bb);
        lemma_fxm_bound(a.e(i, 2), b.e(2, j), ba, bb);
        lemma_fxm_bound(a.e(i, 3), b.e(3, j), ba, bb);
        assert(iabs(mul_e(a, b, i, j)) <= iabs(fxm(a.e(i, 0), b.e(0, j)))
            + iabs(fxm(a.e(i, 1), b.e(1, j))) + iabs(fxm(a.e(i, 2), b.e(2, j)))
            + iabs(fxm(a.e(i, 3), b.e(3, j))));
        assert(iabs(mul_e(a, b, i, j)) * (FX_ONE as int) <= 4 * (ba * bb));
    }
    assert(r.e(0, 0) == mul_e(a, b, 0, 0) && r.e(0, 1) == mul_e(a, b, 0, 1)
        && r.e(0, 2) == mul_e(a, b, 0, 2) && r.e(0, 3) == mul_e(a, b, 0, 3)
        && r.e(1, 0) == mul_e(a, b, 1, 0) && r.e(1, 1) == mul_e(a, b, 1, 1)
        && r.e(1, 2) == mul_e(a, b, 1, 2) && r.e(1, 3) == mul_e(a, b, 1, 3)
        && r.e(2, 0) == mul_e(a, b, 2, 0) && r.e(2, 1) == mul_e(a, b, 2, 1)
        && r.e(2, 2) == mul_e(a, b, 2, 2) && r.e(2, 3) == mul_e(a, b, 2, 3)
        && r.e(3, 0) == mul_e(a, b, 3, 0) && r.e(3, 1) == mul_e(a, b, 3, 1)
        && r.e(3, 2) == mul_e(a, b, 3, 2) && r.e(3, 3) == mul_e(a, b, 3, 3));
    assert(iabs(mul_e(a, b, 0, 0)) <= bnd && iabs(mul_e(a, b, 0, 1)) <= bnd
        && iabs(mul_e(a, b, 0, 2)) <= bnd && iabs(mul_e(a, b, 0, 3)) <= bnd
        && iabs(mul_e(a, b, 1, 0)) <= bnd && iabs(mul_e(a, b, 1, 1)) <= bnd
        && iabs(mul_e(a, b, 1, 2)) <= bnd && iabs(mul_e(a, b, 1, 3)) <= bnd
        && iabs(mul_e(a, b, 2, 0)) <= bnd && iabs(mul_e(a, b, 2, 1)) <= bnd
        && iabs(mul_e(a, b, 2, 2)) <= bnd && iabs(mul_e(a, b, 2, 3)) <= bnd
        && iabs(mul_e(a, b, 3, 0)) <= bnd && iabs(mul_e(a, b, 3, 1)) <= bnd
        && iabs(mul_e(a, b, 3, 2)) <= bnd && iabs(mul_e(a, b, 3, 3)) <= bnd);
}

/// Every fixed-point product of an entry with a bounded rotation component
/// stays within the entry bound, so the rotated rows cannot overflow.
proof fn lemma_rot_products(a: int, b: int, s: int, c: int)
    requires
        iabs(a) <= ENTRY_MAX as int,
        iabs(b) <= ENTRY_MAX as int,
        iabs(s) <= FX_ONE as int,
        iabs(c) <= FX_ONE as int,
    ensures
        iabs(fxm(a, c)) <= ENTRY_MAX as int,
        iabs(fxm(a, s)) <= ENTRY_MAX as int,
        iabs(fxm(b, c)) <= ENTRY_MAX as int,
        iabs(fxm(b, s)) <= ENTRY_MAX as int,
{
    lemma_fxm_bound(a, c, ENTRY_MAX as int, FX_ONE as int);
    lemma_fxm_bound(a, s, ENTRY_MAX as int, FX_ONE as int);
    lemma_fxm_bound(b, c, ENTRY_MAX as int, FX_ONE as int);
    lemma_fxm_bound(b, s, ENTRY_MAX as int, FX_ONE as int);
}

/// Products of unit-bounded rotation components stay unit-bounded, so the
/// Euler block entries cannot overflow.
proof fn lemma_unit_products(sx: int, cx: int, sy: int, cy: int, sz: int, cz: int)
    requires
        iabs(sx) <= FX_ONE as int,
        iabs(cx) <= FX_ONE as int,
        iabs(sy) <= FX_ONE as int,
        iabs(cy) <= FX_ONE as int,
        iabs(sz) <= FX_ONE as int,
        iabs(cz) <= FX_ONE as int,
    ensures
        iabs(fxm(cy, cz)) <= FX_ONE as int,
        iabs(fxm(cy, sz)) <= FX_ONE as int,
        iabs(fxm(sx, sy)) <= FX_ONE as int,
        iabs(fxm(fxm(sx, sy), cz)) <= FX_ONE as int,
        iabs(fxm(cx, sz)) <= FX_ONE as int,
        iabs(fxm(fxm(sx, sy), sz)) <= FX_ONE as int,
        iabs(fxm(cx, cz)) <= FX_ONE as int,
        iabs(fxm(sx, cy)) <= FX_ONE as int,
        iabs(fxm(cx, sy)) <= FX_ONE as int,
        iabs(fxm(fxm(cx, sy), cz)) <= FX_ONE as int,
        iabs(fxm(sx, sz)) <= FX_ONE as int,
        iabs(fxm(fxm(cx, sy), sz)) <= FX_ONE as int,
        iabs(fxm(sx, cz)) <= FX_ONE as int,
        iabs(fxm(cx, cy)) <= FX_ONE as int,
{
    let one = FX_ONE as int;
    lemma_fxm_bound(cy, cz, one, one);
    lemma_fxm_bound(cy, sz, one, one);
    lemma_fxm_bound(sx, sy, one, one);
    lemma_fxm_bound(fxm(sx, sy), cz, one, one);
    lemma_fxm_bound(cx, sz, one, one);
    lemma_fxm_bound(fxm(sx, sy), sz, one, one);
    lemma_fxm_bound(cx, cz, one, one);
    lemma_fxm_bound(sx, cy, one, one);
    lemma_fxm_bound(cx, sy, one, one);
    lemma_fxm_bound(fxm(cx, sy), cz, one, one);
    lemma_fxm_bound(sx, sz, one, one);
    lemma_fxm_bound(fxm(cx, sy), sz, one, one);
    lemma_fxm_bound(sx, cz, one, one);
    lemma_fxm_bound(cx, cy, one, one);
}

/// How `rotate_x` relates the new transform to the old, given the sine and
/// cosine of the angle.
pub open spec fn rotate_x_rel(a: AffineMatrix, b: AffineMatrix, s: int, c: int) -> bool {
    &&& b.m11 as int == fxm(a.m11 as int, c) - fxm(a.m12 as int, s)
    &&& b.m12 as int == fxm(a.m11 as int, s) + fxm(a.m12 as int, c)
    &&& b.m21 as int == fxm(a.m21 as int, c) - fxm(a.m22 as int, s)
    &&& b.m22 as int == fxm(a.m21 as int, s) + fxm(a.m22 as int, c)
    &&& b.m00 == a.m00 && b.m01 == a.m01 && b.m02 == a.m02 && b.m03 == a.m03
    &&& b.m10 == a.m10 && b.m13 == a.m13
    &&& b.m20 == a.m20 && b.m23 == a.m23
    &&& b.m30 == a.m30 && b.m31 == a.m31 && b.m32 == a.m32 && b.m33 == a.m33
}

/// How `set_rotate_x` relates the new transform to the old.
pub open spec fn set_rotate_x_rel(a: AffineMatrix, b: AffineMatrix, s: int, c: int) -> bool {
    &&& b.m11 as int == c
    &&& b.m12 as int == -s
    &&& b.m21 as int == s
    &&& b.m22 as int == c
    &&& b.m00 == a.m00 && b.m01 == a.m01 && b.m02 == a.m02 && b.m03 == a.m03
    &&& b.m10 == a.m10 && b.m13 == a.m13
    &&& b.m20 == a.m20 && b.m23 == a.m23
    &&& b.m30 == a.m30 && b.m31 == a.m31 && b.m32 == a.m32 && b.m33 == a.m33
}

/// How `rotate_y` relates the new transform to the old.
pub open spec fn rotate_y_rel(a: AffineMatrix, b: AffineMatrix, s: int, c: int) -> bool {
    &&& b.m00 as int == fxm(a.m00 as int, c) + fxm(a.m02 as int, s)
    &&& b.m02 as int == -fxm(a.m00 as int, s) + fxm(a.m02 as int, c)
    &&& b.m20 as int == fxm(a.m20 as int, c) + fxm(a.m22 as int, s)
    &&& b.m22 as int == -fxm(a.m20 as int, s) + fxm(a.m22 as int, c)
    &&& b.m01 == a.m01 && b.m03 == a.m03
    &&& b.m10 == a.m10 && b.m11 == a.m11 && b.m12 == a.m12 && b.m13 == a.m13
    &&& b.m21 == a.m21 && b.m23 == a.m23
    &&& b.m30 == a.m30 && b.m31 == a.m31 && b.m32 == a.m32 && b.m33 == a.m33
}

/// How `set_rotate_y` relates the new transform to the old.
pub open spec fn set_rotate_y_rel(a: AffineMatrix, b: AffineMatrix, s: int, c: int) -> bool {
    &&& b.m00 as int == c
    &&& b.m02 as int == s
    &&& b.m20 as int == -s
    &&& b.m22 as int == c
    &&& b.m01 == a.m01 && b.m03 == a.m03
    &&& b.m10 == a.m10 && b.m11 == a.m11 && b.m12 == a.m12 && b.m13 == a.m13
    &&& b.m21 == a.m21 && b.m23 == a.m23
    &&& b.m30 == a.m30 && b.m31 == a.m31 && b.m32 == a.m32 && b.m33 == a.m33
}

/// How `rotate_z` relates the new transform to the old.
pub open spec fn rotate_z_rel(a: AffineMatrix, b: AffineMatrix, s: int, c: int) -> bool {
    &&& b.m00 as int == fxm(a.m00 as int, c) - fxm(a.m01 as int, s)
    &&& b.m01 as int == fxm(a.m00 as int, s) + fxm(a.m01 as int, c)
    &&& b.m10 as int == fxm(a.m10 as int, c) - fxm(a.m11 as int, s)
    &&& b.m11 as int == fxm(a.m10 as int, s) + fxm(a.m11 as int, c)
    &&& b.m02 == a.m02 && b.m03 == a.m03
    &&& b.m12 == a.m12 && b.m13 == a.m13
    &&& b.m20 == a.m20 && b.m21 == a.m21 && b.m22 == a.m22 && b.m23 == a.m23
    &&& b.m30 == a.m30 && b.m31 == a.m31 && b.m32 == a.m32 && b.m33 == a.m33
}

/// How `set_rotate_z` relates the new transform to the old.
pub open spec fn set_rotate_z_rel(a: AffineMatrix, b: AffineMatrix, s: int, c: int) -> bool {
    &&& b.m00 as int == c
    &&& b.m01 as int == -s
    &&& b.m10 as int == s
    &&& b.m11 as int == c
    &&& b.m02 == a.m02 && b.m03 == a.m03
    &&& b.m12 == a.m12 && b.m13 == a.m13
    &&& b.m20 == a.m20 && b.m21 == a.m21 && b.m22 == a.m22 && b.m23 == a.m23
    &&& b.m30 == a.m30 && b.m31 == a.m31 && b.m32 == a.m32 && b.m33 == a.m33
}

/// How `set_rotate` relates the new transform to the old: the 3x3 block
/// holds the closed-form Euler entries, the rest keeps its value.
pub open spec fn set_rotate_rel(
    a: AffineMatrix,
    b: AffineMatrix,
    sx: int,
    cx: int,
    sy: int,
    cy: int,
    sz: int,
    cz: int,
) -> bool {
    &&& b.m00 as int == fxm(cy, cz)
    &&& b.m01 as int == fxm(cy, sz)
    &&& b.m02 as int == -sy
    &&& b.m10 as int == fxm(fxm(sx, sy), cz) - fxm(cx, sz)
    &&& b.m11 as int == fxm(fxm(sx, sy), sz) + fxm(cx, cz)
    &&& b.m12 as int == fxm(sx, cy)
    &&& b.m20 as int == fxm(fxm(cx, sy), cz) + fxm(sx, sz)
    &&& b.m21 as int == fxm(fxm(cx, sy), sz) - fxm(sx, cz)
    &&& b.m22 as int == fxm(cx, cy)
    &&& b.m03 == a.m03 && b.m13 == a.m13 && b.m23 == a.m23
    &&& b.m30 == a.m30 && b.m31 == a.m31 && b.m32 == a.m32 && b.m33 == a.m33
}

/// A transform that only translates, by the given vector.
pub open spec fn translate_only_m(v: Vec3) -> AffineMatrix {
    AffineMatrix { m30: v.x, m31: v.y, m32: v.z, ..ident_m() }
}

/// The pure Y rotation of an angle, through the crate's sine and cosine.
pub open spec fn yrot_of(angle: int) -> AffineMatrix {
    yrot_m(spec_sin(angle), spec_cos(angle))
}

/// The pure X rotation of an angle.
pub open spec fn xrot_of(angle: int) -> AffineMatrix {
    xrot_m(spec_sin(angle), spec_cos(angle))
}

/// The blended transform as a value, for entries within the scalar range.
pub open spec fn combined_m(a: AffineMatrix, b: AffineMatrix, alpha: int) -> AffineMatrix {
    AffineMatrix {
        m00: (fxm(alpha, b.m00 as int) + fxm(FX_ONE - alpha, a.m00 as int)) as i64,
        m01: (fxm(alpha, b.m01 as int) + fxm(FX_ONE - alpha, a.m01 as int)) as i64,
        m02: (fxm(alpha, b.m02 as int) + fxm(FX_ONE - alpha, a.m02 as int)) as i64,
        m03: (fxm(alpha, b.m03 as int) + fxm(FX_ONE - alpha, a.m03 as int)) as i64,
        m10: (fxm(alpha, b.m10 as int) + fxm(FX_ONE - alpha, a.m10 as int)) as i64,
        m11: (fxm(alpha, b.m11 as int) + fxm(FX_ONE - alpha, a.m11 as int)) as i64,
        m12: (fxm(alpha, b.m12 as int) + fxm(FX_ONE - alpha, a.m12 as int)) as i64,
        m13: (fxm(alpha, b.m13 as int) + fxm(FX_ONE - alpha, a.m13 as int)) as i64,
        m20: (fxm(alpha, b.m20 as int) + fxm(FX_ONE - alpha, a.m20 as int)) as i64,
        m21: (fxm(alpha, b.m21 as int) + fxm(FX_ONE - alpha, a.m21 as int)) as i64,
        m22: (fxm(alpha, b.m22 as int) + fxm(FX_ONE - alpha, a.m22 as int)) as i64,
        m23: (fxm(alpha, b.m23 as int) + fxm(FX_ONE - alpha, a.m23 as int)) as i64,
        m30: (fxm(alpha, b.m30 as int) + fxm(FX_ONE - alpha, a.m30 as int)) as i64,
        m31: (fxm(alpha, b.m31 as int) + fxm(FX_ONE - alpha, a.m31 as int)) as i64,
        m32: (fxm(alpha, b.m32 as int) + fxm(FX_ONE - alpha, a.m32 as int)) as i64,
        m33: (fxm(alpha, b.m33 as int) + fxm(FX_ONE - alpha, a.m33 as int)) as i64,
    }
}

/// The blend of two transforms bounded by `bnd` equals the spec value and
/// stays within `bnd`: the blend is a weighted mean and cannot grow the
/// entries.
pub proof fn lemma_combine_value(a: AffineMatrix, r: AffineMatrix, b: AffineMatrix, alpha: int, bnd: int)
    requires
        combine_rel(a, r, b, alpha),
        0 <= alpha <= FX_ONE,
        0 <= bnd <= 0x7fff_ffff_ffff_ffff,
        a.bounded(bnd),
        b.bounded(bnd),
    ensures
        r == combined_m(a, b, alpha),
        r.bounded(bnd),
{
    assert forall|i: int, j: int| 0 <= i < 4 && 0 <= j < 4
        implies iabs(fxm(alpha, b.e(i, j)) + fxm(FX_ONE - alpha, #[trigger] a.e(i, j))) <= bnd by {
        lemma_fxm_bound(alpha, b.e(i, j), alpha, bnd);
        lemma_fxm_bound(FX_ONE - alpha, a.e(i, j), FX_ONE - alpha, bnd);
        assert(alpha * bnd + (FX_ONE - alpha) * bnd == (FX_ONE as int) * bnd) by (nonlinear_arith);
        assert((iabs(fxm(alpha, b.e(i, j))) + iabs(fxm(FX_ONE - alpha, a.e(i, j))))
            * (FX_ONE as int) <= (FX_ONE as int) * bnd) by (nonlinear_arith)
            requires iabs(fxm(alpha, b.e(i, j))) * (FX_ONE as int) <= alpha * bnd,
                iabs(fxm(FX_ONE - alpha, a.e(i, j))) * (FX_ONE as int)
                    <= (FX_ONE - alpha) * bnd,
                alpha * bnd + (FX_ONE - alpha) * bnd == (FX_ONE as int) * bnd {};
        assert(iabs(fxm(alpha, b.e(i, j))) + iabs(fxm(FX_ONE - alpha, a.e(i, j))) <= bnd);
    }
    assert(a.e(0, 0) == a.m00 as int && a.e(0, 1) == a.m01 as int && a.e(0, 2) == a.m02 as int
        && a.e(0, 3) == a.m03 as int && a.e(1, 0) == a.m10 as int && a.e(1, 1) == a.m11 as int
        && a.e(1, 2) == a.m12 as int && a.e(1, 3) == a.m13 as int && a.e(2, 0) == a.m20 as int
        && a.e(2, 1) == a.m21 as int && a.e(2, 2) == a.m22 as int && a.e(2, 3) == a.m23 as int
        && a.e(3, 0) == a.m30 as int && a.e(3, 1) == a.m31 as int && a.e(3, 2) == a.m32 as int
        && a.e(3, 3) == a.m33 as int);
    assert(r.e(0, 0) == fxm(alpha, b.e(0, 0)) + fxm(FX_ONE - alpha, a.e(0, 0))
        && r.e(0, 1) == fxm(alpha, b.e(0, 1)) + fxm(FX_ONE - alpha, a.e(0, 1))
        && r.e(0, 2) == fxm(alpha, b.e(0, 2)) + fxm(FX_ONE - alpha, a.e(0, 2))
        && r.e(0, 3) == fxm(alpha, b.e(0, 3)) + fxm(FX_ONE - alpha, a.e(0, 3))
        && r.e(1, 0) == fxm(alpha, b.e(1, 0)) + fxm(FX_ONE - alpha, a.e(1, 0))
        && r.e(1, 1) == fxm(alpha, b.e(1, 1)) + fxm(FX_ONE - alpha, a.e(1, 1))
        && r.e(1, 2) == fxm(alpha, b.e(1, 2)) + fxm(FX_ONE - alpha, a.e(1, 2))
        && r.e(1, 3) == fxm(alpha, b.e(1, 3)) + fxm(FX_ONE - alpha, a.e(1, 3))
        && r.e(2, 0) == fxm(alpha, b.e(2, 0)) + fxm(FX_ONE - alpha, a.e(2, 0))
        && r.e(2, 1) == fxm(alpha, b.e(2, 1)) + fxm(FX_ONE - alpha, a.e(2, 1))
        && r.e(2, 2) == fxm(alpha, b.e(2, 2)) + fxm(FX_ONE - alpha, a.e(2, 2))
        && r.e(2, 3) == fxm(alpha, b.e(2, 3)) + fxm(FX_ONE - alpha, a.e(2, 3))
        && r.e(3, 0) == fxm(alpha, b.e(3, 0)) + fxm(FX_ONE - alpha, a.e(3, 0))
        && r.e(3, 1) == fxm(alpha, b.e(3, 1)) + fxm(FX_ONE - alpha, a.e(3, 1))
        && r.e(3, 2) == fxm(alpha, b.e(3, 2)) + fxm(FX_ONE - alpha, a.e(3, 2))
        && r.e(3, 3) == fxm(alpha, b.e(3, 3)) + fxm(FX_ONE - alpha, a.e(3, 3)));
}

/// The applied 3-vector as a value, for components within the scalar
/// range.
pub open spec fn apply3_v(m: AffineMatrix, p: Vec3) -> Vec3 {
    Vec3 {
        x: apply3_e(m, p, 0) as i64,
        y: apply3_e(m, p, 1) as i64,
        z: apply3_e(m, p, 2) as i64,
    }
}

/// Applying a bounded block to a bounded vector bounds each component by
/// three blended terms.
pub proof fn lemma_apply3_bound(m: AffineMatrix, p: Vec3, bm: int, bp: int)
    requires
        0 <= bm,
        0 <= bp,
        m.bounded(bm),
        iabs(p.x as int) <= bp,
        iabs(p.y as int) <= bp,
        iabs(p.z as int) <= bp,
    ensures
        forall|i: int| 0 <= i < 3 ==> iabs(#[trigger] apply3_e(m, p, i)) * (FX_ONE as int)
            <= 3 * (bm * bp),
{
    assert forall|i: int| 0 <= i < 3
        implies iabs(#[trigger] apply3_e(m, p, i)) * (FX_ONE as int) <= 3 * (bm * bp) by {
        lemma_fxm_bound(m.e(i, 0), p.x as int, bm, bp);
        lemma_fxm_bound(m.e(i, 1), p.y as int, bm, bp);
        lemma_fxm_bound(m.e(i, 2), p.z as int, bm, bp);
        assert(iabs(apply3_e(m, p, i)) <= iabs(fxm(m.e(i, 0), p.x as int))
            + iabs(fxm(m.e(i, 1), p.y as int)) + iabs(fxm(m.e(i, 2), p.z as int)));
    }
}

/// Allowed distance of a rotation block's row product from exact
/// orthogonality: the near-unit slack spread over one scale, plus the two
/// truncations of the diagonal products.
pub const ORTHO_TOL: i64 = 102;

/// The fixed-point dot product of rows `i` and `j` of the 3x3 block.
pub open spec fn row_dot(m: AffineMatrix, i: int, j: int) -> int {
    fxm(m.e(i, 0), m.e(j, 0)) + fxm(m.e(i, 1), m.e(j, 1)) + fxm(m.e(i, 2), m.e(j, 2))
}

/// The 3x3 block of `m` is orthogonal up to `ORTHO_TOL`: rows are unit
/// length and pairwise perpendicular in fixed-point arithmetic.
pub open spec fn block_orthogonal(m: AffineMatrix) -> bool {
    forall|i: int, j: int|
        0 <= i < 3 && 0 <= j < 3
            ==> iabs(#[trigger] row_dot(m, i, j) - if i == j { FX_ONE as int } else { 0 })
                <= ORTHO_TOL as int
}

/// Law: the identity transform is a left and a right unit of the matrix
/// product, exactly.
pub proof fn lemma_mul_ident(a: AffineMatrix)
    ensures
        forall|i: int, j: int|
            0 <= i < 4 && 0 <= j < 4 ==> #[trigger] mul_e(a, ident_m(), i, j) == a.e(i, j),
        forall|i: int, j: int|
            0 <= i < 4 && 0 <= j < 4 ==> #[trigger] mul_e(ident_m(), a, i, j) == a.e(i, j),
{
    assert forall|i: int, j: int| 0 <= i < 4 && 0 <= j < 4
        implies #[trigger] mul_e(a, ident_m(), i, j) == a.e(i, j) by {
        lemma_fxm_one(a.e(i, 0));
        lemma_fxm_one(a.e(i, 1));
        lemma_fxm_one(a.e(i, 2));
        lemma_fxm_one(a.e(i, 3));
        lemma_fxm_zero(a.e(i, 0));
        lemma_fxm_zero(a.e(i, 1));
        lemma_fxm_zero(a.e(i, 2));
        lemma_fxm_zero(a.e(i, 3));
    }
    assert forall|i: int, j: int| 0 <= i < 4 && 0 <= j < 4
        implies #[trigger] mul_e(ident_m(), a, i, j) == a.e(i, j) by {
        lemma_fxm_one(a.e(0, j));
        lemma_fxm_one(a.e(1, j));
        lemma_fxm_one(a.e(2, j));
        lemma_fxm_one(a.e(3, j));
        lemma_fxm_zero(a.e(0, j));
        lemma_fxm_zero(a.e(1, j));
        lemma_fxm_zero(a.e(2, j));
        lemma_fxm_zero(a.e(3, j));
    }
}

/// Law: the identity transform returns any vector unchanged, exactly.
pub proof fn lemma_ident_apply(p: Vec3, q: Vec4)
    ensures
        apply3_e(ident_m(), p, 0) == p.x as int,
        apply3_e(ident_m(), p, 1) == p.y as int,
        apply3_e(ident_m(), p, 2) == p.z as int,
        apply4_e(ident_m(), q, 0) == q.x as int,
        apply4_e(ident_m(), q, 1) == q.y as int,
        apply4_e(ident_m(), q, 2) == q.z as int,
        apply4_e(ident_m(), q, 3) == q.w as int,
{
    lemma_fxm_one(p.x as int);
    lemma_fxm_one(p.y as int);
    lemma_fxm_one(p.z as int);
    lemma_fxm_zero(p.x as int);
    lemma_fxm_zero(p.y as int);
    lemma_fxm_zero(p.z as int);
    lemma_fxm_one(q.x as int);
    lemma_fxm_one(q.y as int);
    lemma_fxm_one(q.z as int);
    lemma_fxm_one(q.w as int);
    lemma_fxm_zero(q.x as int);
    lemma_fxm_zero(q.y as int);
    lemma_fxm_zero(q.z as int);
    lemma_fxm_zero(q.w as int);
}

/// Law: translating by an offset and then by its negation restores the
/// transform exactly.
pub proof fn lemma_translate_inverse(
    a: AffineMatrix,
    b: AffineMatrix,
    c: AffineMatrix,
    x: int,
    y: int,
    z: int,
)
    requires
        translate_rel(a, b, x, y, z),
        translate_rel(b, c, -x, -y, -z),
    ensures
        c == a,
{
}

/// Law: blending with weight zero leaves the transform exactly unchanged.
pub proof fn lemma_combine_zero(a: AffineMatrix, r: AffineMatrix, b: AffineMatrix)
    requires
        combine_rel(a, r, b, 0),
    ensures
        r == a,
{
    assert forall|i: int, j: int| 0 <= i < 4 && 0 <= j < 4
        implies #[trigger] r.e(i, j) == a.e(i, j) by {
        lemma_fxm_zero(b.e(i, j));
        lemma_fxm_one(a.e(i, j));
    }
    assert(r.e(0, 0) == a.e(0, 0) && r.e(0, 1) == a.e(0, 1) && r.e(0, 2) == a.e(0, 2)
        && r.e(0, 3) == a.e(0, 3) && r.e(1, 0) == a.e(1, 0) && r.e(1, 1) == a.e(1, 1)
        && r.e(1, 2) == a.e(1, 2) && r.e(1, 3) == a.e(1, 3) && r.e(2, 0) == a.e(2, 0)
        && r.e(2, 1) == a.e(2, 1) && r.e(2, 2) == a.e(2, 2) && r.e(2, 3) == a.e(2, 3)
        && r.e(3, 0) == a.e(3, 0) && r.e(3, 1) == a.e(3, 1) && r.e(3, 2) == a.e(3, 2)
        && r.e(3, 3) == a.e(3, 3));
}

/// Law: blending with weight one makes the transform exactly equal to the
/// other operand.
pub proof fn lemma_combine_one(a: AffineMatrix, r: AffineMatrix, b: AffineMatrix)
    requires
        combine_rel(a, r, b, FX_ONE as int),
    ensures
        r == b,
{
    assert forall|i: int, j: int| 0 <= i < 4 && 0 <= j < 4
        implies #[trigger] r.e(i, j) == b.e(i, j) by {
        lemma_fxm_one(b.e(i, j));
        lemma_fxm_zero(a.e(i, j));
    }
    assert(r.e(0, 0) == b.e(0, 0) && r.e(0, 1) == b.e(0, 1) && r.e(0, 2) == b.e(0, 2)
        && r.e(0, 3) == b.e(0, 3) && r.e(1, 0) == b.e(1, 0) && r.e(1, 1) == b.e(1, 1)
        && r.e(1, 2) == b.e(1, 2) && r.e(1, 3) == b.e(1, 3) && r.e(2, 0) == b.e(2, 0)
        && r.e(2, 1) == b.e(2, 1) && r.e(2, 2) == b.e(2, 2) && r.e(2, 3) == b.e(2, 3)
        && r.e(3, 0) == b.e(3, 0) && r.e(3, 1) == b.e(3, 1) && r.e(3, 2) == b.e(3, 2)
        && r.e(3, 3) == b.e(3, 3));
}

/// Law: blending with weight one half lands within one unit per operand of
/// the exact element-wise midpoint.
pub proof fn lemma_combine_half(a: AffineMatrix, r: AffineMatrix, b: AffineMatrix)
    requires
        combine_rel(a, r, b, FX_HALF as int),
    ensures
        forall|i: int, j: int|
            0 <= i < 4 && 0 <= j < 4
                ==> iabs(2 * #[trigger] r.e(i, j) - (a.e(i, j) + b.e(i, j))) <= 2,
{
    assert forall|i: int, j: int| 0 <= i < 4 && 0 <= j < 4
        implies iabs(2 * #[trigger] r.e(i, j) - (a.e(i, j) + b.e(i, j))) <= 2 by {
        crate::fixed::lemma_fxm_half(a.e(i, j));
        crate::fixed::lemma_fxm_half(b.e(i, j));
        assert(FX_ONE - FX_HALF == FX_HALF);
    }
}

/// The algebra of one near-unit sine and cosine pair: the diagonal products
/// land within tolerance of one, the cross products cancel exactly.
proof fn lemma_plane_unit(s: int, c: int)
    requires
        near_unit(s, c),
    ensures
        iabs(fxm(c, c) + fxm(s, s) - FX_ONE as int) <= ORTHO_TOL as int,
        fxm(c, s) + fxm(-s, c) == 0,
        fxm(s, c) + fxm(c, -s) == 0,
        fxm(-s, -s) == fxm(s, s),
        fxm(-s, c) == -fxm(s, c),
        fxm(c, -s) == -fxm(c, s),
        fxm(s, c) == fxm(c, s),
{
    let one = FX_ONE as int;
    assert(s * s >= 0 && c * c >= 0 && (-s) * (-s) == s * s && (-s) * c == -(s * c)
        && c * (-s) == -(c * s) && s * c == c * s) by (nonlinear_arith);
    lemma_tdiv_bounds(c * c, one);
    lemma_tdiv_bounds(s * s, one);
    assert(iabs(s * s + c * c - one * one) <= NEAR_EPS as int);
}

/// Law: for any angle, the block written by `set_rotate_x` onto the
/// identity is orthogonal up to `ORTHO_TOL`.
pub proof fn lemma_set_rotate_x_orthogonal(m: AffineMatrix, angle: int)
    requires
        set_rotate_x_rel(ident_m(), m, spec_sin(angle), spec_cos(angle)),
    ensures
        block_orthogonal(m),
{
    let s = spec_sin(angle);
    let c = spec_cos(angle);
    lemma_sc_near_unit(angle);
    lemma_plane_unit(s, c);
    assert forall|i: int, j: int| 0 <= i < 3 && 0 <= j < 3
        implies iabs(#[trigger] row_dot(m, i, j) - if i == j { FX_ONE as int } else { 0 })
            <= ORTHO_TOL as int by {
        lemma_fxm_one(FX_ONE as int);
        lemma_fxm_zero(FX_ONE as int);
        lemma_fxm_zero(s);
        lemma_fxm_zero(-s);
        lemma_fxm_zero(c);
        lemma_fxm_zero(0);
    }
}

/// Law: for any angle, the block written by `set_rotate_y` onto the
/// identity is orthogonal up to `ORTHO_TOL`.
pub proof fn lemma_set_rotate_y_orthogonal(m: AffineMatrix, angle: int)
    requires
        set_rotate_y_rel(ident_m(), m, spec_sin(angle), spec_cos(angle)),
    ensures
        block_orthogonal(m),
{
    let s = spec_sin(angle);
    let c = spec_cos(angle);
    lemma_sc_near_unit(angle);
    lemma_plane_unit(s, c);
    assert forall|i: int, j: int| 0 <= i < 3 && 0 <= j < 3
        implies iabs(#[trigger] row_dot(m, i, j) - if i == j { FX_ONE as int } else { 0 })
            <= ORTHO_TOL as int by {
        lemma_fxm_one(FX_ONE as int);
        lemma_fxm_zero(FX_ONE as int);
        lemma_fxm_zero(s);
        lemma_fxm_zero(-s);
        lemma_fxm_zero(c);
        lemma_fxm_zero(0);
    }
}

/// Law: for any angle, the block written by `set_rotate_z` onto the
/// identity is orthogonal up to `ORTHO_TOL`.
pub proof fn lemma_set_rotate_z_orthogonal(m: AffineMatrix, angle: int)
    requires
        set_rotate_z_rel(ident_m(), m, spec_sin(angle), spec_cos(angle)),
    ensures
        block_orthogonal(m),
{
    let s = spec_sin(angle);
    let c = spec_cos(angle);
    lemma_sc_near_unit(angle);
    lemma_plane_unit(s, c);
    assert forall|i: int, j: int| 0 <= i < 3 && 0 <= j < 3
        implies iabs(#[trigger] row_dot(m, i, j) - if i == j { FX_ONE as int } else { 0 })
            <= ORTHO_TOL as int by {
        lemma_fxm_one(FX_ONE as int);
        lemma_fxm_zero(FX_ONE as int);
        lemma_fxm_zero(s);
        lemma_fxm_zero(-s);
        lemma_fxm_zero(c);
        lemma_fxm_zero(0);
    }
}

/// One blended entry: `alpha * b + (1 - alpha) * a`.
fn blend(a: i64, b: i64, alpha: i64) -> (r: i64)
    requires
        0 <= alpha <= FX_ONE,
        iabs(a as int) <= ENTRY_MAX as int,
        iabs(b as int) <= ENTRY_MAX as int,
    ensures
        r as int == fxm(alpha as int, b as int) + fxm(FX_ONE - alpha, a as int),
{
    proof {
        lemma_fxm_bound(alpha as int, b as int, FX_ONE as int, ENTRY_MAX as int);
        lemma_fxm_bound(FX_ONE - alpha, a as int, FX_ONE as int, ENTRY_MAX as int);
    }
    let t0: i64 = fx_mul(alpha, b);
    let t1: i64 = fx_mul(FX_ONE - alpha, a);
    t0 + t1
}

/// How `translate` relates the new transform to the old: the translation row
/// is shifted, everything else keeps its value.
pub open spec fn translate_rel(a: AffineMatrix, b: AffineMatrix, x: int, y: int, z: int) -> bool {
    &&& b.m30 as int == a.m30 + x
    &&& b.m31 as int == a.m31 + y
    &&& b.m32 as int == a.m32 + z
    &&& b.m00 == a.m00 && b.m01 == a.m01 && b.m02 == a.m02 && b.m03 == a.m03
    &&& b.m10 == a.m10 && b.m11 == a.m11 && b.m12 == a.m12 && b.m13 == a.m13
    &&& b.m20 == a.m20 && b.m21 == a.m21 && b.m22 == a.m22 && b.m23 == a.m23
    &&& b.m33 == a.m33
}

/// How `combine` relates the new transform to the old: every entry is the
/// fixed-point affine blend of the two inputs.
pub open spec fn combine_rel(a: AffineMatrix, r: AffineMatrix, b: AffineMatrix, alpha: int) -> bool {
    forall|i: int, j: int|
        0 <= i < 4 && 0 <= j < 4
            ==> #[trigger] r.e(i, j) == fxm(alpha, b.e(i, j)) + fxm(FX_ONE - alpha, a.e(i, j))
}

/// Component `i` of the 3x3 block applied to a 3-vector.
pub open spec fn apply3_e(m: AffineMatrix, p: Vec3, i: int) -> int {
    fxm(m.e(i, 0), p.x as int) + fxm(m.e(i, 1), p.y as int) + fxm(m.e(i, 2), p.z as int)
}

/// Component `i` of the full matrix applied to a homogeneous 4-vector.
pub open spec fn apply4_e(m: AffineMatrix, p: Vec4, i: int) -> int {
    fxm(m.e(i, 0), p.x as int) + fxm(m.e(i, 1), p.y as int) + fxm(m.e(i, 2), p.z as int)
        + fxm(m.e(i, 3), p.w as int)
}

} // verus!
