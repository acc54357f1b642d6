//! Three-component fixed-point vectors, used both for geometry and for
//! radiance ("colour") values.

use vstd::prelude::*;

use crate::fixed::{
    fx_add, fx_div, fx_mul, fx_neg, fx_scale_int, fx_sqrt, fx_sub, in_fx, spec_div, spec_fx_sqrt,
    spec_mul, spec_sat, FX_ONE,
};

verus! {

/// A vector of three fixed-point scalars.
#[derive(Clone, Copy, Debug, PartialEq, Eq, Structural)]
pub struct Vec3 {
    pub x: i64,
    pub y: i64,
    pub z: i64,
}

/// Build the vector whose components are the saturations of the given values.
pub open spec fn sv(x: int, y: int, z: int) -> Vec3 {
    Vec3 { x: spec_sat(x) as i64, y: spec_sat(y) as i64, z: spec_sat(z) as i64 }
}

/// Component-wise sum.
pub open spec fn spec_vadd(a: Vec3, b: Vec3) -> Vec3 {
    sv(a.x + b.x, a.y + b.y, a.z + b.z)
}

/// Component-wise difference.
pub open spec fn spec_vsub(a: Vec3, b: Vec3) -> Vec3 {
    sv(a.x - b.x, a.y - b.y, a.z - b.z)
}

/// Component-wise negation.
pub open spec fn spec_vneg(a: Vec3) -> Vec3 {
    sv(-a.x, -a.y, -a.z)
}

/// Product with a fixed-point scalar.
pub open spec fn spec_vscale(a: Vec3, k: int) -> Vec3 {
    sv(spec_mul(a.x as int, k), spec_mul(a.y as int, k), spec_mul(a.z as int, k))
}

/// Quotient by a non-zero fixed-point scalar.
pub open spec fn spec_vdiv(a: Vec3, k: int) -> Vec3 {
    sv(spec_div(a.x as int, k), spec_div(a.y as int, k), spec_div(a.z as int, k))
}

/// Component-wise product.
pub open spec fn spec_velem(a: Vec3, b: Vec3) -> Vec3 {
    sv(
        spec_mul(a.x as int, b.x as int),
        spec_mul(a.y as int, b.y as int),
        spec_mul(a.z as int, b.z as int),
    )
}

/// Fixed-point dot product: the three component products summed left to
/// right, saturating at each step.
pub open spec fn spec_dot(a: Vec3, b: Vec3) -> int {
    spec_sat(
        spec_sat(spec_mul(a.x as int, b.x as int) + spec_mul(a.y as int, b.y as int))
            + spec_mul(a.z as int, b.z as int),
    )
}

/// Squared magnitude.
pub open spec fn spec_mag_sqd(a: Vec3) -> int {
    spec_dot(a, a)
}

/// Magnitude: the fixed-point square root of the squared magnitude.
pub open spec fn spec_mag(a: Vec3) -> int {
    spec_fx_sqrt(spec_mag_sqd(a))
}

/// Unit vector in the direction of `a`; the zero vector when `a` has zero
/// magnitude, so that normalization is total.
pub open spec fn spec_normalized(a: Vec3) -> Vec3 {
    if spec_mag(a) == 0 {
        sv(0, 0, 0)
    } else {
        spec_vdiv(a, spec_mag(a))
    }
}

/// Reflection of `a` about the normal `n`: `a - 2*dot(n, a)*n`.
pub open spec fn spec_reflect(a: Vec3, n: Vec3) -> Vec3 {
    spec_vsub(a, spec_vscale(n, spec_sat(2 * spec_dot(n, a))))
}

/// Refraction of `a` through the normal `n` with relative index of
/// refraction `ior`: Snell's construction, or the zero vector under total
/// internal reflection.
pub open spec fn spec_refract(a: Vec3, n: Vec3, ior: int) -> Vec3 {
    let d = spec_dot(a, n);
    let k = spec_sat(
        FX_ONE - spec_mul(spec_mul(ior, ior), spec_sat(FX_ONE - spec_mul(d, d))),
    );
    if k < 0 {
        sv(0, 0, 0)
    } else {
        spec_vsub(
            spec_vscale(a, ior),
            spec_vscale(n, spec_sat(spec_mul(ior, d) + spec_fx_sqrt(k))),
        )
    }
}

/// Component-wise square root, with negative components mapped to zero.
pub open spec fn spec_vsqrt(a: Vec3) -> Vec3 {
    sv(spec_fx_sqrt(a.x as int), spec_fx_sqrt(a.y as int), spec_fx_sqrt(a.z as int))
}

impl Vec3 {
    /// All components lie in the saturation range.
    pub open spec fn wf(self) -> bool {
        in_fx(self.x as int) && in_fx(self.y as int) && in_fx(self.z as int)
    }

    /// Build a vector, saturating each component.
    pub fn new(x: i64, y: i64, z: i64) -> (r: Vec3)
        ensures
            r == sv(x as int, y as int, z as int),
            r.wf(),
    {
        let mut v = Vec3 { x: 0, y: 0, z: 0 };
        if x > crate::fixed::FX_LIM {
            v.x = crate::fixed::FX_LIM;
        } else if x < -crate::fixed::FX_LIM {
            v.x = -crate::fixed::FX_LIM;
        } else {
            v.x = x;
        }
        if y > crate::fixed::FX_LIM {
            v.y = crate::fixed::FX_LIM;
        } else if y < -crate::fixed::FX_LIM {
            v.y = -crate::fixed::FX_LIM;
        } else {
            v.y = y;
        }
        if z > crate::fixed::FX_LIM {
            v.z = crate::fixed::FX_LIM;
        } else if z < -crate::fixed::FX_LIM {
            v.z = -crate::fixed::FX_LIM;
        } else {
            v.z = z;
        }
        v
    }

    /// The zero vector.
    pub fn zero() -> (r: Vec3)
        ensures
            r == sv(0, 0, 0),
            r.wf(),
    {
        Vec3 { x: 0, y: 0, z: 0 }
    }

    /// First component.
    pub fn x(&self) -> (r: i64)
        ensures
            r == self.x,
    {
        self.x
    }

    /// Second component.
    pub fn y(&self) -> (r: i64)
        ensures
            r == self.y,
    {
        self.y
    }

    /// Third component.
    pub fn z(&self) -> (r: i64)
        ensures
            r == self.z,
    {
        self.z
    }

    /// Component-wise sum.
    pub fn add(self, other: Vec3) -> (r: Vec3)
        requires
            self.wf(),
            other.wf(),
        ensures
            r == spec_vadd(self, other),
            r.wf(),
    {
        Vec3 {
            x: fx_add(self.x, other.x),
            y: fx_add(self.y, other.y),
            z: fx_add(self.z, other.z),
        }
    }

    /// Component-wise difference.
    pub fn sub(self, other: Vec3) -> (r: Vec3)
        requires
            self.wf(),
            other.wf(),
        ensures
            r == spec_vsub(self, other),
            r.wf(),
    {
        Vec3 {
            x: fx_sub(self.x, other.x),
            y: fx_sub(self.y, other.y),
            z: fx_sub(self.z, other.z),
        }
    }

    /// Component-wise negation.
    pub fn neg(self) -> (r: Vec3)
        requires
            self.wf(),
        ensures
            r == spec_vneg(self),
            r.wf(),
    {
        Vec3 { x: fx_neg(self.x), y: fx_neg(self.y), z: fx_neg(self.z) }
    }

    /// Product with a fixed-point scalar.
    pub fn mul_scalar(self, k: i64) -> (r: Vec3)
        requires
            self.wf(),
            in_fx(k as int),
        ensures
            r == spec_vscale(self, k as int),
            r.wf(),
    {
        Vec3 { x: fx_mul(self.x, k), y: fx_mul(self.y, k), z: fx_mul(self.z, k) }
    }

    /// Quotient by a non-zero fixed-point scalar.
    pub fn div_scalar(self, k: i64) -> (r: Vec3)
        requires
            self.wf(),
            in_fx(k as int),
            k != 0,
        ensures
            r == spec_vdiv(self, k as int),
            r.wf(),
    {
        Vec3 { x: fx_div(self.x, k), y: fx_div(self.y, k), z: fx_div(self.z, k) }
    }

    /// Fixed-point dot product.
    pub fn dot(&self, other: Vec3) -> (r: i64)
        requires
            self.wf(),
            other.wf(),
        ensures
            r == spec_dot(*self, other),
            in_fx(r as int),
    {
        let px: i64 = fx_mul(self.x, other.x);
        let py: i64 = fx_mul(self.y, other.y);
        let pz: i64 = fx_mul(self.z, other.z);
        fx_add(fx_add(px, py), pz)
    }

    /// Squared magnitude.
    pub fn mag_sqd(&self) -> (r: i64)
        requires
            self.wf(),
        ensures
            r == spec_mag_sqd(*self),
            0 <= r,
            in_fx(r as int),
    {
        let r: i64 = self.dot(*self);
        proof {
            crate::fixed::lemma_square_nonneg(self.x as int);
            crate::fixed::lemma_square_nonneg(self.y as int);
            crate::fixed::lemma_square_nonneg(self.z as int);
        }
        r
    }

    /// Magnitude.
    pub fn mag(&self) -> (r: i64)
        requires
            self.wf(),
        ensures
            r == spec_mag(*self),
            0 <= r,
            in_fx(r as int),
    {
        let m2: i64 = self.mag_sqd();
        fx_sqrt(m2)
    }

    /// Unit vector in this direction, or the zero vector if the magnitude
    /// is zero.
    pub fn normalized(&self) -> (r: Vec3)
        requires
            self.wf(),
        ensures
            r == spec_normalized(*self),
            r.wf(),
    {
        let m: i64 = self.mag();
        if m == 0 {
            Vec3 { x: 0, y: 0, z: 0 }
        } else {
            self.div_scalar(m)
        }
    }

    /// Component-wise product.
    pub fn element_mul(&self, other: Vec3) -> (r: Vec3)
        requires
            self.wf(),
            other.wf(),
        ensures
            r == spec_velem(*self, other),
            r.wf(),
    {
        Vec3 {
            x: fx_mul(self.x, other.x),
            y: fx_mul(self.y, other.y),
            z: fx_mul(self.z, other.z),
        }
    }

    /// Component-wise square root, with negative components mapped to zero.
    pub fn sqrt(&self) -> (r: Vec3)
        requires
            self.wf(),
        ensures
            r == spec_vsqrt(*self),
            r.wf(),
    {
        let rx: i64 = if self.x < 0 { 0 } else { fx_sqrt(self.x) };
        let ry: i64 = if self.y < 0 { 0 } else { fx_sqrt(self.y) };
        let rz: i64 = if self.z < 0 { 0 } else { fx_sqrt(self.z) };
        Vec3 { x: rx, y: ry, z: rz }
    }

    /// Refract this vector through the unit normal `normal`; `ior` is the
    /// ratio of the indices of refraction of the two materials.  Total
    /// internal reflection yields the zero vector.
    pub fn refract(&self, normal: Vec3, ior: i64) -> (r: Vec3)
        requires
            self.wf(),
            normal.wf(),
            in_fx(ior as int),
        ensures
            r == spec_refract(*self, normal, ior as int),
            r.wf(),
    {
        let d: i64 = self.dot(normal);
        let k: i64 = fx_sub(FX_ONE, fx_mul(fx_mul(ior, ior), fx_sub(FX_ONE, fx_mul(d, d))));
        if k < 0 {
            Vec3 { x: 0, y: 0, z: 0 }
        } else {
            self.mul_scalar(ior).sub(normal.mul_scalar(fx_add(fx_mul(ior, d), fx_sqrt(k))))
        }
    }

    /// Reflect this vector about the unit normal `normal`.
    pub fn reflect(&self, normal: Vec3) -> (r: Vec3)
        requires
            self.wf(),
            normal.wf(),
        ensures
            r == spec_reflect(*self, normal),
            r.wf(),
    {
        let d: i64 = normal.dot(*self);
        let k: i64 = fx_scale_int(d, 2);
        self.sub(normal.mul_scalar(k))
    }
}

/// Scaling by the fixed-point unit is the identity on well-formed vectors.
pub proof fn lemma_vscale_one(a: Vec3)
    requires
        a.wf(),
    ensures
        spec_vscale(a, FX_ONE as int) == a,
{
    lemma_tdiv_by_one_scale(a.x as int);
    lemma_tdiv_by_one_scale(a.y as int);
    lemma_tdiv_by_one_scale(a.z as int);
}

/// Dividing by the fixed-point unit is the identity on well-formed
/// vectors.
pub proof fn lemma_vdiv_one(a: Vec3)
    requires
        a.wf(),
    ensures
        spec_vdiv(a, FX_ONE as int) == a,
{
    lemma_tdiv_by_one_scale(a.x as int);
    lemma_tdiv_by_one_scale(a.y as int);
    lemma_tdiv_by_one_scale(a.z as int);
}

/// Scaling by zero gives the zero vector.
pub proof fn lemma_vscale_zero(a: Vec3)
    ensures
        spec_vscale(a, 0) == (Vec3 { x: 0, y: 0, z: 0 }),
{
}

/// Adding the zero vector is the identity on well-formed vectors.
pub proof fn lemma_vadd_zero(a: Vec3)
    requires
        a.wf(),
    ensures
        spec_vadd(a, Vec3 { x: 0, y: 0, z: 0 }) == a,
{
}

/// `tdiv(x * FX_ONE, FX_ONE) == x`.
pub proof fn lemma_tdiv_by_one_scale(x: int)
    ensures
        crate::fixed::tdiv(x * FX_ONE, FX_ONE as int) == x,
{
    if x >= 0 {
        vstd::arithmetic::div_mod::lemma_div_multiples_vanish(x, FX_ONE as int);
        assert(crate::fixed::iabs(x * FX_ONE) == FX_ONE as int * x) by (nonlinear_arith)
            requires x >= 0 && FX_ONE == 65536;
    } else {
        vstd::arithmetic::div_mod::lemma_div_multiples_vanish(-x, FX_ONE as int);
        assert(crate::fixed::iabs(x * FX_ONE) == FX_ONE as int * (-x)) by (nonlinear_arith)
            requires x < 0 && FX_ONE == 65536;
    }
}

} // verus!
