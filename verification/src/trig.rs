//! Fixed-point trigonometric approximations, used only by the spherical
//! lightmap parameterization and the camera rotation helpers.
//!
//! `sin` uses the Bhaskara I rational approximation on a half period;
//! `atan2` uses a cubic polynomial on the unit interval with octant
//! reduction; `asin` combines the two.  The contracts state the exact value
//! of each approximating formula.

use vstd::prelude::*;

use crate::fixed::{
    fx_add, fx_clamp, fx_div, fx_mul, fx_scale_int, fx_sqrt, fx_sub, iabs, in_fx, spec_clamp,
    spec_div, spec_fx_sqrt, spec_mul, spec_sat, FX_ONE,
};

verus! {

/// Pi in fixed point.
pub const PI_FX: i64 = 205887;

/// Two pi in fixed point.
pub const TAU_FX: i64 = 411774;

/// Half pi in fixed point.
pub const HALF_PI_FX: i64 = 102943;

/// Pi over four in fixed point.
pub const QUARTER_PI_FX: i64 = 51472;

/// `0.2447`, first arctangent polynomial coefficient.
pub const ATAN_C1: i64 = 16037;

/// `0.0663`, second arctangent polynomial coefficient.
pub const ATAN_C2: i64 = 4345;

/// The angle congruent to `x` modulo a full turn, in `(-PI_FX, PI_FX]`.
pub open spec fn spec_angle_norm(x: int) -> int {
    let m = x % (TAU_FX as int);
    if m > PI_FX {
        m - TAU_FX
    } else {
        m
    }
}

/// Bhaskara's sine approximation `16*x*(pi - x) / (5*pi^2 - 4*x*(pi - x))`
/// on `[0, PI_FX]`.
pub open spec fn spec_sin_half(x: int) -> int {
    let a = spec_mul(x, spec_sat(PI_FX - x));
    let num = spec_sat(a * 16);
    let den = spec_sat(spec_sat(spec_mul(PI_FX as int, PI_FX as int) * 5) - spec_sat(a * 4));
    if den == 0 {
        0
    } else {
        spec_div(num, den)
    }
}

/// The sine approximation on the normalized angle, odd-extended to the
/// negative half period.
pub open spec fn spec_sin(x: int) -> int {
    let m = spec_angle_norm(x);
    if m >= 0 {
        spec_sin_half(m)
    } else {
        -spec_sin_half(-m)
    }
}

/// The cosine approximation, `sin(x + pi/2)`.
pub open spec fn spec_cos(x: int) -> int {
    spec_sin(spec_sat(x + HALF_PI_FX))
}

/// The cubic arctangent approximation
/// `(pi/4)*z + z*(1 - z)*(0.2447 + 0.0663*z)` on `[0, 1]`.
pub open spec fn spec_atan_unit(z: int) -> int {
    spec_sat(
        spec_mul(QUARTER_PI_FX as int, z) + spec_mul(
            spec_mul(z, spec_sat(FX_ONE - z)),
            spec_sat(ATAN_C1 + spec_mul(ATAN_C2 as int, z)),
        ),
    )
}

/// Four-quadrant arctangent approximation; zero at the origin.
pub open spec fn spec_atan2(y: int, x: int) -> int {
    if x == 0 && y == 0 {
        0
    } else {
        let ax = iabs(x);
        let ay = iabs(y);
        let base = if ay <= ax {
            spec_atan_unit(spec_div(ay, ax))
        } else {
            spec_sat(HALF_PI_FX - spec_atan_unit(spec_div(ax, ay)))
        };
        if x >= 0 {
            if y >= 0 {
                base
            } else {
                -base
            }
        } else {
            if y >= 0 {
                spec_sat(PI_FX - base)
            } else {
                spec_sat(-(PI_FX - base))
            }
        }
    }
}

/// Arcsine approximation on the clamped argument,
/// `atan2(z, sqrt(1 - z^2))`.
pub open spec fn spec_asin(z: int) -> int {
    let zc = spec_clamp(z, -FX_ONE as int, FX_ONE as int);
    let s = spec_fx_sqrt(spec_sat(FX_ONE - spec_mul(zc, zc)));
    spec_atan2(zc, s)
}

/// Reduce an angle into `(-PI_FX, PI_FX]`.
pub fn angle_norm(x: i64) -> (r: i64)
    requires
        in_fx(x as int),
    ensures
        r == spec_angle_norm(x as int),
        -PI_FX <= r <= PI_FX,
{
    let m: i64 = if x >= 0 {
        (x as u64 % TAU_FX as u64) as i64
    } else {
        let n: u64 = (-x) as u64;
        let rm: u64 = n % TAU_FX as u64;
        if rm == 0 {
            0
        } else {
            (TAU_FX as u64 - rm) as i64
        }
    };
    proof {
        let t: int = TAU_FX as int;
        if x < 0 {
            let n: int = -(x as int);
            let rm: int = n % t;
            vstd::arithmetic::div_mod::lemma_fundamental_div_mod(n, t);
            vstd::arithmetic::div_mod::lemma_fundamental_div_mod(x as int, t);
            let q: int = n / t;
            if rm == 0 {
                assert(x as int == t * (-q) + 0);
                assert(x as int % t == 0) by (nonlinear_arith)
                    requires
                        t > 0,
                        x as int == t * (-q),
                        x as int == t * ((x as int) / t) + (x as int) % t,
                        0 <= (x as int) % t < t;
            } else {
                assert(x as int == t * (-q - 1) + (t - rm));
                assert(x as int % t == t - rm) by (nonlinear_arith)
                    requires
                        t > 0,
                        0 < t - rm < t,
                        x as int == t * (-q - 1) + (t - rm),
                        x as int == t * ((x as int) / t) + (x as int) % t,
                        0 <= (x as int) % t < t;
            }
        }
        assert(m == (x as int) % t);
    }
    if m > PI_FX {
        m - TAU_FX
    } else {
        m
    }
}

fn sin_half(x: i64) -> (r: i64)
    requires
        0 <= x <= PI_FX,
    ensures
        r == spec_sin_half(x as int),
        in_fx(r as int),
{
    let a: i64 = fx_mul(x, fx_sub(PI_FX, x));
    let num: i64 = fx_scale_int(a, 16);
    let den: i64 = fx_sub(fx_scale_int(fx_mul(PI_FX, PI_FX), 5), fx_scale_int(a, 4));
    if den == 0 {
        0
    } else {
        fx_div(num, den)
    }
}

/// Fixed-point sine approximation.
pub fn fx_sin(x: i64) -> (r: i64)
    requires
        in_fx(x as int),
    ensures
        r == spec_sin(x as int),
        in_fx(r as int),
{
    let m: i64 = angle_norm(x);
    if m >= 0 {
        sin_half(m)
    } else {
        -sin_half(-m)
    }
}

/// Fixed-point cosine approximation.
pub fn fx_cos(x: i64) -> (r: i64)
    requires
        in_fx(x as int),
    ensures
        r == spec_cos(x as int),
        in_fx(r as int),
{
    fx_sin(fx_add(x, HALF_PI_FX))
}

fn atan_unit(z: i64) -> (r: i64)
    requires
        0 <= z <= FX_ONE,
    ensures
        r == spec_atan_unit(z as int),
        in_fx(r as int),
{
    fx_add(
        fx_mul(QUARTER_PI_FX, z),
        fx_mul(fx_mul(z, fx_sub(FX_ONE, z)), fx_add(ATAN_C1, fx_mul(ATAN_C2, z))),
    )
}

/// Fixed-point four-quadrant arctangent approximation.
pub fn fx_atan2(y: i64, x: i64) -> (r: i64)
    requires
        in_fx(x as int),
        in_fx(y as int),
    ensures
        r == spec_atan2(y as int, x as int),
        in_fx(r as int),
{
    if x == 0 && y == 0 {
        return 0;
    }
    let ax: i64 = if x < 0 {
        -x
    } else {
        x
    };
    let ay: i64 = if y < 0 {
        -y
    } else {
        y
    };
    let base: i64 = if ay <= ax {
        let q: i64 = fx_div(ay, ax);
        proof {
            crate::fixed::lemma_tdiv_monotone(ay as int * FX_ONE, ax as int * FX_ONE, ax as int);
            assert(crate::fixed::tdiv(ax as int * FX_ONE, ax as int) == FX_ONE)
                by (nonlinear_arith)
                requires ax > 0 && FX_ONE == 65536;
            assert(0 <= spec_div(ay as int, ax as int) <= FX_ONE);
        }
        atan_unit(q)
    } else {
        let q: i64 = fx_div(ax, ay);
        proof {
            crate::fixed::lemma_tdiv_monotone(ax as int * FX_ONE, ay as int * FX_ONE, ay as int);
            assert(crate::fixed::tdiv(ay as int * FX_ONE, ay as int) == FX_ONE)
                by (nonlinear_arith)
                requires ay > 0 && FX_ONE == 65536;
            assert(0 <= spec_div(ax as int, ay as int) <= FX_ONE);
        }
        fx_sub(HALF_PI_FX, atan_unit(q))
    };
    if x >= 0 {
        if y >= 0 {
            base
        } else {
            -base
        }
    } else {
        if y >= 0 {
            fx_sub(PI_FX, base)
        } else {
            -fx_sub(PI_FX, base)
        }
    }
}

/// Fixed-point arcsine approximation on the clamped argument.
pub fn fx_asin(z: i64) -> (r: i64)
    requires
        in_fx(z as int),
    ensures
        r == spec_asin(z as int),
        in_fx(r as int),
{
    let zc: i64 = fx_clamp(z, -FX_ONE, FX_ONE);
    let m: i64 = fx_mul(zc, zc);
    proof {
        assert(zc as int * zc as int <= FX_ONE as int * FX_ONE as int) by (nonlinear_arith)
            requires -FX_ONE as int <= zc as int <= FX_ONE as int;
        assert(zc as int * zc as int >= 0) by (nonlinear_arith);
        crate::fixed::lemma_tdiv_monotone(
            zc as int * zc as int,
            FX_ONE as int * FX_ONE as int,
            FX_ONE as int,
        );
        assert(crate::fixed::tdiv(FX_ONE as int * FX_ONE as int, FX_ONE as int) == FX_ONE)
            by (nonlinear_arith)
            requires FX_ONE == 65536;
        assert(0 <= m <= FX_ONE);
    }
    let s: i64 = fx_sqrt(fx_sub(FX_ONE, m));
    fx_atan2(zc, s)
}

} // verus!
