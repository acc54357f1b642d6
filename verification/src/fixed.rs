//! Saturating fixed-point scalar arithmetic.
//!
//! A scalar is an `i64` holding a real number scaled by `FX_ONE` (16
//! fractional bits).  Every operation truncates its quotient toward zero and
//! saturates its result into `[-FX_LIM, FX_LIM]`, so all operations are total
//! on well-formed scalars and no intermediate computation can overflow.

use vstd::prelude::*;

verus! {

/// The fixed-point representation of 1.0.
pub const FX_ONE: i64 = 65536;

/// Magnitude bound for well-formed scalars: 2^46.
pub const FX_LIM: i64 = 70368744177664;

/// Absolute value over the mathematical integers.
pub open spec fn iabs(a: int) -> int {
    if a < 0 {
        -a
    } else {
        a
    }
}

/// Division truncated toward zero, the rounding used by every scalar
/// operation here.
pub open spec fn tdiv(a: int, b: int) -> int {
    if (a < 0) == (b < 0) {
        iabs(a) / iabs(b)
    } else {
        -(iabs(a) / iabs(b))
    }
}

/// A scalar is well formed when it lies within the saturation range.
pub open spec fn in_fx(a: int) -> bool {
    -FX_LIM <= a <= FX_LIM
}

/// Clamp into the saturation range.
pub open spec fn spec_sat(a: int) -> int {
    if a > FX_LIM {
        FX_LIM as int
    } else if a < -FX_LIM {
        -FX_LIM as int
    } else {
        a
    }
}

/// The value of a fixed-point product.
pub open spec fn spec_mul(a: int, b: int) -> int {
    spec_sat(tdiv(a * b, FX_ONE as int))
}

/// The value of a fixed-point quotient (callers keep `b != 0`).
pub open spec fn spec_div(a: int, b: int) -> int {
    spec_sat(tdiv(a * FX_ONE, b))
}

/// Minimum of two integers.
pub open spec fn imin(a: int, b: int) -> int {
    if a <= b {
        a
    } else {
        b
    }
}

/// Maximum of two integers.
pub open spec fn imax(a: int, b: int) -> int {
    if a >= b {
        a
    } else {
        b
    }
}

/// The value of clamping `a` into `[lo, hi]`.
pub open spec fn spec_clamp(a: int, lo: int, hi: int) -> int {
    if a < lo {
        lo
    } else if a > hi {
        hi
    } else {
        a
    }
}

/// Floor of the square root, defined by counting up.
pub open spec fn sqrt_floor(n: int) -> int
    decreases n,
    when n >= 0
{
    if n <= 0 {
        0
    } else {
        let p = sqrt_floor(n - 1);
        if (p + 1) * (p + 1) <= n {
            p + 1
        } else {
            p
        }
    }
}

/// The value of the fixed-point square root of a non-negative scalar.
pub open spec fn spec_fx_sqrt(a: int) -> int {
    if a <= 0 {
        0
    } else {
        sqrt_floor(a * FX_ONE)
    }
}

/// The value of the fixed-point power with a plain integer exponent.
pub open spec fn spec_powi(b: int, e: nat) -> int
    decreases e,
{
    if e == 0 {
        FX_ONE as int
    } else {
        spec_mul(spec_powi(b, (e - 1) as nat), b)
    }
}

/// The cubic smoothstep 3x^2 - 2x^3 on the argument clamped into [0, 1],
/// evaluated with a single truncating division.
pub open spec fn spec_smoothstep(x: int) -> int {
    let xc = spec_clamp(x, 0, FX_ONE as int);
    tdiv(xc * xc * (3 * FX_ONE - 2 * xc), FX_ONE as int * FX_ONE as int)
}

/// `sqrt_floor(n)` is the greatest integer whose square is at most `n`.
pub proof fn lemma_sqrt_floor(n: int)
    requires
        n >= 0,
    ensures
        sqrt_floor(n) >= 0,
        sqrt_floor(n) * sqrt_floor(n) <= n,
        (sqrt_floor(n) + 1) * (sqrt_floor(n) + 1) > n,
    decreases n,
{
    if n > 0 {
        lemma_sqrt_floor(n - 1);
        let p = sqrt_floor(n - 1);
        if (p + 1) * (p + 1) <= n {
            assert((p + 2) * (p + 2) > (p + 1) * (p + 1)) by (nonlinear_arith)
                requires p >= 0;
        }
    }
}

/// Any integer with the floor-square-root property equals `sqrt_floor(n)`.
pub proof fn lemma_sqrt_unique(n: int, r: int)
    requires
        n >= 0,
        r >= 0,
        r * r <= n,
        (r + 1) * (r + 1) > n,
    ensures
        r == sqrt_floor(n),
{
    lemma_sqrt_floor(n);
    let s = sqrt_floor(n);
    assert(r == s) by (nonlinear_arith)
        requires
            r >= 0,
            s >= 0,
            r * r <= n,
            (r + 1) * (r + 1) > n,
            s * s <= n,
            (s + 1) * (s + 1) > n;
}

/// Truncating division is monotone in the numerator, for positive divisors.
pub proof fn lemma_tdiv_monotone(a1: int, a2: int, b: int)
    requires
        b > 0,
        a1 <= a2,
    ensures
        tdiv(a1, b) <= tdiv(a2, b),
{
    let q1 = tdiv(a1, b);
    let q2 = tdiv(a2, b);
    assert(b * q1 - b < a1 && (a1 >= 0 ==> b * q1 <= a1) && (a1 < 0 ==> b * q1 >= a1))
        by (nonlinear_arith)
        requires b > 0 && q1 == tdiv(a1, b);
    assert(b * q2 + b > a2 && (a2 >= 0 ==> b * q2 <= a2) && (a2 < 0 ==> b * q2 >= a2))
        by (nonlinear_arith)
        requires b > 0 && q2 == tdiv(a2, b);
    assert(q1 <= q2) by (nonlinear_arith)
        requires
            b > 0,
            a1 <= a2,
            b * q1 - b < a1,
            a1 >= 0 ==> b * q1 <= a1,
            a1 < 0 ==> b * q1 >= a1,
            b * q2 + b > a2,
            a2 >= 0 ==> b * q2 <= a2,
            a2 < 0 ==> b * q2 >= a2;
}

/// A fixed-point square is non-negative.
pub proof fn lemma_square_nonneg(a: int)
    ensures
        spec_mul(a, a) >= 0,
{
    assert(a * a >= 0) by (nonlinear_arith);
}

fn sat128(a: i128) -> (r: i64)
    ensures
        r == spec_sat(a as int),
        in_fx(r as int),
{
    if a > FX_LIM as i128 {
        FX_LIM
    } else if a < -(FX_LIM as i128) {
        -FX_LIM
    } else {
        a as i64
    }
}

fn tdiv128(a: i128, b: i128) -> (r: i128)
    requires
        b != 0,
        a > i128::MIN,
        b > i128::MIN,
    ensures
        r == tdiv(a as int, b as int),
        iabs(r as int) <= iabs(a as int),
{
    let ua: u128 = if a < 0 {
        (-a) as u128
    } else {
        a as u128
    };
    let ub: u128 = if b < 0 {
        (-b) as u128
    } else {
        b as u128
    };
    let q: u128 = ua / ub;
    assert(q <= ua) by {
        assert(ua as int / ub as int <= ua as int) by (nonlinear_arith)
            requires ub >= 1 && ua >= 0;
    }
    if (a < 0) != (b < 0) {
        -(q as i128)
    } else {
        q as i128
    }
}

/// Saturating fixed-point addition.
pub fn fx_add(a: i64, b: i64) -> (r: i64)
    requires
        in_fx(a as int),
        in_fx(b as int),
    ensures
        r == spec_sat(a + b),
        in_fx(r as int),
{
    sat128(a as i128 + b as i128)
}

/// Saturating fixed-point subtraction.
pub fn fx_sub(a: i64, b: i64) -> (r: i64)
    requires
        in_fx(a as int),
        in_fx(b as int),
    ensures
        r == spec_sat(a - b),
        in_fx(r as int),
{
    sat128(a as i128 - b as i128)
}

/// Fixed-point negation.
pub fn fx_neg(a: i64) -> (r: i64)
    requires
        in_fx(a as int),
    ensures
        r == -a,
        in_fx(r as int),
{
    -a
}

/// Fixed-point absolute value.
pub fn fx_abs(a: i64) -> (r: i64)
    requires
        in_fx(a as int),
    ensures
        r == iabs(a as int),
        in_fx(r as int),
{
    if a < 0 {
        -a
    } else {
        a
    }
}

/// Minimum of two scalars.
pub fn fx_min(a: i64, b: i64) -> (r: i64)
    ensures
        r == if a <= b { a } else { b },
{
    if a <= b {
        a
    } else {
        b
    }
}

/// Maximum of two scalars.
pub fn fx_max(a: i64, b: i64) -> (r: i64)
    ensures
        r == if a >= b { a } else { b },
{
    if a >= b {
        a
    } else {
        b
    }
}

/// Clamp a scalar into `[lo, hi]`.
pub fn fx_clamp(a: i64, lo: i64, hi: i64) -> (r: i64)
    requires
        lo <= hi,
    ensures
        r == spec_clamp(a as int, lo as int, hi as int),
{
    if a < lo {
        lo
    } else if a > hi {
        hi
    } else {
        a
    }
}

/// Saturating fixed-point multiplication.
pub fn fx_mul(a: i64, b: i64) -> (r: i64)
    requires
        in_fx(a as int),
        in_fx(b as int),
    ensures
        r == spec_mul(a as int, b as int),
        in_fx(r as int),
{
    assert(iabs(a as int * b as int) <= FX_LIM as int * FX_LIM as int) by (nonlinear_arith)
        requires in_fx(a as int) && in_fx(b as int);
    let p: i128 = a as i128 * b as i128;
    let q: i128 = tdiv128(p, FX_ONE as i128);
    sat128(q)
}

/// Saturating fixed-point division; the caller keeps the divisor non-zero.
pub fn fx_div(a: i64, b: i64) -> (r: i64)
    requires
        in_fx(a as int),
        in_fx(b as int),
        b != 0,
    ensures
        r == spec_div(a as int, b as int),
        in_fx(r as int),
{
    let p: i128 = a as i128 * FX_ONE as i128;
    let q: i128 = tdiv128(p, b as i128);
    sat128(q)
}

/// Saturating product of a scalar with a small plain integer.
pub fn fx_scale_int(a: i64, k: i64) -> (r: i64)
    requires
        in_fx(a as int),
        -65536 <= k <= 65536,
    ensures
        r == spec_sat(a * k),
        in_fx(r as int),
{
    assert(iabs(a as int * k as int) <= FX_LIM as int * 65536) by (nonlinear_arith)
        requires in_fx(a as int) && -65536 <= k as int <= 65536;
    let p: i128 = a as i128 * k as i128;
    sat128(p)
}

/// Integer part of a scalar, rounded toward negative infinity.
pub fn fx_floor(a: i64) -> (r: i64)
    requires
        in_fx(a as int),
    ensures
        r == a as int / FX_ONE as int,
{
    if a >= 0 {
        let q: u64 = a as u64 / FX_ONE as u64;
        q as i64
    } else {
        let m: u64 = (-a) as u64;
        let q: u64 = (m + 65535) / FX_ONE as u64;
        proof {
            let d: int = FX_ONE as int;
            let qq = q as int;
            let mm = m as int;
            assert(qq == (mm + 65535) / d);
            assert(d * qq <= mm + d - 1 < d * qq + d) by (nonlinear_arith)
                requires d == 65536 && qq == (mm + 65535) / d && mm >= 0;
            assert(a as int == d * (-qq) + (d * qq - mm));
            assert(0 <= d * qq - mm < d);
            assert(a as int / d == -qq) by (nonlinear_arith)
                requires
                    d == 65536,
                    a as int == d * (-qq) + (d * qq - mm),
                    0 <= d * qq - mm < d;
        }
        -(q as i64)
    }
}

fn isqrt_u64(n: u64) -> (r: u64)
    requires
        n <= 0x4000000000000000,
    ensures
        r * r <= n,
        (r + 1) * (r + 1) > n,
{
    let mut lo: u64 = 0;
    let mut hi: u64 = 2147483648;
    assert((hi + 1) * (hi + 1) > n) by (nonlinear_arith)
        requires hi == 2147483648u64 && n <= 0x4000000000000000;
    while lo < hi
        invariant
            lo <= hi,
            hi <= 2147483648,
            lo * lo <= n,
            (hi + 1) * (hi + 1) > n,
        decreases hi - lo,
    {
        let mid: u64 = lo + (hi - lo + 1) / 2;
        assert(lo < mid <= hi);
        assert(mid as int * mid as int <= 0x4000000000000000 + 0x100000001) by (nonlinear_arith)
            requires mid as int <= 2147483649;
        if mid * mid <= n {
            lo = mid;
        } else {
            hi = mid - 1;
        }
    }
    lo
}

/// Fixed-point square root of a non-negative scalar.
pub fn fx_sqrt(a: i64) -> (r: i64)
    requires
        0 <= a,
        in_fx(a as int),
    ensures
        r == spec_fx_sqrt(a as int),
        0 <= r <= a + FX_ONE,
        in_fx(r as int),
{
    if a == 0 {
        0
    } else {
        assert(a as int * FX_ONE as int <= 0x4000000000000000) by (nonlinear_arith)
            requires 1 <= a as int <= FX_LIM as int && FX_ONE == 65536;
        let n: u64 = a as u64 * FX_ONE as u64;
        let s: u64 = isqrt_u64(n);
        proof {
            lemma_sqrt_unique(n as int, s as int);
            assert(s as int * s as int <= n as int);
            assert(n as int == a as int * FX_ONE as int);
            assert(s as int <= 2147483648) by (nonlinear_arith)
                requires
                    s as int * s as int <= 0x4000000000000000,
                    s as int >= 0;
            assert(s as int <= a as int + FX_ONE as int) by (nonlinear_arith)
                requires
                    s as int * s as int <= a as int * 65536,
                    FX_ONE == 65536,
                    a as int >= 1,
                    s as int >= 0;
        }
        s as i64
    }
}

/// Fixed-point power with a plain integer exponent.
pub fn fx_powi(b: i64, e: u32) -> (r: i64)
    requires
        in_fx(b as int),
    ensures
        r == spec_powi(b as int, e as nat),
        in_fx(r as int),
{
    let mut result: i64 = FX_ONE;
    let mut i: u32 = 0;
    while i < e
        invariant
            0 <= i <= e,
            in_fx(b as int),
            in_fx(result as int),
            result == spec_powi(b as int, i as nat),
        decreases e - i,
    {
        result = fx_mul(result, b);
        i = i + 1;
    }
    result
}

/// The cubic smoothstep used by the soft-shadow penumbra estimate.
pub fn fx_smoothstep(x: i64) -> (r: i64)
    requires
        in_fx(x as int),
    ensures
        r == spec_smoothstep(x as int),
        0 <= r <= FX_ONE,
{
    let xc: i64 = fx_clamp(x, 0, FX_ONE);
    proof {
        assert(0 <= xc as int * xc as int * (3 * FX_ONE - 2 * xc as int)
            <= FX_ONE as int * FX_ONE as int * FX_ONE as int) by (nonlinear_arith)
            requires 0 <= xc as int <= FX_ONE as int && FX_ONE == 65536;
        assert(0 <= xc as int * xc as int <= FX_ONE as int * FX_ONE as int) by (nonlinear_arith)
            requires 0 <= xc as int <= FX_ONE as int;
    }
    let n: i128 = xc as i128 * xc as i128 * (3 * FX_ONE - 2 * xc) as i128;
    let q: i128 = tdiv128(n, FX_ONE as i128 * FX_ONE as i128);
    proof {
        let nn = xc as int * xc as int * (3 * FX_ONE - 2 * xc as int);
        let dd = FX_ONE as int * FX_ONE as int;
        assert(q == nn / dd);
        assert(nn / dd <= FX_ONE as int && nn / dd >= 0) by (nonlinear_arith)
            requires 0 <= nn <= dd * FX_ONE as int && dd > 0;
    }
    q as i64
}

/// The smoothstep factor never decreases when its argument grows: the
/// penumbra estimate darkens only as the occluder distance shrinks.
pub proof fn lemma_smoothstep_monotone(x1: int, x2: int)
    requires
        x1 <= x2,
    ensures
        spec_smoothstep(x1) <= spec_smoothstep(x2),
{
    let s = FX_ONE as int;
    let a = spec_clamp(x1, 0, s);
    let b = spec_clamp(x2, 0, s);
    assert(0 <= a <= b <= s);
    assert(a * a * (3 * s - 2 * a) <= b * b * (3 * s - 2 * b)) by (nonlinear_arith)
        requires 0 <= a <= b <= s;
    lemma_tdiv_monotone(a * a * (3 * s - 2 * a), b * b * (3 * s - 2 * b), s * s);
}

} // verus!
