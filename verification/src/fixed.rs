//! Fixed-point scalar helpers: truncated division, clamping, integer
//! square root, and angle wrapping, with exact contracts.

use vstd::prelude::*;

verus! {

/// Quotient of `a / b` truncated toward zero (the rounding the
/// dynamics formulas use), for a positive divisor.
pub open spec fn qz(a: int, b: int) -> int {
    if a >= 0 {
        a / b
    } else {
        -((-a) / b)
    }
}

/// `x` clamped to the closed interval `[lo, hi]`.
pub open spec fn clamp(x: int, lo: int, hi: int) -> int {
    if x < lo {
        lo
    } else if x > hi {
        hi
    } else {
        x
    }
}

/// The smaller of two values.
pub open spec fn min_i(a: int, b: int) -> int {
    if a < b {
        a
    } else {
        b
    }
}

/// The larger of two values.
pub open spec fn max_i(a: int, b: int) -> int {
    if a > b {
        a
    } else {
        b
    }
}

/// Absolute value.
pub open spec fn abs_i(a: int) -> int {
    if a >= 0 {
        a
    } else {
        -a
    }
}

/// A product is bounded by the product of the factors' bounds.
pub proof fn lemma_mul_bound(a: int, b: int, ba: int, bb: int)
    requires
        abs_i(a) <= ba,
        abs_i(b) <= bb,
    ensures
        abs_i(a * b) <= ba * bb,
{
    assert(abs_i(a * b) <= ba * bb) by (nonlinear_arith)
        requires
            abs_i(a) <= ba,
            abs_i(b) <= bb,
    ;
}

/// A truncated quotient never exceeds the dividend's magnitude, and
/// divides it down by the divisor.
pub proof fn lemma_qz_bound(a: int, b: int, ba: int)
    requires
        b > 0,
        abs_i(a) <= ba,
    ensures
        abs_i(qz(a, b)) <= ba / b,
        abs_i(qz(a, b)) <= ba,
        a >= 0 ==> qz(a, b) >= 0,
        a <= 0 ==> qz(a, b) <= 0,
{
    let m = if a >= 0 { a } else { -a };
    vstd::arithmetic::div_mod::lemma_div_pos_is_pos(m, b);
    vstd::arithmetic::div_mod::lemma_div_is_ordered(m, ba, b);
    vstd::arithmetic::div_mod::lemma_fundamental_div_mod(m, b);
    vstd::arithmetic::div_mod::lemma_mod_bound(m, b);
    assert(b * (m / b) <= m);
    if m / b > m {
        assert(b * (m / b) >= m / b) by (nonlinear_arith)
            requires
                b >= 1,
                m / b >= 0,
        ;
    }
    vstd::arithmetic::div_mod::lemma_div_is_ordered(ba, ba, b);
}

/// Dividing an exact multiple truncates to the factor, whatever its
/// sign.
pub proof fn lemma_qz_multiple(k: int, m: int)
    requires
        m > 0,
    ensures
        qz(k * m, m) == k,
{
    if k >= 0 {
        vstd::arithmetic::div_mod::lemma_div_multiples_vanish(k, m);
        assert(k * m == m * k) by (nonlinear_arith);
    } else {
        vstd::arithmetic::div_mod::lemma_div_multiples_vanish(-k, m);
        assert(-(k * m) == m * (-k)) by (nonlinear_arith);
        assert(k * m < 0) by (nonlinear_arith)
            requires
                k < 0,
                m > 0,
        ;
    }
}

/// Integer square root: the largest `r` with `r * r <= n` (0 for
/// non-positive `n`).
pub open spec fn isqrt_spec(n: int) -> int
    decreases n,
{
    if n <= 0 {
        0
    } else {
        let p = isqrt_spec(n - 1);
        if (p + 1) * (p + 1) <= n {
            p + 1
        } else {
            p
        }
    }
}

pub proof fn lemma_isqrt_bounds(n: int)
    requires
        n >= 0,
    ensures
        isqrt_spec(n) >= 0,
        isqrt_spec(n) * isqrt_spec(n) <= n,
        n < (isqrt_spec(n) + 1) * (isqrt_spec(n) + 1),
    decreases n,
{
    if n > 0 {
        lemma_isqrt_bounds(n - 1);
        let p = isqrt_spec(n - 1);
        if (p + 1) * (p + 1) <= n {
            assert(n <= (p + 1) * (p + 1));
            assert((p + 1) * (p + 1) < (p + 2) * (p + 2)) by (nonlinear_arith)
                requires
                    p >= 0,
            ;
        }
    }
}

pub proof fn lemma_isqrt_unique(n: int, r: int)
    requires
        n >= 0,
        r >= 0,
        r * r <= n,
        n < (r + 1) * (r + 1),
    ensures
        r == isqrt_spec(n),
{
    lemma_isqrt_bounds(n);
    let s = isqrt_spec(n);
    if r < s {
        assert((r + 1) * (r + 1) <= s * s) by (nonlinear_arith)
            requires
                0 <= r,
                r + 1 <= s,
        ;
    }
    if s < r {
        assert((s + 1) * (s + 1) <= r * r) by (nonlinear_arith)
            requires
                0 <= s,
                s + 1 <= r,
        ;
    }
}

/// Multiplies, then divides by a positive scale, truncating toward
/// zero.
pub fn muldiv(a: i64, b: i64, d: i64) -> (r: i64)
    requires
        d > 0,
        abs_i(a as int * b as int) <= i64::MAX,
    ensures
        r == qz(a as int * b as int, d as int),
{
    let p = a * b;
    if p >= 0 {
        p / d
    } else {
        -((-p) / d)
    }
}

/// Truncated division on `i64`, matching `qz`.
pub fn div_tz(a: i64, b: i64) -> (r: i64)
    requires
        b > 0,
        a > i64::MIN,
    ensures
        r == qz(a as int, b as int),
{
    a / b
}

/// `x` clamped to `[lo, hi]`, executable form.
pub fn clamp_i64(x: i64, lo: i64, hi: i64) -> (r: i64)
    requires
        lo <= hi,
    ensures
        r == clamp(x as int, lo as int, hi as int),
{
    if x < lo {
        lo
    } else if x > hi {
        hi
    } else {
        x
    }
}

/// Integer square root of `n`, by bisection.
pub fn isqrt64(n: i64) -> (r: i64)
    requires
        0 <= n <= 9_000_000_000_000i64,
    ensures
        r == isqrt_spec(n as int),
        0 <= r <= 3_000_000,
        r * r <= n < (r + 1) * (r + 1),
{
    let mut lo: i64 = 0;
    let mut hi: i64 = 3_000_001;
    assert(hi * hi > n);
    while lo + 1 < hi
        invariant
            0 <= lo < hi <= 3_000_001,
            lo * lo <= n,
            n < hi * hi,
        decreases hi - lo,
    {
        let mid: i64 = lo + (hi - lo) / 2;
        assert(lo < mid < hi);
        assert(mid * mid <= 3_000_001i64 * 3_000_001i64) by (nonlinear_arith)
            requires
                0 <= mid <= 3_000_001i64,
        ;
        if mid * mid <= n {
            lo = mid;
        } else {
            hi = mid;
        }
    }
    proof {
        lemma_isqrt_unique(n as int, lo as int);
    }
    lo
}

/// Angle units per full revolution; chosen so that every per-frame
/// steering rate the model uses is a whole number of units.
pub const FULL_TURN: i64 = 60000;

/// Half a revolution in angle units.
pub const HALF_TURN: i64 = 30000;

/// A quarter revolution in angle units.
pub const QUARTER_TURN: i64 = 15000;

/// An angle reduced onto `[0, FULL_TURN)`.
pub open spec fn wrap_spec(a: int) -> int {
    a % (FULL_TURN as int)
}

/// Wraps an angle in angle units onto `[0, FULL_TURN)`.
pub fn wrap_angle(a: i64) -> (r: i64)
    requires
        i64::MIN / 2 < a < i64::MAX / 2,
    ensures
        r == wrap_spec(a as int),
        0 <= r < FULL_TURN,
{
    let q = div_tz(a, FULL_TURN);
    let r0 = a - q * FULL_TURN;
    proof {
        if a >= 0 {
            vstd::arithmetic::div_mod::lemma_fundamental_div_mod(a as int, FULL_TURN as int);
            vstd::arithmetic::div_mod::lemma_mod_bound(a as int, FULL_TURN as int);
        } else {
            let na = -(a as int);
            vstd::arithmetic::div_mod::lemma_fundamental_div_mod(na, FULL_TURN as int);
            vstd::arithmetic::div_mod::lemma_fundamental_div_mod(a as int, FULL_TURN as int);
            vstd::arithmetic::div_mod::lemma_mod_bound(na, FULL_TURN as int);
            vstd::arithmetic::div_mod::lemma_mod_bound(a as int, FULL_TURN as int);
        }
    }
    if r0 < 0 {
        r0 + FULL_TURN
    } else {
        r0
    }
}

} // verus!
