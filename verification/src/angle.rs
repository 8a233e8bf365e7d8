//! Angles and headings on a fixed-point grid.
//!
//! Angles are measured in units of 1/60000 of a revolution, so the
//! per-frame steering rates of the model are whole numbers of units.
//! The sine is a rational half-wave approximation evaluated exactly in
//! integers; its value is scaled by 1000.

use vstd::prelude::*;
use crate::fixed::{qz, wrap_spec, div_tz, wrap_angle, FULL_TURN, HALF_TURN, QUARTER_TURN};

verus! {

/// A 2-D vector of fixed-point scalars.
#[derive(Clone, Copy, Debug, PartialEq, Eq, Structural)]
pub struct Vec2 {
    pub x: i64,
    pub y: i64,
}

/// Sine over the first half revolution (`0 <= u <= HALF_TURN`),
/// scaled by 1000: a rational approximation that is exactly 0 at the
/// ends and exactly 1000 at the quarter turn.
pub open spec fn half_sine(u: int) -> int {
    let p = u * (30000 - u);
    qz(16000 * p, 4_500_000_000 - 4 * p)
}

/// Sine of an angle in `[0, FULL_TURN)`, scaled by 1000.
pub open spec fn sin_spec(u: int) -> int {
    if u <= 30000 {
        half_sine(u)
    } else {
        -half_sine(u - 30000)
    }
}

/// Cosine of an angle in `[0, FULL_TURN)`, scaled by 1000.
pub open spec fn cos_spec(u: int) -> int {
    sin_spec(wrap_spec(u + 15000))
}

/// The unit heading vector of an angle, both components scaled by 1000.
pub open spec fn dir_spec(u: int) -> (int, int) {
    (cos_spec(u), sin_spec(u))
}

pub proof fn lemma_half_sine_range(u: int)
    requires
        0 <= u <= 30000,
    ensures
        0 <= half_sine(u) <= 1000,
{
    let p = u * (30000 - u);
    assert(0 <= p <= 225_000_000) by (nonlinear_arith)
        requires
            0 <= u <= 30000,
            p == u * (30000 - u),
    ;
    let num = 16000 * p;
    let den = 4_500_000_000 - 4 * p;
    assert(den >= 3_600_000_000);
    assert(num <= 1000 * den);
    vstd::arithmetic::div_mod::lemma_fundamental_div_mod(num, den);
    let q = num / den;
    let r = num % den;
    vstd::arithmetic::div_mod::lemma_mod_bound(num, den);
    assert(den * q <= num);
    if q > 1000 {
        assert(den * q >= den * 1001) by (nonlinear_arith)
            requires
                q >= 1001,
                den > 0,
        ;
        assert(false);
    }
    vstd::arithmetic::div_mod::lemma_div_pos_is_pos(num, den);
}

pub proof fn lemma_sin_range(u: int)
    requires
        0 <= u < 60000,
    ensures
        -1000 <= sin_spec(u) <= 1000,
{
    if u <= 30000 {
        lemma_half_sine_range(u);
    } else {
        lemma_half_sine_range(u - 30000);
    }
}

pub proof fn lemma_cos_range(u: int)
    requires
        0 <= u < 60000,
    ensures
        -1000 <= cos_spec(u) <= 1000,
{
    vstd::arithmetic::div_mod::lemma_mod_bound(u + 15000, 60000int);
    lemma_sin_range(wrap_spec(u + 15000));
}

/// Sine of an angle in units, scaled by 1000.
pub fn sin_milli(u: i64) -> (r: i64)
    requires
        0 <= u < FULL_TURN,
    ensures
        r == sin_spec(u as int),
        -1000 <= r <= 1000,
{
    proof {
        lemma_sin_range(u as int);
    }
    if u <= HALF_TURN {
        assert(0 <= u * (30000 - u) <= 225_000_000) by (nonlinear_arith)
            requires
                0 <= u <= 30000,
        ;
        let p = u * (30000 - u);
        16000 * p / (4_500_000_000 - 4 * p)
    } else {
        let v = u - HALF_TURN;
        assert(0 <= v * (30000 - v) <= 225_000_000) by (nonlinear_arith)
            requires
                0 <= v <= 30000,
        ;
        let p = v * (30000 - v);
        -(16000 * p / (4_500_000_000 - 4 * p))
    }
}

/// Cosine of an angle in units, scaled by 1000.
pub fn cos_milli(u: i64) -> (r: i64)
    requires
        0 <= u < FULL_TURN,
    ensures
        r == cos_spec(u as int),
        -1000 <= r <= 1000,
{
    proof {
        lemma_cos_range(u as int);
    }
    let v = if u + QUARTER_TURN < FULL_TURN {
        u + QUARTER_TURN
    } else {
        u + QUARTER_TURN - FULL_TURN
    };
    proof {
        if u + 15000 < 60000 {
            vstd::arithmetic::div_mod::lemma_small_mod((u + 15000) as nat, 60000nat);
        } else {
            vstd::arithmetic::div_mod::lemma_mod_add_multiples_vanish((u + 15000 - 60000) as int, 60000int);
            vstd::arithmetic::div_mod::lemma_small_mod((u + 15000 - 60000) as nat, 60000nat);
        }
    }
    sin_milli(v)
}

/// The unit vector pointing along an angle, components scaled by 1000.
pub fn angle_to_vec(u: i64) -> (r: Vec2)
    requires
        0 <= u < FULL_TURN,
    ensures
        r.x == cos_spec(u as int),
        r.y == sin_spec(u as int),
        -1000 <= r.x <= 1000,
        -1000 <= r.y <= 1000,
{
    Vec2 { x: cos_milli(u), y: sin_milli(u) }
}

} // verus!
