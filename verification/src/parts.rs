//! Drivetrain parts: torque curve, engine, transmission and the
//! static car setup.
//!
//! Torques are in milli-newton-metres, engine speeds in RPM (or
//! milli-RPM where noted), ratios and efficiency scaled by 1000.

use vstd::prelude::*;
use vstd::string::StringExecFns;
use crate::fixed::{qz, clamp, abs_i, max_i, div_tz, lemma_mul_bound, lemma_qz_bound};

verus! {

/// Scale of pedal and clutch levels: this value stands for 1.0.
pub const LEVEL_ONE: i64 = 3000;

/// Upper bound on gear and final-drive ratios, scaled by 1000.
pub const RATIO_LIMIT: i64 = 20_000;

/// 60 / (2 * pi) scaled by 10000: radians per second to RPM.
pub const RAD_S_TO_RPM_SCALED: i64 = 95493;

/// Largest torque magnitude the curve reports, in milli-newton-metres;
/// evaluations beyond it saturate.
pub const TORQUE_LIMIT: i64 = 10_000_000_000;

/// Divisor turning torque (milli-N·m) times engine speed (RPM) into
/// the power figure the dashboard shows.
pub const POWER_DIVISOR: i64 = 7121;

/// A cubic written with its double root at `e` made explicit equals
/// its expanded coefficient form.
proof fn lemma_cubic_form(al: int, be: int, e: int, kd: int, x: int)
    ensures
        al * x * x * x + (be - 2 * e * al) * x * x + (al * e * e - 2 * be * e) * x + (kd + be * e
            * e) == (x - e) * (x - e) * (al * x + be) + kd,
{
    assert((x - e) * (x - e) * (al * x + be) == (x * x - 2 * e * x + e * e) * (al * x + be))
        by (nonlinear_arith);
    assert((x * x - 2 * e * x + e * e) * (al * x + be) == (x * x) * (al * x + be) - (2 * e * x) * (
    al * x + be) + (e * e) * (al * x + be)) by (nonlinear_arith);
    assert((x * x) * (al * x + be) == al * x * x * x + be * x * x) by (nonlinear_arith);
    assert((2 * e * x) * (al * x + be) == 2 * e * al * x * x + 2 * be * e * x) by (nonlinear_arith);
    assert((e * e) * (al * x + be) == al * e * e * x + be * e * e) by (nonlinear_arith);
    assert((x * x - 2 * e * x + e * e) * (al * x + be) == al * x * x * x + be * x * x - 2 * e * al
        * x * x - 2 * be * e * x + al * e * e * x + be * e * e);
    assert((be - 2 * e * al) * x * x == be * x * x - 2 * e * al * x * x) by (nonlinear_arith);
    assert((al * e * e - 2 * be * e) * x == al * e * e * x - 2 * be * e * x) by (nonlinear_arith);
}

/// Negating every coefficient together with the denominator keeps the
/// curve's rational value.
proof fn lemma_flip(a: int, b: int, c: int, d: int, den: int, v: int, x: int)
    requires
        a * x * x * x + b * x * x + c * x + d == v * den,
    ensures
        (-a) * x * x * x + (-b) * x * x + (-c) * x + (-d) == v * (-den),
{
    assert((-a) * x * x * x == -(a * x * x * x)) by (nonlinear_arith);
    assert((-b) * x * x == -(b * x * x)) by (nonlinear_arith);
    assert((-c) * x == -(c * x)) by (nonlinear_arith);
    assert(v * (-den) == -(v * den)) by (nonlinear_arith);
}

/// The same for the derivative's coefficients.
proof fn lemma_flip_d(a: int, b: int, c: int, x: int)
    requires
        3 * a * x * x + 2 * b * x + c == 0,
    ensures
        3 * (-a) * x * x + 2 * (-b) * x + (-c) == 0,
{
    assert(3 * (-a) * x * x == -(3 * a * x * x)) by (nonlinear_arith);
    assert(2 * (-b) * x == -(2 * b * x)) by (nonlinear_arith);
}

/// The derivative of that cubic vanishes at `e`.
proof fn lemma_cubic_flat(al: int, be: int, e: int)
    ensures
        3 * al * e * e + 2 * (be - 2 * e * al) * e + (al * e * e - 2 * be * e) == 0,
{
    assert(3 * al * e * e + 2 * (be - 2 * e * al) * e + (al * e * e - 2 * be * e) == 0)
        by (nonlinear_arith);
}

/// Third degree polynomial approximation of a torque curve.
///
/// The coefficients are exact rationals over a single positive
/// denominator, so the curve passes through its calibration points
/// exactly.
#[derive(Clone, Copy, Debug)]
pub struct TorqueCurve {
    pub a: i128,
    pub b: i128,
    pub c: i128,
    pub d: i128,
    pub den: i128,
}

impl TorqueCurve {
    /// The cubic's numerator at `x`: torque times `den`.
    #[verifier::opaque]
    pub open spec fn poly(self, x: int) -> int {
        self.a * x * x * x + self.b * x * x + self.c * x + self.d
    }

    /// The numerator of the cubic's derivative at `x`.
    #[verifier::opaque]
    pub open spec fn dpoly(self, x: int) -> int {
        3 * self.a * x * x + 2 * self.b * x + self.c
    }

    /// Coefficient bounds that keep every evaluation inside `i128`.
    pub open spec fn wf(self) -> bool {
        &&& 0 < self.den <= 100_000_000_000_000_000_000_000i128
        &&& abs_i(self.a as int) <= 4_000_000_000_000_000_000
        &&& abs_i(self.b as int) <= 1_000_000_000_000_000_000_000_000
        &&& abs_i(self.c as int) <= 100_000_000_000_000_000_000_000_000_000
        &&& abs_i(self.d as int) <= 1_000_000_000_000_000_000_000_000_000_000_000
    }

    /// The curve's value at `x`, in milli-newton-metres, saturated to
    /// the representable torque envelope.
    #[verifier::opaque]
    pub open spec fn value_at(self, x: int) -> int {
        clamp(qz(self.poly(x), self.den as int), -TORQUE_LIMIT as int, TORQUE_LIMIT as int)
    }

    /// Fits the unique cubic through (idle_rpm, idle_torque),
    /// (redline_rpm, redline_torque) and (peak_torque_rpm, peak_torque)
    /// whose derivative vanishes at the peak-torque speed, in exact
    /// integer arithmetic. Torques are milli-newton-metres.
    #[verifier::rlimit(30)]
    pub fn new(
        idle_rpm: i64,
        redline_rpm: i64,
        peak_torque_rpm: i64,
        peak_torque: i64,
        idle_torque: i64,
        redline_torque: i64,
    ) -> (r: TorqueCurve)
        requires
            1 <= idle_rpm < peak_torque_rpm < redline_rpm <= 30000,
            abs_i(peak_torque as int) <= 1_000_000_000,
            abs_i(idle_torque as int) <= 1_000_000_000,
            abs_i(redline_torque as int) <= 1_000_000_000,
        ensures
            r.wf(),
            r.poly(idle_rpm as int) == idle_torque * r.den,
            r.poly(redline_rpm as int) == redline_torque * r.den,
            r.poly(peak_torque_rpm as int) == peak_torque * r.den,
            r.dpoly(peak_torque_rpm as int) == 0,
    {
        let q: i128 = idle_rpm as i128;
        let w: i128 = redline_rpm as i128;
        let e: i128 = peak_torque_rpm as i128;
        let ti: i128 = idle_torque as i128;
        let tj: i128 = redline_torque as i128;
        let tk: i128 = peak_torque as i128;

        let dq: i128 = q - e;
        let dw: i128 = w - e;
        let dqw: i128 = q - w;
        proof {
            lemma_mul_bound(dq as int, dq as int, 30000, 30000);
            lemma_mul_bound(dw as int, dw as int, 30000, 30000);
        }
        let dq2: i128 = dq * dq;
        let dw2: i128 = dw * dw;
        proof {
            lemma_mul_bound(dq2 as int, dw2 as int, 900_000_000, 900_000_000);
            lemma_mul_bound((dq2 * dw2) as int, dqw as int, 810_000_000_000_000_000, 30000);
        }
        let den0: i128 = dq2 * dw2 * dqw;
        proof {
            lemma_mul_bound((ti - tk) as int, dw2 as int, 2_000_000_000, 900_000_000);
            lemma_mul_bound((tj - tk) as int, dq2 as int, 2_000_000_000, 900_000_000);
        }
        let al: i128 = (ti - tk) * dw2 - (tj - tk) * dq2;
        proof {
            lemma_mul_bound(((ti - tk) * dw2) as int, dqw as int, 1_800_000_000_000_000_000, 30000);
            lemma_mul_bound(q as int, al as int, 30000, 3_600_000_000_000_000_000);
        }
        let be: i128 = (ti - tk) * dw2 * dqw - q * al;
        proof {
            lemma_mul_bound(2 * e as int, al as int, 60000, 3_600_000_000_000_000_000);
        }
        let b0: i128 = be - 2 * e * al;
        proof {
            lemma_mul_bound(al as int, e as int, 3_600_000_000_000_000_000, 30000);
            lemma_mul_bound((al * e) as int, e as int, 108_000_000_000_000_000_000_000, 30000);
            lemma_mul_bound((2 * be) as int, e as int, 324_000_000_000_000_000_000_000, 30000);
        }
        let c0: i128 = al * e * e - 2 * be * e;
        proof {
            lemma_mul_bound(tk as int, den0 as int, 1_000_000_000, 24_300_000_000_000_000_000_000);
            lemma_mul_bound(be as int, e as int, 162_000_000_000_000_000_000_000, 30000);
            lemma_mul_bound((be * e) as int, e as int, 4_860_000_000_000_000_000_000_000_000, 30000);
        }
        let d0: i128 = tk * den0 + be * e * e;

        proof {
            reveal(TorqueCurve::poly);
            reveal(TorqueCurve::dpoly);
            let qi = q as int;
            let wi = w as int;
            let ei = e as int;
            let ii = ti as int;
            let ji = tj as int;
            let ki = tk as int;
            let ali = al as int;
            let bei = be as int;
            let dq2i = dq2 as int;
            let dw2i = dw2 as int;
            let dqwi = dqw as int;
            let den0i = den0 as int;
            let b0i = b0 as int;
            let c0i = c0 as int;
            let d0i = d0 as int;

            let kd = ki * den0i;
            assert(b0i == bei - 2 * ei * ali);
            assert(c0i == ali * ei * ei - 2 * bei * ei);
            assert(d0i == kd + bei * ei * ei);

            // value at the idle point
            lemma_cubic_form(ali, bei, ei, kd, qi);
            assert(ali * qi * qi * qi + b0i * qi * qi + c0i * qi + d0i == (qi - ei) * (qi - ei) * (
            ali * qi + bei) + kd);
            assert(ali * qi + bei == (ii - ki) * dw2i * dqwi);
            assert((qi - ei) * (qi - ei) * ((ii - ki) * dw2i * dqwi) == (ii - ki) * den0i)
                by (nonlinear_arith)
                requires
                    den0i == dq2i * dw2i * dqwi,
                    dq2i == (qi - ei) * (qi - ei),
            ;
            assert((ii - ki) * den0i + ki * den0i == ii * den0i) by (nonlinear_arith);
            assert(ali * qi * qi * qi + b0i * qi * qi + c0i * qi + d0i == ii * den0i);

            // value at the redline point
            lemma_cubic_form(ali, bei, ei, kd, wi);
            assert(ali * wi * wi * wi + b0i * wi * wi + c0i * wi + d0i == (wi - ei) * (wi - ei) * (
            ali * wi + bei) + kd);
            assert(ali * wi + bei == ali * (wi - qi) + (ali * qi + bei)) by (nonlinear_arith);
            assert(ali * (wi - qi) == -(ali * dqwi)) by (nonlinear_arith)
                requires
                    dqwi == qi - wi,
            ;
            assert(-(ali * dqwi) + (ii - ki) * dw2i * dqwi == dqwi * ((ii - ki) * dw2i - ali))
                by (nonlinear_arith);
            assert((ii - ki) * dw2i - ali == (ji - ki) * dq2i);
            assert(ali * wi + bei == dqwi * ((ji - ki) * dq2i));
            assert((wi - ei) * (wi - ei) * (dqwi * ((ji - ki) * dq2i)) == (ji - ki) * den0i)
                by (nonlinear_arith)
                requires
                    den0i == dq2i * dw2i * dqwi,
                    dw2i == (wi - ei) * (wi - ei),
            ;
            assert((ji - ki) * den0i + ki * den0i == ji * den0i) by (nonlinear_arith);
            assert(ali * wi * wi * wi + b0i * wi * wi + c0i * wi + d0i == ji * den0i);

            // value and flat derivative at the peak-torque point
            lemma_cubic_form(ali, bei, ei, kd, ei);
            assert((ei - ei) * (ei - ei) * (ali * ei + bei) == 0) by (nonlinear_arith);
            assert(ali * ei * ei * ei + b0i * ei * ei + c0i * ei + d0i == ki * den0i);
            lemma_cubic_flat(ali, bei, ei);
            assert(3 * ali * ei * ei + 2 * b0i * ei + c0i == 0);

            // the returned curve negates everything
            lemma_flip(ali, b0i, c0i, d0i, den0i, ii, qi);
            lemma_flip(ali, b0i, c0i, d0i, den0i, ji, wi);
            lemma_flip(ali, b0i, c0i, d0i, den0i, ki, ei);
            lemma_flip_d(ali, b0i, c0i, ei);

            // the denominator is negative, so flipping every sign
            // below normalises it to a positive one
            assert(dq2i > 0 && dw2i > 0) by (nonlinear_arith)
                requires
                    qi != ei,
                    wi != ei,
                    dq2i == (qi - ei) * (qi - ei),
                    dw2i == (wi - ei) * (wi - ei),
            ;
            assert(den0i < 0) by (nonlinear_arith)
                requires
                    dq2i > 0,
                    dw2i > 0,
                    dqwi < 0,
                    den0i == dq2i * dw2i * dqwi,
            ;
        }

        TorqueCurve { a: -al, b: -b0, c: -c0, d: -d0, den: -den0 }
    }

    /// Evaluates the curve at an engine speed in RPM, in
    /// milli-newton-metres.
    pub fn get_value(&self, x: i64) -> (r: i64)
        requires
            self.wf(),
            0 <= x <= 30500,
        ensures
            r == self.value_at(x as int),
            abs_i(r as int) <= TORQUE_LIMIT,
    {
        proof {
            reveal(TorqueCurve::poly);
            reveal(TorqueCurve::value_at);
            lemma_mul_bound(self.a as int, x as int, 4_000_000_000_000_000_000, 30500);
            lemma_mul_bound(
                (self.a * (x as i128) + self.b) as int,
                x as int,
                1_123_000_000_000_000_000_000_000,
                30500,
            );
            lemma_mul_bound(
                ((self.a * (x as i128) + self.b) * (x as i128) + self.c) as int,
                x as int,
                34_352_000_000_000_000_000_000_000_000_000,
                30500,
            );
        }
        let xi: i128 = x as i128;
        let num: i128 = ((self.a * xi + self.b) * xi + self.c) * xi + self.d;
        proof {
            let a = self.a as int;
            let b = self.b as int;
            let c = self.c as int;
            let d = self.d as int;
            let xx = x as int;
            assert(((a * xx + b) * xx + c) * xx + d == a * xx * xx * xx + b * xx * xx + c * xx + d)
                by (nonlinear_arith);
        }
        let neg: bool = num < 0;
        let mag: i128 = if neg {
            -num
        } else {
            num
        };
        let qmag: i128 = mag / self.den;
        proof {
            lemma_qz_bound(num as int, self.den as int, abs_i(num as int));
        }
        let q: i128 = if neg {
            -qmag
        } else {
            qmag
        };
        assert(q == qz(self.poly(x as int), self.den as int));
        if q > TORQUE_LIMIT as i128 {
            TORQUE_LIMIT
        } else if q < -TORQUE_LIMIT as i128 {
            -TORQUE_LIMIT
        } else {
            q as i64
        }
    }

    /// The curve's torque at an engine speed, and the matching
    /// displayed power.
    pub fn and_power(&self, x: i64) -> (r: (i64, i64))
        requires
            self.wf(),
            0 <= x <= 30500,
        ensures
            r.0 == self.value_at(x as int),
            r.1 == qz(r.0 * x, POWER_DIVISOR as int),
    {
        let torque = self.get_value(x);
        proof {
            lemma_mul_bound(torque as int, x as int, TORQUE_LIMIT as int, 30500);
        }
        let p = torque * x;
        let power = if p >= 0 {
            p / POWER_DIVISOR
        } else {
            -((-p) / POWER_DIVISOR)
        };
        (torque, power)
    }

    /// Torque times engine speed at `x`: power up to a constant factor.
    pub open spec fn power_num(self, x: int) -> int {
        self.value_at(x) * x
    }

    /// The engine speed (RPM) maximising the curve's power over the
    /// whole representable speed range, with the displayed power
    /// there.
    pub fn peak_power(&self) -> (r: (i64, i64))
        requires
            self.wf(),
        ensures
            0 <= r.0 <= 30000,
            forall|x: int|
                0 <= x <= 30000 ==> #[trigger] self.power_num(x) <= self.power_num(r.0 as int),
            r.1 == qz(self.value_at(r.0 as int) * r.0, POWER_DIVISOR as int),
    {
        let mut best_x: i64 = 0;
        let mut best_p: i64 = 0;
        assert(self.power_num(0) == 0) by (nonlinear_arith);
        let mut x: i64 = 1;
        while x <= 30000
            invariant
                self.wf(),
                1 <= x <= 30001,
                0 <= best_x < x,
                abs_i(best_p as int) <= TORQUE_LIMIT * 30000,
                best_p == self.power_num(best_x as int),
                forall|y: int| 0 <= y < x ==> #[trigger] self.power_num(y) <= best_p,
            decreases 30001 - x,
        {
            let v = self.get_value(x);
            proof {
                lemma_mul_bound(v as int, x as int, TORQUE_LIMIT as int, 30000);
            }
            let p = v * x;
            if p > best_p {
                best_p = p;
                best_x = x;
            }
            x += 1;
        }
        let v = self.get_value(best_x);
        proof {
            lemma_mul_bound(v as int, best_x as int, TORQUE_LIMIT as int, 30000);
        }
        let pn = v * best_x;
        let power = if pn >= 0 {
            pn / POWER_DIVISOR
        } else {
            -((-pn) / POWER_DIVISOR)
        };
        (best_x, power)
    }
}

/// Gear label for display.
pub enum GearDisp {
    Neutral,
    G(u8),
    R(u8),
    Reverse,
}

/// The decimal digit character for `0 <= d <= 9`.
pub open spec fn digit_char(d: int) -> char {
    if d == 0 {
        '0'
    } else if d == 1 {
        '1'
    } else if d == 2 {
        '2'
    } else if d == 3 {
        '3'
    } else if d == 4 {
        '4'
    } else if d == 5 {
        '5'
    } else if d == 6 {
        '6'
    } else if d == 7 {
        '7'
    } else if d == 8 {
        '8'
    } else {
        '9'
    }
}

/// The decimal digits of `0 <= n <= 255`.
pub open spec fn dec_chars(n: int) -> Seq<char> {
    if n < 10 {
        seq![digit_char(n)]
    } else if n < 100 {
        seq![digit_char(n / 10), digit_char(n % 10)]
    } else {
        seq![digit_char(n / 100), digit_char((n / 10) % 10), digit_char(n % 10)]
    }
}

/// The characters a gear label shows.
pub open spec fn gear_chars(g: GearDisp) -> Seq<char> {
    match g {
        GearDisp::Neutral => seq!['N'],
        GearDisp::Reverse => seq!['R'],
        GearDisp::G(n) => dec_chars(n as int),
        GearDisp::R(n) => seq!['R'] + dec_chars(n as int),
    }
}

/// Pushes the decimal digits of `n` onto a string.
fn push_dec(s: &mut String, n: u8)
    ensures
        final(s)@ == old(s)@ + dec_chars(n as int),
{
    let d0: u8 = n / 100;
    let d1: u8 = (n / 10) % 10;
    let d2: u8 = n % 10;
    if n >= 100 {
        s.append(digit_of(d0));
    }
    if n >= 10 {
        s.append(digit_of(d1));
    }
    s.append(digit_of(d2));
    proof {
        assert(s@ =~= old(s)@ + dec_chars(n as int));
    }
}

/// The digit character of `0 <= d <= 9`, executable form.
fn digit_of(d: u8) -> (r: &'static str)
    requires
        d <= 9,
    ensures
        r@ == seq![digit_char(d as int)],
{
    proof {
        reveal_strlit("0");
        reveal_strlit("1");
        reveal_strlit("2");
        reveal_strlit("3");
        reveal_strlit("4");
        reveal_strlit("5");
        reveal_strlit("6");
        reveal_strlit("7");
        reveal_strlit("8");
        reveal_strlit("9");
    }
    let r = match d {
        0 => "0",
        1 => "1",
        2 => "2",
        3 => "3",
        4 => "4",
        5 => "5",
        6 => "6",
        7 => "7",
        8 => "8",
        _ => "9",
    };
    proof {
        assert(r@ =~= seq![digit_char(d as int)]);
    }
    r
}

impl GearDisp {
    /// The label's text.
    pub fn text(&self) -> (r: String)
        ensures
            r@ == gear_chars(*self),
    {
        proof {
            reveal_strlit("N");
            reveal_strlit("R");
        }
        let mut s = String::new();
        match self {
            GearDisp::Neutral => {
                s.append("N");
            },
            GearDisp::Reverse => {
                s.append("R");
            },
            GearDisp::G(n) => {
                push_dec(&mut s, *n);
            },
            GearDisp::R(n) => {
                s.append("R");
                push_dec(&mut s, *n);
            },
        }
        proof {
            assert(s@ =~= gear_chars(*self));
        }
        s
    }
}

/// Gear ratio table with final drive and mechanical efficiency, all
/// ratios scaled by 1000.
#[derive(Clone, Debug)]
pub struct Transmission {
    pub ratios: Vec<i64>,
    pub reverse_ratios: Vec<i64>,
    pub final_drive_ratio: i64,
    pub efficiency: i64,
}

impl Transmission {
    /// Ratio tables are non-empty, bounded and positive; efficiency is
    /// a fraction of 1000.
    pub open spec fn wf(self) -> bool {
        &&& 0 < self.ratios.len() <= 120
        &&& 0 < self.reverse_ratios.len() <= 120
        &&& (forall|i: int|
            0 <= i < self.ratios.len() ==> 1 <= #[trigger] self.ratios[i] <= RATIO_LIMIT)
        &&& (forall|i: int|
            0 <= i < self.reverse_ratios.len() ==> 1 <= #[trigger] self.reverse_ratios[i]
                <= RATIO_LIMIT)
        &&& 1 <= self.final_drive_ratio <= RATIO_LIMIT
        &&& 1 <= self.efficiency <= 1000
    }

    /// Whether a signed gear number indexes the configured tables.
    pub open spec fn valid_gear(self, g: int) -> bool {
        ||| g == 0
        ||| 0 < g <= self.ratios.len()
        ||| 0 < -g <= self.reverse_ratios.len()
    }

    /// The signed ratio a gear selects: 0 in neutral, negated for
    /// reverse gears.
    pub open spec fn ratio_of(self, g: int) -> int {
        if g == 0 {
            0
        } else if g > 0 {
            self.ratios[g - 1] as int
        } else {
            -(self.reverse_ratios[-g - 1] as int)
        }
    }

    /// Looks the gear's ratio up.
    pub fn get_gear_ratio(&self, gear: i8) -> (r: i64)
        requires
            self.wf(),
            self.valid_gear(gear as int),
        ensures
            r == self.ratio_of(gear as int),
            abs_i(r as int) <= RATIO_LIMIT,
    {
        if gear == 0 {
            0
        } else if gear > 0 {
            self.ratios[(gear - 1) as usize]
        } else {
            -self.reverse_ratios[(-gear - 1) as usize]
        }
    }

    /// Engine torque through gear, final drive and efficiency, in
    /// milli-newton-metres.
    pub open spec fn drive_torque_at(self, engine_torque: int, g: int) -> int {
        qz(
            qz(qz(engine_torque * self.ratio_of(g), 1000) * self.final_drive_ratio, 1000)
                * self.efficiency,
            1000,
        )
    }

    /// Converts engine torque to drive torque at the wheels.
    pub fn get_drive_torque(&self, engine_torque: i64, gear: i8) -> (r: i64)
        requires
            self.wf(),
            self.valid_gear(gear as int),
            abs_i(engine_torque as int) <= TORQUE_LIMIT,
        ensures
            r == self.drive_torque_at(engine_torque as int, gear as int),
            abs_i(r as int) <= 4_000_000_000_000,
    {
        let ratio = self.get_gear_ratio(gear);
        proof {
            lemma_mul_bound(engine_torque as int, ratio as int, TORQUE_LIMIT as int, RATIO_LIMIT as int);
            lemma_qz_bound(engine_torque as int * ratio as int, 1000, 200_000_000_000_000);
        }
        let s1 = mul_div_1000(engine_torque, ratio);
        proof {
            lemma_mul_bound(s1 as int, self.final_drive_ratio as int, 200_000_000_000, RATIO_LIMIT as int);
            lemma_qz_bound(s1 as int * self.final_drive_ratio as int, 1000, 4_000_000_000_000_000);
        }
        let s2 = mul_div_1000(s1, self.final_drive_ratio);
        proof {
            lemma_mul_bound(s2 as int, self.efficiency as int, 4_000_000_000_000, 1000);
            lemma_qz_bound(s2 as int * self.efficiency as int, 1000, 4_000_000_000_000_000);
        }
        mul_div_1000(s2, self.efficiency)
    }

    /// The display label of a gear.
    pub fn display(&self, gear: i8) -> (r: GearDisp)
        ensures
            gear == 0 ==> r is Neutral,
            gear > 0 ==> r == GearDisp::G(gear as u8),
            gear < 0 && !(gear == -1 && self.reverse_ratios.len() == 1) ==> r == GearDisp::R(
                (-(gear as int)) as u8,
            ),
            gear == -1 && self.reverse_ratios.len() == 1 ==> r is Reverse,
    {
        if gear == 0 {
            GearDisp::Neutral
        } else if gear == -1 && self.reverse_ratios.len() == 1 {
            GearDisp::Reverse
        } else if gear > 0 {
            GearDisp::G(gear as u8)
        } else {
            GearDisp::R((-(gear as i64)) as u8)
        }
    }
}

/// An engine: a torque curve bounded by idle and redline speeds, with
/// an extrapolation policy outside that range.
#[derive(Clone, Copy, Debug)]
pub struct Engine {
    pub idle_rpm: i64,
    pub redline_rpm: i64,
    pub torque: TorqueCurve,
}

impl Engine {
    pub open spec fn wf(self) -> bool {
        &&& 1 <= self.idle_rpm < self.redline_rpm <= 30000
        &&& self.torque.wf()
    }

    /// Torque at any engine speed, in milli-newton-metres.  Below
    /// idle the idle torque degrades toward half its value; past the
    /// redline the torque fades over a 500-RPM window.
    pub open spec fn torque_at(self, rpm: int) -> int {
        if rpm < self.idle_rpm {
            qz(
                self.torque.value_at(self.idle_rpm as int) * max_i(
                    qz(rpm * 1000, self.idle_rpm as int),
                    500,
                ),
                1000,
            )
        } else if rpm > self.redline_rpm {
            qz(
                self.torque.value_at(self.redline_rpm as int) * clamp(
                    qz(500_000, rpm - self.redline_rpm),
                    0,
                    1000,
                ),
                1000,
            )
        } else {
            self.torque.value_at(rpm)
        }
    }

    /// The idle engine speed in RPM.
    pub fn idle_rpm(&self) -> (r: i64)
        ensures
            r == self.idle_rpm,
    {
        self.idle_rpm
    }

    /// The redline engine speed in RPM.
    pub fn redline_rpm(&self) -> (r: i64)
        ensures
            r == self.redline_rpm,
    {
        self.redline_rpm
    }

    /// Torque at an engine speed, with the extrapolation policy.
    pub fn get_torque(&self, rpm: i64) -> (r: i64)
        requires
            self.wf(),
            abs_i(rpm as int) <= 1_000_000_000,
        ensures
            r == self.torque_at(rpm as int),
            abs_i(r as int) <= TORQUE_LIMIT,
    {
        if rpm < self.idle_rpm {
            let base = self.torque.get_value(self.idle_rpm);
            let frac = div_tz(rpm * 1000, self.idle_rpm);
            let factor = if frac > 500 {
                frac
            } else {
                500
            };
            proof {
                lemma_qz_bound(rpm as int * 1000, self.idle_rpm as int, 1_000_000_000_000);
                if rpm >= 0 {
                    vstd::arithmetic::div_mod::lemma_div_is_ordered(
                        rpm as int * 1000,
                        self.idle_rpm as int * 1000,
                        self.idle_rpm as int,
                    );
                    vstd::arithmetic::div_mod::lemma_div_multiples_vanish(
                        1000,
                        self.idle_rpm as int,
                    );
                }
                lemma_mul_bound(base as int, factor as int, TORQUE_LIMIT as int, 1000);
                lemma_qz_bound(base as int * factor as int, 1000, TORQUE_LIMIT as int * 1000);
            }
            mul_div_1000(base, factor)
        } else if rpm > self.redline_rpm {
            let base = self.torque.get_value(self.redline_rpm);
            let frac = div_tz(500_000, rpm - self.redline_rpm);
            let factor = if frac > 1000 {
                1000
            } else {
                frac
            };
            proof {
                lemma_qz_bound(500_000, rpm as int - self.redline_rpm as int, 500_000);
                lemma_mul_bound(base as int, factor as int, TORQUE_LIMIT as int, 1000);
                lemma_qz_bound(base as int * factor as int, 1000, TORQUE_LIMIT as int * 1000);
            }
            mul_div_1000(base, factor)
        } else {
            self.torque.get_value(rpm)
        }
    }

    /// Torque and displayed power at an engine speed.
    pub fn and_power(&self, rpm: i64) -> (r: (i64, i64))
        requires
            self.wf(),
            0 <= rpm <= 100_000_000,
        ensures
            r.0 == self.torque_at(rpm as int),
            r.1 == qz(r.0 * rpm, POWER_DIVISOR as int),
    {
        let torque = self.get_torque(rpm);
        proof {
            lemma_mul_bound(torque as int, rpm as int, TORQUE_LIMIT as int, 100_000_000);
        }
        let p = torque * rpm;
        let power = if p >= 0 {
            p / POWER_DIVISOR
        } else {
            -((-p) / POWER_DIVISOR)
        };
        (torque, power)
    }
}

/// Static tuning data for one car.
#[derive(Clone, Debug)]
pub struct CarSetup {
    /// Aerodynamic drag factor, milli-newtons per (m/s) squared.
    pub drag: i64,
    /// Rolling-resistance factor, milli-newtons per (mm/s).
    pub rolling_r: i64,
    /// Peak braking force, milli-newtons.
    pub brake_force: i64,
    /// Mass in kilograms.
    pub mass: i64,
    /// Wheel radius in millimetres.
    pub wheel_radius: i64,
    pub engine: Engine,
    pub transmission: Transmission,
    /// Front axle distance from the reference point, millimetres.
    pub fw_dist: i64,
    /// Rear axle distance from the reference point, millimetres.
    pub rw_dist: i64,
}

impl CarSetup {
    pub open spec fn wf(self) -> bool {
        &&& 0 <= self.drag <= 100_000
        &&& 0 <= self.rolling_r <= 1_000_000
        &&& 0 <= self.brake_force <= 1_000_000_000
        &&& 1 <= self.mass <= 1_000_000
        &&& 50 <= self.wheel_radius <= 5000
        &&& 100 <= self.fw_dist <= 10_000
        &&& 100 <= self.rw_dist <= 10_000
        &&& self.engine.wf()
        &&& self.transmission.wf()
    }

    /// The engine speed (milli-RPM) a rigid coupling through a gear
    /// dictates at a forward speed (mm/s), floored at idle.
    pub open spec fn engine_rpm_at(self, speed: int, g: int) -> int {
        let coupled = qz(
            qz(qz(speed * self.transmission.ratio_of(g), 1000) * self.transmission.final_drive_ratio, 1000)
                * RAD_S_TO_RPM_SCALED,
            self.wheel_radius * 10,
        );
        max_i(coupled, self.engine.idle_rpm * 1000)
    }

    /// Maps chassis forward speed to the engine speed the gear train
    /// would show, in milli-RPM.
    pub fn get_engine_rpm(&self, speed: i64, gear: i8) -> (r: i64)
        requires
            self.wf(),
            self.transmission.valid_gear(gear as int),
            abs_i(speed as int) <= 4_000_000,
        ensures
            r == self.engine_rpm_at(speed as int, gear as int),
            self.engine.idle_rpm * 1000 <= r <= 400_000_000_000,
    {
        let ratio = self.transmission.get_gear_ratio(gear);
        proof {
            lemma_mul_bound(speed as int, ratio as int, 4_000_000, RATIO_LIMIT as int);
            lemma_qz_bound(speed as int * ratio as int, 1000, 80_000_000_000);
        }
        let s1 = mul_div_1000(speed, ratio);
        proof {
            lemma_mul_bound(s1 as int, self.transmission.final_drive_ratio as int, 80_000_000, RATIO_LIMIT as int);
            lemma_qz_bound(s1 as int * self.transmission.final_drive_ratio as int, 1000, 1_600_000_000_000);
        }
        let s2 = mul_div_1000(s1, self.transmission.final_drive_ratio);
        proof {
            lemma_mul_bound(s2 as int, RAD_S_TO_RPM_SCALED as int, 1_600_000_000, RAD_S_TO_RPM_SCALED as int);
            lemma_qz_bound(
                s2 as int * RAD_S_TO_RPM_SCALED as int,
                self.wheel_radius as int * 10,
                1_600_000_000 * RAD_S_TO_RPM_SCALED as int,
            );
        }
        let p = s2 * RAD_S_TO_RPM_SCALED;
        let coupled = if p >= 0 {
            p / (self.wheel_radius * 10)
        } else {
            -((-p) / (self.wheel_radius * 10))
        };
        let idle_mrpm = self.engine.idle_rpm * 1000;
        proof {
            lemma_qz_bound(p as int, self.wheel_radius as int * 10, abs_i(p as int));
            vstd::arithmetic::div_mod::lemma_div_is_ordered_by_denominator(
                abs_i(p as int),
                500,
                self.wheel_radius as int * 10,
            );
            lemma_qz_bound(abs_i(p as int), 500, 1_600_000_000 * RAD_S_TO_RPM_SCALED as int);
        }
        if coupled > idle_mrpm {
            coupled
        } else {
            idle_mrpm
        }
    }

    /// Drive force at the wheels, in milli-newtons, from engine speed
    /// (milli-RPM), gear and throttle level.
    pub open spec fn drive_force_at(self, mrpm: int, g: int, throttle: int) -> int {
        let torque = self.engine.torque_at(qz(mrpm, 1000));
        let applied = qz(throttle * torque, LEVEL_ONE as int);
        qz(self.transmission.drive_torque_at(applied, g) * 1000, self.wheel_radius as int)
    }

    /// The force the drivetrain can put on the road.
    pub fn get_drive_force(&self, mrpm: i64, gear: i8, throttle: i64) -> (r: i64)
        requires
            self.wf(),
            self.transmission.valid_gear(gear as int),
            abs_i(mrpm as int) <= 1_000_000_000_000,
            0 <= throttle <= LEVEL_ONE,
        ensures
            r == self.drive_force_at(mrpm as int, gear as int, throttle as int),
            abs_i(r as int) <= 100_000_000_000_000,
    {
        let rpm = div_tz(mrpm, 1000);
        let torque = self.engine.get_torque(rpm);
        proof {
            lemma_mul_bound(throttle as int, torque as int, LEVEL_ONE as int, TORQUE_LIMIT as int);
            lemma_qz_bound(throttle as int * torque as int, LEVEL_ONE as int, LEVEL_ONE as int * TORQUE_LIMIT as int);
        }
        let p = throttle * torque;
        let applied = if p >= 0 {
            p / LEVEL_ONE
        } else {
            -((-p) / LEVEL_ONE)
        };
        let drive_torque = self.transmission.get_drive_torque(applied, gear);
        proof {
            lemma_mul_bound(drive_torque as int, 1000, 4_000_000_000_000, 1000);
            lemma_qz_bound(drive_torque as int * 1000, self.wheel_radius as int, 4_000_000_000_000_000);
            vstd::arithmetic::div_mod::lemma_div_is_ordered_by_denominator(
                abs_i(drive_torque as int * 1000),
                50,
                self.wheel_radius as int,
            );
            lemma_qz_bound(abs_i(drive_torque as int * 1000), 50, 4_000_000_000_000_000);
        }
        let f = drive_torque * 1000;
        if f >= 0 {
            f / self.wheel_radius
        } else {
            -((-f) / self.wheel_radius)
        }
    }
}

/// Half of air density (1.29 kg per cubic metre) times a drag
/// coefficient (scaled by 1000) and a frontal area (square metres,
/// scaled by 1000), in milli-newtons per (m/s) squared.
pub fn c_drag(coefficient: i64, area: i64) -> (r: i64)
    requires
        0 <= coefficient <= 10_000,
        0 <= area <= 100_000,
    ensures
        r == qz(coefficient * area * 1290, 2_000_000),
        0 <= r <= 645_000,
{
    proof {
        lemma_mul_bound(coefficient as int, area as int, 10_000, 100_000);
        lemma_mul_bound(coefficient as int * area as int, 1290, 1_000_000_000, 1290);
        lemma_qz_bound(coefficient as int * area as int * 1290, 2_000_000, 1_290_000_000_000);
    }
    coefficient * area * 1290 / 2_000_000
}

/// A worked example setup: a 1500 kg car with a six-speed gearbox and
/// a 475 N·m engine.
pub fn example() -> (r: CarSetup)
    ensures
        r.wf(),
        r.mass == 1500,
        r.wheel_radius == 340,
        r.drag == 425,
        r.rolling_r == 12750,
        r.brake_force == 14_000_000,
        r.fw_dist == 1000,
        r.rw_dist == 1000,
        r.engine.idle_rpm == 1000,
        r.engine.redline_rpm == 6000,
        r.transmission.efficiency == 750,
        r.transmission.final_drive_ratio == 3420,
        r.transmission.ratios@ =~= seq![2660i64, 1780i64, 1300i64, 1000i64, 740i64, 500i64],
        r.transmission.reverse_ratios@ =~= seq![2900i64],
        r.engine.torque.poly(1000) == 390_000 * r.engine.torque.den,
        r.engine.torque.poly(6000) == 380_000 * r.engine.torque.den,
        r.engine.torque.poly(4600) == 475_000 * r.engine.torque.den,
        r.engine.torque.dpoly(4600) == 0,
{
    let drag = c_drag(300, 2200);
    let ratios: Vec<i64> = vec![2660, 1780, 1300, 1000, 740, 500];
    let reverse_ratios: Vec<i64> = vec![2900];
    let transmission = Transmission {
        ratios,
        reverse_ratios,
        efficiency: 750,
        final_drive_ratio: 3420,
    };
    let engine = Engine {
        idle_rpm: 1000,
        redline_rpm: 6000,
        torque: TorqueCurve::new(1000, 6000, 4600, 475_000, 390_000, 380_000),
    };
    CarSetup {
        fw_dist: 1000,
        rw_dist: 1000,
        drag,
        rolling_r: 30 * drag,
        brake_force: 14_000_000,
        mass: 1500,
        wheel_radius: 340,
        transmission,
        engine,
    }
}

/// Multiplies two fixed-point scalars, rescaling by 1000.
fn mul_div_1000(a: i64, b: i64) -> (r: i64)
    requires
        abs_i(a as int * b as int) <= i64::MAX,
    ensures
        r == qz(a as int * b as int, 1000),
{
    let p = a * b;
    if p >= 0 {
        p / 1000
    } else {
        -((-p) / 1000)
    }
}

} // verus!
