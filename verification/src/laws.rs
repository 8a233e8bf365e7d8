//! Laws of the dynamics model, stated and proved over the same spec
//! functions the executable contracts use.

use vstd::prelude::*;
use crate::fixed::{qz, clamp, abs_i, max_i, min_i, isqrt_spec, wrap_spec, lemma_qz_multiple,
    lemma_qz_bound, lemma_isqrt_unique};
use crate::parts::{TorqueCurve, Engine, Transmission, TORQUE_LIMIT, LEVEL_ONE};
use crate::angle::{dir_spec, sin_spec, cos_spec, half_sine, Vec2};
use crate::car::{Car, Object, step_spec, brake_vec, steer_after, throttle_after, engine_after,
    traction_scalar_of};
use crate::ext::InputState;

verus! {

/// The successor state one step produces, as a car again.
pub open spec fn apply_step(c: Car, inp: InputState) -> Car {
    let o = step_spec(c, inp);
    Car {
        obj: Object { pos: Vec2 { x: o.pos_x as i64, y: o.pos_y as i64 }, rot: o.rot as i64 },
        velocity: Vec2 { x: o.vel_x as i64, y: o.vel_y as i64 },
        setup: c.setup,
        engine_speed: o.engine as i64,
        steering_angle: o.steer as i64,
        brake: o.brake as i64,
        throttle: o.throttle as i64,
        clutch: o.clutch as i64,
        gear: c.gear,
    }
}

/// The state after `k` steps under a constant input.
pub open spec fn run_steps(c: Car, inp: InputState, k: nat) -> Car
    decreases k,
{
    if k == 0 {
        c
    } else {
        run_steps(apply_step(c, inp), inp, (k - 1) as nat)
    }
}

/// A torque curve whose numerator hits a calibration torque at a
/// calibration speed reports exactly that torque there: the fitted
/// cubic reproduces its calibration points.
pub proof fn lemma_curve_hits_calibration(c: TorqueCurve, x: int, t: int)
    requires
        c.wf(),
        c.poly(x) == t * c.den,
        abs_i(t) <= TORQUE_LIMIT as int,
    ensures
        c.value_at(x) == t,
{
    reveal(TorqueCurve::value_at);
    lemma_qz_multiple(t, c.den as int);
    assert(t * c.den == c.den as int * t) by (nonlinear_arith);
}

/// The engine's torque is continuous at idle: within range the curve
/// itself applies, and the below-idle degradation formula evaluated at
/// the idle speed reduces to the curve's idle value.
pub proof fn lemma_torque_continuous_at_idle(e: Engine)
    requires
        e.wf(),
    ensures
        e.torque_at(e.idle_rpm as int) == e.torque.value_at(e.idle_rpm as int),
        qz(
            e.torque.value_at(e.idle_rpm as int) * max_i(
                qz(e.idle_rpm * 1000, e.idle_rpm as int),
                500,
            ),
            1000,
        ) == e.torque.value_at(e.idle_rpm as int),
{
    lemma_qz_multiple(1000, e.idle_rpm as int);
    assert(e.idle_rpm * 1000 == 1000 * e.idle_rpm) by (nonlinear_arith);
    lemma_qz_multiple(e.torque.value_at(e.idle_rpm as int), 1000);
}

/// The engine's torque is continuous at the redline: for the whole
/// 500-RPM window past it the rev-limited torque still equals the
/// curve's redline value, so there is no jump at the boundary.
pub proof fn lemma_torque_continuous_at_redline(e: Engine, r: int)
    requires
        e.wf(),
        e.redline_rpm < r <= e.redline_rpm + 500,
    ensures
        e.torque_at(e.redline_rpm as int) == e.torque.value_at(e.redline_rpm as int),
        e.torque_at(r) == e.torque.value_at(e.redline_rpm as int),
{
    let d = r - e.redline_rpm;
    assert(1 <= d <= 500);
    vstd::arithmetic::div_mod::lemma_div_is_ordered_by_denominator(500_000, d, 500);
    assert(500_000int / 500 == 1000);
    vstd::arithmetic::div_mod::lemma_div_pos_is_pos(500_000, d);
    assert(qz(500_000, d) >= 1000);
    assert(clamp(qz(500_000, d), 0, 1000) == 1000);
    lemma_qz_multiple(e.torque.value_at(e.redline_rpm as int), 1000);
}

/// Past the rev-limiter window the torque fades monotonically: the
/// limiter factor at a higher speed never exceeds the factor at a
/// lower one, and the torque magnitude is bounded by the fading
/// factor.
pub proof fn lemma_torque_fades_past_redline(e: Engine, r1: int, r2: int)
    requires
        e.wf(),
        e.redline_rpm < r1 <= r2,
    ensures
        clamp(qz(500_000, r2 - e.redline_rpm), 0, 1000) <= clamp(
            qz(500_000, r1 - e.redline_rpm),
            0,
            1000,
        ),
        abs_i(e.torque_at(r2)) <= qz(
            TORQUE_LIMIT as int * clamp(qz(500_000, r2 - e.redline_rpm), 0, 1000),
            1000,
        ),
{
    let d1 = r1 - e.redline_rpm;
    let d2 = r2 - e.redline_rpm;
    vstd::arithmetic::div_mod::lemma_div_is_ordered_by_denominator(500_000, d1, d2);
    vstd::arithmetic::div_mod::lemma_div_pos_is_pos(500_000, d1);
    vstd::arithmetic::div_mod::lemma_div_pos_is_pos(500_000, d2);
    let f2 = clamp(qz(500_000, d2), 0, 1000);
    let v = e.torque.value_at(e.redline_rpm as int);
    assert(abs_i(v) <= TORQUE_LIMIT as int) by {
        reveal(TorqueCurve::value_at);
    }
    assert(abs_i(v * f2) <= TORQUE_LIMIT as int * f2) by (nonlinear_arith)
        requires
            abs_i(v) <= TORQUE_LIMIT as int,
            0 <= f2,
    ;
    lemma_qz_bound(v * f2, 1000, TORQUE_LIMIT as int * f2);
    vstd::arithmetic::div_mod::lemma_div_is_ordered(
        abs_i(v * f2),
        TORQUE_LIMIT as int * f2,
        1000,
    );
}

/// Below idle the torque never falls under half the idle value: the
/// degradation factor is floored at one half, modelling
/// stall-adjacent behaviour without a discontinuity.
pub proof fn lemma_torque_floor_below_idle(e: Engine, rpm: int)
    requires
        e.wf(),
        0 <= rpm < e.idle_rpm,
        e.torque.value_at(e.idle_rpm as int) >= 0,
    ensures
        e.torque_at(rpm) >= qz(e.torque.value_at(e.idle_rpm as int) * 500, 1000),
        e.torque_at(rpm) <= e.torque.value_at(e.idle_rpm as int),
{
    let v = e.torque.value_at(e.idle_rpm as int);
    let f = max_i(qz(rpm * 1000, e.idle_rpm as int), 500);
    assert(rpm * 1000 >= 0) by (nonlinear_arith)
        requires
            rpm >= 0,
    ;
    vstd::arithmetic::div_mod::lemma_div_pos_is_pos(rpm * 1000, e.idle_rpm as int);
    assert(rpm * 1000 <= e.idle_rpm as int * 1000) by (nonlinear_arith)
        requires
            rpm <= e.idle_rpm as int,
    ;
    vstd::arithmetic::div_mod::lemma_div_is_ordered(
        rpm * 1000,
        e.idle_rpm as int * 1000,
        e.idle_rpm as int,
    );
    vstd::arithmetic::div_mod::lemma_div_multiples_vanish(1000, e.idle_rpm as int);
    assert(e.idle_rpm as int * 1000 == 1000 * e.idle_rpm as int) by (nonlinear_arith);
    assert(500 <= f <= 1000);
    assert(v * 500 <= v * f <= v * 1000) by (nonlinear_arith)
        requires
            v >= 0,
            500 <= f <= 1000,
    ;
    assert(v * 500 >= 0 && v * f >= 0) by (nonlinear_arith)
        requires
            v >= 0,
            f >= 500,
    ;
    vstd::arithmetic::div_mod::lemma_div_is_ordered(v * 500, v * f, 1000);
    vstd::arithmetic::div_mod::lemma_div_is_ordered(v * f, v * 1000, 1000);
    lemma_qz_multiple(v, 1000);
    assert(v * 1000 == v * 1000);
}

/// Gear ratio symmetry: a forward gear's ratio is positive, the
/// same-numbered reverse gear's ratio is the negated entry of the
/// reverse table, so the two have opposite signs.
pub proof fn lemma_gear_ratio_symmetry(t: Transmission, n: int)
    requires
        t.wf(),
        0 < n <= t.ratios.len(),
        n <= t.reverse_ratios.len(),
    ensures
        t.ratio_of(n) > 0,
        t.ratio_of(-n) == -(t.reverse_ratios[n - 1] as int),
        t.ratio_of(-n) < 0,
        t.ratio_of(n) * t.ratio_of(-n) < 0,
{
    assert(t.ratio_of(n) * t.ratio_of(-n) < 0) by (nonlinear_arith)
        requires
            t.ratio_of(n) > 0,
            t.ratio_of(-n) < 0,
    ;
}

/// One axis of the braking step: the velocity change opposes the
/// component and, scaled by `60 * mass * n`, is bounded by the
/// applied force times the component.
proof fn lemma_brake_axis(a: int, v: int, n: int, m: int)
    requires
        a >= 0,
        n >= 1,
        m >= 1,
        a <= 60 * m * n,
    ensures
        ({
            let u = qz(v * 1000, n);
            let w = qz(a * u, 1000);
            let dv = qz(qz(-w, m), 60);
            &&& v * dv <= 0
            &&& 60 * m * n * (v * dv) >= -(a * (v * v))
        }),
{
    let u = qz(v * 1000, n);
    let w = qz(a * u, 1000);
    let q1 = qz(-w, m);
    let dv = qz(q1, 60);
    let av = abs_i(v);

    // each truncated quotient scales down by its divisor
    lemma_qz_bound(v * 1000, n, abs_i(v * 1000));
    assert(n * abs_i(u) <= abs_i(v * 1000)) by {
        vstd::arithmetic::div_mod::lemma_fundamental_div_mod(abs_i(v * 1000), n);
        vstd::arithmetic::div_mod::lemma_mod_bound(abs_i(v * 1000), n);
    }
    assert(abs_i(v * 1000) == 1000 * av) by (nonlinear_arith)
        requires
            av == abs_i(v),
    ;
    lemma_qz_bound(a * u, 1000, abs_i(a * u));
    assert(1000 * abs_i(w) <= abs_i(a * u)) by {
        vstd::arithmetic::div_mod::lemma_fundamental_div_mod(abs_i(a * u), 1000);
        vstd::arithmetic::div_mod::lemma_mod_bound(abs_i(a * u), 1000);
    }
    lemma_qz_bound(-w, m, abs_i(w));
    assert(m * abs_i(q1) <= abs_i(w)) by {
        vstd::arithmetic::div_mod::lemma_fundamental_div_mod(abs_i(w), m);
        vstd::arithmetic::div_mod::lemma_mod_bound(abs_i(w), m);
    }
    lemma_qz_bound(q1, 60, abs_i(q1));
    assert(60 * abs_i(dv) <= abs_i(q1)) by {
        vstd::arithmetic::div_mod::lemma_fundamental_div_mod(abs_i(q1), 60);
        vstd::arithmetic::div_mod::lemma_mod_bound(abs_i(q1), 60);
    }

    // chain the four bounds into 60 * m * n * |dv| <= a * |v|
    assert(abs_i(a * u) == a * abs_i(u)) by (nonlinear_arith)
        requires
            a >= 0,
    ;
    assert(m * (60 * abs_i(dv)) <= m * abs_i(q1)) by (nonlinear_arith)
        requires
            60 * abs_i(dv) <= abs_i(q1),
            m >= 1,
    ;
    assert(1000 * (m * (60 * abs_i(dv))) <= 1000 * abs_i(w)) by (nonlinear_arith)
        requires
            m * (60 * abs_i(dv)) <= abs_i(w),
    ;
    assert(n * (1000 * (m * (60 * abs_i(dv)))) <= n * (a * abs_i(u))) by (nonlinear_arith)
        requires
            1000 * (m * (60 * abs_i(dv))) <= a * abs_i(u),
            n >= 1,
    ;
    assert(n * (a * abs_i(u)) == a * (n * abs_i(u))) by (nonlinear_arith);
    assert(a * (n * abs_i(u)) <= a * (1000 * av)) by (nonlinear_arith)
        requires
            n * abs_i(u) <= 1000 * av,
            a >= 0,
    ;
    assert(n * (1000 * (m * (60 * abs_i(dv)))) == 1000 * (60 * m * n * abs_i(dv)))
        by (nonlinear_arith);
    assert(a * (1000 * av) == 1000 * (a * av)) by (nonlinear_arith);
    assert(60 * m * n * abs_i(dv) <= a * av);

    // the change has the opposite sign of the component
    lemma_qz_bound(v * 1000, n, abs_i(v * 1000));
    if v >= 0 {
        assert(v * 1000 >= 0) by (nonlinear_arith)
            requires
                v >= 0,
        ;
        assert(u >= 0);
        assert(a * u >= 0) by (nonlinear_arith)
            requires
                a >= 0,
                u >= 0,
        ;
        assert(w >= 0 && -w <= 0 && q1 <= 0 && dv <= 0);
        assert(v * dv <= 0) by (nonlinear_arith)
            requires
                v >= 0,
                dv <= 0,
        ;
    } else {
        assert(v * 1000 < 0) by (nonlinear_arith)
            requires
                v < 0,
        ;
        assert(u <= 0);
        assert(a * u <= 0) by (nonlinear_arith)
            requires
                a >= 0,
                u <= 0,
        ;
        assert(w <= 0 && -w >= 0 && q1 >= 0 && dv >= 0);
        assert(v * dv <= 0) by (nonlinear_arith)
            requires
                v < 0,
                dv >= 0,
        ;
    }

    // multiply by |v| to get the scaled bound on v * dv
    assert(av * (60 * m * n * abs_i(dv)) <= av * (a * av)) by (nonlinear_arith)
        requires
            60 * m * n * abs_i(dv) <= a * av,
            av >= 0,
    ;
    assert(60 * m * n * (v * dv) == -(av * (60 * m * n * abs_i(dv))) || v * dv == 0)
        by (nonlinear_arith)
        requires
            v * dv <= 0,
            av == abs_i(v),
            (v >= 0 && dv <= 0) || (v < 0 && dv >= 0),
    ;
    assert(av * (a * av) == a * (v * v)) by (nonlinear_arith)
        requires
            av == abs_i(v),
    ;
    if v * dv == 0 {
        assert(60 * m * n * (v * dv) == 0) by (nonlinear_arith)
            requires
                v * dv == 0,
        ;
        assert(a * (v * v) >= 0) by (nonlinear_arith)
            requires
                a >= 0,
        ;
    }
}

/// Braking alone never reverses the direction of travel: for any
/// nonzero velocity and any brake level, the velocity change one step
/// of braking causes opposes the motion but never overshoots it,
/// provided the configured brake force is within the envelope
/// `bf <= 60000 * mass` under which the stopping cap is effective.
/// With a stronger configured force and speeds above 1 m/s the capped
/// formula itself can overshoot; that input is excluded here.
pub proof fn lemma_brake_no_reverse(
    bf: int,
    b: int,
    vx: int,
    vy: int,
    mass: int,
    sf: int,
    ss: int,
)
    requires
        1 <= mass <= 1_000_000,
        0 <= b <= LEVEL_ONE,
        0 <= bf <= 60_000 * mass,
        vx != 0 || vy != 0,
    ensures
        ({
            let f = brake_vec(bf, b, vx, vy, sf, ss, mass);
            let dvx = qz(qz(f.0, mass), 60);
            let dvy = qz(qz(f.1, mass), 60);
            &&& vx * (vx + dvx) + vy * (vy + dvy) >= 0
            &&& vx * (vx + dvx) >= 0
            &&& vy * (vy + dvy) >= 0
        }),
{
    let q2 = vx * vx + vy * vy;
    assert(vx * vx >= 0 && vy * vy >= 0 && q2 >= 1) by (nonlinear_arith)
        requires
            q2 == vx * vx + vy * vy,
            vx != 0 || vy != 0,
    ;
    let n = isqrt_spec(q2);
    crate::fixed::lemma_isqrt_bounds(q2);
    assert(n >= 1) by {
        if n == 0 {
            assert((n + 1) * (n + 1) == 1) by (nonlinear_arith)
                requires
                    n == 0,
            ;
        }
    }
    if sf != 0 || ss != 0 {
        let desired = qz(bf * b, LEVEL_ONE as int);
        let cap = qz(q2, 1000) * mass * 60;
        let applied = min_i(desired, cap);

        // the desired force is within the configured envelope
        assert(bf * b <= (60_000 * mass) * LEVEL_ONE as int && bf * b >= 0) by (nonlinear_arith)
            requires
                0 <= bf <= 60_000 * mass,
                0 <= b <= LEVEL_ONE as int,
        ;
        assert((60_000 * mass) * LEVEL_ONE as int == (60_000 * LEVEL_ONE as int) * mass)
            by (nonlinear_arith);
        lemma_qz_bound(bf * b, LEVEL_ONE as int, (60_000 * LEVEL_ONE as int) * mass);
        vstd::arithmetic::div_mod::lemma_div_is_ordered(
            bf * b,
            (60_000 * LEVEL_ONE as int) * mass,
            LEVEL_ONE as int,
        );
        lemma_qz_multiple(60_000 * mass, LEVEL_ONE as int);
        assert(desired <= 60_000 * mass);

        // in both branches of the cap, applied <= 60 * mass * n
        vstd::arithmetic::div_mod::lemma_div_pos_is_pos(q2, 1000);
        if n >= 1000 {
            assert(60_000 * mass <= 60 * mass * n) by (nonlinear_arith)
                requires
                    n >= 1000,
                    mass >= 1,
            ;
            assert(applied <= 60 * mass * n);
        } else {
            assert(q2 <= 1000 * n + 999) by (nonlinear_arith)
                requires
                    q2 < (n + 1) * (n + 1),
                    1 <= n < 1000,
            ;
            vstd::arithmetic::div_mod::lemma_fundamental_div_mod_converse_div(
                1000 * n + 999,
                1000,
                n,
                999,
            );
            vstd::arithmetic::div_mod::lemma_div_is_ordered(q2, 1000 * n + 999, 1000);
            assert(qz(q2, 1000) <= n);
            assert(qz(q2, 1000) * mass * 60 <= 60 * mass * n) by (nonlinear_arith)
                requires
                    0 <= qz(q2, 1000) <= n,
                    mass >= 1,
            ;
            assert(applied <= 60 * mass * n);
        }
        assert(cap >= 0) by (nonlinear_arith)
            requires
                cap == qz(q2, 1000) * mass * 60,
                qz(q2, 1000) >= 0,
                mass >= 1,
        ;
        assert(applied >= 0);

        // each axis opposes its component without overshooting it
        lemma_brake_axis(applied, vx, n, mass);
        lemma_brake_axis(applied, vy, n, mass);
        let dvx = qz(qz(-qz(applied * qz(vx * 1000, n), 1000), mass), 60);
        let dvy = qz(qz(-qz(applied * qz(vy * 1000, n), 1000), mass), 60);
        assert(60 * mass * n >= 1) by (nonlinear_arith)
            requires
                mass >= 1,
                n >= 1,
        ;

        // each axis alone keeps its sign
        assert(applied * (vx * vx) <= (60 * mass * n) * (vx * vx)) by (nonlinear_arith)
            requires
                0 <= applied <= 60 * mass * n,
                vx * vx >= 0,
        ;
        assert((60 * mass * n) * ((vx * vx) + (vx * dvx)) >= 0) by (nonlinear_arith)
            requires
                60 * mass * n * (vx * dvx) >= -(applied * (vx * vx)),
                applied * (vx * vx) <= (60 * mass * n) * (vx * vx),
        ;
        assert((vx * vx) + (vx * dvx) >= 0) by (nonlinear_arith)
            requires
                (60 * mass * n) * ((vx * vx) + (vx * dvx)) >= 0,
                60 * mass * n >= 1,
        ;
        assert(vx * (vx + dvx) == vx * vx + vx * dvx) by (nonlinear_arith);
        assert(applied * (vy * vy) <= (60 * mass * n) * (vy * vy)) by (nonlinear_arith)
            requires
                0 <= applied <= 60 * mass * n,
                vy * vy >= 0,
        ;
        assert((60 * mass * n) * ((vy * vy) + (vy * dvy)) >= 0) by (nonlinear_arith)
            requires
                60 * mass * n * (vy * dvy) >= -(applied * (vy * vy)),
                applied * (vy * vy) <= (60 * mass * n) * (vy * vy),
        ;
        assert((vy * vy) + (vy * dvy) >= 0) by (nonlinear_arith)
            requires
                (60 * mass * n) * ((vy * vy) + (vy * dvy)) >= 0,
                60 * mass * n >= 1,
        ;
        assert(vy * (vy + dvy) == vy * vy + vy * dvy) by (nonlinear_arith);

        assert(60 * mass * n * (vx * dvx) + 60 * mass * n * (vy * dvy) >= -(applied * (vx * vx))
            - (applied * (vy * vy)));
        assert(applied * (vx * vx) + applied * (vy * vy) == applied * q2) by (nonlinear_arith)
            requires
                q2 == vx * vx + vy * vy,
        ;
        assert(applied * q2 <= (60 * mass * n) * q2) by (nonlinear_arith)
            requires
                0 <= applied <= 60 * mass * n,
                q2 >= 1,
        ;
        assert(60 * mass * n * (vx * dvx) + 60 * mass * n * (vy * dvy) == (60 * mass * n) * (vx
            * dvx + vy * dvy)) by (nonlinear_arith);
        assert((60 * mass * n) * (vx * dvx + vy * dvy) >= -(applied * q2));
        assert(-(applied * q2) >= -((60 * mass * n) * q2));
        assert(60 * mass * n >= 1) by (nonlinear_arith)
            requires
                mass >= 1,
                n >= 1,
        ;
        assert((60 * mass * n) * (q2 + (vx * dvx + vy * dvy)) >= 0) by (nonlinear_arith)
            requires
                (60 * mass * n) * (vx * dvx + vy * dvy) >= -((60 * mass * n) * q2),
        ;
        assert(q2 + (vx * dvx + vy * dvy) >= 0) by (nonlinear_arith)
            requires
                (60 * mass * n) * (q2 + (vx * dvx + vy * dvy)) >= 0,
                60 * mass * n >= 1,
        ;
        assert(vx * (vx + dvx) + vy * (vy + dvy) == q2 + (vx * dvx + vy * dvy))
            by (nonlinear_arith)
            requires
                q2 == vx * vx + vy * vy,
        ;
    } else {
        vstd::arithmetic::div_mod::lemma_div_multiples_vanish(0, mass);
        assert(mass * 0 == 0) by (nonlinear_arith);
        assert(qz(0, mass) == 0);
        assert(qz(0, 60) == 0);
        assert(vx * (vx + 0) + vy * (vy + 0) >= 0) by (nonlinear_arith);
        assert(vx * (vx + 0) >= 0 && vy * (vy + 0) >= 0) by (nonlinear_arith);
    }
}

/// A whole braking step never reverses the forward velocity: with
/// the heading along the first axis, no steering input, neutral gear
/// and no aerodynamic drag, braking is the only forward force one
/// step applies, and the forward component keeps its sign, for any
/// brake level and pedal input.
pub proof fn lemma_step_brake_no_reverse(c: Car, inp: InputState)
    requires
        c.setup.wf(),
        c.setup.brake_force <= 60_000 * c.setup.mass,
        c.setup.drag == 0,
        c.gear == 0,
        c.obj.rot == 0,
        c.steering_angle == 0,
        inp.left == inp.right,
        0 <= c.brake <= LEVEL_ONE,
        c.velocity.x != 0,
    ensures
        c.velocity.x * step_spec(c, inp).vel_x >= 0,
{
    let vx = c.velocity.x as int;
    let vy = c.velocity.y as int;
    let m = c.setup.mass as int;
    let bf = c.setup.brake_force as int;

    // the heading axis is exactly (1000, 0), its side axis (0, -1000)
    assert(wrap_spec(0int + 0) == 0);
    assert(sin_spec(0) == 0) by {
        assert(half_sine(0) == qz(0int * 30000, 4_500_000_000 - 4 * (0int * 30000)));
    }
    assert(cos_spec(0) == 1000) by {
        assert(wrap_spec(0int + 15000) == 15000);
        assert(15000int * (30000 - 15000) == 225_000_000) by (nonlinear_arith);
        assert(16000int * 225_000_000 == 1000 * 3_600_000_000) by (nonlinear_arith);
        lemma_qz_multiple(1000, 3_600_000_000);
        assert(half_sine(15000) == 1000);
    }

    // projections reduce to the raw components
    assert(vx * 1000 + vy * 0 == vx * 1000 && vx * 0 + vy * (-1000) == (-vy) * 1000)
        by (nonlinear_arith);
    lemma_qz_multiple(vx, 1000);
    lemma_qz_multiple(-vy, 1000);
    let sf = qz(vx * 1000 + vy * 0, 1000);
    let ss = qz(vx * 0 + vy * (-1000), 1000);
    assert(sf == vx && ss == -vy);

    // in neutral the traction vector's forward component is zero
    assert(0int * 1000 == 0) by (nonlinear_arith);
    assert(qz(0, 1000) == 0);

    // with a zero drag factor the drag force is zero
    let n = isqrt_spec(vx * vx + vy * vy);
    assert(0 * n == 0 && 0 * vx == 0 && 0 * vy == 0) by (nonlinear_arith);

    // the grip force acts only sideways
    assert(ss * 0 == 0) by (nonlinear_arith);
    assert(0 * m == 0) by (nonlinear_arith);

    // the brake level after the ramp stays a level
    let b1 = crate::car::brake_after(c.brake as int, inp.down != 0);
    assert(0 <= b1 <= LEVEL_ONE as int);

    // braking is the whole forward force, and it cannot overshoot
    lemma_brake_no_reverse(bf, b1, vx, vy, m, sf, ss);
    let f = brake_vec(bf, b1, vx, vy, sf, ss, m);
    let dvx = qz(qz(f.0, m), 60);
    assert(vx * (vx + dvx) >= 0);
    assert(step_spec(c, inp).vel_x == vx + dvx);
}

/// Idle stabilisation: in neutral with a closed throttle and no
/// accelerator input, an engine at idle speed stays exactly at idle
/// speed, and the throttle stays closed.
pub proof fn lemma_idle_stabilization(c: Car, inp: InputState)
    requires
        c.setup.wf(),
        c.gear == 0,
        c.throttle == 0,
        inp.up == 0,
        c.engine_speed == c.setup.engine.idle_rpm * 1000,
    ensures
        step_spec(c, inp).engine == c.setup.engine.idle_rpm * 1000,
        step_spec(c, inp).throttle == 0,
{
    let idle_m = c.setup.engine.idle_rpm * 1000;
    let t1 = throttle_after(
        c.throttle as int,
        inp.up != 0,
        c.engine_speed as int,
        c.setup.engine.redline_rpm as int,
    );
    assert(t1 == 0);
    let tq = c.setup.engine.torque_at(qz(c.engine_speed as int, 1000));
    assert(0 * tq == 0) by (nonlinear_arith);
    assert(qz(0, 18000) == 0);
    assert(engine_after(c, 0, 0) == max_i(idle_m - 16666, idle_m as int));
}

/// Idle stabilisation over any number of steps: the engine speed
/// never drifts below (or above) idle while the car idles in neutral.
pub proof fn lemma_idle_stabilization_n(c: Car, inp: InputState, k: nat)
    requires
        c.setup.wf(),
        c.gear == 0,
        c.throttle == 0,
        inp.up == 0,
        c.engine_speed == c.setup.engine.idle_rpm * 1000,
    ensures
        run_steps(c, inp, k).engine_speed == c.setup.engine.idle_rpm * 1000,
        run_steps(c, inp, k).throttle == 0,
    decreases k,
{
    if k > 0 {
        lemma_idle_stabilization(c, inp);
        let c1 = apply_step(c, inp);
        assert(c.setup.engine.idle_rpm * 1000 <= 30_000_000);
        assert(c1.engine_speed == c.setup.engine.idle_rpm * 1000);
        assert(c1.throttle == 0 && c1.gear == 0 && c1.setup == c.setup);
        lemma_idle_stabilization_n(c1, inp, (k - 1) as nat);
    }
}

/// Idling is a true fixed point: a car at rest in neutral, pedals
/// released, steering centred and the clutch open is unchanged by a
/// step without input, in every field.
pub proof fn lemma_idle_fixed_point(c: Car, inp: InputState)
    requires
        c.setup.wf(),
        c.gear == 0,
        c.throttle == 0,
        c.brake == 0,
        c.steering_angle == 0,
        c.velocity.x == 0,
        c.velocity.y == 0,
        0 <= c.obj.rot < 60000,
        c.clutch == LEVEL_ONE,
        c.engine_speed == c.setup.engine.idle_rpm * 1000,
        inp.up == 0,
        inp.down == 0,
        inp.left == inp.right,
    ensures
        apply_step(c, inp) == c,
{
    let rot = c.obj.rot as int;
    let idle_m = c.setup.engine.idle_rpm * 1000;
    let m = c.setup.mass as int;

    // the heading is unchanged by a zero steering angle
    vstd::arithmetic::div_mod::lemma_small_mod(c.obj.rot as nat, 60000nat);
    assert(wrap_spec(rot + 0) == rot);
    let ang = dir_spec(rot);

    // at rest every projection, force term and displacement is zero
    assert(0 * ang.0 == 0 && 0 * ang.1 == 0 && 0 * (-ang.0) == 0) by (nonlinear_arith);
    assert(qz(0, 1000) == 0);
    let sf = 0int;
    let ss = 0int;

    let wb = c.setup.rw_dist + c.setup.fw_dist;
    assert(sin_spec(wrap_spec(0)) * 0 == 0 && 0 * sin_spec(wrap_spec(0)) == 0 && 0 * (
    crate::car::ANGLE_PER_RAD_SCALED as int) == 0) by (nonlinear_arith);
    assert(wb as int * 600_000 > 0);
    vstd::arithmetic::div_mod::lemma_div_multiples_vanish(0, wb as int * 600_000);
    assert((wb as int * 600_000) * 0 == 0) by (nonlinear_arith);
    assert(qz(0, wb as int * 600_000) == 0);

    assert(sin_spec(0) == 0) by {
        assert(half_sine(0) == qz(0int * 30000, 4_500_000_000 - 4 * (0int * 30000)));
    }
    assert(cos_spec(0) == 1000) by {
        assert(wrap_spec(0int + 15000) == 15000);
        assert(15000int * (30000 - 15000) == 225_000_000) by (nonlinear_arith);
        assert(16000int * 225_000_000 == 1000 * 3_600_000_000) by (nonlinear_arith);
        lemma_qz_multiple(1000, 3_600_000_000);
        assert(half_sine(15000) == 1000);
    }
    let dirv = dir_spec(rot);
    assert(0 * dirv.1 == 0 && 0 * dirv.0 == 0 && 0 * (-dirv.0) == 0 && (1000 - 1000) * dirv.0 == 0
        && (1000 - 1000) * dirv.1 == 0) by (nonlinear_arith);
    assert(c.setup.rw_dist as int * 0 == 0) by (nonlinear_arith);

    // the gear train is idle in neutral
    assert(c.setup.engine.idle_rpm * 1000 < c.setup.engine.redline_rpm * 1000);
    assert(0 * c.setup.transmission.ratio_of(0) == 0) by (nonlinear_arith);
    assert(0 * c.setup.transmission.final_drive_ratio == 0 && 0 * (
    crate::parts::RAD_S_TO_RPM_SCALED as int) == 0) by (nonlinear_arith);
    assert(c.setup.wheel_radius as int * 10 > 0);
    vstd::arithmetic::div_mod::lemma_div_multiples_vanish(0, c.setup.wheel_radius as int * 10);
    assert((c.setup.wheel_radius as int * 10) * 0 == 0) by (nonlinear_arith);
    assert(qz(0, c.setup.wheel_radius as int * 10) == 0);
    assert(c.setup.engine_rpm_at(0, 0) == idle_m);

    // no force at all: drag, grip and brake vanish with the velocity
    assert(0int * 0 == 0) by (nonlinear_arith);
    assert(isqrt_spec(0) == 0);
    assert(c.setup.drag as int * 0 == 0) by (nonlinear_arith);
    assert(0 * m == 0 && 0 * m * 60 == 0) by (nonlinear_arith);
    vstd::arithmetic::div_mod::lemma_div_multiples_vanish(0, m);
    assert(m * 0 == 0) by (nonlinear_arith);
    assert(qz(0, m) == 0);
    assert(qz(0, 60) == 0 && qz(0, 7200) == 0 && qz(0, 18000) == 0 && qz(0, 2) == 0);

    // the engine holds exactly at idle and keeps the clutch open
    let tq = c.setup.engine.torque_at(qz(c.engine_speed as int, 1000));
    assert(0 * tq == 0) by (nonlinear_arith);
    assert(engine_after(c, 0, 0) == idle_m);

    assert(apply_step(c, inp) == c);
}

/// Idling is a fixed point over any number of steps.
pub proof fn lemma_idle_fixed_point_n(c: Car, inp: InputState, k: nat)
    requires
        c.setup.wf(),
        c.gear == 0,
        c.throttle == 0,
        c.brake == 0,
        c.steering_angle == 0,
        c.velocity.x == 0,
        c.velocity.y == 0,
        0 <= c.obj.rot < 60000,
        c.clutch == LEVEL_ONE,
        c.engine_speed == c.setup.engine.idle_rpm * 1000,
        inp.up == 0,
        inp.down == 0,
        inp.left == inp.right,
    ensures
        run_steps(c, inp, k) == c,
    decreases k,
{
    if k > 0 {
        lemma_idle_fixed_point(c, inp);
        lemma_idle_fixed_point_n(c, inp, (k - 1) as nat);
    }
}

/// Lateral no-slip: with the heading along the first axis, no
/// steering input, no brake and no aerodynamic drag, one step cancels
/// the whole sideways velocity component exactly, and the heading does
/// not move.
pub proof fn lemma_lateral_no_slip(c: Car, inp: InputState)
    requires
        c.setup.wf(),
        c.gear == 0,
        c.obj.rot == 0,
        c.steering_angle == 0,
        inp.left == inp.right,
        inp.down == 0,
        c.brake == 0,
        c.setup.drag == 0,
    ensures
        step_spec(c, inp).vel_y == 0,
        step_spec(c, inp).rot == 0,
{
    let vx = c.velocity.x as int;
    let vy = c.velocity.y as int;
    let m = c.setup.mass as int;

    // the heading axis is exactly (1000, 0), its side axis (0, -1000)
    assert(wrap_spec(0int + 0) == 0);
    assert(sin_spec(0) == 0) by {
        assert(half_sine(0) == qz(0int * 30000, 4_500_000_000 - 4 * (0int * 30000)));
    }
    assert(cos_spec(0) == 1000) by {
        assert(wrap_spec(0int + 15000) == 15000);
        assert(15000int * (30000 - 15000) == 225_000_000) by (nonlinear_arith);
        assert(16000int * 225_000_000 == 1000 * 3_600_000_000) by (nonlinear_arith);
        lemma_qz_multiple(1000, 3_600_000_000);
        assert(half_sine(15000) == 1000);
    }
    let ang = dir_spec(0);
    assert(ang == (1000int, 0int));
    let side = (0int, -1000int);

    // projections reduce to the raw components
    assert(vx * 1000 + vy * 0 == vx * 1000 && vx * 0 + vy * (-1000) == (-vy) * 1000)
        by (nonlinear_arith);
    lemma_qz_multiple(vx, 1000);
    let sf = qz(vx * 1000 + vy * 0, 1000);
    assert(sf == vx);
    lemma_qz_multiple(-vy, 1000);
    let ss = qz(vx * 0 + vy * (-1000), 1000);
    assert(ss == -vy);

    // no steering input leaves the steering angle and the heading
    let hor = crate::ext::signum(inp.right as int - inp.left as int);
    assert(hor == 0);
    let steer1 = steer_after(0, 0);
    assert(steer1 == 0);
    assert(sin_spec(wrap_spec(0)) == 0);
    assert(sf * 0 == 0 && 0 * (crate::car::ANGLE_PER_RAD_SCALED as int) == 0)
        by (nonlinear_arith);
    let wb = c.setup.rw_dist + c.setup.fw_dist;
    assert(wb * 600_000 > 0);
    lemma_qz_multiple(0, wb as int * 600_000);
    assert(0 * (wb as int * 600_000) == 0) by (nonlinear_arith);
    assert(qz(0, wb as int * 600_000) == 0);
    assert(step_spec(c, inp).rot == wrap_spec(0int + 0));

    // in neutral the traction vector is zero
    let tsc = traction_scalar_of(c, step_spec(c, inp).throttle, sf, c.setup.engine_rpm_at(sf, 0));
    assert(tsc == 0);
    assert(0 * 0 == 0 && 0 * 1000 == 0) by (nonlinear_arith);
    assert(qz(0, 1000) == 0);

    // with a zero drag factor the drag force is zero
    let n = isqrt_spec(vx * vx + vy * vy);
    assert(0 * n == 0) by (nonlinear_arith);
    assert(0 * vx == 0 && 0 * vy == 0) by (nonlinear_arith);

    // with a zero level the brake force is zero
    let b1 = crate::car::brake_after(0, false);
    assert(b1 == 0);
    let bf = c.setup.brake_force as int;
    assert(bf * 0 == 0) by (nonlinear_arith);
    assert(qz(0, LEVEL_ONE as int) == 0);
    let q2 = vx * vx + vy * vy;
    assert(q2 >= 0) by (nonlinear_arith)
        requires
            q2 == vx * vx + vy * vy,
    ;
    vstd::arithmetic::div_mod::lemma_div_pos_is_pos(q2, 1000);
    let cap = qz(q2, 1000) * m * 60;
    assert(cap >= 0) by (nonlinear_arith)
        requires
            cap == qz(q2, 1000) * m * 60,
            qz(q2, 1000) >= 0,
            m >= 1,
    ;
    assert(min_i(0, cap) == 0);
    assert(0 * qz(vx * 1000, n) == 0 && 0 * qz(vy * 1000, n) == 0) by (nonlinear_arith);

    // the grip force cancels the sideways speed exactly
    assert(ss * 0 == 0) by (nonlinear_arith);
    assert(ss * (-1000) == (-ss) * 1000) by (nonlinear_arith);
    lemma_qz_multiple(-ss, 1000);
    let gy = -(qz(ss * (-1000), 1000) * m * 60);
    assert(gy == -((-ss) * m * 60));

    // integration: the sideways acceleration removes the sideways
    // speed in exactly one step
    let toty = 0 + 0 + gy + 0;
    assert(-((-ss) * m * 60) == ((-60) * (-ss)) * m) by (nonlinear_arith);
    lemma_qz_multiple((-60) * (-ss), m);
    let accy = qz(toty, m);
    assert(accy == (-60) * (-ss));
    assert((-60) * (-ss) == (-(-ss)) * 60) by (nonlinear_arith);
    lemma_qz_multiple(-(-ss), 60);
    assert(qz(accy, 60) == -(-ss));
    assert(vy + qz(accy, 60) == 0);
}

} // verus!
