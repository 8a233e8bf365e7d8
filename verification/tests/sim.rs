use car_dynamics::angle::{cos_milli, sin_milli, Vec2};
use car_dynamics::car::{Car, ClutchState, Object};
use car_dynamics::ext::{BoolExt, FloatExt, InputState, MouseDown};
use car_dynamics::fixed::{div_tz, isqrt64, wrap_angle};
use car_dynamics::parts::{c_drag, example, GearDisp, TorqueCurve};

fn idle_input() -> InputState {
    InputState {
        up: 0,
        down: 0,
        left: 0,
        right: 0,
    }
}

#[test]
fn torque_curve_hits_calibration_points() {
    let setup = example();
    let curve = setup.engine.torque;
    assert_eq!(curve.get_value(1000), 390_000);
    assert_eq!(curve.get_value(6000), 380_000);
    assert_eq!(curve.get_value(4600), 475_000);
}

#[test]
fn torque_curve_peak_is_local_maximum() {
    let curve = setup_curve();
    let at_peak = curve.get_value(4600);
    assert!(curve.get_value(4550) <= at_peak);
    assert!(curve.get_value(4650) <= at_peak);
    assert!(curve.get_value(3000) < at_peak);
    assert!(curve.get_value(6000) < at_peak);
}

fn setup_curve() -> TorqueCurve {
    example().engine.torque
}

#[test]
fn engine_torque_below_idle_degrades() {
    let setup = example();
    let engine = setup.engine;
    // at half idle speed the factor already floors at one half
    assert_eq!(engine.get_torque(500), 195_000);
    assert_eq!(engine.get_torque(0), 195_000);
    // no jump at the idle boundary
    assert_eq!(engine.get_torque(1000), 390_000);
}

#[test]
fn engine_torque_rev_limiter_window() {
    let setup = example();
    let engine = setup.engine;
    // within 500 RPM past redline the redline torque still applies
    assert_eq!(engine.get_torque(6250), 380_000);
    assert_eq!(engine.get_torque(6500), 380_000);
    // beyond the window it fades: 500/1000 of the redline torque
    assert_eq!(engine.get_torque(7000), 190_000);
    // and keeps falling monotonically
    assert!(engine.get_torque(8000) < engine.get_torque(7000));
}

#[test]
fn engine_and_power_formula() {
    let setup = example();
    let (torque, power) = setup.engine.and_power(4600);
    assert_eq!(torque, 475_000);
    assert_eq!(power, 475_000i64 * 4600 / 7121);
}

#[test]
fn peak_power_dominates_samples() {
    let curve = setup_curve();
    let (rpm, power) = curve.peak_power();
    assert!((0..=30000).contains(&rpm));
    assert_eq!(power, curve.get_value(rpm) * rpm / 7121);
    for probe in [1000, 4600, 5000, 6000, 6500] {
        assert!(curve.get_value(probe) * probe <= curve.get_value(rpm) * rpm);
    }
}

#[test]
fn gear_ratio_table() {
    let setup = example();
    let t = &setup.transmission;
    assert_eq!(t.get_gear_ratio(0), 0);
    assert_eq!(t.get_gear_ratio(1), 2660);
    assert_eq!(t.get_gear_ratio(6), 500);
    assert_eq!(t.get_gear_ratio(-1), -2900);
}

#[test]
fn gear_ratio_reverse_opposes_forward() {
    let setup = example();
    let t = &setup.transmission;
    let fwd = t.get_gear_ratio(1);
    let rev = t.get_gear_ratio(-1);
    assert!(fwd > 0 && rev < 0);
}

#[test]
fn drive_torque_chain() {
    let setup = example();
    let t = &setup.transmission;
    // 100 N·m through 1st gear: 100 * 2.66 * 3.42 * 0.75
    let out = t.get_drive_torque(100_000, 1);
    assert_eq!(out, 100_000i64 * 2660 / 1000 * 3420 / 1000 * 750 / 1000);
    // reverse inverts the sign
    assert!(t.get_drive_torque(100_000, -1) < 0);
}

#[test]
fn gear_display_labels() {
    let setup = example();
    let t = &setup.transmission;
    assert_eq!(t.display(0).text(), "N");
    assert_eq!(t.display(3).text(), "3");
    assert_eq!(t.display(-1).text(), "R");
    let many_reverse = car_dynamics::parts::Transmission {
        ratios: vec![2660],
        reverse_ratios: vec![2900, 3100],
        final_drive_ratio: 3420,
        efficiency: 750,
    };
    assert_eq!(many_reverse.display(-2).text(), "R2");
    assert_eq!(GearDisp::G(123).text(), "123");
}

#[test]
fn input_state_axes() {
    let mut i = InputState::new();
    assert_eq!(i.hor(), 0);
    assert_eq!(i.ver(), 0);
    assert!(!i.acltr() && !i.brk());
    i.right = 2;
    i.left = 1;
    i.up = 1;
    assert_eq!(i.hor(), 1);
    assert!(i.acltr());
    i.left = 3;
    i.down = 1;
    assert_eq!(i.hor(), -1);
    assert_eq!(i.ver(), 0);
    assert!(i.brk());
}

#[test]
fn bool_toggle() {
    let mut b = false;
    b.toggle();
    assert!(b);
    b.toggle();
    assert!(!b);
}

#[test]
fn scalar_caps() {
    let mut x: i64 = 2900;
    x.cap_add(200, 3000);
    assert_eq!(x, 3000);
    x.cap_sub(400, 0);
    assert_eq!(x, 2600);
    let mut y: i64 = 100;
    y.cap_sub(400, 0);
    assert_eq!(y, 0);
}

#[test]
fn mouse_down_starts_clear() {
    let m = MouseDown::new();
    assert!(!m.left && !m.middle && !m.right);
}

#[test]
fn fixed_point_helpers() {
    assert_eq!(isqrt64(0), 0);
    assert_eq!(isqrt64(1), 1);
    assert_eq!(isqrt64(999_999), 999);
    assert_eq!(isqrt64(1_000_000), 1000);
    assert_eq!(div_tz(-7, 2), -3);
    assert_eq!(wrap_angle(-1000), 59000);
    assert_eq!(wrap_angle(61000), 1000);
}

#[test]
fn trig_cardinal_points() {
    assert_eq!(sin_milli(0), 0);
    assert_eq!(sin_milli(15000), 1000);
    assert_eq!(sin_milli(30000), 0);
    assert_eq!(sin_milli(45000), -1000);
    assert_eq!(cos_milli(0), 1000);
    assert_eq!(cos_milli(30000), -1000);
}

#[test]
fn car_starts_at_idle_in_neutral() {
    let car = Car::new(0, 0);
    assert_eq!(car.engine_speed, 1_000_000);
    assert_eq!(car.gear, 0);
    assert_eq!(car.throttle, 0);
    assert_eq!(car.clutch, 3000);
    assert!(matches!(car.clutch_state(), ClutchState::Open));
    assert_eq!(car.velocity, Vec2 { x: 0, y: 0 });
}

#[test]
fn object_keeps_position() {
    let o = Object::new(Vec2 { x: 7, y: -9 });
    assert_eq!(o.pos.x, 7);
    assert_eq!(o.pos.y, -9);
    assert_eq!(o.rot, 0);
}

#[test]
fn idle_engine_never_drifts() {
    let mut car = Car::new(0, 0);
    let input = idle_input();
    for _ in 0..100 {
        car.update(&input);
        assert_eq!(car.engine_speed, 1_000_000);
        assert_eq!(car.throttle, 0);
        assert_eq!(car.velocity, Vec2 { x: 0, y: 0 });
    }
}

#[test]
fn lateral_speed_cancelled_in_one_step() {
    let mut car = Car::new(0, 0);
    car.velocity = Vec2 { x: 2000, y: 500 };
    car.update(&idle_input());
    assert_eq!(car.velocity.y, 0);
}

#[test]
fn braking_stops_but_never_reverses() {
    let mut car = Car::new(0, 0);
    car.velocity = Vec2 { x: 300, y: 0 };
    car.brake = 3000;
    let mut input = idle_input();
    input.down = 1;
    car.update(&input);
    // the cap removes |v| squared over 1000 per step, never more
    assert_eq!(car.velocity.x, 210);
    for _ in 0..200 {
        car.update(&input);
        assert!(car.velocity.x >= 0);
    }
}

#[test]
fn brake_force_zero_at_rest() {
    let mut car = Car::new(0, 0);
    let mut input = idle_input();
    input.down = 1;
    let forces = car.update(&input);
    assert_eq!(forces.brake, Vec2 { x: 0, y: 0 });
    assert_eq!(forces.drag, Vec2 { x: 0, y: 0 });
}

#[test]
fn drag_opposes_motion() {
    let mut car = Car::new(0, 0);
    car.velocity = Vec2 { x: 10_000, y: 0 };
    let forces = car.update(&idle_input());
    assert!(forces.drag.x < 0);
    assert_eq!(forces.drag.y, 0);
}

#[test]
fn open_clutch_revs_with_the_neutral_term() {
    // in gear with the clutch fully open, no force reaches the wheels
    // and the engine revs freely with the same driving term as
    // neutral: throttle * torque / (0.1 s time constant)
    let mut car = Car::new(0, 0);
    car.gear = 1;
    car.clutch = 3000;
    let mut input = idle_input();
    input.up = 1;
    let forces = car.update(&input);
    assert_eq!(forces.traction, Vec2 { x: 0, y: 0 });
    // throttle 200/3000 of the 390 N·m idle torque, over 18000
    assert_eq!(car.engine_speed, 1_000_000 + 200 * 390_000 / 18000);
    // revving past idle locks the auto-clutch for the next step
    assert_eq!(car.clutch, 0);
}

#[test]
fn throttle_ramp_and_redline_cut() {
    let mut car = Car::new(0, 0);
    let mut input = idle_input();
    input.up = 1;
    car.update(&input);
    assert_eq!(car.throttle, 200);
    for _ in 0..20 {
        car.update(&input);
    }
    assert_eq!(car.throttle, 3000);
    // at the redline the throttle is cut hard
    car.engine_speed = 6_000_000;
    car.update(&input);
    assert_eq!(car.throttle, 0);
}

#[test]
fn steering_ramps_and_self_centers() {
    let mut car = Car::new(0, 0);
    let mut input = idle_input();
    input.right = 1;
    for _ in 0..40 {
        car.update(&input);
    }
    // ramped to the bound of an eighth of a revolution
    assert_eq!(car.steering_angle, 7500);
    let release = idle_input();
    for _ in 0..7 {
        car.update(&release);
    }
    assert_eq!(car.steering_angle, 500);
    car.update(&release);
    assert_eq!(car.steering_angle, 0);
}

#[test]
fn straight_line_acceleration_matches_reference() {
    // full throttle in first gear from rest, 120 fixed steps, against
    // a floating-point integration of the same model
    let mut car = Car::new(0, 0);
    car.gear = 1;
    car.clutch = 0;
    let mut input = idle_input();
    input.up = 1;
    for _ in 0..120 {
        car.update(&input);
    }
    let got = car.velocity.x as f64 / 1000.0;

    let expected = reference_straight_line(120);
    assert!(
        (got - expected).abs() <= 0.4,
        "fixed-point speed {} m/s vs reference {} m/s",
        got,
        expected
    );
    // sanity: the car is well on its way
    assert!(got > 3.0);
}

/// Floating-point mirror of the model for the scenario above: mass
/// 1500 kg, wheel radius 0.34 m, the example gear table, drive force
/// minus drag minus rolling resistance, explicit Euler at 60 steps
/// per second.
fn reference_straight_line(steps: usize) -> f64 {
    let dt = 1.0 / 60.0;
    let mass = 1500.0;
    let wheel = 0.34;
    let ratio = 2.66 * 3.42;
    let eff = 0.75;
    let drag = 0.5 * 0.30 * 2.2 * 1.29;
    let rolling = 30.0 * drag;
    let idle = 1000.0;
    let redline = 6000.0;

    // the cubic through the calibration points with a flat peak
    let (q, w, e) = (1000.0f64, 6000.0f64, 4600.0f64);
    let (ti, tj, tk) = (390.0f64, 380.0f64, 475.0f64);
    let alpha = ((ti - tk) * (w - e) * (w - e) - (tj - tk) * (q - e) * (q - e))
        / ((q - e) * (q - e) * (w - e) * (w - e) * (q - w));
    let beta = (ti - tk) / ((q - e) * (q - e)) - alpha * q;
    let curve = |x: f64| (x - e) * (x - e) * (alpha * x + beta) + tk;
    let engine_torque = |rpm: f64| {
        if rpm < idle {
            curve(idle) * (rpm / idle).max(0.5)
        } else if rpm > redline {
            curve(redline) * (500.0 / (rpm - redline)).clamp(0.0, 1.0)
        } else {
            curve(rpm)
        }
    };

    let mut v = 0.0f64;
    let mut rpm = idle;
    let mut throttle = 0.0f64;
    let mut clutch = 0.0f64;
    for _ in 0..steps {
        let sf = v;
        throttle = (throttle + 4.0 * dt).min(1.0);
        if rpm >= redline {
            throttle = 0.0;
        }
        let gear_rpm = (v / wheel * ratio * 60.0 / (2.0 * std::f64::consts::PI)).max(idle);
        let drive = throttle * engine_torque(rpm) * ratio * eff / wheel;
        let traction_f = drive - rolling * sf;
        let traction = if clutch == 0.0 {
            traction_f
        } else if clutch >= 1.0 {
            0.0
        } else {
            let slip = ((rpm - gear_rpm) / 500.0).clamp(0.0, 1.0);
            (1.0 - slip) * (1.0 - clutch) * traction_f
        };
        let total = traction - drag * v * v;
        v += total / mass * dt;
        if clutch == 0.0 {
            rpm = gear_rpm;
        }
        clutch = if rpm <= idle { 1.0 - throttle * 0.5 } else { 0.0 };
    }
    v
}

#[test]
fn drag_coefficient_formula() {
    assert_eq!(c_drag(300, 2200), 425);
}

#[test]
fn example_setup_constants() {
    let s = example();
    assert_eq!(s.mass, 1500);
    assert_eq!(s.wheel_radius, 340);
    assert_eq!(s.drag, 425);
    assert_eq!(s.rolling_r, 12750);
    assert_eq!(s.brake_force, 14_000_000);
    assert_eq!(s.engine.idle_rpm(), 1000);
    assert_eq!(s.engine.redline_rpm(), 6000);
}

#[test]
fn engine_rpm_floors_at_idle() {
    let s = example();
    assert_eq!(s.get_engine_rpm(0, 1), 1_000_000);
    // 20 m/s in first gear is far above idle
    let fast = s.get_engine_rpm(20_000, 1);
    assert!(fast > 1_000_000);
    // reverse gear maps negative speeds to forward revs the same way
    assert_eq!(s.get_engine_rpm(20_000, -1) , 1_000_000);
}
