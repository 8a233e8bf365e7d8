//! The car's per-frame dynamics state and the fixed-step integrator.
//!
//! Units: position in micrometres, velocity in mm/s, forces in
//! milli-newtons, engine speed in milli-RPM, angles in units of
//! 1/60000 revolution, pedal levels scaled by `LEVEL_ONE`.  The step
//! runs at a fixed 60 steps per second.

use vstd::prelude::*;
use crate::angle::{Vec2, dir_spec, sin_spec, cos_spec, angle_to_vec, sin_milli, cos_milli};
use crate::ext::{InputState, signum};
use crate::fixed::{
    qz,
    clamp,
    abs_i,
    min_i,
    max_i,
    isqrt_spec,
    isqrt64,
    wrap_spec,
    wrap_angle,
    muldiv,
    div_tz,
    clamp_i64,
    lemma_mul_bound,
    lemma_qz_bound,
    FULL_TURN,
};
use crate::parts::{CarSetup, LEVEL_ONE, example};

verus! {

/// Steering self-centering rate, angle units per step (2*pi per
/// second).
pub const STEER_CENTER_RATE: i64 = 1000;

/// Steering input rate, angle units per step (pi/2 per second).
pub const STEER_RATE: i64 = 250;

/// Steering angle bound, angle units (pi/4).
pub const STEER_MAX: i64 = 7500;

/// Throttle ramp-up per step (4.0 per second in level units).
pub const THROTTLE_UP: i64 = 200;

/// Throttle ramp-down per step (8.0 per second).
pub const THROTTLE_DOWN: i64 = 400;

/// Brake ramp-up per step (8.0 per second).
pub const BRAKE_UP: i64 = 400;

/// Brake release per step (16.0 per second).
pub const BRAKE_DOWN: i64 = 800;

/// Fixed steps per second; the step is defined only for this rate.
pub const STEPS_PER_SECOND: i64 = 60;

/// Angle units per radian, scaled by 10.
pub const ANGLE_PER_RAD_SCALED: i64 = 95493;

/// Engine-speed decay with closed throttle in neutral, milli-RPM per
/// step (1000 RPM per second).
pub const ENGINE_DECAY: i64 = 16666;

/// A drawable object: a position (micrometres) and a heading.
#[derive(Clone, Copy, Debug, PartialEq, Eq, Structural)]
pub struct Object {
    /// The position of the object.
    pub pos: Vec2,
    /// The rotation of the object, in angle units on `[0, FULL_TURN)`.
    pub rot: i64,
}

impl Object {
    /// Make a new physics object.
    pub fn new(pos: Vec2) -> (r: Self)
        ensures
            r.pos == pos,
            r.rot == 0,
    {
        Object { pos, rot: 0 }
    }
}

/// The three clutch regimes the drivetrain distinguishes.
#[derive(Clone, Copy, Debug, PartialEq, Eq, Structural)]
pub enum ClutchState {
    /// Rigid coupling: the wheels dictate the engine speed.
    Locked,
    /// Partial coupling at the held level.
    Slipping(i64),
    /// No coupling: the engine revs freely.
    Open,
}

/// The force decomposition one step returns, for display.
#[derive(Clone, Copy, Debug, PartialEq, Eq, Structural)]
pub struct Forces {
    /// Drive force plus rolling resistance, milli-newtons.
    pub traction: Vec2,
    /// Aerodynamic drag, milli-newtons.
    pub drag: Vec2,
    /// Braking force, milli-newtons.
    pub brake: Vec2,
}

/// Steering angle after one step of rate-limited filtering.
pub open spec fn steer_after(s: int, hor: int) -> int {
    if hor == 0 {
        if abs_i(s) <= STEER_CENTER_RATE {
            0
        } else {
            s - signum(s) * STEER_CENTER_RATE
        }
    } else {
        clamp(s + hor * STEER_RATE, -STEER_MAX as int, STEER_MAX as int)
    }
}

/// Velocity component along an axis scaled by 1000.
pub open spec fn project(vx: int, vy: int, ax: int, ay: int) -> int {
    qz(vx * ax + vy * ay, 1000)
}

/// The per-step turning angle, in angle units: forward speed times the
/// sine of the steering angle over the wheelbase, times the step time.
pub open spec fn dtheta_of(sf: int, steer: int, wheelbase: int) -> int {
    qz(sf * sin_spec(wrap_spec(steer)) * ANGLE_PER_RAD_SCALED, wheelbase * 600_000)
}

/// Arc-chord displacement about the rear axle for a turning step, in
/// micrometres.
pub open spec fn arc_disp(rw: int, dth: int, dirv: (int, int)) -> (int, int) {
    let s = sin_spec(wrap_spec(dth));
    let c = cos_spec(wrap_spec(dth));
    (qz(rw * (s * dirv.1 - (1000 - c) * dirv.0), 1000), qz(
        rw * (s * (-dirv.0) - (1000 - c) * dirv.1),
        1000,
    ))
}

/// Throttle level after the ramp and the redline cut.
pub open spec fn throttle_after(t: int, accel: bool, engine: int, redline: int) -> int {
    let t1 = if accel {
        min_i(t + THROTTLE_UP as int, LEVEL_ONE as int)
    } else {
        max_i(t - THROTTLE_DOWN as int, 0)
    };
    if engine >= redline * 1000 {
        0
    } else {
        t1
    }
}

/// Brake level after the progressive ramp.
pub open spec fn brake_after(b: int, brk: bool) -> int {
    if brk {
        let b1 = if b >= 1500 {
            b + BRAKE_UP as int
        } else {
            b
        };
        min_i(b1 + BRAKE_UP as int, LEVEL_ONE as int)
    } else {
        max_i(b - BRAKE_DOWN as int, 0)
    }
}

/// Quadratic aerodynamic drag opposing the full velocity vector,
/// milli-newtons.
pub open spec fn drag_force(c: int, vx: int, vy: int) -> (int, int) {
    let n = isqrt_spec(vx * vx + vy * vy);
    let d1 = qz(c * n, 1000);
    (-qz(d1 * vx, 1000), -qz(d1 * vy, 1000))
}

/// Idealised lateral grip: the force that cancels the sideways speed
/// in one step, milli-newtons.
pub open spec fn grip_force(ss: int, side: (int, int), mass: int) -> (int, int) {
    (-(qz(ss * side.0, 1000) * mass * STEPS_PER_SECOND as int), -(qz(ss * side.1, 1000) * mass
        * STEPS_PER_SECOND as int))
}

/// Braking force: the desired pedal force, capped by the force that
/// would stop the car this step, opposite the velocity; zero when the
/// car is not moving.
pub open spec fn brake_vec(bf: int, b: int, vx: int, vy: int, sf: int, ss: int, mass: int) -> (
    int,
    int,
) {
    if sf != 0 || ss != 0 {
        let desired = qz(bf * b, LEVEL_ONE as int);
        let cap = qz(vx * vx + vy * vy, 1000) * mass * STEPS_PER_SECOND as int;
        let applied = min_i(desired, cap);
        let n = isqrt_spec(vx * vx + vy * vy);
        (-qz(applied * qz(vx * 1000, n), 1000), -qz(applied * qz(vy * 1000, n), 1000))
    } else {
        (0, 0)
    }
}

/// The scalar drive force along the heading: rolling resistance plus
/// the drivetrain force, faded by the clutch regime.
pub open spec fn traction_scalar_of(c: Car, throttle1: int, sf: int, gear_rpm: int) -> int {
    let rr = -qz(c.setup.rolling_r * sf, 1000);
    let tf = rr + c.setup.drive_force_at(c.engine_speed as int, c.gear as int, throttle1);
    if c.gear == 0 {
        0
    } else if c.clutch == 0 {
        tf
    } else if c.clutch == LEVEL_ONE {
        0
    } else {
        let slip = clamp(qz(c.engine_speed - gear_rpm, 500), 0, 1000);
        qz(qz(tf * (1000 - slip), 1000) * (LEVEL_ONE as int - c.clutch), LEVEL_ONE as int)
    }
}

/// Engine speed (milli-RPM) after the step's drivetrain regime, before
/// the locked-coupling override.
pub open spec fn engine_after(c: Car, throttle1: int, sf: int) -> int {
    if c.gear == 0 {
        let tq = c.setup.engine.torque_at(qz(c.engine_speed as int, 1000));
        let e1 = c.engine_speed + qz(throttle1 * tq, 18000);
        if throttle1 == 0 {
            max_i(e1 - ENGINE_DECAY as int, c.setup.engine.idle_rpm * 1000)
        } else {
            e1
        }
    } else if c.clutch == 0 {
        c.engine_speed as int
    } else if c.clutch == LEVEL_ONE {
        // the open clutch revs the engine with the same driving term
        // as neutral, time constant included
        let tq = c.setup.engine.torque_at(qz(c.engine_speed as int, 1000));
        c.engine_speed + qz(throttle1 * tq, 18000)
    } else {
        c.engine_speed as int
    }
}

/// Engine speed after the rigid-coupling override: a locked clutch in
/// gear forces the speed the wheels dictate.
pub open spec fn engine_final(c: Car, throttle1: int, sf: int, gear_rpm: int) -> int {
    if c.clutch == 0 && c.gear != 0 {
        gear_rpm
    } else {
        engine_after(c, throttle1, sf)
    }
}

/// The auto-clutch level for the next step: engagement forced while
/// the engine is at or below idle, locked above it.
pub open spec fn clutch_after(engine2: int, idle: int, throttle1: int) -> int {
    if engine2 <= idle * 1000 {
        LEVEL_ONE as int - qz(throttle1, 2)
    } else {
        0
    }
}

/// Everything one step produces, over the integers.
pub ghost struct StepOut {
    pub pos_x: int,
    pub pos_y: int,
    pub rot: int,
    pub vel_x: int,
    pub vel_y: int,
    pub steer: int,
    pub throttle: int,
    pub brake: int,
    pub clutch: int,
    pub engine: int,
    pub traction: (int, int),
    pub drag: (int, int),
    pub brake_f: (int, int),
}

/// One fixed step of the integrator, as a function on the model.
pub open spec fn step_spec(c: Car, inp: InputState) -> StepOut {
    let hor = signum(inp.right as int - inp.left as int);
    let steer1 = steer_after(c.steering_angle as int, hor);
    let ang = dir_spec(wrap_spec(c.obj.rot + c.steering_angle));
    let side = (ang.1, -ang.0);
    let sf = project(c.velocity.x as int, c.velocity.y as int, ang.0, ang.1);
    let ss = project(c.velocity.x as int, c.velocity.y as int, side.0, side.1);
    let dirv = dir_spec(c.obj.rot as int);
    let wheelbase = c.setup.rw_dist + c.setup.fw_dist;
    let dth = dtheta_of(sf, steer1, wheelbase as int);
    let arc = arc_disp(c.setup.rw_dist as int, dth, dirv);
    let rot1 = wrap_spec(c.obj.rot + dth);
    let throttle1 = throttle_after(
        c.throttle as int,
        inp.up != 0,
        c.engine_speed as int,
        c.setup.engine.redline_rpm as int,
    );
    let brake1 = brake_after(c.brake as int, inp.down != 0);
    let gear_rpm = c.setup.engine_rpm_at(sf, c.gear as int);
    let tsc = traction_scalar_of(c, throttle1, sf, gear_rpm);
    let traction = (qz(tsc * ang.0, 1000), qz(tsc * ang.1, 1000));
    let drag = drag_force(c.setup.drag as int, c.velocity.x as int, c.velocity.y as int);
    let grip = grip_force(ss, side, c.setup.mass as int);
    let brk = brake_vec(
        c.setup.brake_force as int,
        brake1,
        c.velocity.x as int,
        c.velocity.y as int,
        sf,
        ss,
        c.setup.mass as int,
    );
    let total = (
        traction.0 + drag.0 + grip.0 + brk.0,
        traction.1 + drag.1 + grip.1 + brk.1,
    );
    let acc = (qz(total.0, c.setup.mass as int), qz(total.1, c.setup.mass as int));
    let dv = (qz(acc.0, STEPS_PER_SECOND as int), qz(acc.1, STEPS_PER_SECOND as int));
    let pos1 = (
        c.obj.pos.x + arc.0 + qz(c.velocity.x * 1000, 60) + qz(acc.0 * 1000, 7200),
        c.obj.pos.y + arc.1 + qz(c.velocity.y * 1000, 60) + qz(acc.1 * 1000, 7200),
    );
    let engine2 = engine_final(c, throttle1, sf, gear_rpm);
    let clutch1 = clutch_after(engine2, c.setup.engine.idle_rpm as int, throttle1);
    StepOut {
        pos_x: pos1.0,
        pos_y: pos1.1,
        rot: rot1,
        vel_x: c.velocity.x + dv.0,
        vel_y: c.velocity.y + dv.1,
        steer: steer1,
        throttle: throttle1,
        brake: brake1,
        clutch: clutch1,
        engine: engine2,
        traction,
        drag,
        brake_f: brk,
    }
}

/// The dynamics state of one car.
#[derive(Clone, Debug)]
pub struct Car {
    pub obj: Object,
    /// Velocity in mm/s.
    pub velocity: Vec2,
    pub setup: CarSetup,
    /// Engine speed in milli-RPM.
    pub engine_speed: i64,
    /// Steering angle in angle units, within `[-STEER_MAX, STEER_MAX]`.
    pub steering_angle: i64,
    /// Brake level, `0..=LEVEL_ONE`.
    pub brake: i64,
    /// Throttle level, `0..=LEVEL_ONE`.
    pub throttle: i64,
    /// Clutch level: 0 is locked, `LEVEL_ONE` fully open.
    pub clutch: i64,
    /// Signed gear: 0 neutral, positive forward, negative reverse.
    pub gear: i8,
}

impl Car {
    /// Bounds under which one step neither overflows nor panics.
    pub open spec fn wf(self) -> bool {
        &&& self.setup.wf()
        &&& self.setup.transmission.valid_gear(self.gear as int)
        &&& abs_i(self.velocity.x as int) <= 2_000_000
        &&& abs_i(self.velocity.y as int) <= 2_000_000
        &&& abs_i(self.obj.pos.x as int) <= 100_000_000_000_000_000
        &&& abs_i(self.obj.pos.y as int) <= 100_000_000_000_000_000
        &&& 0 <= self.obj.rot < FULL_TURN
        &&& abs_i(self.steering_angle as int) <= STEER_MAX
        &&& 0 <= self.throttle <= LEVEL_ONE
        &&& 0 <= self.brake <= LEVEL_ONE
        &&& 0 <= self.clutch <= LEVEL_ONE
        &&& abs_i(self.engine_speed as int) <= 1_000_000_000_000
    }

    /// The clutch regime the current level selects.
    pub open spec fn clutch_state_spec(self) -> ClutchState {
        if self.clutch == 0 {
            ClutchState::Locked
        } else if self.clutch == LEVEL_ONE {
            ClutchState::Open
        } else {
            ClutchState::Slipping(self.clutch)
        }
    }

    /// Which clutch regime the drivetrain is in.
    pub fn clutch_state(&self) -> (r: ClutchState)
        ensures
            r == self.clutch_state_spec(),
    {
        if self.clutch == 0 {
            ClutchState::Locked
        } else if self.clutch == LEVEL_ONE {
            ClutchState::Open
        } else {
            ClutchState::Slipping(self.clutch)
        }
    }

    /// A car at a position (micrometres), with the example setup, at
    /// idle in neutral with the clutch open.
    pub fn new(x: i64, y: i64) -> (r: Self)
        requires
            abs_i(x as int) <= 100_000_000_000_000_000,
            abs_i(y as int) <= 100_000_000_000_000_000,
        ensures
            r.wf(),
            r.obj.pos.x == x,
            r.obj.pos.y == y,
            r.obj.rot == 0,
            r.velocity.x == 0,
            r.velocity.y == 0,
            r.engine_speed == 1_000_000,
            r.steering_angle == 0,
            r.brake == 0,
            r.throttle == 0,
            r.clutch == LEVEL_ONE,
            r.gear == 0,
            r.setup.wf(),
            r.setup.mass == 1500,
            r.setup.wheel_radius == 340,
            r.setup.drag == 425,
            r.setup.rolling_r == 12750,
            r.setup.brake_force == 14_000_000,
            r.setup.fw_dist == 1000,
            r.setup.rw_dist == 1000,
            r.setup.engine.idle_rpm == 1000,
            r.setup.engine.redline_rpm == 6000,
            r.setup.transmission.efficiency == 750,
            r.setup.transmission.final_drive_ratio == 3420,
            r.setup.transmission.ratios@ =~= seq![2660i64, 1780i64, 1300i64, 1000i64, 740i64, 500i64],
            r.setup.transmission.reverse_ratios@ =~= seq![2900i64],
            r.setup.engine.torque.poly(1000) == 390_000 * r.setup.engine.torque.den,
            r.setup.engine.torque.poly(6000) == 380_000 * r.setup.engine.torque.den,
            r.setup.engine.torque.poly(4600) == 475_000 * r.setup.engine.torque.den,
            r.setup.engine.torque.dpoly(4600) == 0,
    {
        let setup = example();
        let engine_speed = setup.engine.idle_rpm * 1000;
        Car {
            obj: Object::new(Vec2 { x, y }),
            velocity: Vec2 { x: 0, y: 0 },
            engine_speed,
            setup,
            steering_angle: 0,
            brake: 0,
            throttle: 0,
            clutch: LEVEL_ONE,
            gear: 0,
        }
    }

    /// Steering filter, axes and the bicycle-model kinematic step.
    fn kin_step(&self, input: &InputState) -> (k: KinOut)
        requires
            self.wf(),
        ensures
            ({
                let hor = signum(input.right as int - input.left as int);
                let ang = dir_spec(wrap_spec(self.obj.rot + self.steering_angle));
                let side = (ang.1, -ang.0);
                let sf = project(self.velocity.x as int, self.velocity.y as int, ang.0, ang.1);
                let wheelbase = self.setup.rw_dist + self.setup.fw_dist;
                let dth = dtheta_of(sf, k.steer1 as int, wheelbase as int);
                let arc = arc_disp(self.setup.rw_dist as int, dth, dir_spec(self.obj.rot as int));
                &&& k.steer1 == steer_after(self.steering_angle as int, hor)
                &&& k.ang.x == ang.0
                &&& k.ang.y == ang.1
                &&& k.side.x == side.0
                &&& k.side.y == side.1
                &&& k.sf == sf
                &&& k.ss == project(
                    self.velocity.x as int,
                    self.velocity.y as int,
                    side.0,
                    side.1,
                )
                &&& k.dth == dth
                &&& k.arc_x == arc.0
                &&& k.arc_y == arc.1
                &&& k.rot1 == wrap_spec(self.obj.rot + dth)
                &&& abs_i(k.sf as int) <= 4_000_000
                &&& abs_i(k.ss as int) <= 4_000_000
                &&& abs_i(k.ang.x as int) <= 1000
                &&& abs_i(k.ang.y as int) <= 1000
                &&& abs_i(k.side.x as int) <= 1000
                &&& abs_i(k.side.y as int) <= 1000
                &&& abs_i(k.arc_x as int) <= 30_000_000_000
                &&& abs_i(k.arc_y as int) <= 30_000_000_000
                &&& 0 <= k.rot1 < FULL_TURN
                &&& abs_i(k.steer1 as int) <= STEER_MAX
                &&& ((k.sf != 0 || k.ss != 0) ==> (self.velocity.x != 0 || self.velocity.y != 0))
            }),
    {
        let vx = self.velocity.x;
        let vy = self.velocity.y;
        let hor = input.hor();
        let s0 = self.steering_angle;
        let steer1: i64 = if hor == 0 {
            let a = if s0 >= 0 {
                s0
            } else {
                -s0
            };
            if a <= STEER_CENTER_RATE {
                0
            } else if s0 > 0 {
                s0 - STEER_CENTER_RATE
            } else {
                s0 + STEER_CENTER_RATE
            }
        } else {
            clamp_i64(s0 + hor * STEER_RATE, -STEER_MAX, STEER_MAX)
        };

        let ha = wrap_angle(self.obj.rot + s0);
        let ang = angle_to_vec(ha);
        let side = Vec2 { x: ang.y, y: -ang.x };
        proof {
            lemma_mul_bound(vx as int, ang.x as int, 2_000_000, 1000);
            lemma_mul_bound(vy as int, ang.y as int, 2_000_000, 1000);
            lemma_mul_bound(vx as int, side.x as int, 2_000_000, 1000);
            lemma_mul_bound(vy as int, side.y as int, 2_000_000, 1000);
        }
        let sf = div_tz(vx * ang.x + vy * ang.y, 1000);
        let ss = div_tz(vx * side.x + vy * side.y, 1000);
        proof {
            lemma_qz_bound(vx as int * ang.x as int + vy as int * ang.y as int, 1000, 4_000_000_000);
            lemma_qz_bound(vx as int * side.x as int + vy as int * side.y as int, 1000, 4_000_000_000);
            if vx == 0 && vy == 0 {
                assert(vx as int * ang.x as int == 0 && vy as int * ang.y as int == 0 && vx as int
                    * side.x as int == 0 && vy as int * side.y as int == 0) by (nonlinear_arith)
                    requires
                        vx as int == 0,
                        vy as int == 0,
                ;
                assert(sf == 0 && ss == 0);
            }
        }

        let dirv = angle_to_vec(self.obj.rot);
        let sin_steer = sin_milli(wrap_angle(steer1));
        let wheelbase = self.setup.rw_dist + self.setup.fw_dist;
        proof {
            lemma_mul_bound(sf as int, sin_steer as int, 4_000_000, 1000);
            lemma_mul_bound(
                sf as int * sin_steer as int,
                ANGLE_PER_RAD_SCALED as int,
                4_000_000_000,
                ANGLE_PER_RAD_SCALED as int,
            );
        }
        let dth = muldiv(sf * sin_steer, ANGLE_PER_RAD_SCALED, wheelbase * 600_000);
        proof {
            lemma_qz_bound(
                sf as int * sin_steer as int * ANGLE_PER_RAD_SCALED as int,
                wheelbase as int * 600_000,
                4_000_000_000 * ANGLE_PER_RAD_SCALED as int,
            );
        }
        let sd = sin_milli(wrap_angle(dth));
        let cd = cos_milli(wrap_angle(dth));
        proof {
            lemma_mul_bound(sd as int, dirv.y as int, 1000, 1000);
            lemma_mul_bound(sd as int, dirv.x as int, 1000, 1000);
            lemma_mul_bound(sd as int, -(dirv.x as int), 1000, 1000);
            lemma_mul_bound((1000 - cd) as int, dirv.x as int, 2000, 1000);
            lemma_mul_bound((1000 - cd) as int, dirv.y as int, 2000, 1000);
        }
        let inner_x = sd * dirv.y - (1000 - cd) * dirv.x;
        let inner_y = sd * (-dirv.x) - (1000 - cd) * dirv.y;
        proof {
            lemma_mul_bound(self.setup.rw_dist as int, inner_x as int, 10_000, 3_000_000);
            lemma_mul_bound(self.setup.rw_dist as int, inner_y as int, 10_000, 3_000_000);
        }
        let arc_x = muldiv(self.setup.rw_dist, inner_x, 1000);
        let arc_y = muldiv(self.setup.rw_dist, inner_y, 1000);
        proof {
            lemma_qz_bound(self.setup.rw_dist as int * inner_x as int, 1000, 30_000_000_000_000);
            lemma_qz_bound(self.setup.rw_dist as int * inner_y as int, 1000, 30_000_000_000_000);
        }
        let rot1 = wrap_angle(self.obj.rot + dth);
        KinOut { steer1, ang, side, sf, ss, dth, arc_x, arc_y, rot1 }
    }

    /// Pedal ramps, the drivetrain's clutch regime and the
    /// engine-speed evolution.
    fn drive_step(&self, input: &InputState, sf: i64) -> (d: DriveOut)
        requires
            self.wf(),
            abs_i(sf as int) <= 4_000_000,
        ensures
            d.t1 == throttle_after(
                self.throttle as int,
                input.up != 0,
                self.engine_speed as int,
                self.setup.engine.redline_rpm as int,
            ),
            d.b1 == brake_after(self.brake as int, input.down != 0),
            d.gear_rpm == self.setup.engine_rpm_at(sf as int, self.gear as int),
            d.tsc == traction_scalar_of(*self, d.t1 as int, sf as int, d.gear_rpm as int),
            d.engine2 == engine_final(*self, d.t1 as int, sf as int, d.gear_rpm as int),
            abs_i(d.tsc as int) <= 104_000_000_000_000,
            0 <= d.t1 <= LEVEL_ONE,
            0 <= d.b1 <= LEVEL_ONE,
            abs_i(d.engine2 as int) <= max_i(
                abs_i(self.engine_speed as int) + 1_700_000_000,
                400_000_000_000,
            ),
    {
        let ghost c = *self;
        let mut t1 = self.throttle;
        if input.acltr() {
            crate::ext::FloatExt::cap_add(&mut t1, THROTTLE_UP, LEVEL_ONE);
        } else {
            crate::ext::FloatExt::cap_sub(&mut t1, THROTTLE_DOWN, 0);
        }
        if self.engine_speed >= self.setup.engine.redline_rpm * 1000 {
            t1 = 0;
        }

        let mut b1 = self.brake;
        if input.brk() {
            if b1 >= 1500 {
                b1 = b1 + BRAKE_UP;
            }
            crate::ext::FloatExt::cap_add(&mut b1, BRAKE_UP, LEVEL_ONE);
        } else {
            crate::ext::FloatExt::cap_sub(&mut b1, BRAKE_DOWN, 0);
        }

        let gear_rpm = self.setup.get_engine_rpm(sf, self.gear);
        let drive = self.setup.get_drive_force(self.engine_speed, self.gear, t1);
        proof {
            lemma_mul_bound(self.setup.rolling_r as int, sf as int, 1_000_000, 4_000_000);
            lemma_qz_bound(self.setup.rolling_r as int * sf as int, 1000, 4_000_000_000_000);
        }
        let rr = -muldiv(self.setup.rolling_r, sf, 1000);
        let tf = rr + drive;
        assert(abs_i(tf as int) <= 104_000_000_000_000);

        let tsc: i64 = match self.clutch_state() {
            _ if self.gear == 0 => 0,
            ClutchState::Locked => tf,
            ClutchState::Open => 0,
            _ => {
                let diff = self.engine_speed - gear_rpm;
                let slip = clamp_i64(div_tz(diff, 500), 0, 1000);
                proof {
                    lemma_mul_bound(tf as int, 1000 - slip as int, 104_000_000_000_000, 1000);
                    lemma_qz_bound(tf as int * (1000 - slip as int), 1000, 104_000_000_000_000_000);
                    lemma_mul_bound(
                        qz(tf as int * (1000 - slip as int), 1000),
                        LEVEL_ONE as int - self.clutch as int,
                        104_000_000_000_000,
                        LEVEL_ONE as int,
                    );
                }
                let f1 = muldiv(tf, 1000 - slip, 1000);
                let f2 = muldiv(f1, LEVEL_ONE - self.clutch, LEVEL_ONE);
                proof {
                    lemma_qz_bound(
                        f1 as int * (LEVEL_ONE as int - self.clutch as int),
                        LEVEL_ONE as int,
                        312_000_000_000_000_000,
                    );
                }
                f2
            },
        };

        let engine2: i64 = if self.gear == 0 {
            let rpm0 = div_tz(self.engine_speed, 1000);
            proof {
                lemma_qz_bound(self.engine_speed as int, 1000, 1_000_000_000_000);
            }
            let tq = self.setup.engine.get_torque(rpm0);
            proof {
                lemma_mul_bound(t1 as int, tq as int, LEVEL_ONE as int, 10_000_000_000);
                lemma_qz_bound(t1 as int * tq as int, 18000, 30_000_000_000_000);
            }
            let e1 = self.engine_speed + muldiv(t1, tq, 18000);
            if t1 == 0 {
                let e2 = e1 - ENGINE_DECAY;
                let idle_m = self.setup.engine.idle_rpm * 1000;
                if e2 < idle_m {
                    idle_m
                } else {
                    e2
                }
            } else {
                e1
            }
        } else if self.clutch == 0 {
            gear_rpm
        } else if self.clutch == LEVEL_ONE {
            let rpm0 = div_tz(self.engine_speed, 1000);
            proof {
                lemma_qz_bound(self.engine_speed as int, 1000, 1_000_000_000_000);
            }
            let tq = self.setup.engine.get_torque(rpm0);
            proof {
                lemma_mul_bound(t1 as int, tq as int, LEVEL_ONE as int, 10_000_000_000);
                lemma_qz_bound(t1 as int * tq as int, 18000, 30_000_000_000_000);
            }
            self.engine_speed + muldiv(t1, tq, 18000)
        } else {
            self.engine_speed
        };
        DriveOut { t1, b1, gear_rpm, tsc, engine2 }
    }

    /// Traction, drag, lateral grip and braking forces, milli-newtons.
    fn force_step(&self, k: &KinOut, tsc: i64, b1: i64) -> (f: ForceOut)
        requires
            self.wf(),
            abs_i(tsc as int) <= 104_000_000_000_000,
            abs_i(k.sf as int) <= 4_000_000,
            abs_i(k.ss as int) <= 4_000_000,
            abs_i(k.ang.x as int) <= 1000,
            abs_i(k.ang.y as int) <= 1000,
            abs_i(k.side.x as int) <= 1000,
            abs_i(k.side.y as int) <= 1000,
            0 <= b1 <= LEVEL_ONE,
            (k.sf != 0 || k.ss != 0) ==> (self.velocity.x != 0 || self.velocity.y != 0),
        ensures
            f.tx == qz(tsc as int * k.ang.x as int, 1000),
            f.ty == qz(tsc as int * k.ang.y as int, 1000),
            ({
                let d = drag_force(
                    self.setup.drag as int,
                    self.velocity.x as int,
                    self.velocity.y as int,
                );
                f.dragx == d.0 && f.dragy == d.1
            }),
            ({
                let g = grip_force(
                    k.ss as int,
                    (k.side.x as int, k.side.y as int),
                    self.setup.mass as int,
                );
                f.gripx == g.0 && f.gripy == g.1
            }),
            ({
                let b = brake_vec(
                    self.setup.brake_force as int,
                    b1 as int,
                    self.velocity.x as int,
                    self.velocity.y as int,
                    k.sf as int,
                    k.ss as int,
                    self.setup.mass as int,
                );
                f.brkx == b.0 && f.brky == b.1
            }),
            abs_i(f.tx as int) <= 104_000_000_000_000,
            abs_i(f.ty as int) <= 104_000_000_000_000,
            abs_i(f.dragx as int) <= 600_000_000_000,
            abs_i(f.dragy as int) <= 600_000_000_000,
            abs_i(f.gripx as int) <= 240_000_000_000_000,
            abs_i(f.gripy as int) <= 240_000_000_000_000,
            abs_i(f.brkx as int) <= 2_000_000_000_000_000,
            abs_i(f.brky as int) <= 2_000_000_000_000_000,
    {
        let vx = self.velocity.x;
        let vy = self.velocity.y;
        proof {
            lemma_mul_bound(tsc as int, k.ang.x as int, 104_000_000_000_000, 1000);
            lemma_mul_bound(tsc as int, k.ang.y as int, 104_000_000_000_000, 1000);
        }
        let tx = muldiv(tsc, k.ang.x, 1000);
        let ty = muldiv(tsc, k.ang.y, 1000);
        proof {
            lemma_qz_bound(tsc as int * k.ang.x as int, 1000, 104_000_000_000_000_000);
            lemma_qz_bound(tsc as int * k.ang.y as int, 1000, 104_000_000_000_000_000);
        }

        proof {
            lemma_mul_bound(vx as int, vx as int, 2_000_000, 2_000_000);
            lemma_mul_bound(vy as int, vy as int, 2_000_000, 2_000_000);
            assert(vx as int * vx as int >= 0 && vy as int * vy as int >= 0) by (nonlinear_arith);
        }
        let q2 = vx * vx + vy * vy;
        let n = isqrt64(q2);
        proof {
            lemma_mul_bound(self.setup.drag as int, n as int, 100_000, 3_000_000);
            lemma_qz_bound(self.setup.drag as int * n as int, 1000, 300_000_000_000);
        }
        let d1 = muldiv(self.setup.drag, n, 1000);
        proof {
            lemma_mul_bound(d1 as int, vx as int, 300_000_000, 2_000_000);
            lemma_mul_bound(d1 as int, vy as int, 300_000_000, 2_000_000);
        }
        let dragx = -muldiv(d1, vx, 1000);
        let dragy = -muldiv(d1, vy, 1000);
        proof {
            lemma_qz_bound(d1 as int * vx as int, 1000, 600_000_000_000_000);
            lemma_qz_bound(d1 as int * vy as int, 1000, 600_000_000_000_000);
        }

        proof {
            lemma_mul_bound(k.ss as int, k.side.x as int, 4_000_000, 1000);
            lemma_mul_bound(k.ss as int, k.side.y as int, 4_000_000, 1000);
        }
        let gpx = muldiv(k.ss, k.side.x, 1000);
        let gpy = muldiv(k.ss, k.side.y, 1000);
        proof {
            lemma_qz_bound(k.ss as int * k.side.x as int, 1000, 4_000_000_000);
            lemma_qz_bound(k.ss as int * k.side.y as int, 1000, 4_000_000_000);
            lemma_mul_bound(gpx as int, self.setup.mass as int, 4_000_000, 1_000_000);
            lemma_mul_bound(gpx as int * self.setup.mass as int, 60, 4_000_000_000_000, 60);
            lemma_mul_bound(gpy as int, self.setup.mass as int, 4_000_000, 1_000_000);
            lemma_mul_bound(gpy as int * self.setup.mass as int, 60, 4_000_000_000_000, 60);
        }
        let gripx = -(gpx * self.setup.mass * STEPS_PER_SECOND);
        let gripy = -(gpy * self.setup.mass * STEPS_PER_SECOND);

        let (brkx, brky): (i64, i64) = if k.sf != 0 || k.ss != 0 {
            proof {
                if n == 0 {
                    assert((n as int + 1) * (n as int + 1) == 1) by (nonlinear_arith)
                        requires
                            n as int == 0,
                    ;
                    assert(q2 == 0);
                    assert(vx as int * vx as int == 0 && vy as int * vy as int == 0);
                    assert(vx == 0 && vy == 0) by (nonlinear_arith)
                        requires
                            vx as int * vx as int == 0,
                            vy as int * vy as int == 0,
                    ;
                    assert(false);
                }
                lemma_mul_bound(
                    self.setup.brake_force as int,
                    b1 as int,
                    1_000_000_000,
                    LEVEL_ONE as int,
                );
                lemma_qz_bound(
                    self.setup.brake_force as int * b1 as int,
                    LEVEL_ONE as int,
                    3_000_000_000_000,
                );
            }
            let desired = muldiv(self.setup.brake_force, b1, LEVEL_ONE);
            let cap0 = div_tz(q2, 1000);
            proof {
                lemma_qz_bound(q2 as int, 1000, 8_000_000_000_000);
                lemma_mul_bound(cap0 as int, self.setup.mass as int, 8_000_000_000, 1_000_000);
                lemma_mul_bound(cap0 as int * self.setup.mass as int, 60, 8_000_000_000_000_000, 60);
            }
            let cap = cap0 * self.setup.mass * STEPS_PER_SECOND;
            let applied = if desired < cap {
                desired
            } else {
                cap
            };
            let ux = div_tz(vx * 1000, n);
            let uy = div_tz(vy * 1000, n);
            proof {
                lemma_qz_bound(vx as int * 1000, n as int, 2_000_000_000);
                lemma_qz_bound(vy as int * 1000, n as int, 2_000_000_000);
                lemma_mul_bound(applied as int, ux as int, 1_000_000_000, 2_000_000_000);
                lemma_mul_bound(applied as int, uy as int, 1_000_000_000, 2_000_000_000);
            }
            let bx = -muldiv(applied, ux, 1000);
            let by = -muldiv(applied, uy, 1000);
            proof {
                lemma_qz_bound(applied as int * ux as int, 1000, 2_000_000_000_000_000_000);
                lemma_qz_bound(applied as int * uy as int, 1000, 2_000_000_000_000_000_000);
            }
            (bx, by)
        } else {
            (0, 0)
        };
        ForceOut { tx, ty, dragx, dragy, gripx, gripy, brkx, brky }
    }

    /// Advances the car by one fixed step from an input snapshot and
    /// returns the instantaneous force decomposition for display.
    #[verifier::rlimit(60)]
    pub fn update(&mut self, input: &InputState) -> (forces: Forces)
        requires
            old(self).wf(),
        ensures
            ({
                let o = step_spec(*old(self), *input);
                &&& final(self).obj.pos.x == o.pos_x
                &&& final(self).obj.pos.y == o.pos_y
                &&& final(self).obj.rot == o.rot
                &&& final(self).velocity.x == o.vel_x
                &&& final(self).velocity.y == o.vel_y
                &&& final(self).steering_angle == o.steer
                &&& final(self).throttle == o.throttle
                &&& final(self).brake == o.brake
                &&& final(self).clutch == o.clutch
                &&& final(self).engine_speed == o.engine
                &&& final(self).gear == old(self).gear
                &&& final(self).setup == old(self).setup
                &&& forces.traction.x == o.traction.0
                &&& forces.traction.y == o.traction.1
                &&& forces.drag.x == o.drag.0
                &&& forces.drag.y == o.drag.1
                &&& forces.brake.x == o.brake_f.0
                &&& forces.brake.y == o.brake_f.1
            }),
            // the bounds one step preserves, so that callers can
            // iterate: angles, levels and gear stay in their ranges,
            // and the engine speed, velocity and position move by at
            // most a fixed amount
            0 <= final(self).obj.rot < FULL_TURN,
            abs_i(final(self).steering_angle as int) <= STEER_MAX,
            0 <= final(self).throttle <= LEVEL_ONE,
            0 <= final(self).brake <= LEVEL_ONE,
            0 <= final(self).clutch <= LEVEL_ONE,
            abs_i(final(self).engine_speed as int) <= max_i(
                abs_i(old(self).engine_speed as int) + 1_700_000_000,
                400_000_000_000,
            ),
            abs_i(final(self).velocity.x as int) <= abs_i(old(self).velocity.x as int)
                + 40_000_000_000_000,
            abs_i(final(self).velocity.y as int) <= abs_i(old(self).velocity.y as int)
                + 40_000_000_000_000,
            abs_i(final(self).obj.pos.x as int) <= abs_i(old(self).obj.pos.x as int)
                + 400_000_000_000_000,
            abs_i(final(self).obj.pos.y as int) <= abs_i(old(self).obj.pos.y as int)
                + 400_000_000_000_000,
    {
        let vx = self.velocity.x;
        let vy = self.velocity.y;
        let k = self.kin_step(input);
        let d = self.drive_step(input, k.sf);
        let f = self.force_step(&k, d.tsc, d.b1);

        let totx = f.tx + f.dragx + f.gripx + f.brkx;
        let toty = f.ty + f.dragy + f.gripy + f.brky;
        let accx = div_tz(totx, self.setup.mass);
        let accy = div_tz(toty, self.setup.mass);
        proof {
            lemma_qz_bound(totx as int, self.setup.mass as int, 2_400_000_000_000_000);
            lemma_qz_bound(toty as int, self.setup.mass as int, 2_400_000_000_000_000);
        }
        let dvx = div_tz(accx, STEPS_PER_SECOND);
        let dvy = div_tz(accy, STEPS_PER_SECOND);
        proof {
            lemma_mul_bound(accx as int, 1000, 3_000_000_000_000_000, 1000);
            lemma_mul_bound(accy as int, 1000, 3_000_000_000_000_000, 1000);
            lemma_qz_bound(accx as int * 1000, 7200, 2_400_000_000_000_000_000);
            lemma_qz_bound(accy as int * 1000, 7200, 2_400_000_000_000_000_000);
            lemma_qz_bound(accx as int, 60, 2_400_000_000_000_000);
            lemma_qz_bound(accy as int, 60, 2_400_000_000_000_000);
            lemma_qz_bound(vx as int * 1000, 60, 2_000_000_000);
            lemma_qz_bound(vy as int * 1000, 60, 2_000_000_000);
        }
        let posx = self.obj.pos.x + k.arc_x + div_tz(vx * 1000, 60) + div_tz(accx * 1000, 7200);
        let posy = self.obj.pos.y + k.arc_y + div_tz(vy * 1000, 60) + div_tz(accy * 1000, 7200);

        let idle_m = self.setup.engine.idle_rpm * 1000;
        let clutch1 = if d.engine2 <= idle_m {
            LEVEL_ONE - d.t1 / 2
        } else {
            0
        };

        self.obj.pos = Vec2 { x: posx, y: posy };
        self.obj.rot = k.rot1;
        self.velocity = Vec2 { x: vx + dvx, y: vy + dvy };
        self.steering_angle = k.steer1;
        self.throttle = d.t1;
        self.brake = d.b1;
        self.clutch = clutch1;
        self.engine_speed = d.engine2;

        Forces {
            traction: Vec2 { x: f.tx, y: f.ty },
            drag: Vec2 { x: f.dragx, y: f.dragy },
            brake: Vec2 { x: f.brkx, y: f.brky },
        }
    }
}

/// Intermediate results of the kinematic stage.
struct KinOut {
    steer1: i64,
    ang: Vec2,
    side: Vec2,
    sf: i64,
    ss: i64,
    dth: i64,
    arc_x: i64,
    arc_y: i64,
    rot1: i64,
}

/// Intermediate results of the drivetrain stage.
struct DriveOut {
    t1: i64,
    b1: i64,
    gear_rpm: i64,
    tsc: i64,
    engine2: i64,
}

/// Intermediate results of the force stage.
struct ForceOut {
    tx: i64,
    ty: i64,
    dragx: i64,
    dragy: i64,
    gripx: i64,
    gripy: i64,
    brkx: i64,
    brky: i64,
}

} // verus!
