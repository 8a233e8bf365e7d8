//! Extension helpers and the per-frame input snapshot.

use vstd::prelude::*;

verus! {

/// Extensions for booleans.
pub trait BoolExt: Sized {
    /// The toggled value.
    spec fn toggled(self) -> Self;

    /// Toggle the value.
    fn toggle(&mut self)
        ensures
            *final(self) == old(self).toggled(),
    ;
}

impl BoolExt for bool {
    open spec fn toggled(self) -> bool {
        !self
    }

    fn toggle(&mut self) {
        *self = !*self;
    }
}

/// Extensions for fixed-point scalars: ramping a value toward a bound
/// without passing it.
pub trait FloatExt: Sized {
    /// Whether `cap_add` stays within the scalar's range.
    spec fn cap_add_ok(self, rhs: Self, cap: Self) -> bool;

    /// The sum, saturated to an upper bound.
    spec fn cap_add_spec(self, rhs: Self, cap: Self) -> Self;

    /// Whether `cap_sub` stays within the scalar's range.
    spec fn cap_sub_ok(self, rhs: Self, cap: Self) -> bool;

    /// The difference, saturated to a lower bound.
    spec fn cap_sub_spec(self, rhs: Self, cap: Self) -> Self;

    /// Add a number with a saturating upper bound.
    fn cap_add(&mut self, rhs: Self, cap: Self)
        requires
            old(self).cap_add_ok(rhs, cap),
        ensures
            *final(self) == old(self).cap_add_spec(rhs, cap),
    ;

    /// Subtract a number with a saturating lower bound.
    fn cap_sub(&mut self, rhs: Self, cap: Self)
        requires
            old(self).cap_sub_ok(rhs, cap),
        ensures
            *final(self) == old(self).cap_sub_spec(rhs, cap),
    ;
}

impl FloatExt for i64 {
    open spec fn cap_add_ok(self, rhs: i64, cap: i64) -> bool {
        i64::MIN <= self + rhs <= i64::MAX
    }

    open spec fn cap_add_spec(self, rhs: i64, cap: i64) -> i64 {
        if self + rhs > cap {
            cap
        } else {
            (self + rhs) as i64
        }
    }

    open spec fn cap_sub_ok(self, rhs: i64, cap: i64) -> bool {
        i64::MIN <= self - rhs <= i64::MAX
    }

    open spec fn cap_sub_spec(self, rhs: i64, cap: i64) -> i64 {
        if self - rhs < cap {
            cap
        } else {
            (self - rhs) as i64
        }
    }

    fn cap_add(&mut self, rhs: i64, cap: i64) {
        let s = *self + rhs;
        *self = if s > cap {
            cap
        } else {
            s
        };
    }

    fn cap_sub(&mut self, rhs: i64, cap: i64) {
        let s = *self - rhs;
        *self = if s < cap {
            cap
        } else {
            s
        };
    }
}

/// The sign of an integer: -1, 0 or 1.
pub open spec fn signum(a: int) -> int {
    if a > 0 {
        1
    } else if a < 0 {
        -1
    } else {
        0
    }
}

/// Tracks how many buttons are being pressed in specific directions.
#[derive(Clone, Copy, Debug, PartialEq, Eq, Structural)]
pub struct InputState {
    /// Up keys down.
    pub up: u8,
    /// Down keys down.
    pub down: u8,
    /// Left keys down.
    pub left: u8,
    /// Right keys down.
    pub right: u8,
}

impl InputState {
    /// A snapshot with no keys held.
    pub fn new() -> (r: Self)
        ensures
            r == (InputState { up: 0u8, down: 0u8, left: 0u8, right: 0u8 }),
    {
        InputState { up: 0, down: 0, left: 0, right: 0 }
    }

    /// Returns -1, 0 or 1 depending on whether more left or right keys
    /// are held.
    pub fn hor(&self) -> (r: i64)
        ensures
            r == signum(self.right as int - self.left as int),
    {
        if self.right > self.left {
            1
        } else if self.right < self.left {
            -1
        } else {
            0
        }
    }

    /// Returns -1, 0 or 1 depending on whether more up or down keys
    /// are held.
    pub fn ver(&self) -> (r: i64)
        ensures
            r == signum(self.down as int - self.up as int),
    {
        if self.down > self.up {
            1
        } else if self.down < self.up {
            -1
        } else {
            0
        }
    }

    /// Whether the accelerator is held.
    pub fn acltr(&self) -> (r: bool)
        ensures
            r == (self.up != 0),
    {
        self.up != 0
    }

    /// Whether the brake pedal is held.
    pub fn brk(&self) -> (r: bool)
        ensures
            r == (self.down != 0),
    {
        self.down != 0
    }
}

/// Which mouse buttons are held down.
#[derive(Clone, Copy, Debug, PartialEq, Eq, Structural)]
pub struct MouseDown {
    pub left: bool,
    pub middle: bool,
    pub right: bool,
}

impl MouseDown {
    /// A state with no buttons held.
    pub fn new() -> (r: Self)
        ensures
            r == (MouseDown { left: false, middle: false, right: false }),
    {
        MouseDown { left: false, middle: false, right: false }
    }
}

} // verus!
