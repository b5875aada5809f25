//! Velocities, and the distance covered at a speed in a time.

use vstd::prelude::*;

verus! {

/// A velocity in whole units per second along each axis.
#[derive(Clone, Copy, Debug, PartialEq, Eq, Structural)]
pub struct Velocity {
    pub x: i32,
    pub y: i32,
}

impl Velocity {
    /// Both components can change sign without leaving the `i32` range.
    pub open spec fn reversible(self) -> bool {
        self.x > i32::MIN && self.y > i32::MIN
    }

    /// Tells whether both components can change sign.
    pub fn is_reversible(&self) -> (ok: bool)
        ensures
            ok == self.reversible(),
    {
        self.x > i32::MIN && self.y > i32::MIN
    }
}

/// `value` moved into the interval from `low` to `high`.
pub open spec fn clamped(value: int, low: int, high: int) -> int {
    if value < low {
        low
    } else if value > high {
        high
    } else {
        value
    }
}

/// The distance, in millionths of a unit, covered at `speed` units per
/// second in `micros` microseconds.
pub fn travel(speed: i32, micros: u32) -> (distance: i64)
    ensures
        distance == speed * micros,
{
    assert(-0x8000_0000 * 0xffff_ffff <= speed * micros <= 0x7fff_ffff * 0xffff_ffff)
        by (nonlinear_arith)
        requires
            -0x8000_0000 <= speed <= 0x7fff_ffff,
            0 <= micros <= 0xffff_ffff,
    ;
    (speed as i64) * (micros as i64)
}

} // verus!
