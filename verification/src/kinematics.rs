//! Fixed-point quantities of motion.
//!
//! Time is counted in whole nanoseconds. Velocities are counted in units of
//! 10^-10 world units per second and positions in units of 10^-19 world
//! units, so that a velocity times a number of nanoseconds is a displacement
//! in position units, and gravity is a whole number of velocity units per
//! nanosecond. An Euler step then needs no division and loses nothing.
use vstd::prelude::*;

verus! {

/// Nanoseconds in one second.
pub const NANOS_PER_SECOND: u64 = 1_000_000_000;

/// Velocity units in one world unit per second.
pub const VELOCITY_SCALE: i64 = 10_000_000_000;

/// Position units in one world unit: `VELOCITY_SCALE * NANOS_PER_SECOND`.
pub const POSITION_SCALE: i128 = 10_000_000_000_000_000_000;

/// Gravity along x, in velocity units per nanosecond.
pub const GRAVITY_X: i64 = 0;

/// Gravity along y, in velocity units per nanosecond: 9.8 world units per
/// second squared, downward.
pub const GRAVITY_Y: i64 = -98;

/// Gravity along z, in velocity units per nanosecond.
pub const GRAVITY_Z: i64 = 0;

/// The x component of a new ball's velocity: 5 world units per second.
pub const LAUNCH_X: i64 = 5 * VELOCITY_SCALE;

/// The y component of a new ball's velocity: 20 world units per second.
pub const LAUNCH_Y: i64 = 20 * VELOCITY_SCALE;

/// The z component of a new ball's velocity: 3 world units per second.
pub const LAUNCH_Z: i64 = 3 * VELOCITY_SCALE;

/// The height below which a ball is out of bounds: 100 world units down.
pub const FLOOR: i128 = -100 * POSITION_SCALE;

/// A point in space, in position units.
#[derive(Clone, Copy, Debug, PartialEq, Eq, Structural)]
pub struct Position {
    pub x: i128,
    pub y: i128,
    pub z: i128,
}

/// A rate of motion, in velocity units.
#[derive(Clone, Copy, Debug, PartialEq, Eq, Structural)]
pub struct Velocity {
    pub x: i64,
    pub y: i64,
    pub z: i64,
}

/// The nearest velocity component to `v` that the machine can hold.
pub open spec fn clamp_velocity(v: int) -> i64 {
    if v < i64::MIN {
        i64::MIN
    } else if v > i64::MAX {
        i64::MAX
    } else {
        v as i64
    }
}

/// The nearest position component to `p` that the machine can hold.
pub open spec fn clamp_position(p: int) -> i128 {
    if p < i128::MIN {
        i128::MIN
    } else if p > i128::MAX {
        i128::MAX
    } else {
        p as i128
    }
}

/// A velocity component after `delta_nanos` of constant acceleration `g`.
pub open spec fn accelerated(v: i64, g: i64, delta_nanos: u64) -> i64 {
    clamp_velocity(v + g * delta_nanos)
}

/// A position component after moving at `v` for `delta_nanos`.
pub open spec fn displaced(p: i128, v: i64, delta_nanos: u64) -> i128 {
    clamp_position(p + v * delta_nanos)
}

/// The product of a velocity-sized factor and a count of nanoseconds fits in
/// 128 bits with room for one more velocity-sized term.
proof fn lemma_product_bounds(a: i64, n: u64)
    ensures
        -0x8000_0000_0000_0000 * 0xffff_ffff_ffff_ffff <= a * n,
        a * n <= 0x7fff_ffff_ffff_ffff * 0xffff_ffff_ffff_ffff,
{
    assert(-0x8000_0000_0000_0000 * 0xffff_ffff_ffff_ffff <= a * n) by (nonlinear_arith)
        requires
            -0x8000_0000_0000_0000 <= a,
            0 <= n <= 0xffff_ffff_ffff_ffff,
    ;
    assert(a * n <= 0x7fff_ffff_ffff_ffff * 0xffff_ffff_ffff_ffff) by (nonlinear_arith)
        requires
            a <= 0x7fff_ffff_ffff_ffff,
            0 <= n <= 0xffff_ffff_ffff_ffff,
    ;
}

/// Applies a constant acceleration to one velocity component.
pub fn accelerate(v: i64, g: i64, delta_nanos: u64) -> (after: i64)
    ensures
        after == accelerated(v, g, delta_nanos),
{
    proof {
        lemma_product_bounds(g, delta_nanos);
    }
    let gained: i128 = (g as i128) * (delta_nanos as i128);
    let sum: i128 = (v as i128) + gained;
    if sum < i64::MIN as i128 {
        i64::MIN
    } else if sum > i64::MAX as i128 {
        i64::MAX
    } else {
        sum as i64
    }
}

/// Moves one position component at a constant velocity.
pub fn displace(p: i128, v: i64, delta_nanos: u64) -> (after: i128)
    ensures
        after == displaced(p, v, delta_nanos),
{
    proof {
        lemma_product_bounds(v, delta_nanos);
    }
    let moved: i128 = (v as i128) * (delta_nanos as i128);
    if moved >= 0 {
        if p > i128::MAX - moved {
            i128::MAX
        } else {
            p + moved
        }
    } else {
        if p < i128::MIN - moved {
            i128::MIN
        } else {
            p + moved
        }
    }
}

} // verus!
