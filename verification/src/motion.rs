//! How far a body travels in one step.

use vstd::prelude::*;
use crate::display::{DisplayProperties, MAX_EXTENT};
use crate::fixed::{saturate, LIMIT, ONE};
use crate::vector::Vec2;

verus! {

/// The distance covered in `dt` microseconds at a speed of `speed`
/// millionths of the length `shorter` per second, saturated.
pub open spec fn step_length_spec(speed: int, shorter: int, dt: int) -> int {
    saturate((speed * shorter * dt) / (ONE * ONE))
}

/// Where a body at `position` is after it went `reach` far along
/// `velocity`.
pub open spec fn advanced(position: Vec2, velocity: Vec2, reach: int) -> Vec2 {
    position.plus(velocity.scaled(reach))
}

/// The distance covered in one step.
pub fn step_length(speed: i64, display: &DisplayProperties, dt: u32) -> (r: i64)
    requires
        0 <= speed <= ONE,
        display.wf(),
    ensures
        r == step_length_spec(speed as int, display.shorter_dimension as int, dt as int),
        0 <= r <= LIMIT,
{
    let s: u128 = speed as u128;
    let d: u128 = display.shorter_dimension as u128;
    let t: u128 = dt as u128;
    assert(s * d <= 1_000_000 * MAX_EXTENT) by (nonlinear_arith)
        requires
            0 <= s <= 1_000_000,
            0 <= d <= MAX_EXTENT,
    ;
    assert(s * d * t <= (1_000_000 * MAX_EXTENT) * 0xffff_ffff) by (nonlinear_arith)
        requires
            0 <= s * d <= 1_000_000 * MAX_EXTENT,
            0 <= t <= 0xffff_ffff,
    ;
    let q: u128 = (s * d * t) / 1_000_000_000_000u128;
    if q > LIMIT as u128 {
        LIMIT
    } else {
        q as i64
    }
}

/// Moves a body `reach` far along `velocity`.
pub fn advance(position: Vec2, velocity: Vec2, reach: i64) -> (r: Vec2)
    ensures
        r == advanced(position, velocity, reach as int),
        r.in_world(),
{
    position.add(velocity.scale(reach))
}

} // verus!
