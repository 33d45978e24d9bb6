//! The shake of the camera: an intensity that events add to and that dies
//! away, and the offset of the camera that it drives.

use vstd::prelude::*;
use crate::display::DisplayProperties;
use crate::fixed::{lemma_lerp_between, lerp, lerp_spec, scale, scale_spec, ONE};
use crate::vector::Vec2;
use crate::wave::{direction, direction_spec};

verus! {

/// What a shot adds to the intensity.
pub const SCREENSHAKE_ON_SHOOT: i64 = 5_000;

/// What a bounce of two projectiles adds to the intensity.
pub const SCREENSHAKE_ON_BOUNCE: i64 = 3_000;

/// What the death of the player adds to the intensity.
pub const SCREENSHAKE_ON_DEATH: i64 = 10_000;

/// The part of the intensity that dies away per second.
pub const SCREENSHAKE_DAMPENING: i64 = 10;

/// The intensity does not grow beyond this.
pub const SCREENSHAKE_MAX: i64 = 1_000_000;

/// How fast the direction of the offset turns: millionths of a turn per
/// second, which is 213.7 radians per second.
pub const SCREENSHAKE_VELOCITY: u64 = 34_011_411;

/// The intensity after `count` events have each added `amount`.
pub open spec fn shaken(intensity: int, amount: int, count: int) -> int {
    if intensity + amount * count > SCREENSHAKE_MAX {
        SCREENSHAKE_MAX as int
    } else {
        intensity + amount * count
    }
}

/// The intensity after it has died away for `dt` microseconds.
pub open spec fn dampened(intensity: int, dt: u32) -> int {
    lerp_spec(intensity, 0, SCREENSHAKE_DAMPENING * dt)
}

/// The direction of the offset after `elapsed` microseconds, as a fraction
/// of a turn.
pub open spec fn shake_turn(elapsed: u64) -> int {
    ((elapsed * SCREENSHAKE_VELOCITY) / 1_000_000) % 1_000_000
}

/// The offset of the camera: as long as the intensity times the shorter
/// dimension, in the direction that turns with the time.
pub open spec fn shake_offset(intensity: int, elapsed: u64, display: DisplayProperties) -> Vec2 {
    direction_spec(shake_turn(elapsed)).scaled(scale_spec(display.shorter_dimension as int, intensity))
}

/// Adds `amount` to the intensity for each of `count` events.
pub fn add_screenshake(intensity: &mut i64, amount: i64, count: usize)
    requires
        0 <= *old(intensity) <= SCREENSHAKE_MAX,
        0 <= amount <= SCREENSHAKE_MAX,
    ensures
        *final(intensity) == shaken(*old(intensity) as int, amount as int, count as int),
        *old(intensity) <= *final(intensity) <= SCREENSHAKE_MAX,
{
    assert(amount * count <= 1_000_000 * 0xffff_ffff_ffff_ffff) by (nonlinear_arith)
        requires
            0 <= amount <= 1_000_000,
            0 <= count <= 0xffff_ffff_ffff_ffff,
    ;
    let total: u128 = (amount as u128) * (count as u128);
    assert(amount * count >= 0) by (nonlinear_arith)
        requires
            amount >= 0,
            count >= 0,
    ;
    if total > (SCREENSHAKE_MAX - *intensity) as u128 {
        *intensity = SCREENSHAKE_MAX;
    } else {
        *intensity = *intensity + total as i64;
    }
}

/// Lets the intensity die away for `dt` microseconds of real time and
/// returns the offset of the camera at the real time `elapsed`.
pub fn handle_screenshake(
    intensity: &mut i64,
    dt: u32,
    elapsed: u64,
    display: &DisplayProperties,
) -> (offset: Vec2)
    requires
        0 <= *old(intensity) <= SCREENSHAKE_MAX,
        display.wf(),
    ensures
        *final(intensity) == dampened(*old(intensity) as int, dt),
        0 <= *final(intensity) <= *old(intensity),
        offset == shake_offset(*final(intensity) as int, elapsed, *display),
{
    let t: i64 = if dt >= 100_000 {
        ONE
    } else {
        SCREENSHAKE_DAMPENING * (dt as i64)
    };
    proof {
        lemma_lerp_between(*intensity as int, 0, t as int);
    }
    *intensity = lerp(*intensity, 0, t);
    assert(elapsed * SCREENSHAKE_VELOCITY <= 0xffff_ffff_ffff_ffff * 34_011_411) by (nonlinear_arith)
        requires
            0 <= elapsed <= 0xffff_ffff_ffff_ffff,
            SCREENSHAKE_VELOCITY == 34_011_411,
    ;
    let turns: u128 = ((elapsed as u128) * (SCREENSHAKE_VELOCITY as u128)) / 1_000_000u128;
    let turn: i64 = (turns % 1_000_000u128) as i64;
    let length: i64 = scale(display.shorter_dimension, *intensity);
    direction(turn).scale(length)
}

} // verus!
