//! Which input device gave the last signal.

use vstd::prelude::*;
use crate::state::ControlDevice;
use crate::vector::Vec2;

verus! {

/// The pointer counts as moved where the sum of its two deltas, in
/// millionths of a pixel, exceeds one pixel per second of the frame.
pub open spec fn pointer_moved(delta: Vec2, dt: u32) -> bool {
    delta.x + delta.y > dt
}

/// One of the first `n` pointer motions counts.
pub open spec fn any_pointer_moved(motions: Seq<Vec2>, n: int, dt: u32) -> bool
    decreases n,
{
    if n <= 0 {
        false
    } else {
        any_pointer_moved(motions, n - 1, dt) || pointer_moved(motions[n - 1], dt)
    }
}

/// Makes the pointer the primary device if one of its motions in this
/// frame counts.
pub fn check_for_mouse_input(device: &mut ControlDevice, motions: &Vec<Vec2>, dt: u32)
    ensures
        *final(device) == if any_pointer_moved(motions@, motions@.len() as int, dt) {
            ControlDevice::Mouse
        } else {
            *old(device)
        },
{
    let mut moved: bool = false;
    let mut n: usize = 0;
    while n < motions.len()
        invariant
            n <= motions@.len(),
            moved == any_pointer_moved(motions@, n as int, dt),
        decreases motions@.len() - n,
    {
        let m: Vec2 = motions[n];
        if m.x as i128 + m.y as i128 > dt as i128 {
            moved = true;
        }
        n = n + 1;
    }
    if moved {
        *device = ControlDevice::Mouse;
    }
}

} // verus!
