//! The clocks: real time, virtual time that can be held, and the fixed
//! steps that virtual time is cut into.

use vstd::prelude::*;

verus! {

/// The length of one fixed step, in microseconds: a 64th of a second.
pub const FIXED_STEP: u32 = 15_625;

/// The virtual time that has not yet been spent on a fixed step.
#[derive(Clone, Copy, Debug, PartialEq, Eq, Structural)]
pub struct FixedClock {
    pub overstep: u32,
}

/// The virtual time that passes while `dt` microseconds of real time pass.
pub open spec fn virtual_time(paused: bool, dt: u32) -> u32 {
    if paused {
        0
    } else {
        dt
    }
}

impl FixedClock {
    /// Less than one step is left over.
    pub open spec fn wf(self) -> bool {
        self.overstep < FIXED_STEP
    }

    /// The number of fixed steps that are due once `dt` more microseconds
    /// of virtual time have passed.
    pub open spec fn steps_due(self, dt: u32) -> int {
        (self.overstep + dt) / (FIXED_STEP as int)
    }

    /// The time left over once those steps have been taken.
    pub open spec fn left_over(self, dt: u32) -> int {
        (self.overstep + dt) % (FIXED_STEP as int)
    }

    /// A clock with nothing left over.
    pub fn new() -> (clock: FixedClock)
        ensures
            clock.overstep == 0,
            clock.wf(),
    {
        FixedClock { overstep: 0 }
    }

    /// Adds `dt` microseconds of virtual time and returns the number of
    /// fixed steps that are now due.
    pub fn accumulate(&mut self, dt: u32) -> (steps: u32)
        requires
            old(self).wf(),
        ensures
            steps == old(self).steps_due(dt),
            final(self).overstep == old(self).left_over(dt),
            final(self).wf(),
            steps * FIXED_STEP + final(self).overstep == old(self).overstep + dt,
    {
        let total: u64 = self.overstep as u64 + dt as u64;
        self.overstep = (total % (FIXED_STEP as u64)) as u32;
        (total / (FIXED_STEP as u64)) as u32
    }
}

/// The virtual time that passes while `dt` microseconds of real time pass.
pub fn virtual_delta(paused: bool, dt: u32) -> (v: u32)
    ensures
        v == virtual_time(paused, dt),
{
    if paused {
        0
    } else {
        dt
    }
}

} // verus!
