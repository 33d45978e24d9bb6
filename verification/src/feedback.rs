//! What the simulation asks of sound and of the gamepads' motors.

use vstd::prelude::*;

verus! {

/// A sound that is to be played once.
#[derive(Clone, Copy, Debug, PartialEq, Eq, Structural)]
pub enum SoundCue {
    Shoot,
    Death,
    Bounce,
}

/// One pulse of the motors of a gamepad: how long it lasts, in
/// milliseconds, and how hard each motor runs, in millionths.
#[derive(Clone, Copy, Debug, PartialEq, Eq, Structural)]
pub struct RumblePulse {
    pub duration_ms: u32,
    pub strong_motor: i64,
    pub weak_motor: i64,
}

/// The pulses that go with a sound, for every connected gamepad: one short
/// pulse for a shot, a hard pulse and a longer, lighter one for the death
/// of the player, none for a bounce.
pub open spec fn pulses_of(cue: SoundCue) -> Seq<RumblePulse> {
    match cue {
        SoundCue::Shoot => seq![
            RumblePulse { duration_ms: 100, strong_motor: 100_000, weak_motor: 300_000 },
        ],
        SoundCue::Death => seq![
            RumblePulse { duration_ms: 200, strong_motor: 900_000, weak_motor: 600_000 },
            RumblePulse { duration_ms: 400, strong_motor: 200_000, weak_motor: 500_000 },
        ],
        SoundCue::Bounce => Seq::empty(),
    }
}

/// `count` times the cue `cue`.
pub open spec fn repeated(cue: SoundCue, count: nat) -> Seq<SoundCue> {
    Seq::new(count, |k: int| cue)
}

/// The pulses that go with a sound.
pub fn rumble_pulses(cue: SoundCue) -> (pulses: Vec<RumblePulse>)
    ensures
        pulses@ == pulses_of(cue),
{
    let mut pulses: Vec<RumblePulse> = Vec::new();
    match cue {
        SoundCue::Shoot => {
            pulses.push(RumblePulse { duration_ms: 100, strong_motor: 100_000, weak_motor: 300_000 });
        },
        SoundCue::Death => {
            pulses.push(RumblePulse { duration_ms: 200, strong_motor: 900_000, weak_motor: 600_000 });
            pulses.push(RumblePulse { duration_ms: 400, strong_motor: 200_000, weak_motor: 500_000 });
        },
        SoundCue::Bounce => {},
    }
    assert(pulses@ =~= pulses_of(cue));
    pulses
}

/// Appends `count` times the cue `cue`.
pub fn push_cues(cues: &mut Vec<SoundCue>, cue: SoundCue, count: usize)
    ensures
        final(cues)@ == old(cues)@ + repeated(cue, count as nat),
{
    let ghost before = cues@;
    let mut n: usize = 0;
    while n < count
        invariant
            n <= count,
            cues@ == before + repeated(cue, n as nat),
        decreases count - n,
    {
        cues.push(cue);
        n = n + 1;
        assert(cues@ =~= before + repeated(cue, n as nat));
    }
}

} // verus!
