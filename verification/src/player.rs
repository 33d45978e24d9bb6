//! The player and the aim marker: how input moves them and how they are
//! kept inside the viewport.

use vstd::prelude::*;
use crate::bullets::FIRST_SHOT_DELAY;
use crate::display::{DisplayProperties, PLAYER_SIZE};
use crate::entities::Player;
use crate::fixed::{
    abs_spec, clamp, clamp_spec, lemma_lerp_between, lerp, lerp_spec, saturate, scale, scale_spec,
    ONE,
};
use crate::motion::{advance, advanced, step_length, step_length_spec};
use crate::state::ControlDevice;
use crate::vector::Vec2;

verus! {

/// Speed of the player, in millionths of the shorter dimension per second.
pub const PLAYER_MOVEMENT_SPEED_NORMALIZED: i64 = 500_000;

/// A movement stick counts from this deflection on, per axis.
pub const GAMEPAD_STICK_DEADZONE: i64 = 100_000;

/// An aim stick counts from this deflection on.
pub const GAMEPAD_AIM_DEADZONE: i64 = 500_000;

/// How far from the player a fully deflected aim stick puts the aim, in
/// millionths of the shorter dimension.
pub const GAMEPAD_AIM_DISTANCE: i64 = 100_000;

/// How fast the aim follows an aim stick, per second.
pub const AIM_PULL_RATE: i64 = 10;

/// The direction keys that are held down.
#[derive(Clone, Copy, Debug, PartialEq, Eq, Structural)]
pub struct MoveInput {
    pub up: bool,
    pub down: bool,
    pub left: bool,
    pub right: bool,
}

/// A stick sample limited to the range of an axis.
pub open spec fn axis(v: int) -> int {
    clamp_spec(v, -ONE, ONE as int)
}

/// A movement axis: the sample where it is beyond the dead zone, else 0.
pub open spec fn live_axis(v: int) -> int {
    if abs_spec(axis(v)) > GAMEPAD_STICK_DEADZONE {
        axis(v)
    } else {
        0
    }
}

/// What a movement stick adds to the movement.
pub open spec fn live_stick(stick: Vec2) -> Vec2 {
    Vec2 { x: live_axis(stick.x as int) as i64, y: live_axis(stick.y as int) as i64 }
}

/// What the keys add to the movement.
pub open spec fn keys_vector(input: MoveInput) -> Vec2 {
    Vec2 {
        x: ((if input.right {
            ONE as int
        } else {
            0
        }) - (if input.left {
            ONE as int
        } else {
            0
        })) as i64,
        y: ((if input.up {
            ONE as int
        } else {
            0
        }) - (if input.down {
            ONE as int
        } else {
            0
        })) as i64,
    }
}

/// A direction key is held.
pub open spec fn any_key(input: MoveInput) -> bool {
    input.up || input.down || input.left || input.right
}

/// `start` plus what the first `n` sticks add.
pub open spec fn with_sticks(start: Vec2, sticks: Seq<Vec2>, n: int) -> Vec2
    decreases n,
{
    if n <= 0 {
        start
    } else {
        with_sticks(start, sticks, n - 1).plus(live_stick(sticks[n - 1]))
    }
}

/// One of the first `n` sticks is beyond its dead zone.
pub open spec fn any_live_stick(sticks: Seq<Vec2>, n: int) -> bool
    decreases n,
{
    if n <= 0 {
        false
    } else {
        any_live_stick(sticks, n - 1) || live_stick(sticks[n - 1]) != (Vec2 { x: 0, y: 0 })
    }
}

/// The movement that keys and sticks ask for, limited to unit length.
pub open spec fn movement_vector(input: MoveInput, sticks: Seq<Vec2>) -> Vec2 {
    with_sticks(keys_vector(input), sticks, sticks.len() as int).clamped_to_unit()
}

/// The distance that the player covers in `dt` microseconds.
pub open spec fn player_reach(display: DisplayProperties, dt: u32) -> int {
    step_length_spec(
        PLAYER_MOVEMENT_SPEED_NORMALIZED as int,
        display.shorter_dimension as int,
        dt as int,
    )
}

/// The player's position after one step of movement.
pub open spec fn moved_player(
    position: Vec2,
    input: MoveInput,
    sticks: Seq<Vec2>,
    display: DisplayProperties,
    dt: u32,
) -> Vec2 {
    advanced(position, movement_vector(input, sticks), player_reach(display, dt))
}

/// The primary device after the movement input: the gamepad if a stick is
/// beyond its dead zone, else the keyboard if a key is held, else `held`.
pub open spec fn mover_device(input: MoveInput, sticks: Seq<Vec2>, held: ControlDevice) -> ControlDevice {
    if any_live_stick(sticks, sticks.len() as int) {
        ControlDevice::Gamepad
    } else if any_key(input) {
        ControlDevice::Keyboard
    } else {
        held
    }
}

/// A position limited to the viewport less `inset` on every side.
pub open spec fn clamped_into(position: Vec2, display: DisplayProperties, inset: int) -> Vec2 {
    Vec2 {
        x: clamp_spec(position.x as int, -display.half_w + inset, display.half_w - inset) as i64,
        y: clamp_spec(position.y as int, -display.half_h + inset, display.half_h - inset) as i64,
    }
}

/// Pointer motion as a shift of the aim: limited to the world, and the
/// vertical part reversed, since the pointer's y grows downward.
pub open spec fn pointer_shift(pointer: Vec2) -> Vec2 {
    Vec2 { x: saturate(pointer.x as int) as i64, y: (-saturate(pointer.y as int)) as i64 }
}

/// An aim stick limited to the range of its axes.
pub open spec fn aim_stick(stick: Vec2) -> Vec2 {
    Vec2 { x: axis(stick.x as int) as i64, y: axis(stick.y as int) as i64 }
}

/// The stick is deflected as far as the aim dead zone or further.
pub open spec fn is_aiming(stick: Vec2) -> bool {
    aim_stick(stick).length_sq() >= GAMEPAD_AIM_DEADZONE * GAMEPAD_AIM_DEADZONE
}

/// The point that an aim stick points at.
pub open spec fn aim_target(player: Vec2, stick: Vec2, display: DisplayProperties) -> Vec2 {
    advanced(
        player,
        aim_stick(stick),
        scale_spec(display.shorter_dimension as int, GAMEPAD_AIM_DISTANCE as int),
    )
}

/// The fraction of the way to its target that the aim covers in `dt`
/// microseconds.
pub open spec fn aim_pull(dt: u32) -> int {
    AIM_PULL_RATE * dt
}

/// The aim after it was pulled toward `target`.
pub open spec fn pulled(aim: Vec2, target: Vec2, t: int) -> Vec2 {
    Vec2 {
        x: lerp_spec(aim.x as int, target.x as int, t) as i64,
        y: lerp_spec(aim.y as int, target.y as int, t) as i64,
    }
}

/// The aim after the first `n` aim sticks have pulled at it in turn.
pub open spec fn aim_after_sticks(
    aim: Vec2,
    player: Vec2,
    sticks: Seq<Vec2>,
    n: int,
    display: DisplayProperties,
    dt: u32,
) -> Vec2
    decreases n,
{
    if n <= 0 {
        aim
    } else {
        let before = aim_after_sticks(aim, player, sticks, n - 1, display, dt);
        if is_aiming(sticks[n - 1]) {
            pulled(before, aim_target(player, sticks[n - 1], display), aim_pull(dt))
        } else {
            before
        }
    }
}

/// One of the first `n` aim sticks is deflected beyond the dead zone.
pub open spec fn any_aiming(sticks: Seq<Vec2>, n: int) -> bool
    decreases n,
{
    if n <= 0 {
        false
    } else {
        any_aiming(sticks, n - 1) || is_aiming(sticks[n - 1])
    }
}

/// The aim after one step: shifted by the pointer, then pulled by each aim
/// stick.
pub open spec fn moved_aim(
    aim: Vec2,
    player: Vec2,
    pointer: Vec2,
    sticks: Seq<Vec2>,
    display: DisplayProperties,
    dt: u32,
) -> Vec2 {
    aim_after_sticks(
        aim.plus(pointer_shift(pointer)),
        player,
        sticks,
        sticks.len() as int,
        display,
        dt,
    )
}

/// The player at the start of a round: in the middle of the viewport, the
/// first shot two seconds away.
pub fn spawn_player() -> (player: Player)
    ensures
        player == (Player { position: Vec2 { x: 0, y: 0 }, bullet_timer: FIRST_SHOT_DELAY }),
        player.wf(),
{
    Player { position: Vec2 { x: 0, y: 0 }, bullet_timer: FIRST_SHOT_DELAY }
}

/// The aim at the start of a round.
pub fn spawn_player_aim() -> (aim: Vec2)
    ensures
        aim == (Vec2 { x: PLAYER_SIZE, y: PLAYER_SIZE }),
        aim.in_world(),
{
    Vec2 { x: PLAYER_SIZE, y: PLAYER_SIZE }
}

/// A stick sample with both axes limited to their range.
pub fn read_stick(stick: Vec2) -> (r: Vec2)
    ensures
        r == aim_stick(stick),
        -ONE <= r.x <= ONE,
        -ONE <= r.y <= ONE,
{
    Vec2 { x: clamp(stick.x, -ONE, ONE), y: clamp(stick.y, -ONE, ONE) }
}

/// Moves the player by what keys and sticks ask for, and notes the device
/// that gave the signal.
pub fn move_player(
    player: &mut Player,
    input: MoveInput,
    sticks: &Vec<Vec2>,
    device: &mut ControlDevice,
    display: &DisplayProperties,
    dt: u32,
)
    requires
        old(player).wf(),
        display.wf(),
    ensures
        final(player).position == moved_player(old(player).position, input, sticks@, *display, dt),
        final(player).bullet_timer == old(player).bullet_timer,
        final(player).wf(),
        *final(device) == mover_device(input, sticks@, *old(device)),
{
    let mut movement: Vec2 = Vec2 {
        x: (if input.right {
            ONE
        } else {
            0
        }) - (if input.left {
            ONE
        } else {
            0
        }),
        y: (if input.up {
            ONE
        } else {
            0
        }) - (if input.down {
            ONE
        } else {
            0
        }),
    };
    let mut live: bool = false;
    let mut n: usize = 0;
    while n < sticks.len()
        invariant
            n <= sticks@.len(),
            movement == with_sticks(keys_vector(input), sticks@, n as int),
            live == any_live_stick(sticks@, n as int),
        decreases sticks@.len() - n,
    {
        let s: Vec2 = read_stick(sticks[n]);
        let x: i64 = if s.x > GAMEPAD_STICK_DEADZONE || s.x < -GAMEPAD_STICK_DEADZONE {
            s.x
        } else {
            0
        };
        let y: i64 = if s.y > GAMEPAD_STICK_DEADZONE || s.y < -GAMEPAD_STICK_DEADZONE {
            s.y
        } else {
            0
        };
        if x != 0 || y != 0 {
            live = true;
        }
        movement = movement.add(Vec2 { x, y });
        n = n + 1;
    }
    if live {
        *device = ControlDevice::Gamepad;
    } else if input.up || input.down || input.left || input.right {
        *device = ControlDevice::Keyboard;
    }
    let reach: i64 = step_length(PLAYER_MOVEMENT_SPEED_NORMALIZED, display, dt);
    player.position = advance(player.position, movement.clamp_length_max(), reach);
}

/// Keeps the player inside the viewport, one radius away from every edge.
pub fn clamp_player(player: &mut Player, display: &DisplayProperties)
    requires
        old(player).wf(),
        display.wf(),
    ensures
        final(player).position == clamped_into(old(player).position, *display, display.radius()),
        final(player).bullet_timer == old(player).bullet_timer,
        final(player).wf(),
        abs_spec(final(player).position.x as int) <= display.half_w - display.radius(),
        abs_spec(final(player).position.y as int) <= display.half_h - display.radius(),
{
    let radius: i64 = display.player_radius();
    player.position = Vec2 {
        x: clamp(player.position.x, -display.half_w + radius, display.half_w - radius),
        y: clamp(player.position.y, -display.half_h + radius, display.half_h - radius),
    };
}

/// Moves the aim by the pointer and pulls it toward where each aim stick
/// points. Returns whether an aim stick was beyond its dead zone.
pub fn move_player_aim(
    aim: &mut Vec2,
    player: Vec2,
    pointer: Vec2,
    sticks: &Vec<Vec2>,
    display: &DisplayProperties,
    dt: u32,
) -> (aimed: bool)
    requires
        old(aim).in_world(),
        player.in_world(),
        display.wf(),
    ensures
        *final(aim) == moved_aim(*old(aim), player, pointer, sticks@, *display, dt),
        final(aim).in_world(),
        aimed == any_aiming(sticks@, sticks@.len() as int),
{
    let shift: Vec2 = Vec2::saturated(pointer.x, pointer.y);
    let ghost start = aim.plus(pointer_shift(pointer));
    *aim = aim.add(Vec2 { x: shift.x, y: -shift.y });
    let distance: i64 = scale(display.shorter_dimension, GAMEPAD_AIM_DISTANCE);
    let t: i64 = if dt >= 100_000 {
        ONE
    } else {
        AIM_PULL_RATE * (dt as i64)
    };
    let mut aimed: bool = false;
    let mut n: usize = 0;
    while n < sticks.len()
        invariant
            n <= sticks@.len(),
            aim.in_world(),
            player.in_world(),
            distance == scale_spec(display.shorter_dimension as int, GAMEPAD_AIM_DISTANCE as int),
            clamp_spec(t as int, 0, ONE as int) == clamp_spec(aim_pull(dt), 0, ONE as int),
            *aim == aim_after_sticks(start, player, sticks@, n as int, *display, dt),
            aimed == any_aiming(sticks@, n as int),
        decreases sticks@.len() - n,
    {
        let s: Vec2 = read_stick(sticks[n]);
        if s.len_sq() >= 500_000u128 * 500_000u128 {
            let target: Vec2 = advance(player, s, distance);
            proof {
                lemma_lerp_between(aim.x as int, target.x as int, t as int);
                lemma_lerp_between(aim.y as int, target.y as int, t as int);
            }
            *aim = Vec2 { x: lerp(aim.x, target.x, t), y: lerp(aim.y, target.y, t) };
            aimed = true;
        }
        n = n + 1;
    }
    aimed
}

/// Keeps the aim inside the viewport.
pub fn clamp_player_aim(aim: &mut Vec2, display: &DisplayProperties)
    requires
        display.wf(),
    ensures
        *final(aim) == clamped_into(*old(aim), *display, 0),
        final(aim).in_world(),
        abs_spec(final(aim).x as int) <= display.half_w,
        abs_spec(final(aim).y as int) <= display.half_h,
{
    *aim = Vec2 {
        x: clamp(aim.x, -display.half_w, display.half_w),
        y: clamp(aim.y, -display.half_h, display.half_h),
    };
}

} // verus!
