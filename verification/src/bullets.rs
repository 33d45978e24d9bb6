//! Projectiles: how they are fired and how they fly and bounce off the
//! edges of the viewport.

use vstd::prelude::*;
use crate::display::{DisplayProperties, PLAYER_SIZE};
use crate::entities::{bullets_wf, Bullet, Player};
use crate::fixed::{
    lemma_lerp_between, lerp, lerp_spec, saturate, saturate_wide, scale, scale_spec, ONE,
};
use crate::motion::{advance, advanced, step_length, step_length_spec};
use crate::vector::{lemma_unit_components, Vec2};

verus! {

/// Speed of a projectile, in millionths of the shorter dimension per second.
pub const BULLET_MOVEMENT_SPEED_NORMALIZED: i64 = 400_000;

/// Time from the start of a round to the first shot, in microseconds.
pub const FIRST_SHOT_DELAY: i64 = 2_000_000;

/// Shortest time added to the cooldown after a shot, in microseconds.
pub const SHOT_INTERVAL_MIN: i64 = 50_000;

/// Longest time added to the cooldown after a shot, in microseconds.
pub const SHOT_INTERVAL_MAX: i64 = 2_000_000;

/// The score, in microseconds, from which on the longest interval is added.
pub const FULL_INTERVAL_SCORE: u64 = 10_000_000;

/// One component of a velocity after the edge test: it changes sign where
/// the body moves outward and is beyond the margin on that side.
pub open spec fn reflect_axis(v: int, p: int, margin: int) -> int {
    if v > 0 {
        if p > margin {
            -v
        } else {
            v
        }
    } else {
        if p < -margin {
            -v
        } else {
            v
        }
    }
}

/// A projectile after one step: moved `reach` far along its direction, then
/// turned back at each edge that it has crossed. It is not put back inside.
pub open spec fn bounced_off_edges(b: Bullet, display: DisplayProperties, reach: int) -> Bullet {
    let p = advanced(b.position, b.velocity, reach);
    Bullet {
        position: p,
        velocity: Vec2 {
            x: reflect_axis(b.velocity.x as int, p.x as int, display.half_w - display.radius()) as i64,
            y: reflect_axis(b.velocity.y as int, p.y as int, display.half_h - display.radius()) as i64,
        },
        trail_timer: b.trail_timer,
    }
}

/// The distance that a projectile covers in `dt` microseconds.
pub open spec fn bullet_reach(display: DisplayProperties, dt: u32) -> int {
    step_length_spec(
        BULLET_MOVEMENT_SPEED_NORMALIZED as int,
        display.shorter_dimension as int,
        dt as int,
    )
}

/// All projectiles after one step.
pub open spec fn moved_bouncers(bullets: Seq<Bullet>, display: DisplayProperties, dt: u32) -> Seq<
    Bullet,
> {
    Seq::new(bullets.len(), |k: int| bounced_off_edges(bullets[k], display, bullet_reach(display, dt)))
}

/// How far the score has come toward the full interval: the square of a
/// tenth of the score in seconds, at most `ONE`.
pub open spec fn difficulty(score: int) -> int {
    let s = (if score < FULL_INTERVAL_SCORE {
        score
    } else {
        FULL_INTERVAL_SCORE as int
    }) / 10;
    (s * s) / (ONE as int)
}

/// The time added to the cooldown after a shot at the given score.
pub open spec fn shot_interval(score: int) -> int {
    lerp_spec(SHOT_INTERVAL_MIN as int, SHOT_INTERVAL_MAX as int, difficulty(score))
}

/// How far ahead of the player a projectile starts: three radii.
pub open spec fn muzzle_offset(display: DisplayProperties) -> int {
    scale_spec(display.shorter_dimension as int, 3 * PLAYER_SIZE)
}

/// The cooldown after `dt` microseconds have passed.
pub open spec fn cooled(timer: int, dt: int) -> int {
    saturate(timer - dt)
}

/// A shot is fired in this step: the cooldown has run out and the aim is
/// not on the player.
pub open spec fn fires(player: Player, aim: Vec2, dt: u32) -> bool {
    cooled(player.bullet_timer as int, dt as int) <= 0 && aim != player.position
}

/// The projectile that the player fires toward the aim.
pub open spec fn fired_bullet(player: Player, aim: Vec2, display: DisplayProperties) -> Bullet {
    let direction = aim.minus(player.position).normalized();
    Bullet {
        position: advanced(player.position, direction, muzzle_offset(display)),
        velocity: direction,
        trail_timer: 0,
    }
}

/// The player after the step: the cooldown has run on, and where a shot
/// was fired the interval for the score has been added to it.
pub open spec fn player_after_shot(player: Player, aim: Vec2, score: u64, dt: u32) -> Player {
    let rest = cooled(player.bullet_timer as int, dt as int);
    Player {
        position: player.position,
        bullet_timer: (if fires(player, aim, dt) {
            rest + shot_interval(score as int)
        } else {
            rest
        }) as i64,
    }
}

/// The difficulty lies between 0 and `ONE`, grows with the score, and is
/// `ONE` from the full score on.
pub proof fn lemma_difficulty(a: int, b: int)
    requires
        0 <= a <= b,
    ensures
        0 <= difficulty(a) <= difficulty(b) <= ONE,
        b >= FULL_INTERVAL_SCORE ==> difficulty(b) == ONE,
        difficulty(0) == 0,
{
    let sa = (if a < FULL_INTERVAL_SCORE {
        a
    } else {
        FULL_INTERVAL_SCORE as int
    }) / 10;
    let sb = (if b < FULL_INTERVAL_SCORE {
        b
    } else {
        FULL_INTERVAL_SCORE as int
    }) / 10;
    assert(0 <= sa <= sb <= 1_000_000);
    assert(0 <= sa * sa <= sb * sb <= 1_000_000 * 1_000_000) by (nonlinear_arith)
        requires
            0 <= sa <= sb <= 1_000_000,
    ;
    if b >= FULL_INTERVAL_SCORE {
        assert(sb * sb == 1_000_000_000_000) by (nonlinear_arith)
            requires
                sb == 1_000_000,
        ;
    }
}

/// Moves every projectile one step and turns it back at the edges.
pub fn move_bouncers(bullets: &mut Vec<Bullet>, display: &DisplayProperties, dt: u32)
    requires
        bullets_wf(old(bullets)@),
        display.wf(),
    ensures
        final(bullets)@ == moved_bouncers(old(bullets)@, *display, dt),
        bullets_wf(final(bullets)@),
        forall|k: int|
            0 <= k < old(bullets)@.len() ==> (#[trigger] final(bullets)@[k]).velocity.length_sq()
                == old(bullets)@[k].velocity.length_sq(),
{
    let ghost before = bullets@;
    let reach: i64 = step_length(BULLET_MOVEMENT_SPEED_NORMALIZED, display, dt);
    let radius: i64 = display.player_radius();
    let w_margin: i64 = display.half_w - radius;
    let h_margin: i64 = display.half_h - radius;
    let n: usize = bullets.len();
    let mut k: usize = 0;
    while k < n
        invariant
            k <= n,
            n == before.len(),
            bullets@.len() == n,
            display.wf(),
            bullets_wf(before),
            reach == bullet_reach(*display, dt),
            w_margin == display.half_w - display.radius(),
            h_margin == display.half_h - display.radius(),
            0 <= w_margin <= display.half_w,
            0 <= h_margin <= display.half_h,
            forall|m: int|
                0 <= m < k ==> #[trigger] bullets@[m] == bounced_off_edges(
                    before[m],
                    *display,
                    reach as int,
                ),
            forall|m: int| k <= m < n ==> #[trigger] bullets@[m] == before[m],
            forall|m: int|
                0 <= m < k ==> (#[trigger] bullets@[m]).wf() && bullets@[m].velocity.length_sq()
                    == before[m].velocity.length_sq(),
        decreases n - k,
    {
        let b: Bullet = bullets[k];
        assert(before[k as int].wf());
        proof {
            lemma_unit_components(b.velocity);
        }
        let position: Vec2 = advance(b.position, b.velocity, reach);
        let mut velocity: Vec2 = b.velocity;
        if velocity.x > 0 {
            if position.x > w_margin {
                velocity.x = -velocity.x;
            }
        } else {
            if position.x < -w_margin {
                velocity.x = -velocity.x;
            }
        }
        if velocity.y > 0 {
            if position.y > h_margin {
                velocity.y = -velocity.y;
            }
        } else {
            if position.y < -h_margin {
                velocity.y = -velocity.y;
            }
        }
        proof {
            assert(velocity.x * velocity.x == b.velocity.x * b.velocity.x) by (nonlinear_arith)
                requires
                    velocity.x == b.velocity.x || velocity.x == -b.velocity.x,
            ;
            assert(velocity.y * velocity.y == b.velocity.y * b.velocity.y) by (nonlinear_arith)
                requires
                    velocity.y == b.velocity.y || velocity.y == -b.velocity.y,
            ;
        }
        bullets.set(k, Bullet { position, velocity, trail_timer: b.trail_timer });
        k = k + 1;
    }
    assert(bullets@ =~= moved_bouncers(before, *display, dt));
}

/// The time added to the cooldown after a shot at the given score.
pub fn next_shot_interval(score: u64) -> (t: i64)
    ensures
        t == shot_interval(score as int),
        SHOT_INTERVAL_MIN <= t <= SHOT_INTERVAL_MAX,
{
    let capped: u64 = if score < FULL_INTERVAL_SCORE {
        score
    } else {
        FULL_INTERVAL_SCORE
    };
    let s: u64 = capped / 10;
    assert(s * s <= 1_000_000 * 1_000_000) by (nonlinear_arith)
        requires
            0 <= s <= 1_000_000,
    ;
    let d: u64 = (s * s) / 1_000_000;
    proof {
        lemma_lerp_between(SHOT_INTERVAL_MIN as int, SHOT_INTERVAL_MAX as int, d as int);
    }
    lerp(SHOT_INTERVAL_MIN, SHOT_INTERVAL_MAX, d as i64)
}

/// Runs the player's cooldown on by `dt`; once it has run out, fires a
/// projectile from three radii ahead of the player toward the aim and adds
/// the interval for the score to the cooldown. With the aim on the player
/// no direction exists and nothing is fired. Returns whether a shot was
/// fired.
pub fn spawn_bullet(
    player: &mut Player,
    aim: Vec2,
    display: &DisplayProperties,
    score: u64,
    dt: u32,
    bullets: &mut Vec<Bullet>,
) -> (fired: bool)
    requires
        old(player).wf(),
        aim.in_world(),
        display.wf(),
        bullets_wf(old(bullets)@),
    ensures
        fired == fires(*old(player), aim, dt),
        *final(player) == player_after_shot(*old(player), aim, score, dt),
        final(player).wf(),
        fired ==> final(bullets)@ == old(bullets)@.push(fired_bullet(*old(player), aim, *display)),
        !fired ==> final(bullets)@ == old(bullets)@,
        bullets_wf(final(bullets)@),
{
    let rest: i64 = saturate_wide(player.bullet_timer as i128 - dt as i128);
    player.bullet_timer = rest;
    if rest > 0 {
        return false;
    }
    let toward: Vec2 = aim.sub(player.position);
    if toward.x == 0 && toward.y == 0 {
        return false;
    }
    let direction: Vec2 = toward.normalize();
    let offset: i64 = scale(display.shorter_dimension, 3 * PLAYER_SIZE);
    let position: Vec2 = advance(player.position, direction, offset);
    bullets.push(Bullet { position, velocity: direction, trail_timer: 0 });
    player.bullet_timer = rest + next_shot_interval(score);
    true
}

} // verus!
