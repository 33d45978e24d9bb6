//! The particles that projectiles leave behind and throw out: how they are
//! emitted, how they age and when they go.

use vstd::prelude::*;
use crate::display::DisplayProperties;
use crate::entities::{
    bounce_wf, bullets_wf, trail_wf, BounceParticle, Bullet, TrailParticle,
    BULLET_PARTICLE_INTERVAL, COLLISION_PARTICLE_LIFETIME, TRAIL_PARTICLE_LIFETIME,
};
use crate::fixed::{lemma_lerp_between, lerp, lerp_spec, scale, scale_spec, ONE};
use crate::motion::{advance, advanced, step_length, step_length_spec};
use crate::wave::{half_wave, half_wave_spec};

verus! {

/// Speed of a burst particle at full ease, in millionths of the shorter
/// dimension per second.
pub const COLLISION_PARTICLE_SPEED_NORMALIZED: i64 = 300_000;

/// Largest scale at which a particle is drawn.
pub const PARTICLE_SCALE_MAX: i64 = 500_000;

/// The trail timer after `dt` microseconds: the time since the last
/// interval ended.
pub open spec fn ticked(timer: u32, dt: u32) -> int {
    (timer + dt) % (BULLET_PARTICLE_INTERVAL as int)
}

/// An interval of the trail timer ends within the next `dt` microseconds.
pub open spec fn emits(timer: u32, dt: u32) -> bool {
    timer + dt >= BULLET_PARTICLE_INTERVAL
}

/// The trail particle that a projectile leaves where it is.
pub open spec fn trail_of(b: Bullet) -> TrailParticle {
    TrailParticle { position: b.position, lifetime: TRAIL_PARTICLE_LIFETIME }
}

/// The trail particles that the first `n` projectiles leave in this step,
/// in the order of the projectiles.
pub open spec fn trail_spawned(bullets: Seq<Bullet>, n: int, dt: u32) -> Seq<TrailParticle>
    decreases n,
{
    if n <= 0 {
        Seq::empty()
    } else {
        let before = trail_spawned(bullets, n - 1, dt);
        if emits(bullets[n - 1].trail_timer, dt) {
            before.push(trail_of(bullets[n - 1]))
        } else {
            before
        }
    }
}

/// The projectiles with their trail timers run on by `dt`.
pub open spec fn trail_ticked(bullets: Seq<Bullet>, dt: u32) -> Seq<Bullet> {
    Seq::new(
        bullets.len(),
        |k: int| Bullet { trail_timer: ticked(bullets[k].trail_timer, dt) as u32, ..bullets[k] },
    )
}

/// The first `n` trail particles after `dt` microseconds: each one older by
/// `dt`, those gone whose lifetime fell below zero.
pub open spec fn aged_trail(particles: Seq<TrailParticle>, n: int, dt: u32) -> Seq<TrailParticle>
    decreases n,
{
    if n <= 0 {
        Seq::empty()
    } else {
        let before = aged_trail(particles, n - 1, dt);
        let p = particles[n - 1];
        if p.lifetime - dt < 0 {
            before
        } else {
            before.push(TrailParticle { position: p.position, lifetime: (p.lifetime - dt) as i64 })
        }
    }
}

/// The scale at which a trail particle is drawn: from half size at the
/// start of its life down to nothing.
pub open spec fn trail_scale(lifetime: int) -> int {
    lerp_spec(0, PARTICLE_SCALE_MAX as int, (lifetime * ONE) / (TRAIL_PARTICLE_LIFETIME as int))
}

/// How fast a burst particle still is: the sine of the quarter turn that is
/// left of its life, counted against the lifetime of a trail particle.
pub open spec fn burst_ease(lifetime: int) -> int {
    half_wave_spec(((lifetime * ONE) / (TRAIL_PARTICLE_LIFETIME as int)) / 2)
}

/// The scale at which a burst particle is drawn.
pub open spec fn bounce_scale(lifetime: int) -> int {
    scale_spec(burst_ease(lifetime), PARTICLE_SCALE_MAX as int)
}

/// The distance that a burst particle covers at full ease in `dt`
/// microseconds.
pub open spec fn burst_reach(display: DisplayProperties, dt: u32) -> int {
    step_length_spec(
        COLLISION_PARTICLE_SPEED_NORMALIZED as int,
        display.shorter_dimension as int,
        dt as int,
    )
}

/// A burst particle that lives on, after one step: older by `dt`, and moved
/// along its direction by the eased distance.
pub open spec fn burst_stepped(p: BounceParticle, display: DisplayProperties, dt: u32) -> BounceParticle {
    let lifetime = p.lifetime - dt;
    BounceParticle {
        position: advanced(
            p.position,
            p.velocity,
            scale_spec(burst_reach(display, dt), burst_ease(lifetime)),
        ),
        lifetime: lifetime as i64,
        velocity: p.velocity,
    }
}

/// The first `n` burst particles after one step, those gone whose lifetime
/// fell below zero.
pub open spec fn aged_bursts(
    particles: Seq<BounceParticle>,
    n: int,
    display: DisplayProperties,
    dt: u32,
) -> Seq<BounceParticle>
    decreases n,
{
    if n <= 0 {
        Seq::empty()
    } else {
        let before = aged_bursts(particles, n - 1, display, dt);
        let p = particles[n - 1];
        if p.lifetime - dt < 0 {
            before
        } else {
            before.push(burst_stepped(p, display, dt))
        }
    }
}

/// Runs the trail timer of every projectile on by `dt`, and lets each one
/// whose interval ended leave a trail particle where it is.
pub fn spawn_bullet_trail(bullets: &mut Vec<Bullet>, trail: &mut Vec<TrailParticle>, dt: u32)
    requires
        bullets_wf(old(bullets)@),
        trail_wf(old(trail)@),
    ensures
        final(bullets)@ == trail_ticked(old(bullets)@, dt),
        bullets_wf(final(bullets)@),
        final(trail)@ == old(trail)@ + trail_spawned(
            old(bullets)@,
            old(bullets)@.len() as int,
            dt,
        ),
        trail_wf(final(trail)@),
{
    let ghost before = bullets@;
    let ghost held = trail@;
    let n: usize = bullets.len();
    let mut k: usize = 0;
    assert(trail@ =~= held + trail_spawned(before, 0, dt));
    while k < n
        invariant
            k <= n,
            n == before.len(),
            bullets@.len() == n,
            bullets_wf(before),
            trail_wf(trail@),
            forall|m: int|
                0 <= m < k ==> #[trigger] bullets@[m] == (Bullet {
                    trail_timer: ticked(before[m].trail_timer, dt) as u32,
                    ..before[m]
                }),
            forall|m: int| k <= m < n ==> #[trigger] bullets@[m] == before[m],
            trail@ == held + trail_spawned(before, k as int, dt),
        decreases n - k,
    {
        let b: Bullet = bullets[k];
        assert(before[k as int].wf());
        let elapsed: u64 = b.trail_timer as u64 + dt as u64;
        let rest: u32 = (elapsed % (BULLET_PARTICLE_INTERVAL as u64)) as u32;
        if elapsed >= BULLET_PARTICLE_INTERVAL as u64 {
            trail.push(TrailParticle { position: b.position, lifetime: TRAIL_PARTICLE_LIFETIME });
        }
        bullets.set(k, Bullet { trail_timer: rest, ..b });
        proof {
            assert(trail@ =~= held + trail_spawned(before, k + 1, dt));
        }
        k = k + 1;
    }
    assert(bullets@ =~= trail_ticked(before, dt));
    assert forall|m: int| 0 <= m < bullets@.len() implies (#[trigger] bullets@[m]).wf() by {
        assert(before[m].wf());
    }
}

/// Ages every trail particle by `dt` and removes those whose lifetime fell
/// below zero.
pub fn handle_trail_particles(trail: &mut Vec<TrailParticle>, dt: u32)
    requires
        trail_wf(old(trail)@),
    ensures
        final(trail)@ == aged_trail(old(trail)@, old(trail)@.len() as int, dt),
        trail_wf(final(trail)@),
        final(trail)@.len() <= old(trail)@.len(),
{
    let ghost before = trail@;
    let mut kept: Vec<TrailParticle> = Vec::new();
    let n: usize = trail.len();
    let mut k: usize = 0;
    while k < n
        invariant
            k <= n,
            n == before.len(),
            trail@ == before,
            trail_wf(before),
            trail_wf(kept@),
            kept@.len() <= k,
            kept@ == aged_trail(before, k as int, dt),
        decreases n - k,
    {
        let p: TrailParticle = trail[k];
        assert(before[k as int].wf());
        let lifetime: i64 = p.lifetime - dt as i64;
        if lifetime >= 0 {
            kept.push(TrailParticle { position: p.position, lifetime });
        }
        k = k + 1;
    }
    *trail = kept;
}

/// The scale at which a trail particle is drawn.
pub fn trail_particle_scale(lifetime: i64) -> (s: i64)
    requires
        0 <= lifetime <= TRAIL_PARTICLE_LIFETIME,
    ensures
        s == trail_scale(lifetime as int),
        0 <= s <= PARTICLE_SCALE_MAX,
{
    let t: i64 = (lifetime * ONE) / TRAIL_PARTICLE_LIFETIME;
    proof {
        lemma_lerp_between(0, PARTICLE_SCALE_MAX as int, t as int);
    }
    lerp(0, PARTICLE_SCALE_MAX, t)
}

/// How fast a burst particle still is.
pub fn bounce_particle_ease(lifetime: i64) -> (e: i64)
    requires
        0 <= lifetime <= COLLISION_PARTICLE_LIFETIME,
    ensures
        e == burst_ease(lifetime as int),
        0 <= e <= ONE,
{
    let x: i64 = (lifetime * ONE) / TRAIL_PARTICLE_LIFETIME;
    half_wave(x / 2)
}

/// The scale at which a burst particle is drawn.
pub fn bounce_particle_scale(lifetime: i64) -> (s: i64)
    requires
        0 <= lifetime <= COLLISION_PARTICLE_LIFETIME,
    ensures
        s == bounce_scale(lifetime as int),
{
    scale(bounce_particle_ease(lifetime), PARTICLE_SCALE_MAX)
}

/// Ages every burst particle by `dt`, removes those whose lifetime fell
/// below zero and moves the others outward, ever slower.
pub fn handle_bounce_particles(
    particles: &mut Vec<BounceParticle>,
    display: &DisplayProperties,
    dt: u32,
)
    requires
        bounce_wf(old(particles)@),
        display.wf(),
    ensures
        final(particles)@ == aged_bursts(
            old(particles)@,
            old(particles)@.len() as int,
            *display,
            dt,
        ),
        bounce_wf(final(particles)@),
        final(particles)@.len() <= old(particles)@.len(),
{
    let ghost before = particles@;
    let reach: i64 = step_length(COLLISION_PARTICLE_SPEED_NORMALIZED, display, dt);
    let mut kept: Vec<BounceParticle> = Vec::new();
    let n: usize = particles.len();
    let mut k: usize = 0;
    while k < n
        invariant
            k <= n,
            n == before.len(),
            particles@ == before,
            display.wf(),
            reach == burst_reach(*display, dt),
            bounce_wf(before),
            bounce_wf(kept@),
            kept@.len() <= k,
            kept@ == aged_bursts(before, k as int, *display, dt),
        decreases n - k,
    {
        let p: BounceParticle = particles[k];
        assert(before[k as int].wf());
        let lifetime: i64 = p.lifetime - dt as i64;
        if lifetime >= 0 {
            let eased: i64 = scale(reach, bounce_particle_ease(lifetime));
            let position = advance(p.position, p.velocity, eased);
            kept.push(BounceParticle { position, lifetime, velocity: p.velocity });
        }
        k = k + 1;
    }
    *particles = kept;
}

} // verus!
