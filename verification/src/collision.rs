//! Contact between round bodies: the player against each projectile, and
//! the projectiles against one another.

use vstd::prelude::*;
use crate::entities::{
    bounce_wf, bullets_wf, BounceParticle, Bullet, COLLISION_PARTICLE_COUNT,
    COLLISION_PARTICLE_LIFETIME,
};
use crate::fixed::{lemma_square_monotone, ONE};
use crate::random::RandomSource;
use crate::vector::{
    lemma_normalized_negation, lemma_normalized_unit, lemma_square_of_magnitude, magnitude, Vec2,
};
use crate::wave::{direction_of_word, sample_boundary};

verus! {

/// The square of the distance between two points.
pub open spec fn dist_sq(a: Vec2, b: Vec2) -> int {
    (a.x - b.x) * (a.x - b.x) + (a.y - b.y) * (a.y - b.y)
}

/// Two bodies are closer than `reach`.
pub open spec fn touches(a: Vec2, b: Vec2, reach: int) -> bool {
    dist_sq(a, b) < reach * reach
}

/// Two projectiles are closer than `reach`, and not closer than one pixel:
/// they bounce off each other.
pub open spec fn bounces(a: Vec2, b: Vec2, reach: int) -> bool {
    ONE * ONE <= dist_sq(a, b) < reach * reach
}

/// The particle that the random word `w` throws out from `origin`.
pub open spec fn burst_particle(origin: Vec2, w: u32) -> BounceParticle {
    BounceParticle {
        position: origin,
        lifetime: COLLISION_PARTICLE_LIFETIME,
        velocity: direction_of_word(w),
    }
}

/// The burst at `origin` that is drawn from the words of `source` that lie
/// `first` and more draws ahead.
pub open spec fn burst(origin: Vec2, source: RandomSource, first: nat) -> Seq<BounceParticle> {
    Seq::new(
        COLLISION_PARTICLE_COUNT as nat,
        |n: int| burst_particle(origin, source.word(first + n as nat)),
    )
}

/// The square of the distance between two points of the world.
pub fn distance_sq(a: Vec2, b: Vec2) -> (r: u128)
    requires
        a.in_world(),
        b.in_world(),
    ensures
        r == dist_sq(a, b),
{
    let d = a.sub(b);
    assert(d.length_sq() == dist_sq(a, b));
    d.len_sq()
}

/// The square of a length.
pub fn square(reach: i64) -> (r: u128)
    ensures
        r == reach * reach,
{
    let m: u128 = magnitude(reach);
    proof {
        lemma_square_of_magnitude(reach as int);
        lemma_square_monotone(m as int, 0x8000_0000_0000_0000);
    }
    m * m
}

/// Whether two bodies are closer than `reach`.
pub fn in_touch(a: Vec2, b: Vec2, reach: i64) -> (r: bool)
    requires
        a.in_world(),
        b.in_world(),
    ensures
        r == touches(a, b, reach as int),
{
    distance_sq(a, b) < square(reach)
}

/// Whether two projectiles bounce off each other.
pub fn in_bounce(a: Vec2, b: Vec2, reach: i64) -> (r: bool)
    requires
        a.in_world(),
        b.in_world(),
    ensures
        r == bounces(a, b, reach as int),
{
    let d: u128 = distance_sq(a, b);
    1_000_000u128 * 1_000_000u128 <= d && d < square(reach)
}

/// Throws out one burst at `origin`: 32 particles, each with the full
/// lifetime and each in the direction that the next random word picks.
pub fn spawn_burst(particles: &mut Vec<BounceParticle>, origin: Vec2, random: &mut RandomSource)
    requires
        origin.in_world(),
        bounce_wf(old(particles)@),
    ensures
        final(particles)@ == old(particles)@ + burst(origin, *old(random), 0),
        bounce_wf(final(particles)@),
        forall|k: nat| #[trigger]
            final(random).word(k) == old(random).word(k + COLLISION_PARTICLE_COUNT as nat),
{
    let ghost before = particles@;
    let ghost source = *random;
    let mut n: usize = 0;
    while n < COLLISION_PARTICLE_COUNT
        invariant
            n <= COLLISION_PARTICLE_COUNT,
            origin.in_world(),
            particles@.len() == before.len() + n,
            forall|k: int| 0 <= k < before.len() ==> particles@[k] == before[k],
            forall|k: int|
                0 <= k < n ==> #[trigger] particles@[before.len() + k] == burst_particle(
                    origin,
                    source.word(k as nat),
                ),
            bounce_wf(particles@),
            forall|k: nat| #[trigger] random.word(k) == source.word(k + n as nat),
        decreases COLLISION_PARTICLE_COUNT - n,
    {
        let ghost current = *random;
        let w: u32 = random.next_u32();
        let v: Vec2 = sample_boundary(w);
        assert(w == source.word(n as nat)) by {
            assert(current.word(0) == source.word(0 + n as nat));
        }
        assert forall|k: nat| #[trigger] random.word(k) == source.word(k + (n + 1) as nat) by {
            assert(random.word(k) == current.word(k + 1));
            assert(current.word(k + 1) == source.word((k + 1) + n as nat));
        }
        particles.push(
            BounceParticle { position: origin, lifetime: COLLISION_PARTICLE_LIFETIME, velocity: v },
        );
        n = n + 1;
    }
    let ghost whole = before + burst(origin, source, 0);
    assert forall|k: int| 0 <= k < whole.len() implies particles@[k] == whole[k] by {
        if k >= before.len() {
            let m = k - before.len();
            assert(particles@[before.len() + m] == burst_particle(origin, source.word(m as nat)));
            assert(source.word(0 + m as nat) == source.word(m as nat));
        }
    }
    assert(particles@ =~= whole);
}

/// The highest index below `bound`, other than `k`, of a projectile that
/// bounces off projectile `k`; -1 if there is none.
pub open spec fn highest_partner(bullets: Seq<Bullet>, k: int, bound: int, reach: int) -> int
    decreases bound,
{
    if bound <= 0 {
        -1
    } else if bound - 1 != k && bounces(bullets[k].position, bullets[bound - 1].position, reach) {
        bound - 1
    } else {
        highest_partner(bullets, k, bound - 1, reach)
    }
}

/// The direction of projectile `k` once it has met its partners below
/// `bound`: straight away from the highest of them, or as before if it has
/// none.
pub open spec fn velocity_facing(bullets: Seq<Bullet>, k: int, bound: int, reach: int) -> Vec2 {
    let m = highest_partner(bullets, k, bound, reach);
    if m < 0 {
        bullets[k].velocity
    } else {
        bullets[k].position.minus(bullets[m].position).normalized()
    }
}

/// The projectiles after every pair has been resolved: each one that
/// bounces off another flies straight away from the highest-indexed
/// projectile that it bounces off. Positions do not change.
pub open spec fn bounced(bullets: Seq<Bullet>, reach: int) -> Seq<Bullet> {
    Seq::new(
        bullets.len(),
        |k: int|
            Bullet {
                velocity: velocity_facing(bullets, k, bullets.len() as int, reach),
                ..bullets[k]
            },
    )
}

/// The bursts of the pairs `(i, i + 1)` to `(i, j - 1)`, drawn from the
/// words of `source` that lie `base` and more draws ahead.
pub open spec fn bursts_in_row(
    bullets: Seq<Bullet>,
    i: int,
    j: int,
    reach: int,
    source: RandomSource,
    base: nat,
) -> Seq<BounceParticle>
    decreases j - i,
{
    if j <= i + 1 {
        Seq::empty()
    } else {
        let before = bursts_in_row(bullets, i, j - 1, reach, source, base);
        if bounces(bullets[i].position, bullets[j - 1].position, reach) {
            before + burst(
                bullets[i].position.midpoint(bullets[j - 1].position),
                source,
                base + before.len(),
            )
        } else {
            before
        }
    }
}

/// The bursts of all pairs whose lower index is below `i`, in the order of
/// the pairs, each drawn from the words that follow those of the burst
/// before it.
pub open spec fn bursts_in_rows(bullets: Seq<Bullet>, i: int, reach: int, source: RandomSource) -> Seq<
    BounceParticle,
>
    decreases i,
{
    if i <= 0 {
        Seq::empty()
    } else {
        let before = bursts_in_rows(bullets, i - 1, reach, source);
        before + bursts_in_row(bullets, i - 1, bullets.len() as int, reach, source, before.len())
    }
}

/// The bursts of all pairs of projectiles that bounce.
pub open spec fn all_bursts(bullets: Seq<Bullet>, reach: int, source: RandomSource) -> Seq<
    BounceParticle,
> {
    bursts_in_rows(bullets, bullets.len() as int, reach, source)
}

/// The number of bouncing pairs among `(i, i + 1)` to `(i, j - 1)`.
pub open spec fn bounces_in_row(bullets: Seq<Bullet>, i: int, j: int, reach: int) -> nat
    decreases j - i,
{
    if j <= i + 1 {
        0
    } else {
        bounces_in_row(bullets, i, j - 1, reach) + if bounces(
            bullets[i].position,
            bullets[j - 1].position,
            reach,
        ) {
            1nat
        } else {
            0nat
        }
    }
}

/// The number of bouncing pairs whose lower index is below `i`.
pub open spec fn bounces_in_rows(bullets: Seq<Bullet>, i: int, reach: int) -> nat
    decreases i,
{
    if i <= 0 {
        0
    } else {
        bounces_in_rows(bullets, i - 1, reach) + bounces_in_row(
            bullets,
            i - 1,
            bullets.len() as int,
            reach,
        )
    }
}

/// The number of pairs of projectiles that bounce.
pub open spec fn bounce_count(bullets: Seq<Bullet>, reach: int) -> nat {
    bounces_in_rows(bullets, bullets.len() as int, reach)
}

/// The number of projectiles among the first `n` that touch the player.
pub open spec fn kills_among(bullets: Seq<Bullet>, player: Vec2, reach: int, n: int) -> nat
    decreases n,
{
    if n <= 0 {
        0
    } else {
        kills_among(bullets, player, reach, n - 1) + if touches(
            bullets[n - 1].position,
            player,
            reach,
        ) {
            1nat
        } else {
            0nat
        }
    }
}

/// The number of projectiles that touch the player.
pub open spec fn kill_count(bullets: Seq<Bullet>, player: Vec2, reach: int) -> nat {
    kills_among(bullets, player, reach, bullets.len() as int)
}

/// Which partners projectile `k` has met when the pairs before `(i, j)`
/// have been resolved, as a bound on their indices.
pub open spec fn settled_bound(k: int, i: int, j: int, n: int) -> int {
    if k < i {
        n
    } else if k == i {
        j
    } else if k < j {
        i + 1
    } else {
        i
    }
}

/// The distance from `a` to `b` is the distance from `b` to `a`.
pub proof fn lemma_dist_symmetric(a: Vec2, b: Vec2)
    ensures
        dist_sq(a, b) == dist_sq(b, a),
{
    assert((a.x - b.x) * (a.x - b.x) == (b.x - a.x) * (b.x - a.x)) by (nonlinear_arith);
    assert((a.y - b.y) * (a.y - b.y) == (b.y - a.y) * (b.y - a.y)) by (nonlinear_arith);
}

/// Each burst has 32 particles: the bursts of a row hold 32 particles for
/// each of its bouncing pairs.
pub proof fn lemma_row_length(
    bullets: Seq<Bullet>,
    i: int,
    j: int,
    reach: int,
    source: RandomSource,
    base: nat,
)
    ensures
        bursts_in_row(bullets, i, j, reach, source, base).len() == COLLISION_PARTICLE_COUNT
            * bounces_in_row(bullets, i, j, reach),
    decreases j - i,
{
    if j > i + 1 {
        lemma_row_length(bullets, i, j - 1, reach, source, base);
    }
}

/// The bursts of all rows below `i` hold 32 particles for each bouncing
/// pair.
pub proof fn lemma_rows_length(bullets: Seq<Bullet>, i: int, reach: int, source: RandomSource)
    ensures
        bursts_in_rows(bullets, i, reach, source).len() == COLLISION_PARTICLE_COUNT
            * bounces_in_rows(bullets, i, reach),
    decreases i,
{
    if i > 0 {
        lemma_rows_length(bullets, i - 1, reach, source);
        lemma_row_length(
            bullets,
            i - 1,
            bullets.len() as int,
            reach,
            source,
            bursts_in_rows(bullets, i - 1, reach, source).len(),
        );
    }
}

/// The number of projectiles that touch the player.
pub fn count_kills(bullets: &Vec<Bullet>, player: Vec2, reach: i64) -> (kills: usize)
    requires
        bullets_wf(bullets@),
        player.in_world(),
    ensures
        kills == kill_count(bullets@, player, reach as int),
        kills <= bullets@.len(),
{
    let mut kills: usize = 0;
    let mut n: usize = 0;
    while n < bullets.len()
        invariant
            n <= bullets@.len(),
            kills <= n,
            bullets_wf(bullets@),
            player.in_world(),
            kills == kills_among(bullets@, player, reach as int, n as int),
        decreases bullets@.len() - n,
    {
        let b: Bullet = bullets[n];
        assert(bullets@[n as int].wf());
        if in_touch(b.position, player, reach) {
            kills = kills + 1;
        }
        n = n + 1;
    }
    kills
}

/// Resolves every pair of projectiles, in the order of the pairs: the two
/// of a pair that bounces fly apart along the line through them, and a
/// burst is thrown out half way between them. Returns the number of pairs
/// that bounced.
pub fn bounce_bullets(
    bullets: &mut Vec<Bullet>,
    reach: i64,
    random: &mut RandomSource,
    particles: &mut Vec<BounceParticle>,
) -> (count: usize)
    requires
        bullets_wf(old(bullets)@),
        bounce_wf(old(particles)@),
    ensures
        final(bullets)@ == bounced(old(bullets)@, reach as int),
        bullets_wf(final(bullets)@),
        final(particles)@ == old(particles)@ + all_bursts(
            old(bullets)@,
            reach as int,
            *old(random),
        ),
        bounce_wf(final(particles)@),
        forall|k: nat| #[trigger]
            final(random).word(k) == old(random).word(
                k + all_bursts(old(bullets)@, reach as int, *old(random)).len(),
            ),
        count == bounce_count(old(bullets)@, reach as int),
        final(particles)@.len() == old(particles)@.len() + COLLISION_PARTICLE_COUNT * count,
{
    let ghost initial = bullets@;
    let ghost stock = particles@;
    let ghost src = *random;
    let ghost r = reach as int;
    let n: usize = bullets.len();
    let mut count: usize = 0;
    let mut i: usize = 0;
    assert(particles@ =~= stock + bursts_in_rows(initial, 0, r, src));
    while i < n
        invariant
            i <= n,
            n == initial.len(),
            bullets@.len() == n,
            r == reach as int,
            bullets_wf(initial),
            bullets_wf(bullets@),
            bounce_wf(particles@),
            forall|k: int|
                0 <= k < n ==> (#[trigger] bullets@[k]).position == initial[k].position
                    && bullets@[k].trail_timer == initial[k].trail_timer,
            forall|k: int|
                0 <= k < n ==> (#[trigger] bullets@[k]).velocity == velocity_facing(
                    initial,
                    k,
                    if k < i {
                        n as int
                    } else {
                        i as int
                    },
                    r,
                ),
            particles@ == stock + bursts_in_rows(initial, i as int, r, src),
            forall|k: nat| #[trigger]
                random.word(k) == src.word(k + bursts_in_rows(initial, i as int, r, src).len()),
            COLLISION_PARTICLE_COUNT * count == bursts_in_rows(initial, i as int, r, src).len(),
            count == bounces_in_rows(initial, i as int, r),
        decreases n - i,
    {
        let ghost rows = bursts_in_rows(initial, i as int, r, src);
        let mut j: usize = i + 1;
        proof {
            assert forall|k: int| 0 <= k < n implies (#[trigger] bullets@[k]).velocity
                == velocity_facing(initial, k, settled_bound(k, i as int, i + 1, n as int), r) by {
                if k == i {
                    assert(highest_partner(initial, k, i + 1, r) == highest_partner(initial, k, i as int, r));
                }
            }
            assert(particles@ =~= stock + rows + bursts_in_row(initial, i as int, i + 1, r, src, rows.len()));
        }
        while j < n
            invariant
                i < n,
                i + 1 <= j <= n,
                n == initial.len(),
                bullets@.len() == n,
                r == reach as int,
                bullets_wf(initial),
                bullets_wf(bullets@),
                bounce_wf(particles@),
                rows == bursts_in_rows(initial, i as int, r, src),
                forall|k: int|
                    0 <= k < n ==> (#[trigger] bullets@[k]).position == initial[k].position
                        && bullets@[k].trail_timer == initial[k].trail_timer,
                forall|k: int|
                    0 <= k < n ==> (#[trigger] bullets@[k]).velocity == velocity_facing(
                        initial,
                        k,
                        settled_bound(k, i as int, j as int, n as int),
                        r,
                    ),
                particles@ == stock + rows + bursts_in_row(
                    initial,
                    i as int,
                    j as int,
                    r,
                    src,
                    rows.len(),
                ),
                forall|k: nat| #[trigger]
                    random.word(k) == src.word(
                        k + rows.len() + bursts_in_row(
                            initial,
                            i as int,
                            j as int,
                            r,
                            src,
                            rows.len(),
                        ).len(),
                    ),
                COLLISION_PARTICLE_COUNT * count == rows.len() + bursts_in_row(
                    initial,
                    i as int,
                    j as int,
                    r,
                    src,
                    rows.len(),
                ).len(),
                count == bounces_in_rows(initial, i as int, r) + bounces_in_row(
                    initial,
                    i as int,
                    j as int,
                    r,
                ),
            decreases n - j,
        {
            let a: Bullet = bullets[i];
            let b: Bullet = bullets[j];
            let ghost row = bursts_in_row(initial, i as int, j as int, r, src, rows.len());
            let ghost before = bullets@;
            assert(bullets@[i as int].wf() && bullets@[j as int].wf());
            assert(a.position == initial[i as int].position && b.position == initial[j as int].position);
            proof {
                lemma_dist_symmetric(a.position, b.position);
            }
            if in_bounce(a.position, b.position, reach) {
                let d: Vec2 = a.position.sub(b.position);
                assert(d.length_sq() == dist_sq(a.position, b.position));
                assert(!d.is_zero()) by {
                    if d.is_zero() {
                        assert(d.x * d.x + d.y * d.y == 0) by (nonlinear_arith)
                            requires
                                d.x == 0,
                                d.y == 0,
                        ;
                    }
                }
                proof {
                    lemma_normalized_unit(d);
                    lemma_normalized_negation(d);
                    assert(b.position.minus(a.position) == d.negated());
                }
                let dir: Vec2 = d.normalize();
                let back: Vec2 = dir.neg();
                assert(back == b.position.minus(a.position).normalized());
                assert(back.is_unit());
                bullets.set(i, Bullet { velocity: dir, ..a });
                bullets.set(j, Bullet { velocity: back, ..b });
                let origin: Vec2 = a.position.mid(b.position);
                let ghost current = *random;
                let ghost held = particles@;
                spawn_burst(particles, origin, random);
                assert(held.len() == stock.len() + rows.len() + row.len());
                assert(particles@.len() == held.len() + COLLISION_PARTICLE_COUNT);
                assert(COLLISION_PARTICLE_COUNT == 32);
                assert(32 * count == rows.len() + row.len());
                let total: usize = particles.len();
                assert(32 * count + 32 <= total);
                count = count + 1;
                proof {
                    let fresh = burst(origin, src, rows.len() + row.len());
                    assert(burst(origin, current, 0) =~= fresh) by {
                        assert forall|m: int| 0 <= m < COLLISION_PARTICLE_COUNT implies burst(
                            origin,
                            current,
                            0,
                        )[m] == fresh[m] by {
                            assert(current.word(0 + m as nat) == src.word(
                                (0 + m as nat) + rows.len() + row.len(),
                            ));
                        }
                    }
                    assert(bursts_in_row(initial, i as int, j + 1, r, src, rows.len()) == row + fresh);
                    assert(particles@ =~= stock + rows + (row + fresh));
                    assert forall|k: nat| #[trigger]
                        random.word(k) == src.word(k + rows.len() + (row + fresh).len()) by {
                        assert(random.word(k) == current.word(k + COLLISION_PARTICLE_COUNT as nat));
                    }
                }
            } else {
                proof {
                    assert(bursts_in_row(initial, i as int, j + 1, r, src, rows.len()) == row);
                }
            }
            proof {
                assert forall|k: int| 0 <= k < n implies (#[trigger] bullets@[k]).velocity
                    == velocity_facing(initial, k, settled_bound(k, i as int, j + 1, n as int), r) by {
                    assert(before[k].velocity == velocity_facing(
                        initial,
                        k,
                        settled_bound(k, i as int, j as int, n as int),
                        r,
                    ));
                    if k == i {
                        assert(highest_partner(initial, k, j + 1, r) == if bounces(
                            initial[k].position,
                            initial[j as int].position,
                            r,
                        ) {
                            j as int
                        } else {
                            highest_partner(initial, k, j as int, r)
                        });
                    } else if k == j {
                        lemma_dist_symmetric(initial[k].position, initial[i as int].position);
                        assert(highest_partner(initial, k, i + 1, r) == if bounces(
                            initial[k].position,
                            initial[i as int].position,
                            r,
                        ) {
                            i as int
                        } else {
                            highest_partner(initial, k, i as int, r)
                        });
                    }
                }
            }
            j = j + 1;
        }
        proof {
            assert forall|k: int| 0 <= k < n implies (#[trigger] bullets@[k]).velocity
                == velocity_facing(
                initial,
                k,
                if k < i + 1 {
                    n as int
                } else {
                    i + 1
                },
                r,
            ) by {
                assert(bullets@[k].velocity == velocity_facing(
                    initial,
                    k,
                    settled_bound(k, i as int, n as int, n as int),
                    r,
                ));
            }
            assert(particles@ =~= stock + bursts_in_rows(initial, i + 1, r, src));
        }
        i = i + 1;
    }
    assert(bullets@ =~= bounced(initial, r));
    count
}

} // verus!
