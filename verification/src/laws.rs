//! What holds of the simulation as a whole, proved from the definitions of
//! its parts.

use vstd::prelude::*;
use crate::bullets::{
    bounced_off_edges, difficulty, lemma_difficulty, shot_interval, FULL_INTERVAL_SCORE,
    SHOT_INTERVAL_MAX, SHOT_INTERVAL_MIN,
};
use crate::collision::{
    all_bursts, bounce_count, bounced, bounces, burst, bursts_in_row, bursts_in_rows, dist_sq,
    highest_partner, lemma_dist_symmetric, lemma_rows_length,
};
use crate::display::{lemma_radius_fits, DisplayProperties};
use crate::entities::{
    bullets_wf, Bullet, COLLISION_PARTICLE_COUNT, COLLISION_PARTICLE_LIFETIME,
};
use crate::fixed::{abs_spec, lemma_lerp_between, lemma_lerp_monotone, ONE};
use crate::player::clamped_into;
use crate::random::{chacha8_word, RandomSource};
use crate::score::{clock_centis, clock_minutes, clock_seconds};
use crate::simulation::{PauseInput, SimulationView};
use crate::state::{AppState, MenuButtonAction};
use crate::vector::{lemma_normalized_negation, lemma_normalized_unit, lemma_unit_components, Vec2};

verus! {

/// Wherever the player is, once it has been kept inside the viewport it is
/// at least one radius away from every edge.
pub proof fn law_clamp_player(position: Vec2, display: DisplayProperties)
    requires
        display.wf(),
    ensures
        abs_spec(clamped_into(position, display, display.radius()).x as int) <= display.half_w
            - display.radius(),
        abs_spec(clamped_into(position, display, display.radius()).y as int) <= display.half_h
            - display.radius(),
{
    lemma_radius_fits(display);
}

/// A reflection at an edge changes at most the sign of each component of
/// the velocity: its length stays what it was, a unit length.
pub proof fn law_reflection_keeps_length(b: Bullet, display: DisplayProperties, reach: int)
    requires
        b.wf(),
    ensures
        abs_spec(bounced_off_edges(b, display, reach).velocity.x as int) == abs_spec(
            b.velocity.x as int,
        ),
        abs_spec(bounced_off_edges(b, display, reach).velocity.y as int) == abs_spec(
            b.velocity.y as int,
        ),
        bounced_off_edges(b, display, reach).velocity.length_sq() == b.velocity.length_sq(),
        bounced_off_edges(b, display, reach).velocity.is_unit(),
{
    lemma_unit_components(b.velocity);
    let v = bounced_off_edges(b, display, reach).velocity;
    assert(v.x * v.x == b.velocity.x * b.velocity.x) by (nonlinear_arith)
        requires
            v.x == b.velocity.x || v.x == -b.velocity.x,
    ;
    assert(v.y * v.y == b.velocity.y * b.velocity.y) by (nonlinear_arith)
        requires
            v.y == b.velocity.y || v.y == -b.velocity.y,
    ;
}

/// The highest partner of a projectile, where it has one, is another
/// projectile that it bounces off.
pub proof fn lemma_partner_bounces(bullets: Seq<Bullet>, k: int, bound: int, reach: int)
    ensures
        highest_partner(bullets, k, bound, reach) >= 0 ==> {
            let m = highest_partner(bullets, k, bound, reach);
            &&& m < bound
            &&& m != k
            &&& bounces(bullets[k].position, bullets[m].position, reach)
        },
        highest_partner(bullets, k, bound, reach) >= -1,
    decreases bound,
{
    if bound > 0 {
        lemma_partner_bounces(bullets, k, bound - 1, reach);
    }
}

/// Two points that are a pixel or more apart differ, and the unit vectors
/// from each to the other are opposite.
pub proof fn lemma_apart(a: Vec2, b: Vec2, reach: int)
    requires
        a.in_world(),
        b.in_world(),
        bounces(a, b, reach),
    ensures
        a.minus(b).normalized() == b.minus(a).normalized().negated(),
        a.minus(b).normalized().is_unit(),
        b.minus(a).normalized().is_unit(),
{
    let d = a.minus(b);
    let e = b.minus(a);
    assert(e == d.negated());
    assert(d.length_sq() == dist_sq(a, b));
    assert(!d.is_zero()) by {
        if d.is_zero() {
            assert(d.x * d.x + d.y * d.y == 0) by (nonlinear_arith)
                requires
                    d.x == 0,
                    d.y == 0,
            ;
        }
    }
    lemma_normalized_negation(d);
    lemma_normalized_unit(d);
    lemma_normalized_unit(e);
    assert(e.normalized().negated() == d.normalized());
}

/// Two projectiles that bounce off each other last leave in opposite
/// directions, each of unit length.
pub proof fn law_bounce_is_symmetric(bullets: Seq<Bullet>, reach: int, i: int, j: int)
    requires
        bullets_wf(bullets),
        0 <= i < bullets.len(),
        0 <= j < bullets.len(),
        highest_partner(bullets, i, bullets.len() as int, reach) == j,
        highest_partner(bullets, j, bullets.len() as int, reach) == i,
    ensures
        bounced(bullets, reach)[i].velocity == bounced(bullets, reach)[j].velocity.negated(),
        bounced(bullets, reach)[i].velocity.is_unit(),
        bounced(bullets, reach)[j].velocity.is_unit(),
{
    lemma_partner_bounces(bullets, i, bullets.len() as int, reach);
    assert(bullets[i].wf() && bullets[j].wf());
    lemma_apart(bullets[i].position, bullets[j].position, reach);
}

/// Of two projectiles alone, at a distance of a pixel or more and less
/// than the reach, each leaves straight away from the other: in opposite
/// directions, each of unit length.
pub proof fn law_pair_flies_apart(a: Bullet, b: Bullet, reach: int)
    requires
        a.wf(),
        b.wf(),
        bounces(a.position, b.position, reach),
    ensures
        bounced(seq![a, b], reach)[0].velocity == a.position.minus(b.position).normalized(),
        bounced(seq![a, b], reach)[1].velocity == b.position.minus(a.position).normalized(),
        bounced(seq![a, b], reach)[0].velocity == bounced(seq![a, b], reach)[1].velocity.negated(),
        bounced(seq![a, b], reach)[0].velocity.is_unit(),
        bounced(seq![a, b], reach)[1].velocity.is_unit(),
{
    let pair = seq![a, b];
    lemma_dist_symmetric(a.position, b.position);
    assert(highest_partner(pair, 0, 2, reach) == 1);
    assert(highest_partner(pair, 1, 1, reach) == 0);
    assert(highest_partner(pair, 1, 2, reach) == 0);
    lemma_apart(a.position, b.position, reach);
}

/// The particles of a row of bursts all start with the full lifetime.
proof fn lemma_row_lifetimes(
    bullets: Seq<Bullet>,
    i: int,
    j: int,
    reach: int,
    source: RandomSource,
    base: nat,
)
    ensures
        forall|k: int|
            0 <= k < bursts_in_row(bullets, i, j, reach, source, base).len() ==> (
            #[trigger] bursts_in_row(bullets, i, j, reach, source, base)[k]).lifetime
                == COLLISION_PARTICLE_LIFETIME,
    decreases j - i,
{
    if j > i + 1 {
        lemma_row_lifetimes(bullets, i, j - 1, reach, source, base);
        let before = bursts_in_row(bullets, i, j - 1, reach, source, base);
        let whole = bursts_in_row(bullets, i, j, reach, source, base);
        let fresh = burst(
            bullets[i].position.midpoint(bullets[j - 1].position),
            source,
            base + before.len(),
        );
        assert forall|k: int| 0 <= k < whole.len() implies (#[trigger] whole[k]).lifetime
            == COLLISION_PARTICLE_LIFETIME by {
            if k < before.len() {
                assert(whole[k] == before[k]);
            } else {
                assert(whole[k] == fresh[k - before.len()]);
            }
        }
    }
}

/// The particles of the bursts of all rows below `i` start with the full
/// lifetime.
proof fn lemma_rows_lifetimes(bullets: Seq<Bullet>, i: int, reach: int, source: RandomSource)
    ensures
        forall|k: int|
            0 <= k < bursts_in_rows(bullets, i, reach, source).len() ==> (
            #[trigger] bursts_in_rows(bullets, i, reach, source)[k]).lifetime
                == COLLISION_PARTICLE_LIFETIME,
    decreases i,
{
    if i > 0 {
        lemma_rows_lifetimes(bullets, i - 1, reach, source);
        lemma_row_lifetimes(
            bullets,
            i - 1,
            bullets.len() as int,
            reach,
            source,
            bursts_in_rows(bullets, i - 1, reach, source).len(),
        );
    }
}

/// Every pair of projectiles that bounces throws out exactly 32 particles,
/// each with a lifetime of exactly half a second.
pub proof fn law_burst_count(bullets: Seq<Bullet>, reach: int, source: RandomSource)
    ensures
        all_bursts(bullets, reach, source).len() == COLLISION_PARTICLE_COUNT * bounce_count(
            bullets,
            reach,
        ),
        forall|k: int|
            0 <= k < all_bursts(bullets, reach, source).len() ==> (#[trigger] all_bursts(
                bullets,
                reach,
                source,
            )[k]).lifetime == COLLISION_PARTICLE_LIFETIME,
        COLLISION_PARTICLE_COUNT == 32,
        COLLISION_PARTICLE_LIFETIME == ONE / 2,
{
    lemma_rows_length(bullets, bullets.len() as int, reach, source);
    lemma_rows_lifetimes(bullets, bullets.len() as int, reach, source);
}

/// The time added to the cooldown after a shot does not fall as the score
/// rises, stays between a twentieth of a second and two seconds, and is two
/// seconds from a score of ten seconds on.
pub proof fn law_shot_interval(lower: int, higher: int)
    requires
        0 <= lower <= higher,
    ensures
        SHOT_INTERVAL_MIN <= shot_interval(lower) <= shot_interval(higher) <= SHOT_INTERVAL_MAX,
        higher >= FULL_INTERVAL_SCORE ==> shot_interval(higher) == SHOT_INTERVAL_MAX,
        shot_interval(0) == SHOT_INTERVAL_MIN,
{
    lemma_difficulty(lower, higher);
    lemma_difficulty(0, 0);
    lemma_lerp_between(SHOT_INTERVAL_MIN as int, SHOT_INTERVAL_MAX as int, difficulty(lower));
    lemma_lerp_between(SHOT_INTERVAL_MIN as int, SHOT_INTERVAL_MAX as int, difficulty(higher));
    lemma_lerp_between(SHOT_INTERVAL_MIN as int, SHOT_INTERVAL_MAX as int, difficulty(0));
    lemma_lerp_monotone(
        SHOT_INTERVAL_MIN as int,
        SHOT_INTERVAL_MAX as int,
        difficulty(lower),
        difficulty(higher),
    );
}

/// A later time never shows an earlier clock: minutes, seconds and
/// hundredths, compared in this order, do not fall as the time rises.
pub proof fn law_clock_is_monotone(earlier: nat, later: nat)
    requires
        earlier <= later,
    ensures
        clock_minutes(earlier) <= clock_minutes(later),
        clock_minutes(earlier) == clock_minutes(later) ==> clock_seconds(earlier) <= clock_seconds(
            later,
        ),
        clock_minutes(earlier) == clock_minutes(later) && clock_seconds(earlier) == clock_seconds(
            later,
        ) ==> clock_centis(earlier) <= clock_centis(later),
        clock_seconds(later) < 60,
        clock_centis(later) < 100,
{
}

/// From the menu, the play button leads to the game with the one player
/// and without projectiles; in the game, a projectile that touches the
/// player leads to the end of the round with the virtual clock held.
pub proof fn law_transitions(v: SimulationView)
    requires
        v.wf(),
    ensures
        v.state == AppState::Menu ==> {
            let w = v.after_action(MenuButtonAction::Play);
            &&& w.state == AppState::InGame
            &&& w.player is Some
            &&& w.bullets.len() == 0
            &&& w.wf()
        },
        v.state == AppState::InGame && v.kills() > 0 ==> {
            let w = v.after_collision();
            &&& w.state == AppState::GameOver
            &&& w.time_paused
        },
{
}

/// The pause control toggles between the game and the pause and touches no
/// other mode; used twice, it leads back to where it began. The resume
/// button does nothing in a game that is not paused.
pub proof fn law_pause_toggles(v: SimulationView, input: PauseInput)
    requires
        v.wf(),
        input.given(),
    ensures
        v.state == AppState::InGame ==> v.after_pausing(input).state == AppState::Paused
            && v.after_pausing(input).time_paused,
        v.state == AppState::Paused ==> v.after_pausing(input).state == AppState::InGame
            && !v.after_pausing(input).time_paused,
        v.state != AppState::InGame && v.state != AppState::Paused ==> v.after_pausing(input).state
            == v.state && v.after_pausing(input).time_paused == v.time_paused,
        v.after_pausing(input).after_pausing(input).state == v.state,
        v.after_pausing(input).after_pausing(input).time_paused == v.time_paused,
        v.state == AppState::InGame ==> v.after_action(MenuButtonAction::Resume) == v,
        v.after_pausing(input).wf(),
{
}

/// Two sources that hold the same words throw out the same bursts.
pub proof fn law_same_words_same_bursts(
    bullets: Seq<Bullet>,
    reach: int,
    first: RandomSource,
    second: RandomSource,
)
    requires
        forall|k: nat| #[trigger] first.word(k) == second.word(k),
    ensures
        all_bursts(bullets, reach, first) == all_bursts(bullets, reach, second),
{
    lemma_rows_agree(bullets, bullets.len() as int, reach, first, second);
}

/// Two sources that were made from the same seed hold the same words.
pub proof fn law_same_seed_same_words(seed: u64, first: RandomSource, second: RandomSource)
    requires
        forall|k: nat| #[trigger] first.word(k) == chacha8_word(seed, k),
        forall|k: nat| #[trigger] second.word(k) == chacha8_word(seed, k),
    ensures
        forall|k: nat| #[trigger] first.word(k) == second.word(k),
{
}

/// Two sources that hold the same words throw out the same bursts in a
/// row.
proof fn lemma_row_agrees(
    bullets: Seq<Bullet>,
    i: int,
    j: int,
    reach: int,
    first: RandomSource,
    second: RandomSource,
    base: nat,
)
    requires
        forall|k: nat| #[trigger] first.word(k) == second.word(k),
    ensures
        bursts_in_row(bullets, i, j, reach, first, base) == bursts_in_row(
            bullets,
            i,
            j,
            reach,
            second,
            base,
        ),
    decreases j - i,
{
    if j > i + 1 {
        lemma_row_agrees(bullets, i, j - 1, reach, first, second, base);
        let before = bursts_in_row(bullets, i, j - 1, reach, first, base);
        let origin = bullets[i].position.midpoint(bullets[j - 1].position);
        assert(burst(origin, first, base + before.len()) =~= burst(
            origin,
            second,
            base + before.len(),
        ));
    }
}

/// Two sources that hold the same words throw out the same bursts in the
/// rows below `i`.
proof fn lemma_rows_agree(
    bullets: Seq<Bullet>,
    i: int,
    reach: int,
    first: RandomSource,
    second: RandomSource,
)
    requires
        forall|k: nat| #[trigger] first.word(k) == second.word(k),
    ensures
        bursts_in_rows(bullets, i, reach, first) == bursts_in_rows(bullets, i, reach, second),
    decreases i,
{
    if i > 0 {
        lemma_rows_agree(bullets, i - 1, reach, first, second);
        lemma_row_agrees(
            bullets,
            i - 1,
            bullets.len() as int,
            reach,
            first,
            second,
            bursts_in_rows(bullets, i - 1, reach, first).len(),
        );
    }
}

} // verus!
