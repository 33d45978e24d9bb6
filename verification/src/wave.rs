//! A rational sine: Bhaskara's approximation, which needs no more than
//! products and one quotient and stays within two thousandths of the sine.

use vstd::prelude::*;
use crate::fixed::ONE;
use crate::vector::Vec2;

verus! {

/// One turn is divided into this many steps when a random word picks a
/// direction.
pub const TURN_STEPS: i64 = 8_388_608;

/// The sine over half a turn. `t` is the fraction of the half turn that has
/// been covered, from 0 to `ONE`; the value rises from 0 to `ONE` at the
/// middle and falls back to 0.
pub open spec fn half_wave_spec(t: int) -> int {
    let u = t * (ONE - t);
    (16 * u * ONE) / (5 * ONE * ONE - 4 * u)
}

/// The sine of the fraction `t` of a full turn, `0 <= t < ONE`.
pub open spec fn sine_spec(t: int) -> int {
    if t < ONE / 2 {
        half_wave_spec(2 * t)
    } else {
        -half_wave_spec(2 * t - ONE)
    }
}

/// The cosine of the fraction `t` of a full turn, `0 <= t < ONE`: the sine
/// a quarter turn further on.
pub open spec fn cosine_spec(t: int) -> int {
    if t < 3 * (ONE / 4) {
        sine_spec(t + ONE / 4)
    } else {
        sine_spec(t - 3 * (ONE / 4))
    }
}

/// The vector of unit length that points along the fraction `t` of a full
/// turn, counted from the x axis.
pub open spec fn direction_spec(t: int) -> Vec2 {
    (Vec2 { x: cosine_spec(t) as i64, y: sine_spec(t) as i64 }).normalized()
}

/// The fraction of a turn that a random word picks: its upper 23 bits, as a
/// count of steps of the turn.
pub open spec fn turn_of_word(w: u32) -> int {
    ((w / 512) * ONE) / (TURN_STEPS as int)
}

/// The direction that a random word picks.
pub open spec fn direction_of_word(w: u32) -> Vec2 {
    direction_spec(turn_of_word(w))
}

/// The product `t * (ONE - t)` lies between 0 and a quarter of `ONE * ONE`,
/// and is at least `ONE - 1` away from the two ends.
pub proof fn lemma_arch(t: int)
    by (nonlinear_arith)
    requires
        0 <= t <= ONE,
    ensures
        0 <= t * (ONE - t),
        4 * (t * (ONE - t)) <= ONE * ONE,
        1 <= t <= ONE - 1 ==> t * (ONE - t) >= ONE - 1,
{
}

/// The half wave stays between 0 and `ONE` and vanishes at the two ends
/// only.
pub proof fn lemma_half_wave_range(t: int)
    requires
        0 <= t <= ONE,
    ensures
        0 <= half_wave_spec(t) <= ONE,
        1 <= t <= ONE - 1 ==> half_wave_spec(t) >= 1,
        t == 0 || t == ONE ==> half_wave_spec(t) == 0,
{
    lemma_arch(t);
    let u = t * (ONE - t);
    let n = 16 * u * ONE;
    let d = 5 * ONE * ONE - 4 * u;
    assert(n == 16_000_000 * u);
    assert(d == 5_000_000_000_000 - 4 * u);
    assert(0 <= n / d && (n / d) * d <= n && n < (n / d + 1) * d) by (nonlinear_arith)
        requires
            n >= 0,
            d > 0,
    ;
    let q = n / d;
    if q > ONE {
        assert(q * d >= (ONE + 1) * d) by (nonlinear_arith)
            requires
                q >= ONE + 1,
                d > 0,
        ;
    }
    if 1 <= t <= ONE - 1 {
        if q < 1 {
            assert((q + 1) * d <= d) by (nonlinear_arith)
                requires
                    q <= 0,
                    d > 0,
            ;
        }
    }
    if t == 0 || t == ONE {
        assert(u == 0) by (nonlinear_arith)
            requires
                u == t * (ONE - t),
                t == 0 || t == ONE,
        ;
        if q >= 1 {
            assert(q * d >= d) by (nonlinear_arith)
                requires
                    q >= 1,
                    d > 0,
            ;
        }
    }
}

/// Sine and cosine stay within `ONE`, and never vanish together.
pub proof fn lemma_circle(t: int)
    requires
        0 <= t < ONE,
    ensures
        -ONE <= sine_spec(t) <= ONE,
        -ONE <= cosine_spec(t) <= ONE,
        sine_spec(t) != 0 || cosine_spec(t) != 0,
{
    let s = if t < 3 * (ONE / 4) {
        t + ONE / 4
    } else {
        t - 3 * (ONE / 4)
    };
    if t < ONE / 2 {
        lemma_half_wave_range(2 * t);
    } else {
        lemma_half_wave_range(2 * t - ONE);
    }
    if s < ONE / 2 {
        lemma_half_wave_range(2 * s);
    } else {
        lemma_half_wave_range(2 * s - ONE);
    }
}

/// The sine over half a turn.
pub fn half_wave(t: i64) -> (r: i64)
    requires
        0 <= t <= ONE,
    ensures
        r == half_wave_spec(t as int),
        0 <= r <= ONE,
{
    proof {
        lemma_arch(t as int);
        lemma_half_wave_range(t as int);
    }
    let u: i64 = t * (ONE - t);
    (16 * u * ONE) / (5 * ONE * ONE - 4 * u)
}

/// The sine of the fraction `t` of a full turn.
pub fn sine(t: i64) -> (r: i64)
    requires
        0 <= t < ONE,
    ensures
        r == sine_spec(t as int),
        -ONE <= r <= ONE,
{
    if t < ONE / 2 {
        half_wave(2 * t)
    } else {
        -half_wave(2 * t - ONE)
    }
}

/// The cosine of the fraction `t` of a full turn.
pub fn cosine(t: i64) -> (r: i64)
    requires
        0 <= t < ONE,
    ensures
        r == cosine_spec(t as int),
        -ONE <= r <= ONE,
{
    if t < 3 * (ONE / 4) {
        sine(t + ONE / 4)
    } else {
        sine(t - 3 * (ONE / 4))
    }
}

/// The unit vector along the fraction `t` of a full turn.
pub fn direction(t: i64) -> (v: Vec2)
    requires
        0 <= t < ONE,
    ensures
        v == direction_spec(t as int),
        v.is_unit(),
{
    proof {
        lemma_circle(t as int);
    }
    let raw = Vec2 { x: cosine(t), y: sine(t) };
    raw.normalize()
}

/// The direction that a random word picks.
pub fn sample_boundary(w: u32) -> (v: Vec2)
    ensures
        v == direction_of_word(w),
        v.is_unit(),
{
    let steps: i64 = (w / 512) as i64;
    let t: i64 = (steps * ONE) / TURN_STEPS;
    direction(t)
}

} // verus!
