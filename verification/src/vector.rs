//! Two-dimensional vectors with fixed-point components.

use vstd::prelude::*;
use crate::fixed::{
    abs_spec, add_saturating, clamp, int_sqrt, is_sqrt_of, isqrt, lemma_square_monotone,
    lemma_square_strict, lemma_trunc_div_bounds, saturate, scale, scale_spec, trunc_div, LIMIT, ONE,
};

verus! {

/// A point or a displacement in the plane, in millionths.
#[derive(Clone, Copy, Debug, PartialEq, Eq, Structural)]
pub struct Vec2 {
    pub x: i64,
    pub y: i64,
}

/// Components below this magnitude are stretched before a length is taken.
pub const SHORT: i64 = 0x1_0000_0000;

/// The factor by which a short vector is stretched.
pub const STRETCH: i64 = 0x4000_0000;

impl Vec2 {
    /// The square of the length.
    pub open spec fn length_sq(self) -> int {
        self.x * self.x + self.y * self.y
    }

    /// Both components are within the saturation limit.
    pub open spec fn in_world(self) -> bool {
        -LIMIT <= self.x <= LIMIT && -LIMIT <= self.y <= LIMIT
    }

    /// The length is `ONE`, up to two millionths.
    pub open spec fn is_unit(self) -> bool {
        (ONE - 2) * (ONE - 2) <= self.length_sq() <= (ONE + 1) * (ONE + 1)
    }

    /// Both components are zero.
    pub open spec fn is_zero(self) -> bool {
        self.x == 0 && self.y == 0
    }

    /// The opposite vector.
    pub open spec fn negated(self) -> Vec2 {
        Vec2 { x: (-self.x) as i64, y: (-self.y) as i64 }
    }

    /// The difference `self - other`, for vectors in the world.
    pub open spec fn minus(self, other: Vec2) -> Vec2 {
        Vec2 { x: (self.x - other.x) as i64, y: (self.y - other.y) as i64 }
    }

    /// The sum, saturated in each component.
    pub open spec fn plus(self, other: Vec2) -> Vec2 {
        Vec2 { x: saturate(self.x + other.x) as i64, y: saturate(self.y + other.y) as i64 }
    }

    /// The vector times the factor `f`, saturated in each component.
    pub open spec fn scaled(self, f: int) -> Vec2 {
        Vec2 { x: scale_spec(self.x as int, f) as i64, y: scale_spec(self.y as int, f) as i64 }
    }

    /// The point half way between two points of the world.
    pub open spec fn midpoint(self, other: Vec2) -> Vec2 {
        Vec2 {
            x: trunc_div(self.x + other.x, 2) as i64,
            y: trunc_div(self.y + other.y, 2) as i64,
        }
    }

    /// The factor by which the vector is stretched before its length is
    /// taken, so that the length carries at least thirty bits.
    pub open spec fn stretch(self) -> int {
        if abs_spec(self.x as int) < SHORT && abs_spec(self.y as int) < SHORT {
            STRETCH as int
        } else {
            1
        }
    }

    /// The vector of length `ONE` in the direction of `self`: each component
    /// times `ONE` over the integer length, rounded toward zero. The zero
    /// vector is left as it is.
    pub open spec fn normalized(self) -> Vec2 {
        if self.is_zero() {
            self
        } else {
            let k = self.stretch();
            let sx = self.x * k;
            let sy = self.y * k;
            let len = int_sqrt(sx * sx + sy * sy);
            Vec2 { x: trunc_div(sx * ONE, len) as i64, y: trunc_div(sy * ONE, len) as i64 }
        }
    }

    /// The vector itself where its length is at most `ONE`, else the vector
    /// of length `ONE` in its direction.
    pub open spec fn clamped_to_unit(self) -> Vec2 {
        if self.length_sq() > ONE * ONE {
            self.normalized()
        } else {
            self
        }
    }

    /// The vector with the given components.
    pub fn new(x: i64, y: i64) -> (v: Vec2)
        ensures
            v == (Vec2 { x, y }),
    {
        Vec2 { x, y }
    }

    /// The vector with both components limited to the world.
    pub fn saturated(x: i64, y: i64) -> (v: Vec2)
        ensures
            v.in_world(),
            v.x == saturate(x as int),
            v.y == saturate(y as int),
    {
        Vec2 { x: clamp(x, -LIMIT, LIMIT), y: clamp(y, -LIMIT, LIMIT) }
    }

    /// The opposite vector.
    pub fn neg(self) -> (r: Vec2)
        requires
            self.x > i64::MIN,
            self.y > i64::MIN,
        ensures
            r == self.negated(),
            r.x == -self.x,
            r.y == -self.y,
            r.length_sq() == self.length_sq(),
    {
        assert((-self.x) * (-self.x) == self.x * self.x) by (nonlinear_arith);
        assert((-self.y) * (-self.y) == self.y * self.y) by (nonlinear_arith);
        Vec2 { x: -self.x, y: -self.y }
    }

    /// The difference of two vectors of the world.
    pub fn sub(self, other: Vec2) -> (r: Vec2)
        requires
            self.in_world(),
            other.in_world(),
        ensures
            r == self.minus(other),
            r.x == self.x - other.x,
            r.y == self.y - other.y,
    {
        Vec2 { x: self.x - other.x, y: self.y - other.y }
    }

    /// The sum, saturated in each component.
    pub fn add(self, other: Vec2) -> (r: Vec2)
        ensures
            r == self.plus(other),
            r.in_world(),
    {
        Vec2 { x: add_saturating(self.x, other.x), y: add_saturating(self.y, other.y) }
    }

    /// The vector times the factor `f`, a count of millionths.
    pub fn scale(self, f: i64) -> (r: Vec2)
        ensures
            r == self.scaled(f as int),
            r.in_world(),
    {
        Vec2 { x: scale(self.x, f), y: scale(self.y, f) }
    }

    /// The point half way between two points of the world.
    pub fn mid(self, other: Vec2) -> (r: Vec2)
        requires
            self.in_world(),
            other.in_world(),
        ensures
            r == self.midpoint(other),
            r.in_world(),
    {
        proof {
            lemma_trunc_div_bounds(self.x + other.x, 2);
            lemma_trunc_div_bounds(self.y + other.y, 2);
        }
        Vec2 { x: (self.x + other.x) / 2, y: (self.y + other.y) / 2 }
    }

    /// The square of the length.
    pub fn len_sq(self) -> (r: u128)
        ensures
            r == self.length_sq(),
    {
        let ax: u128 = magnitude(self.x);
        let ay: u128 = magnitude(self.y);
        proof {
            lemma_square_of_magnitude(self.x as int);
            lemma_square_of_magnitude(self.y as int);
            lemma_square_monotone(ax as int, 0x8000_0000_0000_0000);
            lemma_square_monotone(ay as int, 0x8000_0000_0000_0000);
        }
        ax * ax + ay * ay
    }

    /// Whether the length is `ONE`, up to two millionths.
    pub fn unit(self) -> (b: bool)
        ensures
            b == self.is_unit(),
    {
        let n: u128 = self.len_sq();
        999_998u128 * 999_998u128 <= n && n <= 1_000_001u128 * 1_000_001u128
    }

    /// Whether both components are within the saturation limit.
    pub fn within_world(self) -> (b: bool)
        ensures
            b == self.in_world(),
    {
        -LIMIT <= self.x && self.x <= LIMIT && -LIMIT <= self.y && self.y <= LIMIT
    }

    /// The vector of length `ONE` in the direction of `self`.
    pub fn normalize(self) -> (r: Vec2)
        ensures
            r == self.normalized(),
            !self.is_zero() ==> r.is_unit(),
            self.is_zero() ==> r.is_zero(),
    {
        if self.x == 0 && self.y == 0 {
            return self;
        }
        let mx: u128 = magnitude(self.x);
        let my: u128 = magnitude(self.y);
        let short: bool = mx < SHORT as u128 && my < SHORT as u128;
        assert(short ==> mx * STRETCH < 0x4000_0000_0000_0000 && my * STRETCH
            < 0x4000_0000_0000_0000) by (nonlinear_arith)
            requires
                short ==> mx < 0x1_0000_0000 && my < 0x1_0000_0000,
                STRETCH == 0x4000_0000,
        ;
        let ax: u128 = if short {
            mx * (STRETCH as u128)
        } else {
            mx
        };
        let ay: u128 = if short {
            my * (STRETCH as u128)
        } else {
            my
        };
        proof {
            lemma_square_monotone(ax as int, 0x8000_0000_0000_0000);
            lemma_square_monotone(ay as int, 0x8000_0000_0000_0000);
        }
        let len: u64 = isqrt(ax * ax + ay * ay);
        proof {
            let k = self.stretch();
            let sx = self.x * k;
            let sy = self.y * k;
            lemma_normalized_unit(self);
            assert(abs_spec(sx) == ax && abs_spec(sy) == ay) by (nonlinear_arith)
                requires
                    ax == abs_spec(self.x as int) * k,
                    ay == abs_spec(self.y as int) * k,
                    k > 0,
                    sx == self.x * k,
                    sy == self.y * k,
            ;
            lemma_square_of_magnitude(sx);
            lemma_square_of_magnitude(sy);
            assert(len == stretched_length(self));
            lemma_trunc_div_bounds(sx * ONE, len as int);
            lemma_trunc_div_bounds(sy * ONE, len as int);
            assert(abs_spec(sx * ONE) == ax * ONE && (self.x < 0 ==> sx * ONE <= 0) && (self.x >= 0
                ==> sx * ONE >= 0)) by (nonlinear_arith)
                requires
                    abs_spec(sx) == ax,
                    sx == self.x * k,
                    k > 0,
            ;
            assert(abs_spec(sy * ONE) == ay * ONE && (self.y < 0 ==> sy * ONE <= 0) && (self.y >= 0
                ==> sy * ONE >= 0)) by (nonlinear_arith)
                requires
                    abs_spec(sy) == ay,
                    sy == self.y * k,
                    k > 0,
            ;
        }
        let qx: u128 = ax * (ONE as u128) / (len as u128);
        let qy: u128 = ay * (ONE as u128) / (len as u128);
        Vec2 {
            x: if self.x < 0 {
                -(qx as i64)
            } else {
                qx as i64
            },
            y: if self.y < 0 {
                -(qy as i64)
            } else {
                qy as i64
            },
        }
    }

    /// The vector itself where its length is at most `ONE`, else the vector
    /// of length `ONE` in its direction.
    pub fn clamp_length_max(self) -> (r: Vec2)
        ensures
            r == self.clamped_to_unit(),
            r.length_sq() <= (ONE + 1) * (ONE + 1),
    {
        let n: u128 = self.len_sq();
        if n > 1_000_000u128 * 1_000_000u128 {
            self.normalize()
        } else {
            self
        }
    }
}

/// The magnitude of `v`.
pub fn magnitude(v: i64) -> (m: u128)
    ensures
        m == abs_spec(v as int),
        m <= 0x8000_0000_0000_0000,
{
    if v < 0 {
        (-(v as i128)) as u128
    } else {
        v as u128
    }
}

/// A number and its magnitude have the same square.
pub proof fn lemma_square_of_magnitude(v: int)
    by (nonlinear_arith)
    ensures
        abs_spec(v) * abs_spec(v) == v * v,
{
}

/// The square of a product is the product of the squares.
pub proof fn lemma_square_of_product(a: int, b: int)
    by (nonlinear_arith)
    ensures
        (a * b) * (a * b) == (a * a) * (b * b),
{
}

/// A square is not negative.
pub proof fn lemma_square_nonneg(v: int)
    by (nonlinear_arith)
    ensures
        v * v >= 0,
{
}

/// The integer length of a stretched non-zero vector has at least thirty
/// bits.
pub proof fn lemma_long_enough(ax: int, ay: int, len: int)
    requires
        ax >= STRETCH || ay >= STRETCH,
        0 <= ax,
        0 <= ay,
        is_sqrt_of(len, ax * ax + ay * ay),
    ensures
        len >= STRETCH,
{
    lemma_square_nonneg(ax);
    lemma_square_nonneg(ay);
    if ax >= STRETCH {
        lemma_square_monotone(STRETCH as int, ax);
    } else {
        lemma_square_monotone(STRETCH as int, ay);
    }
    if len < STRETCH {
        lemma_square_monotone(len + 1, STRETCH as int);
    }
}

/// The two components of a vector, each times `ONE` over the vector's
/// integer length and rounded down, make a vector whose length is `ONE` up
/// to two millionths, provided that the integer length has thirty bits.
pub proof fn lemma_unit_quotients(ax: int, ay: int, len: int)
    requires
        0 <= ax,
        0 <= ay,
        len >= STRETCH,
        is_sqrt_of(len, ax * ax + ay * ay),
    ensures
        ({
            let qx = (ax * ONE) / len;
            let qy = (ay * ONE) / len;
            &&& 0 <= qx
            &&& 0 <= qy
            &&& (ONE - 2) * (ONE - 2) <= qx * qx + qy * qy <= (ONE + 1) * (ONE + 1)
        }),
{
    let one = ONE as int;
    let qx = (ax * one) / len;
    let qy = (ay * one) / len;
    let n = ax * ax + ay * ay;
    lemma_trunc_div_bounds(ax * one, len);
    lemma_trunc_div_bounds(ay * one, len);
    assert(ax * one >= 0 && ay * one >= 0) by (nonlinear_arith)
        requires
            ax >= 0,
            ay >= 0,
            one > 0,
    ;
    assert(qx >= 0 && qy >= 0);
    assert(qx * len <= ax * one);
    assert(ax * one < (qx + 1) * len);
    let q = qx * qx + qy * qy;
    // Upper bound.
    assert((qx * len) * (qx * len) <= (ax * one) * (ax * one)) by {
        assert(qx * len >= 0) by (nonlinear_arith)
            requires
                qx >= 0,
                len > 0,
        ;
        lemma_square_monotone(qx * len, ax * one);
    }
    assert((qy * len) * (qy * len) <= (ay * one) * (ay * one)) by {
        assert(qy * len >= 0) by (nonlinear_arith)
            requires
                qy >= 0,
                len > 0,
        ;
        lemma_square_monotone(qy * len, ay * one);
    }
    let l2 = len * len;
    let o2 = one * one;
    lemma_square_of_product(qx, len);
    lemma_square_of_product(qy, len);
    lemma_square_of_product(ax, one);
    lemma_square_of_product(ay, one);
    assert(q * l2 == (qx * qx) * l2 + (qy * qy) * l2) by (nonlinear_arith)
        requires
            q == qx * qx + qy * qy,
    ;
    assert(n * o2 == (ax * ax) * o2 + (ay * ay) * o2) by (nonlinear_arith)
        requires
            n == ax * ax + ay * ay,
    ;
    assert(q * (len * len) <= n * (one * one));
    assert(n * (one * one) < ((len + 1) * one) * ((len + 1) * one)) by (nonlinear_arith)
        requires
            n < (len + 1) * (len + 1),
            one > 0,
    ;
    if q > (one + 1) * (one + 1) {
        assert(((one + 1) * len) * ((one + 1) * len) <= q * (len * len)) by (nonlinear_arith)
            requires
                q > (one + 1) * (one + 1),
                len > 0,
        ;
        assert((one + 1) * len >= 0 && (len + 1) * one >= 0) by (nonlinear_arith)
            requires
                len > 0,
                one > 0,
        ;
        lemma_square_strict((one + 1) * len, (len + 1) * one);
        assert(false) by (nonlinear_arith)
            requires
                (one + 1) * len < (len + 1) * one,
                len >= STRETCH,
                one == ONE,
        ;
    }
    // Lower bound.
    assert((ax * one) * (ax * one) <= ((qx + 1) * len) * ((qx + 1) * len)) by {
        lemma_square_monotone(ax * one, (qx + 1) * len);
    }
    assert((ay * one) * (ay * one) <= ((qy + 1) * len) * ((qy + 1) * len)) by {
        lemma_square_monotone(ay * one, (qy + 1) * len);
    }
    let p = (qx + 1) * (qx + 1) + (qy + 1) * (qy + 1);
    lemma_square_of_product(qx + 1, len);
    lemma_square_of_product(qy + 1, len);
    assert(p * l2 == ((qx + 1) * (qx + 1)) * l2 + ((qy + 1) * (qy + 1)) * l2) by (nonlinear_arith)
        requires
            p == (qx + 1) * (qx + 1) + (qy + 1) * (qy + 1),
    ;
    assert(n * (one * one) <= p * (len * len));
    assert(n > 0) by {
        lemma_square_monotone(STRETCH as int, len);
    }
    assert(one * one <= p) by (nonlinear_arith)
        requires
            n * (one * one) <= p * (len * len),
            len * len <= n,
            n > 0,
            p >= 0,
            one > 0,
    ;
    assert(p == q + 2 * (qx + qy) + 2) by (nonlinear_arith)
        requires
            p == (qx + 1) * (qx + 1) + (qy + 1) * (qy + 1),
            q == qx * qx + qy * qy,
    ;
    assert((qx + qy) * (qx + qy) <= 2 * q) by (nonlinear_arith)
        requires
            q == qx * qx + qy * qy,
    ;
    if 2 * (qx + qy) > 3 * one {
        assert((3 * one) * (3 * one) < (2 * (qx + qy)) * (2 * (qx + qy))) by (nonlinear_arith)
            requires
                2 * (qx + qy) > 3 * one,
                one > 0,
        ;
        assert(false) by (nonlinear_arith)
            requires
                (3 * one) * (3 * one) < (2 * (qx + qy)) * (2 * (qx + qy)),
                (qx + qy) * (qx + qy) <= 2 * q,
                q <= (one + 1) * (one + 1),
                one == ONE,
        ;
    }
    assert((one - 2) * (one - 2) <= q) by (nonlinear_arith)
        requires
            one * one <= q + 2 * (qx + qy) + 2,
            2 * (qx + qy) <= 3 * one,
            one == ONE,
    ;
}

/// Every non-negative number has an integer square root.
pub proof fn lemma_sqrt_exists(n: int)
    requires
        n >= 0,
    ensures
        is_sqrt_of(int_sqrt(n), n),
    decreases n,
{
    if n == 0 {
        assert(is_sqrt_of(0, 0));
    } else {
        lemma_sqrt_exists(n - 1);
        let r = int_sqrt(n - 1);
        assert((r + 2) * (r + 2) > (r + 1) * (r + 1)) by (nonlinear_arith)
            requires
                r >= 0,
        ;
        if (r + 1) * (r + 1) <= n {
            assert(is_sqrt_of(r + 1, n));
        } else {
            assert(is_sqrt_of(r, n));
        }
    }
}

/// What `normalized` works on: the magnitudes of the stretched components
/// and the integer length of the stretched vector.
pub open spec fn stretched_length(v: Vec2) -> int {
    let sx = v.x * v.stretch();
    let sy = v.y * v.stretch();
    int_sqrt(sx * sx + sy * sy)
}

/// The normalized form of a vector other than zero has unit length, and its
/// components are the stretched components times `ONE` over the stretched
/// length.
pub proof fn lemma_normalized_unit(v: Vec2)
    requires
        !v.is_zero(),
    ensures
        v.normalized().is_unit(),
        stretched_length(v) >= STRETCH,
        v.normalized().x == trunc_div(v.x * v.stretch() * ONE, stretched_length(v)),
        v.normalized().y == trunc_div(v.y * v.stretch() * ONE, stretched_length(v)),
        -(ONE + 1) <= v.normalized().x <= ONE + 1,
        -(ONE + 1) <= v.normalized().y <= ONE + 1,
{
    let k = v.stretch();
    let sx = v.x * k;
    let sy = v.y * k;
    let ax = abs_spec(sx);
    let ay = abs_spec(sy);
    lemma_square_of_magnitude(sx);
    lemma_square_of_magnitude(sy);
    lemma_square_nonneg(sx);
    lemma_square_nonneg(sy);
    let n = sx * sx + sy * sy;
    lemma_sqrt_exists(n);
    let len = int_sqrt(n);
    assert(ax == abs_spec(v.x as int) * k && ay == abs_spec(v.y as int) * k) by (nonlinear_arith)
        requires
            ax == abs_spec(sx),
            ay == abs_spec(sy),
            sx == v.x * k,
            sy == v.y * k,
            k > 0,
    ;
    if k == 1 {
        assert(ax == abs_spec(v.x as int) && ay == abs_spec(v.y as int));
    } else {
        assert(ax == abs_spec(v.x as int) * 0x4000_0000 && ay == abs_spec(v.y as int) * 0x4000_0000);
    }
    assert(ax >= STRETCH || ay >= STRETCH);
    lemma_long_enough(ax, ay, len);
    lemma_unit_quotients(ax, ay, len);
    lemma_trunc_div_bounds(sx * ONE, len);
    lemma_trunc_div_bounds(sy * ONE, len);
    assert(abs_spec(sx * ONE) == ax * ONE) by (nonlinear_arith)
        requires
            abs_spec(sx) == ax,
    ;
    assert(abs_spec(sy * ONE) == ay * ONE) by (nonlinear_arith)
        requires
            abs_spec(sy) == ay,
    ;
    let tx = trunc_div(sx * ONE, len);
    let ty = trunc_div(sy * ONE, len);
    let qx = (ax * ONE) / len;
    let qy = (ay * ONE) / len;
    assert(abs_spec(tx) == qx && abs_spec(ty) == qy);
    lemma_square_of_magnitude(tx);
    lemma_square_of_magnitude(ty);
    lemma_square_nonneg(qx);
    lemma_square_nonneg(qy);
    lemma_square_strict(qx, ONE + 2);
    lemma_square_strict(qy, ONE + 2);
    assert(v.x * v.stretch() * ONE == sx * ONE);
    assert(v.y * v.stretch() * ONE == sy * ONE);
}

/// The opposite vector has the opposite normalized form.
pub proof fn lemma_normalized_negation(v: Vec2)
    requires
        v.x > i64::MIN,
        v.y > i64::MIN,
    ensures
        v.negated().normalized() == v.normalized().negated(),
{
    if !v.is_zero() {
        let w = v.negated();
        lemma_normalized_unit(v);
        lemma_normalized_unit(w);
        let k = v.stretch();
        assert(w.stretch() == k);
        assert(w.x * k == -(v.x * k) && w.y * k == -(v.y * k)) by (nonlinear_arith)
            requires
                w.x == -v.x,
                w.y == -v.y,
        ;
        assert((w.x * k) * (w.x * k) == (v.x * k) * (v.x * k)) by (nonlinear_arith)
            requires
                w.x * k == -(v.x * k),
        ;
        assert((w.y * k) * (w.y * k) == (v.y * k) * (v.y * k)) by (nonlinear_arith)
            requires
                w.y * k == -(v.y * k),
        ;
        let len = stretched_length(v);
        assert(stretched_length(w) == len);
        assert(w.x * k * ONE == -(v.x * k * ONE) && w.y * k * ONE == -(v.y * k * ONE))
            by (nonlinear_arith)
            requires
                w.x * k == -(v.x * k),
                w.y * k == -(v.y * k),
        ;
        lemma_trunc_div_bounds(v.x * k * ONE, len);
        lemma_trunc_div_bounds(v.y * k * ONE, len);
    }
}

/// The components of a unit vector are within `ONE + 1`.
pub proof fn lemma_unit_components(v: Vec2)
    requires
        v.is_unit(),
    ensures
        -(ONE + 1) <= v.x <= ONE + 1,
        -(ONE + 1) <= v.y <= ONE + 1,
{
    lemma_square_of_magnitude(v.x as int);
    lemma_square_of_magnitude(v.y as int);
    lemma_square_nonneg(v.x as int);
    lemma_square_nonneg(v.y as int);
    assert((ONE + 1) * (ONE + 1) < (ONE + 2) * (ONE + 2)) by (nonlinear_arith);
    lemma_square_strict(abs_spec(v.x as int), ONE + 2);
    lemma_square_strict(abs_spec(v.y as int), ONE + 2);
}

} // verus!
