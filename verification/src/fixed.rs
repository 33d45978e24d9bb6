//! Fixed-point scalars: `i64` values that count millionths of a unit.

use vstd::prelude::*;

verus! {

/// The fixed-point representation of 1.
pub const ONE: i64 = 1_000_000;

/// Largest magnitude that a stored quantity takes; sums and products are
/// saturated at it.
pub const LIMIT: i64 = 0x1000_0000_0000_0000;

/// Quotient of `a` by a positive `b`, rounded toward zero.
pub open spec fn trunc_div(a: int, b: int) -> int {
    if a >= 0 {
        a / b
    } else {
        -((-a) / b)
    }
}

/// `v` limited to the interval from `lo` to `hi`.
pub open spec fn clamp_spec(v: int, lo: int, hi: int) -> int {
    if v < lo {
        lo
    } else if v > hi {
        hi
    } else {
        v
    }
}

/// `v` limited to the magnitude `LIMIT`.
pub open spec fn saturate(v: int) -> int {
    clamp_spec(v, -LIMIT, LIMIT as int)
}

/// The magnitude of `v`.
pub open spec fn abs_spec(v: int) -> int {
    if v < 0 {
        -v
    } else {
        v
    }
}

/// `a` times the factor `f`, a count of millionths, rounded toward zero and
/// saturated.
pub open spec fn scale_spec(a: int, f: int) -> int {
    saturate(trunc_div(a * f, ONE as int))
}

/// The point at the fraction `t` of the way from `a` to `b`, where `t` is
/// first limited to the range from 0 to `ONE`.
pub open spec fn lerp_spec(a: int, b: int, t: int) -> int {
    a + trunc_div((b - a) * clamp_spec(t, 0, ONE as int), ONE as int)
}

/// `r` is the integer square root of `n`.
pub open spec fn is_sqrt_of(r: int, n: int) -> bool {
    0 <= r && r * r <= n < (r + 1) * (r + 1)
}

/// The integer square root of a non-negative `n`: the largest `r` whose
/// square does not exceed `n`.
pub open spec fn int_sqrt(n: int) -> int {
    choose|r: int| is_sqrt_of(r, n)
}

/// Squaring keeps the order of non-negative numbers.
pub proof fn lemma_square_monotone(a: int, b: int)
    by (nonlinear_arith)
    requires
        0 <= a <= b,
    ensures
        a * a <= b * b,
{
}

/// Of two non-negative numbers, the one with the smaller square is the
/// smaller.
pub proof fn lemma_square_strict(a: int, b: int)
    by (nonlinear_arith)
    requires
        0 <= a,
        0 <= b,
        a * a < b * b,
    ensures
        a < b,
{
}

/// A number has at most one integer square root.
pub proof fn lemma_sqrt_unique(r: int, n: int)
    requires
        is_sqrt_of(r, n),
    ensures
        int_sqrt(n) == r,
{
    let c = int_sqrt(n);
    assert(is_sqrt_of(c, n));
    if c < r {
        lemma_square_monotone(c + 1, r);
    } else if r < c {
        lemma_square_monotone(r + 1, c);
    }
}

/// A product rounded toward zero lies between zero and the exact product.
pub proof fn lemma_trunc_div_bounds(a: int, b: int)
    requires
        b > 0,
    ensures
        abs_spec(trunc_div(a, b)) * b <= abs_spec(a),
        abs_spec(a) < (abs_spec(trunc_div(a, b)) + 1) * b,
        a >= 0 ==> trunc_div(a, b) >= 0,
        a <= 0 ==> trunc_div(a, b) <= 0,
        trunc_div(-a, b) == -trunc_div(a, b),
        abs_spec(trunc_div(a, b)) == abs_spec(a) / b,
{
    let m = abs_spec(a);
    assert(m == b * (m / b) + m % b && 0 <= m % b < b && m / b >= 0) by (nonlinear_arith)
        requires
            m >= 0,
            b > 0,
    ;
    assert((m / b) * b == b * (m / b)) by (nonlinear_arith);
    assert((m / b + 1) * b == b * (m / b) + b) by (nonlinear_arith);
}

/// Rounding toward zero keeps the order of the numerators.
pub proof fn lemma_trunc_div_monotone(a: int, c: int, b: int)
    requires
        b > 0,
        a <= c,
    ensures
        trunc_div(a, b) <= trunc_div(c, b),
{
    lemma_trunc_div_bounds(a, b);
    lemma_trunc_div_bounds(c, b);
    if a >= 0 {
        assert(a / b <= c / b) by (nonlinear_arith)
            requires
                0 <= a <= c,
                b > 0,
        ;
    } else if c < 0 {
        assert((-c) / b <= (-a) / b) by (nonlinear_arith)
            requires
                0 <= -c <= -a,
                b > 0,
        ;
    }
}

/// Quotient of `a` by `b`, rounded toward zero.
pub fn div_toward_zero(a: i128, b: i128) -> (q: i128)
    requires
        b > 0,
    ensures
        q == trunc_div(a as int, b as int),
{
    proof {
        lemma_trunc_div_bounds(a as int, b as int);
    }
    a / b
}

/// `v` limited to the interval from `lo` to `hi`.
pub fn clamp(v: i64, lo: i64, hi: i64) -> (r: i64)
    requires
        lo <= hi,
    ensures
        r == clamp_spec(v as int, lo as int, hi as int),
        lo <= r <= hi,
{
    if v < lo {
        lo
    } else if v > hi {
        hi
    } else {
        v
    }
}

/// `v` limited to the magnitude `LIMIT`.
pub fn saturate_wide(v: i128) -> (r: i64)
    ensures
        r == saturate(v as int),
        -LIMIT <= r <= LIMIT,
{
    if v < -(LIMIT as i128) {
        -LIMIT
    } else if v > LIMIT as i128 {
        LIMIT
    } else {
        v as i64
    }
}

/// Sum of two quantities, saturated.
pub fn add_saturating(a: i64, b: i64) -> (r: i64)
    ensures
        r == saturate(a + b),
        -LIMIT <= r <= LIMIT,
{
    saturate_wide(a as i128 + b as i128)
}

/// The exact product of two `i64` values.
pub fn wide_product(a: i64, b: i64) -> (p: i128)
    ensures
        p == a * b,
{
    assert(-0x4000_0000_0000_0000_0000_0000_0000_0000 <= a * b
        <= 0x4000_0000_0000_0000_0000_0000_0000_0000) by (nonlinear_arith)
        requires
            -0x8000_0000_0000_0000 <= a <= 0x8000_0000_0000_0000,
            -0x8000_0000_0000_0000 <= b <= 0x8000_0000_0000_0000,
    ;
    (a as i128) * (b as i128)
}

/// `a` times the factor `f`, a count of millionths.
pub fn scale(a: i64, f: i64) -> (r: i64)
    ensures
        r == scale_spec(a as int, f as int),
        -LIMIT <= r <= LIMIT,
{
    let p: i128 = wide_product(a, f);
    let q: i128 = div_toward_zero(p, ONE as i128);
    saturate_wide(q)
}

/// The point at the fraction `t` of the way from `a` to `b`.
pub fn lerp(a: i64, b: i64, t: i64) -> (r: i64)
    requires
        -LIMIT <= a <= LIMIT,
        -LIMIT <= b <= LIMIT,
    ensures
        r == lerp_spec(a as int, b as int, t as int),
        a <= b ==> a <= r <= b,
        b <= a ==> b <= r <= a,
{
    let f: i64 = clamp(t, 0, ONE);
    let d: i64 = b - a;
    let p: i128 = wide_product(d, f);
    let q: i128 = div_toward_zero(p, ONE as i128);
    proof {
        lemma_lerp_between(a as int, b as int, t as int);
    }
    (a as i128 + q) as i64
}

/// An interpolated point lies between the two end points, and on them at
/// the fractions 0 and `ONE`.
pub proof fn lemma_lerp_between(a: int, b: int, t: int)
    ensures
        a <= b ==> a <= lerp_spec(a, b, t) <= b,
        b <= a ==> b <= lerp_spec(a, b, t) <= a,
        t <= 0 ==> lerp_spec(a, b, t) == a,
        t >= ONE ==> lerp_spec(a, b, t) == b,
{
    let f = clamp_spec(t, 0, ONE as int);
    let d = b - a;
    lemma_trunc_div_bounds(d * f, ONE as int);
    assert(abs_spec(d * f) <= abs_spec(d) * ONE) by (nonlinear_arith)
        requires
            0 <= f <= ONE,
    ;
    assert(d >= 0 ==> d * f >= 0) by (nonlinear_arith)
        requires
            0 <= f,
    ;
    assert(d <= 0 ==> d * f <= 0) by (nonlinear_arith)
        requires
            0 <= f,
    ;
    let q = abs_spec(trunc_div(d * f, ONE as int));
    assert(q <= abs_spec(d)) by (nonlinear_arith)
        requires
            q * ONE <= abs_spec(d * f),
            abs_spec(d * f) <= abs_spec(d) * ONE,
    ;
    if t <= 0 {
        assert(d * f == 0) by (nonlinear_arith)
            requires
                f == 0,
        ;
    }
    if t >= ONE {
        assert(d * f == d * ONE) by (nonlinear_arith)
            requires
                f == ONE,
        ;
        assert((abs_spec(d) * ONE) / (ONE as int) == abs_spec(d)) by (nonlinear_arith);
        assert(abs_spec(d * ONE) == abs_spec(d) * ONE) by (nonlinear_arith);
    }
}

/// Interpolation between ordered end points keeps the order of the fractions.
pub proof fn lemma_lerp_monotone(a: int, b: int, s: int, t: int)
    requires
        a <= b,
        s <= t,
    ensures
        lerp_spec(a, b, s) <= lerp_spec(a, b, t),
{
    let fs = clamp_spec(s, 0, ONE as int);
    let ft = clamp_spec(t, 0, ONE as int);
    assert((b - a) * fs <= (b - a) * ft) by (nonlinear_arith)
        requires
            b - a >= 0,
            fs <= ft,
    ;
    lemma_trunc_div_monotone((b - a) * fs, (b - a) * ft, ONE as int);
}

/// The integer square root of `n`.
pub fn isqrt(n: u128) -> (r: u64)
    ensures
        is_sqrt_of(r as int, n as int),
        r == int_sqrt(n as int),
{
    let mut lo: u128 = 0;
    let mut hi: u128 = 0x1_0000_0000_0000_0000;
    while hi - lo > 1
        invariant
            lo < hi <= 0x1_0000_0000_0000_0000,
            lo * lo <= n,
            n < hi * hi,
        decreases hi - lo,
    {
        let mid: u128 = lo + (hi - lo) / 2;
        assert(mid * mid <= 0xffff_ffff_ffff_ffff * 0xffff_ffff_ffff_ffff) by (nonlinear_arith)
            requires
                0 <= mid <= 0xffff_ffff_ffff_ffff,
        ;
        if mid * mid <= n {
            lo = mid;
        } else {
            hi = mid;
        }
    }
    proof {
        assert(hi == lo + 1);
        lemma_sqrt_unique(lo as int, n as int);
    }
    lo as u64
}

} // verus!
