//! Sine and cosine of an angle given in millionths of a degree, computed in
//! integers.
//!
//! The angle is first reduced to one turn, then to a quadrant, then to the
//! half quadrant nearer to an axis; there the Taylor series of sine and cosine
//! are evaluated in billionths by Horner's rule and rounded to millionths.
//! The reduction is exact, so the results repeat every full turn and are exact
//! on the axes.

use vstd::prelude::*;
use crate::fixed::UNIT;

verus! {

/// A full turn, in millionths of a degree.
pub const FULL_TURN: i32 = 360_000_000;

/// A quarter of a turn, in millionths of a degree.
pub const QUARTER_TURN: i32 = 90_000_000;

/// An eighth of a turn, in millionths of a degree.
pub const EIGHTH_TURN: i32 = 45_000_000;

/// The number one in the billionths in which the series are evaluated.
pub const NANO: u64 = 1_000_000_000;

/// The radians, in billionths, of an angle of `d` millionths of a degree.
pub open spec fn nano_radians(d: int) -> int {
    d * 174_532_925_199 / 10_000_000_000
}

/// One step of Horner's rule: `1 - r2 * t / k` in billionths.
pub open spec fn attenuate(r2: int, t: int, k: int) -> int {
    NANO - r2 * t / (k * NANO)
}

/// The sine series up to the ninth power of `r`, in billionths.
pub open spec fn series_sin(r: int) -> int {
    let r2 = r * r / (NANO as int);
    let t4 = attenuate(r2, NANO as int, 72);
    let t3 = attenuate(r2, t4, 42);
    let t2 = attenuate(r2, t3, 20);
    let t1 = attenuate(r2, t2, 6);
    r * t1 / (NANO as int)
}

/// The cosine series up to the eighth power of `r`, in billionths.
pub open spec fn series_cos(r: int) -> int {
    let r2 = r * r / (NANO as int);
    let u4 = attenuate(r2, NANO as int, 56);
    let u3 = attenuate(r2, u4, 30);
    let u2 = attenuate(r2, u3, 12);
    attenuate(r2, u2, 2)
}

/// Billionths rounded to the nearest millionth.
pub open spec fn to_micro(v: int) -> int {
    (v + 500) / 1000
}

/// Sine and cosine, in millionths, of an angle `d` between zero and a quarter
/// turn. Past the eighth of a turn the two series change places and are
/// evaluated at the complement of `d`.
pub open spec fn quadrant_sine_cosine(d: int) -> (int, int) {
    if d <= EIGHTH_TURN {
        let r = nano_radians(d);
        (to_micro(series_sin(r)), to_micro(series_cos(r)))
    } else {
        let r = nano_radians(QUARTER_TURN - d);
        (to_micro(series_cos(r)), to_micro(series_sin(r)))
    }
}

/// Sine and cosine, in millionths, of any angle in millionths of a degree.
pub open spec fn sine_cosine(angle: int) -> (int, int) {
    let a = angle % (FULL_TURN as int);
    let (s, c) = quadrant_sine_cosine(a % (QUARTER_TURN as int));
    let q = a / (QUARTER_TURN as int);
    if q == 0 {
        (s, c)
    } else if q == 1 {
        (c, -s)
    } else if q == 2 {
        (-s, -c)
    } else {
        (-c, s)
    }
}

/// The square of a number below a bound lies below the square of the bound.
proof fn lemma_square_bound(r: int, m: int)
    by (nonlinear_arith)
    requires
        0 <= r <= m,
    ensures
        0 <= r * r <= m * m,
{
}

/// A product of two numbers between zero and their bounds lies between zero
/// and the product of the bounds.
proof fn lemma_nonneg_product_bound(a: int, b: int, ma: int, mb: int)
    by (nonlinear_arith)
    requires
        0 <= a <= ma,
        0 <= b <= mb,
    ensures
        0 <= a * b <= ma * mb,
{
}

fn attenuate_step(r2: u64, t: u64, k: u64) -> (r: u64)
    requires
        r2 <= NANO,
        t <= NANO,
        1 <= k <= 72,
    ensures
        r == attenuate(r2 as int, t as int, k as int),
        r <= NANO,
{
    proof {
        lemma_nonneg_product_bound(r2 as int, t as int, NANO as int, NANO as int);
        lemma_attenuate_bounded(r2 as int, t as int, k as int);
    }
    let p: u64 = r2 * t;
    let q: u64 = p / (k * NANO);
    NANO - q
}

/// Evaluates both series at `r` billionths of a radian, for `r` up to an
/// eighth of a turn.
fn series(r: u64) -> (sc: (u64, u64))
    requires
        r <= 785_398_163,
    ensures
        sc.0 == series_sin(r as int),
        sc.1 == series_cos(r as int),
        sc.0 <= NANO,
        sc.1 <= NANO,
{
    proof {
        lemma_square_bound(r as int, 785_398_163);
    }
    let r2: u64 = r * r / NANO;
    let t4: u64 = attenuate_step(r2, NANO, 72);
    let t3: u64 = attenuate_step(r2, t4, 42);
    let t2: u64 = attenuate_step(r2, t3, 20);
    let t1: u64 = attenuate_step(r2, t2, 6);
    proof {
        lemma_nonneg_product_bound(r as int, t1 as int, 785_398_163, NANO as int);
    }
    let s: u64 = r * t1 / NANO;
    let u4: u64 = attenuate_step(r2, NANO, 56);
    let u3: u64 = attenuate_step(r2, u4, 30);
    let u2: u64 = attenuate_step(r2, u3, 12);
    let c: u64 = attenuate_step(r2, u2, 2);
    (s, c)
}

/// Sine and cosine of an angle between zero and a quarter turn.
fn quadrant_sin_cos(d: u64) -> (sc: (i32, i32))
    requires
        d <= QUARTER_TURN,
    ensures
        (sc.0 as int, sc.1 as int) == quadrant_sine_cosine(d as int),
        0 <= sc.0 <= UNIT,
        0 <= sc.1 <= UNIT,
{
    if d <= EIGHTH_TURN as u64 {
        let r: u64 = d * 174_532_925_199 / 10_000_000_000;
        let (s, c) = series(r);
        (((s + 500) / 1000) as i32, ((c + 500) / 1000) as i32)
    } else {
        let r: u64 = (QUARTER_TURN as u64 - d) * 174_532_925_199 / 10_000_000_000;
        let (s, c) = series(r);
        (((c + 500) / 1000) as i32, ((s + 500) / 1000) as i32)
    }
}

/// Sine and cosine, in millionths, of an angle in millionths of a degree.
///
/// The result is the pair `(sine, cosine)`. Both lie between minus one and
/// one, and angles that differ by whole turns give the same pair.
pub fn sin_cos(angle: i32) -> (sc: (i32, i32))
    ensures
        (sc.0 as int, sc.1 as int) == sine_cosine(angle as int),
        -UNIT <= sc.0 <= UNIT,
        -UNIT <= sc.1 <= UNIT,
{
    // Six turns exceed every negative `i32`, so the sum is not negative and
    // leaves the remainder of `angle` unchanged.
    let lifted: i64 = angle as i64 + 2_160_000_000;
    let a: i64 = lifted % (FULL_TURN as i64);
    assert(a == (angle as int) % (FULL_TURN as int));
    let q: i64 = a / (QUARTER_TURN as i64);
    let d: u64 = (a % (QUARTER_TURN as i64)) as u64;
    let (s, c) = quadrant_sin_cos(d);
    if q == 0 {
        (s, c)
    } else if q == 1 {
        (c, -s)
    } else if q == 2 {
        (-s, -c)
    } else {
        (-c, s)
    }
}

/// Sine and cosine never leave the interval from minus one to one.
pub proof fn lemma_sine_cosine_bounded(angle: int)
    ensures
        -UNIT <= sine_cosine(angle).0 <= UNIT,
        -UNIT <= sine_cosine(angle).1 <= UNIT,
{
    let a = angle % (FULL_TURN as int);
    let d = a % (QUARTER_TURN as int);
    lemma_quadrant_bounded(d);
}

proof fn lemma_series_bounded(r: int)
    requires
        0 <= r <= 785_398_163,
    ensures
        0 <= series_sin(r) <= NANO,
        0 <= series_cos(r) <= NANO,
{
    lemma_square_bound(r, 785_398_163);
    let r2 = r * r / (NANO as int);
    let t4 = attenuate(r2, NANO as int, 72);
    lemma_attenuate_bounded(r2, NANO as int, 72);
    let t3 = attenuate(r2, t4, 42);
    lemma_attenuate_bounded(r2, t4, 42);
    let t2 = attenuate(r2, t3, 20);
    lemma_attenuate_bounded(r2, t3, 20);
    let t1 = attenuate(r2, t2, 6);
    lemma_attenuate_bounded(r2, t2, 6);
    lemma_nonneg_product_bound(r, t1, 785_398_163, NANO as int);
    let u4 = attenuate(r2, NANO as int, 56);
    lemma_attenuate_bounded(r2, NANO as int, 56);
    let u3 = attenuate(r2, u4, 30);
    lemma_attenuate_bounded(r2, u4, 30);
    let u2 = attenuate(r2, u3, 12);
    lemma_attenuate_bounded(r2, u3, 12);
    lemma_attenuate_bounded(r2, u2, 2);
}

proof fn lemma_attenuate_bounded(r2: int, t: int, k: int)
    requires
        0 <= r2 <= NANO,
        0 <= t <= NANO,
        1 <= k <= 72,
    ensures
        0 <= attenuate(r2, t, k) <= NANO,
{
    lemma_nonneg_product_bound(r2, t, NANO as int, NANO as int);
    assert(k * NANO >= NANO) by (nonlinear_arith)
        requires
            k >= 1,
    ;
    assert(r2 * t / (k * NANO) <= NANO) by (nonlinear_arith)
        requires
            0 <= r2 * t <= NANO * NANO,
            k * NANO >= NANO,
    ;
    assert(r2 * t / (k * NANO) >= 0) by (nonlinear_arith)
        requires
            0 <= r2 * t,
            k * NANO >= NANO,
    ;
}

proof fn lemma_quadrant_bounded(d: int)
    requires
        0 <= d <= QUARTER_TURN,
    ensures
        0 <= quadrant_sine_cosine(d).0 <= UNIT,
        0 <= quadrant_sine_cosine(d).1 <= UNIT,
{
    if d <= EIGHTH_TURN {
        lemma_series_bounded(nano_radians(d));
    } else {
        lemma_series_bounded(nano_radians(QUARTER_TURN - d));
    }
}

/// On the four axes sine and cosine are exact.
pub proof fn lemma_sine_cosine_on_axes()
    ensures
        sine_cosine(0) == (0int, UNIT as int),
        sine_cosine(QUARTER_TURN as int) == (UNIT as int, 0int),
        sine_cosine(2 * QUARTER_TURN) == (0int, -UNIT as int),
        sine_cosine(3 * QUARTER_TURN) == (-UNIT as int, 0int),
{
    assert(nano_radians(0) == 0);
    assert(series_sin(0) == 0);
    assert(series_cos(0) == NANO);
    assert(quadrant_sine_cosine(0) == (0int, UNIT as int));
}

/// Angles that differ by a whole number of turns have the same sine and
/// cosine.
pub proof fn lemma_sine_cosine_periodic(angle: int, turns: int)
    ensures
        sine_cosine(angle + turns * FULL_TURN) == sine_cosine(angle),
{
    vstd::arithmetic::div_mod::lemma_mod_multiples_vanish(turns, angle, FULL_TURN as int);
    assert(turns * FULL_TURN + angle == angle + turns * FULL_TURN);
}

} // verus!
