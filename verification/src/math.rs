//! Fixed-point arithmetic for the simulation core.
//!
//! Every world-space quantity is carried in milli-units: a coordinate of
//! 1500 stands for 1.5 world units, a time of 1500 for 1.5 seconds.
//! All curve evaluation is exact integer arithmetic, so a frame step is a
//! mathematical function of its inputs and trajectories are reproducible
//! bit for bit.

use vstd::arithmetic::div_mod::lemma_div_is_ordered;
use vstd::arithmetic::div_mod::lemma_div_is_ordered_by_denominator;
use vstd::arithmetic::div_mod::lemma_div_nonincreasing;
use vstd::arithmetic::div_mod::lemma_div_pos_is_pos;
use vstd::arithmetic::mul::lemma_mul_inequality;
use vstd::prelude::*;

verus! {

/// Milli-units per world unit.
pub const SCALE: i64 = 1000;

/// Largest magnitude a coordinate or velocity component may reach.
pub const POS_LIMIT: i64 = 1_000_000_000_000;

/// Cap on an animation's accumulated time (milliseconds).
pub const TIME_CAP: i64 = 4_000_000_000_000;

/// Cap on an animation's duration (milliseconds).
pub const DUR_CAP: i64 = 3_600_000;

/// Cap on the per-frame time step (milliseconds).
pub const DELTA_CAP: i64 = 1_000_000;

/// Milliradians in a full turn (2 pi, scaled by 1000).
pub const TAU_MILLI: i64 = 6283;

/// Milliradians in a half turn (pi, scaled by 1000).
pub const PI_MILLI: i64 = 3141;

/// Milliradians in a quarter turn (pi / 2, scaled by 1000).
pub const HALF_PI_MILLI: i64 = 1571;

/// Five times pi squared, in squared milliradians: the constant of the
/// rational sine approximation below.
pub const FIVE_PI_SQ: i64 = 49_348_022;

/// The rational approximation of sine on the half turn `0 <= u <= 3141`
/// milliradians: `16 u (pi - u) / (5 pi^2 - 4 u (pi - u))`, carried out
/// exactly in milliradian units.
pub open spec fn spec_half_sin(u: int) -> int {
    let v = u * (PI_MILLI - u);
    16000 * v / (FIVE_PI_SQ - 4 * v)
}

/// The milli-sine of an angle in milliradians: the angle is reduced to one
/// turn, and the rational half-turn approximation is applied with the sign
/// of the half it falls in.
pub open spec fn spec_sin_milli(x: int) -> int {
    let m = x % (TAU_MILLI as int);
    if m < PI_MILLI {
        spec_half_sin(m)
    } else {
        -spec_half_sin(m - PI_MILLI)
    }
}

/// The milli-cosine: the milli-sine advanced by a quarter turn.
pub open spec fn spec_cos_milli(x: int) -> int {
    spec_sin_milli(x + HALF_PI_MILLI)
}

/// The half-turn approximation stays within the milli-unit circle.
pub proof fn lemma_half_sin_bounds(u: int)
    requires
        0 <= u <= PI_MILLI,
    ensures
        0 <= spec_half_sin(u) <= 1000,
{
    let v = u * (PI_MILLI - u);
    assert(0 <= v && 4 * v <= 3141 * 3141) by (nonlinear_arith)
        requires
            0 <= u <= 3141,
            v == u * (3141 - u),
    ;
    let d = FIVE_PI_SQ - 4 * v;
    assert(d >= 39482141);
    lemma_mul_inequality(v, 2466470, 16000);
    assert(v * 16000 == 16000 * v) by (nonlinear_arith);
    assert(16000 * v >= 0) by (nonlinear_arith)
        requires
            v >= 0,
    ;
    lemma_div_pos_is_pos(16000 * v, d);
    lemma_div_is_ordered(16000 * v, 39463520000int, d);
    lemma_div_is_ordered_by_denominator(39463520000int, 39482141, d);
    assert(39463520000int / 39482141 == 999);
}

/// The milli-sine lies within the milli-unit circle.
pub proof fn lemma_sin_milli_bounds(x: int)
    ensures
        -1000 <= spec_sin_milli(x) <= 1000,
{
    let m = x % (TAU_MILLI as int);
    vstd::arithmetic::div_mod::lemma_mod_division_less_than_divisor(x, TAU_MILLI as int);
    if m < PI_MILLI {
        lemma_half_sin_bounds(m);
    } else {
        lemma_half_sin_bounds(m - PI_MILLI);
    }
}

/// Evaluates the milli-sine of a nonnegative angle in milliradians.
pub fn sin_milli(x: i64) -> (r: i64)
    requires
        0 <= x,
    ensures
        r == spec_sin_milli(x as int),
        -1000 <= r <= 1000,
{
    proof {
        lemma_sin_milli_bounds(x as int);
    }
    let m = x % TAU_MILLI;
    if m < PI_MILLI {
        proof {
            assert(0 <= (m as int) * (3141 - m as int) && 4 * ((m as int) * (3141 - m as int))
                <= 9865881) by (nonlinear_arith)
                requires
                    0 <= m < 3141,
            ;
        }
        let v = m * (PI_MILLI - m);
        16000 * v / (FIVE_PI_SQ - 4 * v)
    } else {
        let u = m - PI_MILLI;
        proof {
            assert(0 <= (u as int) * (3141 - u as int) && 4 * ((u as int) * (3141 - u as int))
                <= 9865881) by (nonlinear_arith)
                requires
                    0 <= u <= 3141,
            ;
            lemma_half_sin_bounds(u as int);
        }
        let v = u * (PI_MILLI - u);
        -(16000 * v / (FIVE_PI_SQ - 4 * v))
    }
}

/// Evaluates the milli-cosine of a nonnegative angle in milliradians.
pub fn cos_milli(x: i64) -> (r: i64)
    requires
        0 <= x <= i64::MAX - HALF_PI_MILLI,
    ensures
        r == spec_cos_milli(x as int),
        -1000 <= r <= 1000,
{
    sin_milli(x + HALF_PI_MILLI)
}

/// `a + d`, held inside the coordinate range.
pub open spec fn spec_add_clamp(a: int, d: int) -> int {
    let s = a + d;
    if s > POS_LIMIT {
        POS_LIMIT as int
    } else if s < -POS_LIMIT {
        -POS_LIMIT as int
    } else {
        s
    }
}

/// Adds a bounded step to a coordinate, saturating at the coordinate range.
pub fn add_clamp(a: i64, d: i64) -> (r: i64)
    requires
        -POS_LIMIT <= a <= POS_LIMIT,
        -POS_LIMIT <= d <= POS_LIMIT,
    ensures
        r == spec_add_clamp(a as int, d as int),
        -POS_LIMIT <= r <= POS_LIMIT,
{
    let s = a + d;
    if s > POS_LIMIT {
        POS_LIMIT
    } else if s < -POS_LIMIT {
        -POS_LIMIT
    } else {
        s
    }
}

/// Scales `v` by `s` thousandths; `v` may be of either sign, the quotient
/// truncates toward zero as the machine division does.
pub open spec fn spec_scale(v: int, s: int) -> int {
    if v >= 0 {
        v * s / 1000
    } else {
        -((-v) * s / 1000)
    }
}

/// Scaling by at most 1000 thousandths never grows the magnitude.
pub proof fn lemma_scale_shrinks(v: int, s: int)
    requires
        0 <= s <= 1000,
    ensures
        v >= 0 ==> 0 <= spec_scale(v, s) <= v,
        v < 0 ==> v <= spec_scale(v, s) <= 0,
{
    if v >= 0 {
        lemma_mul_inequality(s, 1000, v);
        assert(v * s == s * v) by (nonlinear_arith);
        assert(v * 1000 == 1000 * v) by (nonlinear_arith);
        lemma_div_is_ordered(v * s, v * 1000, 1000);
        assert(v * 1000 / 1000 == v) by (nonlinear_arith);
        assert(v * s >= 0) by (nonlinear_arith)
            requires
                v >= 0,
                s >= 0,
        ;
        lemma_div_pos_is_pos(v * s, 1000);
    } else {
        let w = -v;
        lemma_mul_inequality(s, 1000, w);
        assert(w * s == s * w) by (nonlinear_arith);
        assert(w * 1000 == 1000 * w) by (nonlinear_arith);
        lemma_div_is_ordered(w * s, w * 1000, 1000);
        assert(w * 1000 / 1000 == w) by (nonlinear_arith);
        assert(w * s >= 0) by (nonlinear_arith)
            requires
                w >= 0,
                s >= 0,
        ;
        lemma_div_pos_is_pos(w * s, 1000);
    }
}

/// A milli-sine scaled by an amplitude of at most 20000 milli-units stays
/// within 20040 milli-units.
pub proof fn lemma_scale_amp(v: int, s: int)
    requires
        -1000 <= v <= 1000,
        0 <= s <= 20000,
    ensures
        -20000 <= spec_scale(v, s) <= 20000,
{
    if v >= 0 {
        assert(0 <= v * s <= 20000000) by (nonlinear_arith)
            requires
                0 <= v <= 1000,
                0 <= s <= 20000,
        ;
        lemma_div_pos_is_pos(v * s, 1000);
        lemma_div_is_ordered(v * s, 20000000int, 1000);
    } else {
        let w = -v;
        assert(0 <= w * s <= 20000000) by (nonlinear_arith)
            requires
                0 <= w <= 1000,
                0 <= s <= 20000,
        ;
        lemma_div_pos_is_pos(w * s, 1000);
        lemma_div_is_ordered(w * s, 20000000int, 1000);
    }
}

/// Linear interpolation from `a` toward `b` by `t` thousandths, in exact
/// integer arithmetic.
pub open spec fn spec_lerp(a: int, b: int, t: int) -> int {
    if b >= a {
        a + (b - a) * t / 1000
    } else {
        a - (a - b) * t / 1000
    }
}

/// The interpolant stays between its endpoints.
pub proof fn lemma_lerp_between(a: int, b: int, t: int)
    requires
        0 <= t <= 1000,
    ensures
        b >= a ==> a <= spec_lerp(a, b, t) <= b,
        b < a ==> b <= spec_lerp(a, b, t) <= a,
{
    if b >= a {
        lemma_scale_shrinks(b - a, t);
    } else {
        lemma_scale_shrinks(a - b, t);
    }
}

/// Interpolates each call from the current value toward the target; callers
/// that feed the moved value back in each frame get the eased curve the
/// animation design asks for.
pub fn lerp(a: i64, b: i64, t: i64) -> (r: i64)
    requires
        -POS_LIMIT <= a <= POS_LIMIT,
        -POS_LIMIT <= b <= POS_LIMIT,
        0 <= t <= 1000,
    ensures
        r == spec_lerp(a as int, b as int, t as int),
        -POS_LIMIT <= r <= POS_LIMIT,
{
    proof {
        lemma_lerp_between(a as int, b as int, t as int);
        if b >= a {
            lemma_mul_inequality(b - a, 2 * POS_LIMIT, t as int);
            assert((b - a) * t >= 0) by (nonlinear_arith)
                requires
                    b - a >= 0,
                    t >= 0,
            ;
        } else {
            lemma_mul_inequality(a - b, 2 * POS_LIMIT, t as int);
            assert((a - b) * t >= 0) by (nonlinear_arith)
                requires
                    a - b >= 0,
                    t >= 0,
            ;
        }
        assert(2 * POS_LIMIT * t <= 2 * POS_LIMIT * 1000) by (nonlinear_arith)
            requires
                0 <= t <= 1000,
        ;
    }
    if b >= a {
        let d = b - a;
        a + d * t / 1000
    } else {
        let d = a - b;
        a - d * t / 1000
    }
}

/// One sine term of a composite motion curve: amplitude times the
/// milli-sine of `pt * freq / 1000 + phase`, scaled back to milli-units.
pub open spec fn spec_term_sin(pt: int, freq: int, phase: int, amp: int) -> int {
    spec_scale(spec_sin_milli(pt * freq / 1000 + phase), amp)
}

/// One cosine term of a composite motion curve.
pub open spec fn spec_term_cos(pt: int, freq: int, phase: int, amp: int) -> int {
    spec_scale(spec_cos_milli(pt * freq / 1000 + phase), amp)
}

/// Evaluates one sine term of a composite curve.
pub fn term_sin(pt: i64, freq: i64, phase: i64, amp: i64) -> (r: i64)
    requires
        0 <= pt <= TIME_CAP,
        0 <= freq <= 2000,
        0 <= phase <= 10000,
        0 <= amp <= 20000,
    ensures
        r == spec_term_sin(pt as int, freq as int, phase as int, amp as int),
        -20000 <= r <= 20000,
{
    proof {
        lemma_mul_inequality(pt as int, TIME_CAP as int, freq as int);
        assert(TIME_CAP * freq <= TIME_CAP * 2000) by (nonlinear_arith)
            requires
                0 <= freq <= 2000,
        ;
        assert(pt * freq >= 0) by (nonlinear_arith)
            requires
                pt >= 0,
                freq >= 0,
        ;
        lemma_div_pos_is_pos(pt as int * freq as int, 1000);
        lemma_div_nonincreasing(pt as int * freq as int, 1000);
    }
    let angle = pt * freq / 1000 + phase;
    let s = sin_milli(angle);
    proof {
        lemma_scale_amp(s as int, amp as int);
    }
    if s >= 0 {
        s * amp / 1000
    } else {
        let r = (-s) * amp / 1000;
        -r
    }
}

/// Evaluates one cosine term of a composite curve.
pub fn term_cos(pt: i64, freq: i64, phase: i64, amp: i64) -> (r: i64)
    requires
        0 <= pt <= TIME_CAP,
        0 <= freq <= 2000,
        0 <= phase <= 10000,
        0 <= amp <= 20000,
    ensures
        r == spec_term_cos(pt as int, freq as int, phase as int, amp as int),
        -20000 <= r <= 20000,
{
    proof {
        lemma_mul_inequality(pt as int, TIME_CAP as int, freq as int);
        assert(TIME_CAP * freq <= TIME_CAP * 2000) by (nonlinear_arith)
            requires
                0 <= freq <= 2000,
        ;
        assert(pt * freq >= 0) by (nonlinear_arith)
            requires
                pt >= 0,
                freq >= 0,
        ;
        lemma_div_pos_is_pos(pt as int * freq as int, 1000);
        lemma_div_nonincreasing(pt as int * freq as int, 1000);
    }
    let angle = pt * freq / 1000 + phase;
    let s = cos_milli(angle);
    proof {
        lemma_scale_amp(s as int, amp as int);
    }
    if s >= 0 {
        s * amp / 1000
    } else {
        let r = (-s) * amp / 1000;
        -r
    }
}

} // verus!
