//! Fixed-point sine and cosine.
//!
//! The pair is computed with Bhaskara's rational approximation on a half
//! turn, entirely in integer arithmetic, so the result is an exact function
//! of the argument and is stated as one in the contracts. A returned pair is
//! always close to the unit circle: the implementation checks the squared
//! norm and falls back to the pair for a zero angle if the check ever failed,
//! so every rotation block built from it is near-orthogonal.

use vstd::prelude::*;
use crate::fixed::{FX_ONE, iabs, tdiv, emod, pmod};

verus! {

/// Half turn, in fixed-point radians.
pub const FX_PI: i64 = 31_416;

/// Full turn.
pub const FX_TAU: i64 = 62_832;

/// Quarter turn.
pub const FX_PI_2: i64 = 15_708;

/// Allowed distance of `sin^2 + cos^2` from one, in squared fixed-point
/// units (0.01 of one).
pub const NEAR_EPS: i64 = 1_000_000;

/// Largest angle magnitude accepted by [`sin_cos`]; far beyond any
/// accumulated heading in practice, and small enough that reduction of the
/// angle cannot overflow.
pub const ANGLE_MAX: i64 = 0x10_0000_0000_0000;

/// Bhaskara's sine on a half turn: `16 x (pi - x) / (5 pi^2 - 4 x (pi - x))`,
/// scaled to fixed point.
pub open spec fn bhask(x: int) -> int {
    let w = x * (FX_PI - x);
    tdiv(16 * w * (FX_ONE as int), 5 * (FX_PI as int) * (FX_PI as int) - 4 * w)
}

/// Sine on one reduced turn `[0, tau)`: the second half mirrors the first.
pub open spec fn sin_reduced(x: int) -> int {
    if x <= FX_PI as int {
        bhask(x)
    } else {
        -bhask(x - FX_PI as int)
    }
}

/// Raw sine of any angle, by Euclidean reduction to one turn.
pub open spec fn sin_raw(a: int) -> int {
    sin_reduced(a % (FX_TAU as int))
}

/// Raw cosine, as the sine a quarter turn ahead.
pub open spec fn cos_raw(a: int) -> int {
    sin_raw(a + FX_PI_2 as int)
}

/// Whether a pair lies within [`NEAR_EPS`] of the unit circle.
pub open spec fn near_unit(s: int, c: int) -> bool {
    iabs(s * s + c * c - (FX_ONE as int) * (FX_ONE as int)) <= NEAR_EPS as int
}

/// The sine actually returned: the raw value, or zero if the raw pair ever
/// strayed from the unit circle.
pub open spec fn spec_sin(a: int) -> int {
    if near_unit(sin_raw(a), cos_raw(a)) {
        sin_raw(a)
    } else {
        0
    }
}

/// The cosine actually returned; see [`spec_sin`].
pub open spec fn spec_cos(a: int) -> int {
    if near_unit(sin_raw(a), cos_raw(a)) {
        cos_raw(a)
    } else {
        FX_ONE as int
    }
}

/// Bhaskara's numerator stays within the denominator times one, so the raw
/// sine is bounded by one in magnitude; the denominator is large and the
/// products stay small.
proof fn lemma_bhask_bounds(x: int)
    requires
        0 <= x <= FX_PI as int,
    ensures
        0 <= bhask(x) <= FX_ONE as int,
        0 <= x * (FX_PI as int - x) <= (FX_PI as int) * (FX_PI as int),
        5 * (FX_PI as int) * (FX_PI as int) - 4 * (x * (FX_PI as int - x)) > 0,
{
    let p = FX_PI as int;
    let w = x * (p - x);
    assert(0 <= w <= p * p && 4 * w <= p * p) by (nonlinear_arith)
        requires 0 <= x <= p, w == x * (p - x) {};
    let den = 5 * p * p - 4 * w;
    let num = 16 * w * (FX_ONE as int);
    assert(den > 0 && num >= 0 && num <= den * (FX_ONE as int)) by (nonlinear_arith)
        requires 4 * w <= p * p, 0 <= w, num == 16 * w * (FX_ONE as int),
            den == 5 * p * p - 4 * w, p == 31_416 {};
    vstd::arithmetic::div_mod::lemma_div_pos_is_pos(num, den);
    vstd::arithmetic::div_mod::lemma_multiply_divide_le(num, den, FX_ONE as int);
    assert(bhask(x) == num / den);
}

/// The raw sine and cosine are bounded by one in magnitude.
pub proof fn lemma_sin_raw_bounds(a: int)
    ensures
        iabs(sin_raw(a)) <= FX_ONE as int,
{
    let t = FX_TAU as int;
    vstd::arithmetic::div_mod::lemma_mod_bound(a, t);
    let x = a % t;
    if x <= FX_PI as int {
        lemma_bhask_bounds(x);
    } else {
        lemma_bhask_bounds(x - FX_PI as int);
    }
}

/// The returned pair always lies near the unit circle, and each component
/// is bounded by one in magnitude.
pub proof fn lemma_sc_near_unit(a: int)
    ensures
        near_unit(spec_sin(a), spec_cos(a)),
        iabs(spec_sin(a)) <= FX_ONE as int,
        iabs(spec_cos(a)) <= FX_ONE as int,
{
    lemma_sin_raw_bounds(a);
    lemma_sin_raw_bounds(a + FX_PI_2 as int);
    let s = FX_ONE as int;
    assert(near_unit(0, s)) by {
        assert(0 * 0 + s * s - s * s == 0) by (nonlinear_arith);
    }
}

/// Bhaskara's sine on a half turn, executable.
fn bhask_at(x: i64) -> (r: i64)
    requires
        0 <= x <= FX_PI,
    ensures
        r as int == bhask(x as int),
        0 <= r <= FX_ONE,
{
    proof {
        lemma_bhask_bounds(x as int);
    }
    let w: i64 = x * (FX_PI - x);
    let num: i64 = 16 * w * FX_ONE;
    let den: i64 = 5 * FX_PI * FX_PI - 4 * w;
    let r: i64 = ((num as u64) / (den as u64)) as i64;
    proof {
        vstd::arithmetic::div_mod::lemma_div_pos_is_pos(num as int, den as int);
        assert(r as int == bhask(x as int));
    }
    r
}

/// Sine on one reduced turn, executable.
fn sin_reduced_at(x: i64) -> (r: i64)
    requires
        0 <= x < FX_TAU,
    ensures
        r as int == sin_reduced(x as int),
        iabs(r as int) <= FX_ONE as int,
{
    if x <= FX_PI {
        bhask_at(x)
    } else {
        -bhask_at(x - FX_PI)
    }
}

/// The fixed-point sine and cosine of an angle, as one pair.
pub fn sin_cos(angle: i64) -> (r: (i64, i64))
    requires
        -ANGLE_MAX <= angle <= ANGLE_MAX,
    ensures
        r.0 as int == spec_sin(angle as int),
        r.1 as int == spec_cos(angle as int),
{
    let xs: i64 = emod(angle, FX_TAU);
    let s: i64 = sin_reduced_at(xs);
    proof {
        vstd::arithmetic::div_mod::lemma_add_mod_noop(angle as int, FX_PI_2 as int, FX_TAU as int);
        vstd::arithmetic::div_mod::lemma_small_mod(FX_PI_2 as nat, FX_TAU as nat);
        vstd::arithmetic::div_mod::lemma_mod_bound(angle as int + FX_PI_2 as int, FX_TAU as int);
    }
    let xc: i64 = pmod(xs + FX_PI_2, FX_TAU);
    let c: i64 = sin_reduced_at(xc);
    proof {
        assert(0 <= s * s <= FX_ONE * FX_ONE && 0 <= c * c <= FX_ONE * FX_ONE)
            by (nonlinear_arith)
            requires iabs(s as int) <= FX_ONE as int, iabs(c as int) <= FX_ONE as int,
                FX_ONE == 10_000i64 {};
    }
    let d: i64 = s * s + c * c - FX_ONE * FX_ONE;
    if -NEAR_EPS <= d && d <= NEAR_EPS {
        (s, c)
    } else {
        (0, FX_ONE)
    }
}

} // verus!
