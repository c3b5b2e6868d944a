//! Fixed-point scalars.
//!
//! A scalar is an `i64` holding the real value times [`FX_ONE`]. Products are
//! computed in `i128` and divided back by [`FX_ONE`] with truncation toward
//! zero, the same rounding that the hardware division instruction uses.

use vstd::prelude::*;

verus! {

/// Number of fixed-point units in 1.0.
pub const FX_ONE: i64 = 10_000;

/// Number of fixed-point units in 0.5.
pub const FX_HALF: i64 = 5_000;

/// Magnitude of an integer.
pub open spec fn iabs(x: int) -> int {
    if x >= 0 {
        x
    } else {
        -x
    }
}

/// Division that rounds toward zero, as the executable `/` does on signed
/// machine integers; `/` on `int` rounds toward negative infinity.
pub open spec fn tdiv(p: int, d: int) -> int {
    if p >= 0 {
        p / d
    } else {
        -((-p) / d)
    }
}

/// The fixed-point product of two scalars.
pub open spec fn fxm(a: int, b: int) -> int {
    tdiv(a * b, FX_ONE as int)
}

/// Truncating division never rounds away from zero: the quotient times the
/// divisor stays within the dividend, and is off by less than one divisor.
pub proof fn lemma_tdiv_bounds(p: int, d: int)
    requires
        d > 0,
    ensures
        iabs(tdiv(p, d)) * d <= iabs(p),
        iabs(p) < (iabs(tdiv(p, d)) + 1) * d,
        p >= 0 ==> tdiv(p, d) >= 0,
        p <= 0 ==> tdiv(p, d) <= 0,
{
    if p >= 0 {
        vstd::arithmetic::div_mod::lemma_fundamental_div_mod(p, d);
        vstd::arithmetic::div_mod::lemma_remainder_upper(p, d);
        vstd::arithmetic::div_mod::lemma_remainder_lower(p, d);
        vstd::arithmetic::div_mod::lemma_div_pos_is_pos(p, d);
        assert(iabs(tdiv(p, d)) * d <= iabs(p)) by (nonlinear_arith)
            requires p >= 0, d > 0, p / d >= 0, d * (p / d) <= p, tdiv(p, d) == p / d,
                iabs(p) == p, iabs(tdiv(p, d)) == tdiv(p, d) {};
        assert(iabs(p) < (iabs(tdiv(p, d)) + 1) * d) by (nonlinear_arith)
            requires p >= 0, d > 0, p / d >= 0, p - d < d * (p / d), tdiv(p, d) == p / d,
                iabs(p) == p, iabs(tdiv(p, d)) == tdiv(p, d) {};
    } else {
        let q = -p;
        vstd::arithmetic::div_mod::lemma_fundamental_div_mod(q, d);
        vstd::arithmetic::div_mod::lemma_remainder_upper(q, d);
        vstd::arithmetic::div_mod::lemma_remainder_lower(q, d);
        vstd::arithmetic::div_mod::lemma_div_pos_is_pos(q, d);
        assert(iabs(tdiv(p, d)) * d <= iabs(p)) by (nonlinear_arith)
            requires p < 0, d > 0, q == -p, q / d >= 0, d * (q / d) <= q,
                tdiv(p, d) == -(q / d), iabs(p) == q, iabs(tdiv(p, d)) == q / d {};
        assert(iabs(p) < (iabs(tdiv(p, d)) + 1) * d) by (nonlinear_arith)
            requires p < 0, d > 0, q == -p, q / d >= 0, q - d < d * (q / d),
                tdiv(p, d) == -(q / d), iabs(p) == q, iabs(tdiv(p, d)) == q / d {};
    }
}

/// Multiplying by 1.0 is exact, in either position.
pub proof fn lemma_fxm_one(a: int)
    ensures
        fxm(a, FX_ONE as int) == a,
        fxm(FX_ONE as int, a) == a,
{
    let s = FX_ONE as int;
    if a >= 0 {
        vstd::arithmetic::div_mod::lemma_div_multiples_vanish(a, s);
        assert(a * s == s * a) by (nonlinear_arith);
    } else {
        vstd::arithmetic::div_mod::lemma_div_multiples_vanish(-a, s);
        assert(a * s == -(s * (-a)) && s * a == -(s * (-a))) by (nonlinear_arith);
    }
}

/// Multiplying by zero gives zero, in either position.
pub proof fn lemma_fxm_zero(a: int)
    ensures
        fxm(a, 0) == 0,
        fxm(0, a) == 0,
{
    assert(a * 0 == 0) by (nonlinear_arith);
    assert(0 * a == 0) by (nonlinear_arith);
    vstd::arithmetic::div_mod::lemma_div_of0(FX_ONE as int);
}

/// Blending with weight one half lands within one unit of the exact
/// midpoint contribution: twice the half-product recovers the operand up to
/// one unit.
pub proof fn lemma_fxm_half(v: int)
    ensures
        iabs(2 * fxm(FX_HALF as int, v) - v) <= 1,
{
    let s = FX_ONE as int;
    lemma_tdiv_bounds((FX_HALF as int) * v, s);
    let t = fxm(FX_HALF as int, v);
    if v >= 0 {
        assert(iabs((FX_HALF as int) * v) == 5000 * v);
    } else {
        assert(iabs((FX_HALF as int) * v) == 5000 * (-v));
    }
}

/// A magnitude bound on operands carries to a fixed-point product.
pub proof fn lemma_fxm_bound(a: int, b: int, aa: int, bb: int)
    requires
        iabs(a) <= aa,
        iabs(b) <= bb,
    ensures
        iabs(fxm(a, b)) * (FX_ONE as int) <= aa * bb,
{
    let s = FX_ONE as int;
    lemma_tdiv_bounds(a * b, s);
    assert(iabs(a * b) <= aa * bb) by (nonlinear_arith)
        requires iabs(a) <= aa, iabs(b) <= bb {};
}

/// A fixed-point product of two scalars; the intermediate product is taken in
/// twice the width, so only the final result must fit the scalar type.
pub fn fx_mul(a: i64, b: i64) -> (r: i64)
    requires
        -0x7fff_ffff_ffff_ffff <= fxm(a as int, b as int) <= 0x7fff_ffff_ffff_ffff,
    ensures
        r as int == fxm(a as int, b as int),
{
    let p: i128 = (a as i128) * (b as i128);
    if p >= 0 {
        let q: u128 = (p as u128) / 10_000u128;
        assert(q == tdiv(p as int, FX_ONE as int));
        q as i64
    } else {
        let q: u128 = ((-p) as u128) / 10_000u128;
        assert(-(q as int) == tdiv(p as int, FX_ONE as int));
        -(q as i64)
    }
}

/// Truncating division of scalars by a positive divisor.
pub fn fx_tdiv(p: i64, d: i64) -> (r: i64)
    requires
        d > 0,
        p > i64::MIN,
    ensures
        r as int == tdiv(p as int, d as int),
{
    if p >= 0 {
        ((p as u64) / (d as u64)) as i64
    } else {
        let q: u64 = ((-p) as u64) / (d as u64);
        proof {
            vstd::arithmetic::div_mod::lemma_div_nonincreasing(-(p as int), d as int);
            vstd::arithmetic::div_mod::lemma_div_pos_is_pos(-(p as int), d as int);
        }
        -(q as i64)
    }
}

/// Remainder of a non-negative scalar, used by the periodic ground tiling.
pub fn pmod(x: i64, m: i64) -> (r: i64)
    requires
        x >= 0,
        m > 0,
    ensures
        r as int == (x as int) % (m as int),
        0 <= r < m,
{
    ((x as u64) % (m as u64)) as i64
}

/// Euclidean remainder for any sign of the dividend, used to keep accumulated
/// angles within one turn.
pub fn emod(x: i64, m: i64) -> (r: i64)
    requires
        m > 0,
        x > i64::MIN,
    ensures
        r as int == (x as int) % (m as int),
        0 <= r < m,
{
    if x >= 0 {
        pmod(x, m)
    } else {
        let t = pmod(-x, m);
        proof {
            vstd::arithmetic::div_mod::lemma_fundamental_div_mod(-(x as int), m as int);
            let qn = (-(x as int)) / (m as int);
            assert(x as int == (m as int) * (-qn) - t) by (nonlinear_arith)
                requires -(x as int) == (m as int) * qn + t {};
            if t == 0 {
                assert(x as int == (-qn) * (m as int) + 0) by (nonlinear_arith)
                    requires x as int == (m as int) * (-qn) - 0 {};
                vstd::arithmetic::div_mod::lemma_fundamental_div_mod_converse(
                    x as int, m as int, -qn, 0);
            } else {
                assert(x as int == (-qn - 1) * (m as int) + (m as int - t)) by (nonlinear_arith)
                    requires x as int == (m as int) * (-qn) - t {};
                vstd::arithmetic::div_mod::lemma_fundamental_div_mod_converse(
                    x as int, m as int, -qn - 1, m as int - t);
            }
        }
        if t == 0 {
            0
        } else {
            m - t
        }
    }
}

/// The greatest integer whose square does not exceed the argument.
pub open spec fn sqrt_floor(n: int) -> int
    decreases n,
{
    if n <= 0 {
        0
    } else {
        let p = sqrt_floor(n - 1);
        if (p + 1) * (p + 1) <= n {
            p + 1
        } else {
            p
        }
    }
}

/// The floor square root sits in the bracket that characterises it.
pub proof fn lemma_sqrt_floor_bracket(n: int)
    requires
        n >= 0,
    ensures
        sqrt_floor(n) >= 0,
        sqrt_floor(n) * sqrt_floor(n) <= n,
        n < (sqrt_floor(n) + 1) * (sqrt_floor(n) + 1),
    decreases n,
{
    if n == 0 {
        assert(sqrt_floor(0) == 0);
    } else {
        lemma_sqrt_floor_bracket(n - 1);
        let p = sqrt_floor(n - 1);
        if (p + 1) * (p + 1) <= n {
            assert(n < (p + 2) * (p + 2)) by (nonlinear_arith)
                requires p >= 0, n - 1 < (p + 1) * (p + 1) {};
        }
    }
}

/// The bracket determines the floor square root uniquely.
pub proof fn lemma_sqrt_floor_unique(n: int, r: int)
    requires
        n >= 0,
        r >= 0,
        r * r <= n,
        n < (r + 1) * (r + 1),
    ensures
        r == sqrt_floor(n),
{
    lemma_sqrt_floor_bracket(n);
    let p = sqrt_floor(n);
    if r < p {
        assert((r + 1) * (r + 1) <= p * p) by (nonlinear_arith)
            requires 0 <= r, r < p {};
    } else if p < r {
        assert((p + 1) * (p + 1) <= r * r) by (nonlinear_arith)
            requires 0 <= p, p < r {};
    }
}

/// Integer square root: the greatest integer whose square does not exceed the
/// argument. The square root of a squared-magnitude scalar is again a scalar,
/// since the fixed-point scale factors multiply out.
pub fn isqrt(n: u64) -> (r: u64)
    ensures
        r * r <= n < (r + 1) * (r + 1),
        r as int == sqrt_floor(n as int),
{
    let mut lo: u64 = 0;
    let mut hi: u64 = 4_294_967_296;
    proof {
        assert((4_294_967_296u64 as int) * (4_294_967_296u64 as int) > u64::MAX as int)
            by (nonlinear_arith);
    }
    while lo + 1 < hi
        invariant
            lo < hi <= 4_294_967_296,
            lo * lo <= n,
            n < hi * hi,
        decreases hi - lo,
    {
        let mid = lo + (hi - lo) / 2;
        assert(mid * mid <= u64::MAX) by (nonlinear_arith)
            requires lo < mid < hi <= 4_294_967_296u64 {};
        if mid * mid <= n {
            lo = mid;
        } else {
            hi = mid;
        }
    }
    proof {
        lemma_sqrt_floor_unique(n as int, lo as int);
    }
    lo
}

} // verus!
