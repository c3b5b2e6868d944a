//! The operating-system randomness source, and the maps from raw samples
//! to fixed-point ranges.
//!
//! The handle and its raw draw are the only trusted items in the crate:
//! nothing can be promised of a random value, so the wrappers carry no
//! `ensures` and every consumer is verified for every outcome.

use vstd::prelude::*;
use crate::fixed::FX_ONE;

verus! {

#[verifier::external_type_specification]
#[verifier::external_body]
pub struct ExOsRng(rand::rngs::OsRng);

/// Relies on rand's `OsRng::default`: constructs the zero-sized handle to
/// the operating system's randomness.
#[verifier::external_body]
pub(crate) fn new_os_rng() -> rand::rngs::OsRng {
    rand::rngs::OsRng::default()
}

/// Relies on rand's `RngCore::next_u32` for `OsRng`: one raw sample from
/// the operating system. Nothing is promised of the value; as in the
/// upstream crate, a failing system randomness source aborts the process.
#[verifier::external_body]
pub(crate) fn next_raw(rng: &mut rand::rngs::OsRng) -> u32 {
    rand::RngCore::next_u32(rng)
}

/// A raw sample folded into a half-open fixed-point range by its remainder.
pub fn range_sample(raw: u32, lo: i64, hi: i64) -> (v: i64)
    requires
        lo < hi,
        hi - lo <= 0xffff_ffff,
    ensures
        v as int == lo + (raw as int) % (hi - lo),
        lo <= v < hi,
{
    let span: u32 = (hi - lo) as u32;
    proof {
        vstd::arithmetic::div_mod::lemma_mod_bound(raw as int, span as int);
    }
    lo + ((raw % span) as i64)
}

/// A raw sample folded into `[0, 1)`.
pub fn unit_sample(raw: u32) -> (v: i64)
    ensures
        v as int == (raw as int) % (FX_ONE as int),
        0 <= v < FX_ONE,
{
    range_sample(raw, 0, FX_ONE)
}

} // verus!
