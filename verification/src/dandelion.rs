//! The animated seed entity.
//!
//! A seed owns three separate transforms so the renderer can compose them
//! and each can be smoothed at its own rate, the smoothed heading angle
//! and its rate of change for the idle wobble, a colour, and the flag that
//! selects the choreographed rendering variant.

use vstd::prelude::*;
use crate::fixed::{FX_ONE, iabs};
use crate::trig::FX_TAU;
use crate::affine_matrix::{AffineMatrix, Vec3, ident_m};
use crate::color::Color;

verus! {

/// Bound on the magnitude of a seed's translation entries, kept by every
/// frame update.
pub const SEED_TR_MAX: i64 = 100_000_000;

/// Bound on the magnitude of a seed's rotation entries, kept by every
/// frame update.
pub const SEED_ROT_MAX: i64 = 640_000;

/// One animated seed's mutable state.
#[derive(Clone, Copy, Debug, PartialEq, Eq, Structural)]
pub struct DandelionSeed {
    pub translation: AffineMatrix,
    pub rotation: AffineMatrix,
    pub scale: AffineMatrix,
    pub theta: i64,
    pub theta_delta: i64,
    pub color: Color,
    pub fancy: bool,
}

/// A seed's well-formedness: transforms bounded, the heading reduced to
/// one turn, and its rate within one.
pub open spec fn seed_wf(s: DandelionSeed) -> bool {
    &&& s.translation.bounded(SEED_TR_MAX as int)
    &&& s.rotation.bounded(SEED_ROT_MAX as int)
    &&& s.scale.bounded(FX_ONE as int)
    &&& 0 <= s.theta < FX_TAU
    &&& iabs(s.theta_delta as int) <= FX_ONE as int
}

impl DandelionSeed {
    /// A fresh seed: identity transforms, zero heading, a transparent
    /// black colour, the plain rendering variant.
    pub fn new() -> (r: Self)
        ensures
            r == (DandelionSeed {
                translation: ident_m(),
                rotation: ident_m(),
                scale: ident_m(),
                theta: 0,
                theta_delta: 0,
                color: Color { r: 0, g: 0, b: 0, a: FX_ONE },
                fancy: false,
            }),
            seed_wf(r),
    {
        DandelionSeed {
            translation: AffineMatrix::new(),
            rotation: AffineMatrix::new(),
            scale: AffineMatrix::new(),
            theta: 0,
            theta_delta: 0,
            color: Color::from_gray(0, FX_ONE),
            fancy: false,
        }
    }

    /// The seed's world position: the translation row of its translation
    /// transform.
    pub fn get_position(&self) -> (r: Vec3)
        ensures
            r == (Vec3 {
                x: self.translation.m30,
                y: self.translation.m31,
                z: self.translation.m32,
            }),
    {
        Vec3 { x: self.translation.m30, y: self.translation.m31, z: self.translation.m32 }
    }
}

} // verus!
