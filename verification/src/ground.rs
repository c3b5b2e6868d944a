//! The scrolling ground tile's animation state.
//!
//! A tile owns the same three transforms as a seed plus a colour that the
//! scene sets from the global brightness; mesh and program handles live
//! with the renderer outside this crate.

use vstd::prelude::*;
use crate::fixed::FX_ONE;
use crate::affine_matrix::{AffineMatrix, ident_m};
use crate::color::Color;

verus! {

/// One ground tile's animation state.
#[derive(Clone, Copy, Debug, PartialEq, Eq, Structural)]
pub struct Ground {
    pub translation: AffineMatrix,
    pub rotation: AffineMatrix,
    pub scale: AffineMatrix,
    pub color: Color,
}

impl Ground {
    /// A fresh tile, shifted down one unit and back two, in darkness.
    pub fn new() -> (r: Self)
        ensures
            r.translation == (AffineMatrix {
                m30: 0,
                m31: (-FX_ONE) as i64,
                m32: (-2 * FX_ONE) as i64,
                ..ident_m()
            }),
            r.rotation == ident_m(),
            r.scale == ident_m(),
            r.color == (Color { r: 0, g: 0, b: 0, a: FX_ONE }),
    {
        let mut translation = AffineMatrix::new();
        translation.translate(0, -FX_ONE, -2 * FX_ONE);
        Ground {
            translation,
            rotation: AffineMatrix::new(),
            scale: AffineMatrix::new(),
            color: Color::from_gray(0, FX_ONE),
        }
    }
}

} // verus!
