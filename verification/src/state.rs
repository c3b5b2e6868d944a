//! Behavioural input and the crossfade axes.
//!
//! The UI shell supplies one flat record per frame: whether the show has
//! started, the affection blend weight, and the two scene toggles. The
//! scene core owns the three eased `[0, 1]` axes and advances them one
//! fixed step per frame; brightness and dance brightness exchange weight
//! during a transition so their sum never exceeds one.

use vstd::prelude::*;
use crate::fixed::FX_ONE;

verus! {

/// Step of the brightness and dance-brightness axes per frame, 0.01.
pub const FADE_STEP: i64 = 100;

/// Step of the drift axis per frame, 0.0001.
pub const DRIFT_STEP: i64 = 1;

/// The per-frame behavioural input: desired toggles and the affection
/// weight, owned by the caller.
#[derive(Clone, Copy, Debug, PartialEq, Eq, Structural)]
pub struct DandelionState {
    pub started: bool,
    pub affection: i64,
    pub scene_3: bool,
    pub scene_5: bool,
}

/// The three eased behavioural axes, owned by the scene core.
#[derive(Clone, Copy, Debug, PartialEq, Eq, Structural)]
pub struct CrossfadeAxes {
    pub brightness: i64,
    pub dancing_brightness: i64,
    pub drift_strength: i64,
}

/// The axes' invariant: each lies in `[0, 1]`, the faded pair moves on the
/// step grid, and brightness plus dance brightness never exceeds one.
pub open spec fn axes_wf(a: CrossfadeAxes) -> bool {
    &&& 0 <= a.brightness <= FX_ONE
    &&& 0 <= a.dancing_brightness <= FX_ONE
    &&& 0 <= a.drift_strength <= FX_ONE
    &&& (a.brightness as int) % (FADE_STEP as int) == 0
    &&& (a.dancing_brightness as int) % (FADE_STEP as int) == 0
    &&& a.brightness + a.dancing_brightness <= FX_ONE
}

/// Brightness and dance brightness after the dance crossfade: while the
/// dance is wanted its axis rises and steals the same step from
/// brightness; while unwanted it falls, floored at zero, and returns the
/// step.
pub open spec fn spec_dance_axes(a: CrossfadeAxes, started: bool, scene_3: bool) -> (int, int) {
    let b = a.brightness as int;
    let d = a.dancing_brightness as int;
    if started && scene_3 && d < FX_ONE as int {
        (if b > 0 { b - FADE_STEP as int } else { b }, d + FADE_STEP as int)
    } else if started && !scene_3 && d > 0 {
        (
            if b < FX_ONE as int { b + FADE_STEP as int } else { b },
            if d >= FADE_STEP as int { d - FADE_STEP as int } else { 0 },
        )
    } else {
        (b, d)
    }
}

/// Brightness after its own fade: it rises while started and falls while
/// stopped, but only once the dance axis is fully out.
pub open spec fn spec_brightness(b: int, d: int, started: bool) -> int {
    if started && b < FX_ONE as int && d == 0 {
        b + FADE_STEP as int
    } else if !started && b > 0 && d == 0 {
        b - FADE_STEP as int
    } else {
        b
    }
}

/// The drift axis after its fade, independent of the other two.
pub open spec fn spec_drift(dr: int, started: bool, scene_5: bool) -> int {
    if started && scene_5 && dr < FX_ONE as int {
        dr + DRIFT_STEP as int
    } else if started && !scene_5 && dr > 0 {
        dr - DRIFT_STEP as int
    } else {
        dr
    }
}

/// A value on the step grid strictly below one is at least one step below
/// one, and a positive one is at least one step.
proof fn lemma_step_grid(v: int)
    requires
        0 <= v <= FX_ONE as int,
        v % (FADE_STEP as int) == 0,
    ensures
        v < FX_ONE as int ==> v + FADE_STEP as int <= FX_ONE as int,
        v > 0 ==> v - FADE_STEP as int >= 0,
        v < FX_ONE as int ==> (v + FADE_STEP as int) % (FADE_STEP as int) == 0,
        v > 0 ==> (v - FADE_STEP as int) % (FADE_STEP as int) == 0,
{
    let s = FADE_STEP as int;
    vstd::arithmetic::div_mod::lemma_fundamental_div_mod(v, s);
    let q = v / s;
    assert(v == s * q);
    if v < FX_ONE as int {
        assert(q <= 99) by (nonlinear_arith)
            requires v == s * q, v < 10_000, s == 100 {};
        assert(v + s == (q + 1) * s) by (nonlinear_arith)
            requires v == s * q {};
        assert(v + s <= FX_ONE as int) by (nonlinear_arith)
            requires v + s == (q + 1) * s, q <= 99, s == 100 {};
        vstd::arithmetic::div_mod::lemma_mod_multiples_basic(q + 1, s);
    }
    if v > 0 {
        assert(v - s == (q - 1) * s) by (nonlinear_arith)
            requires v == s * q {};
        assert(q >= 1) by (nonlinear_arith)
            requires v == s * q, v > 0, s == 100 {};
        assert(v - s >= 0) by (nonlinear_arith)
            requires v - s == (q - 1) * s, q >= 1, s == 100 {};
        vstd::arithmetic::div_mod::lemma_mod_multiples_basic(q - 1, s);
    }
}

impl CrossfadeAxes {
    /// All axes at zero, the state before the show starts.
    pub fn new() -> (r: Self)
        ensures
            r == (CrossfadeAxes { brightness: 0, dancing_brightness: 0, drift_strength: 0 }),
            axes_wf(r),
    {
        CrossfadeAxes { brightness: 0, dancing_brightness: 0, drift_strength: 0 }
    }

    /// Advance every axis one frame toward its desired end. The invariant
    /// is kept: in particular the axes stay in `[0, 1]` for runs of any
    /// length, and brightness plus dance brightness never exceeds one.
    pub fn advance(&mut self, started: bool, scene_3: bool, scene_5: bool)
        requires
            axes_wf(*old(self)),
        ensures
            axes_wf(*final(self)),
            final(self).dancing_brightness as int
                == spec_dance_axes(*old(self), started, scene_3).1,
            final(self).brightness as int == spec_brightness(
                spec_dance_axes(*old(self), started, scene_3).0,
                spec_dance_axes(*old(self), started, scene_3).1,
                started,
            ),
            final(self).drift_strength as int
                == spec_drift(old(self).drift_strength as int, started, scene_5),
    {
        proof {
            lemma_step_grid(self.brightness as int);
            lemma_step_grid(self.dancing_brightness as int);
        }
        if started && scene_3 && self.dancing_brightness < FX_ONE {
            self.dancing_brightness = self.dancing_brightness + FADE_STEP;
            if self.brightness > 0 {
                self.brightness = self.brightness - FADE_STEP;
            }
        } else if started && !scene_3 && self.dancing_brightness > 0 {
            if self.dancing_brightness >= FADE_STEP {
                self.dancing_brightness = self.dancing_brightness - FADE_STEP;
            } else {
                self.dancing_brightness = 0;
            }
            if self.brightness < FX_ONE {
                self.brightness = self.brightness + FADE_STEP;
            }
        }
        proof {
            lemma_step_grid(self.brightness as int);
        }
        if started && self.brightness < FX_ONE && self.dancing_brightness == 0 {
            self.brightness = self.brightness + FADE_STEP;
        } else if !started && self.brightness > 0 && self.dancing_brightness == 0 {
            self.brightness = self.brightness - FADE_STEP;
        }
        if started && scene_5 && self.drift_strength < FX_ONE {
            self.drift_strength = self.drift_strength + DRIFT_STEP;
        } else if started && !scene_5 && self.drift_strength > 0 {
            self.drift_strength = self.drift_strength - DRIFT_STEP;
        }
    }
}

} // verus!
