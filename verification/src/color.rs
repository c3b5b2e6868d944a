//! A small RGBA colour of fixed-point channels.
//!
//! Channels hold the real channel value times [`FX_ONE`]; they are not
//! clamped. Construction helpers cover gray, hue angle, hex string and hex
//! integer forms; `scale` fades brightness without touching alpha.

use vstd::prelude::*;
use vstd::string::StringSliceAdditionalSpecFns;
use crate::fixed::{FX_ONE, iabs, tdiv, fxm, fx_mul, fx_tdiv, lemma_fxm_bound};
use crate::affine_matrix::ENTRY_MAX;

verus! {

/// An RGBA colour; channel values are fixed-point scalars, nominally in
/// `[0, 1]` but not clamped.
#[derive(Clone, Copy, Debug, PartialEq, Eq, Structural)]
pub struct Color {
    pub r: i64,
    pub g: i64,
    pub b: i64,
    pub a: i64,
}

/// A hex colour channel scaled into `[0, 1]`: the byte value over 255,
/// rounded toward zero.
pub open spec fn hex_channel(v: int) -> int {
    tdiv(v * (FX_ONE as int), 255)
}

/// The number of leading `#` bytes of a string, all of which the hex parser
/// skips.
pub open spec fn hash_prefix_len(s: Seq<u8>) -> int
    decreases s.len(),
{
    if s.len() == 0 || s[0] != 35u8 {
        0
    } else {
        1 + hash_prefix_len(s.skip(1))
    }
}

/// The value of one hex digit byte, or minus one for any other byte.
pub open spec fn hexv(b: u8) -> int {
    if 48 <= b <= 57 {
        b - 48
    } else if 97 <= b <= 102 {
        b - 87
    } else if 65 <= b <= 70 {
        b - 55
    } else {
        -1
    }
}

/// Whether the bytes of a string are leading hashes followed by at least
/// six hex digits, the inputs on which the hex-string parser is defined.
pub open spec fn valid_hex_str(s: Seq<u8>) -> bool {
    let k = hash_prefix_len(s);
    &&& s.len() >= k + 6
    &&& forall|i: int| k <= i < k + 6 ==> hexv(#[trigger] s[i]) >= 0
}

/// The two-digit hex value starting at position `i`.
pub open spec fn hex_pair(s: Seq<u8>, i: int) -> int {
    16 * hexv(s[i]) + hexv(s[i + 1])
}

/// A prefix of hashes is no longer than the string.
proof fn lemma_hash_prefix_le_len(s: Seq<u8>)
    ensures
        0 <= hash_prefix_len(s) <= s.len(),
    decreases s.len(),
{
    if s.len() != 0 && s[0] == 35u8 {
        lemma_hash_prefix_le_len(s.skip(1));
    }
}

/// The prefix length is the first position holding anything but a hash.
proof fn lemma_hash_prefix_at(s: Seq<u8>, i: int)
    requires
        0 <= i <= s.len(),
        forall|j: int| 0 <= j < i ==> s[j] == 35u8,
        i == s.len() || s[i] != 35u8,
    ensures
        hash_prefix_len(s) == i,
    decreases i,
{
    if i == 0 {
    } else {
        assert(s[0] == 35u8);
        assert forall|j: int| 0 <= j < i - 1 implies s.skip(1)[j] == 35u8 by {
            assert(s.skip(1)[j] == s[j + 1]);
        }
        if i - 1 < s.skip(1).len() {
            assert(s.skip(1)[i - 1] == s[i]);
        }
        lemma_hash_prefix_at(s.skip(1), i - 1);
    }
}

/// The value of one hex digit byte, executable.
fn hexv_at(b: u8) -> (v: i64)
    requires
        hexv(b) >= 0,
    ensures
        v as int == hexv(b),
        0 <= v <= 15,
{
    if 48 <= b && b <= 57 {
        (b - 48) as i64
    } else if 97 <= b && b <= 102 {
        (b - 87) as i64
    } else {
        (b - 55) as i64
    }
}

/// One channel from a two-hex-digit value, executable.
fn channel_of(v: i64) -> (r: i64)
    requires
        0 <= v <= 255,
    ensures
        r as int == hex_channel(v as int),
        0 <= r <= FX_ONE,
{
    proof {
        vstd::arithmetic::div_mod::lemma_div_pos_is_pos(v * (FX_ONE as int), 255);
        vstd::arithmetic::div_mod::lemma_multiply_divide_le(v * (FX_ONE as int), 255,
            FX_ONE as int);
        assert(v * (FX_ONE as int) <= 255 * (FX_ONE as int)) by (nonlinear_arith)
            requires 0 <= v <= 255 {};
    }
    (((v as u64) * 10_000) / 255) as i64
}

impl Color {
    /// A gray value: the same level on all three channels, with the given
    /// alpha.
    pub fn from_gray(value: i64, alpha: i64) -> (r: Self)
        ensures
            r == (Color { r: value, g: value, b: value, a: alpha }),
    {
        Color { r: value, g: value, b: value, a: alpha }
    }

    /// The colour of a hue angle in fixed-point degrees, at full saturation
    /// and value; opaque.
    pub fn hue_angle_to_rgb(hue: i64) -> (res: Self)
        requires
            -1_000_000_000_000 <= hue <= 1_000_000_000_000,
        ensures
            res.r as int == hue_r(hue as int),
            res.g as int == hue_g(hue as int),
            res.b as int == hue_b(hue as int),
            res.a == FX_ONE,
    {
        let h: i64 = fx_tdiv(hue, 60);
        let two: i64 = 2 * FX_ONE;
        let rem: i64 = h - two * fx_tdiv(h, two);
        proof {
            crate::fixed::lemma_tdiv_bounds(h as int, two as int);
            assert(iabs(tdiv(h as int, two as int)) * (two as int) <= iabs(h as int));
            assert(iabs(tdiv(h as int, two as int)) <= iabs(h as int)) by (nonlinear_arith)
                requires iabs(tdiv(h as int, two as int)) * (two as int) <= iabs(h as int),
                    two == 20_000i64 {};
        }
        let dev: i64 = rem - FX_ONE;
        let adev: i64 = if dev >= 0 { dev } else { -dev };
        let x: i64 = FX_ONE - adev;
        let (r, g, b) = if h < FX_ONE {
            (FX_ONE, x, 0)
        } else if h < 2 * FX_ONE {
            (x, FX_ONE, 0)
        } else if h < 3 * FX_ONE {
            (0, FX_ONE, x)
        } else if h < 4 * FX_ONE {
            (0, x, FX_ONE)
        } else if h < 5 * FX_ONE {
            (x, 0, FX_ONE)
        } else {
            (FX_ONE, 0, x)
        };
        Color { r, g, b, a: FX_ONE }
    }

    /// The colour written as hex digits in a string, with any number of
    /// leading hashes; opaque. Defined only on well-formed input, as the
    /// hex digits are read unchecked.
    pub fn from_hex_str(hex: &str) -> (res: Self)
        requires
            valid_hex_str(hex.spec_bytes()),
        ensures
            ({
                let s = hex.spec_bytes();
                let k = hash_prefix_len(s);
                &&& res.r as int == hex_channel(hex_pair(s, k))
                &&& res.g as int == hex_channel(hex_pair(s, k + 2))
                &&& res.b as int == hex_channel(hex_pair(s, k + 4))
                &&& res.a == FX_ONE
            }),
    {
        let bs: &[u8] = hex.as_bytes();
        proof {
            lemma_hash_prefix_le_len(hex.spec_bytes());
        }
        let mut i: usize = 0;
        while i < bs.len() && bs[i] == 35
            invariant
                i <= bs.len(),
                bs@ == hex.spec_bytes(),
                valid_hex_str(hex.spec_bytes()),
                forall|j: int| 0 <= j < i ==> bs@[j] == 35u8,
            decreases bs.len() - i,
        {
            i = i + 1;
        }
        proof {
            lemma_hash_prefix_at(bs@, i as int);
        }
        let d0: i64 = hexv_at(bs[i]);
        let d1: i64 = hexv_at(bs[i + 1]);
        let d2: i64 = hexv_at(bs[i + 2]);
        let d3: i64 = hexv_at(bs[i + 3]);
        let d4: i64 = hexv_at(bs[i + 4]);
        let d5: i64 = hexv_at(bs[i + 5]);
        Color {
            r: channel_of(16 * d0 + d1),
            g: channel_of(16 * d2 + d3),
            b: channel_of(16 * d4 + d5),
            a: FX_ONE,
        }
    }

    /// The colour packed into the low three bytes of an integer, red
    /// highest; opaque.
    pub fn from_hex(hex: u32) -> (res: Self)
        ensures
            res.r as int == hex_channel((hex as int) / 0x10000 % 0x100),
            res.g as int == hex_channel((hex as int) / 0x100 % 0x100),
            res.b as int == hex_channel((hex as int) % 0x100),
            res.a == FX_ONE,
    {
        let rb: u32 = hex / 0x10000 % 0x100;
        let gb: u32 = hex / 0x100 % 0x100;
        let bb: u32 = hex % 0x100;
        Color {
            r: channel_of(rb as i64),
            g: channel_of(gb as i64),
            b: channel_of(bb as i64),
            a: FX_ONE,
        }
    }

    /// A colour from explicit channel scalars; opaque.
    pub fn from_rgb_float(r: i64, g: i64, b: i64) -> (res: Self)
        ensures
            res == (Color { r, g, b, a: FX_ONE }),
    {
        Color { r, g, b, a: FX_ONE }
    }

    /// Scale the three colour channels by a factor, leaving alpha; the
    /// brightness fade.
    pub fn scale(&mut self, factor: i64)
        requires
            iabs(old(self).r as int) <= ENTRY_MAX as int,
            iabs(old(self).g as int) <= ENTRY_MAX as int,
            iabs(old(self).b as int) <= ENTRY_MAX as int,
            iabs(factor as int) <= ENTRY_MAX as int,
        ensures
            final(self).r as int == fxm(old(self).r as int, factor as int),
            final(self).g as int == fxm(old(self).g as int, factor as int),
            final(self).b as int == fxm(old(self).b as int, factor as int),
            final(self).a == old(self).a,
    {
        proof {
            lemma_fxm_bound(self.r as int, factor as int, ENTRY_MAX as int, ENTRY_MAX as int);
            lemma_fxm_bound(self.g as int, factor as int, ENTRY_MAX as int, ENTRY_MAX as int);
            lemma_fxm_bound(self.b as int, factor as int, ENTRY_MAX as int, ENTRY_MAX as int);
        }
        self.r = fx_mul(self.r, factor);
        self.g = fx_mul(self.g, factor);
        self.b = fx_mul(self.b, factor);
    }

    /// Channel by index: red, green, blue, alpha.
    pub fn channel(&self, index: usize) -> (v: i64)
        requires
            index < 4,
        ensures
            index == 0 ==> v == self.r,
            index == 1 ==> v == self.g,
            index == 2 ==> v == self.b,
            index == 3 ==> v == self.a,
    {
        if index == 0 {
            self.r
        } else if index == 1 {
            self.g
        } else if index == 2 {
            self.b
        } else {
            self.a
        }
    }
}

/// Truncating remainder of the halved hue by a full two-unit cycle, as the
/// hardware remainder computes it.
pub open spec fn trem2(h: int) -> int {
    h - 2 * (FX_ONE as int) * tdiv(h, 2 * (FX_ONE as int))
}

/// The tent deviation term of the hue formula: one minus the distance of
/// the remainder from one.
pub open spec fn hue_x(h: int) -> int {
    FX_ONE - iabs(trem2(h) - FX_ONE as int)
}

/// The red channel of the hue formula.
pub open spec fn hue_r(hue: int) -> int {
    let h = tdiv(hue, 60);
    if h < FX_ONE as int {
        FX_ONE as int
    } else if h < 2 * FX_ONE as int {
        hue_x(h)
    } else if h < 3 * FX_ONE as int {
        0
    } else if h < 4 * FX_ONE as int {
        0
    } else if h < 5 * FX_ONE as int {
        hue_x(h)
    } else {
        FX_ONE as int
    }
}

/// The green channel of the hue formula.
pub open spec fn hue_g(hue: int) -> int {
    let h = tdiv(hue, 60);
    if h < FX_ONE as int {
        hue_x(h)
    } else if h < 2 * FX_ONE as int {
        FX_ONE as int
    } else if h < 3 * FX_ONE as int {
        FX_ONE as int
    } else if h < 4 * FX_ONE as int {
        hue_x(h)
    } else {
        0
    }
}

/// The blue channel of the hue formula.
pub open spec fn hue_b(hue: int) -> int {
    let h = tdiv(hue, 60);
    if h < FX_ONE as int {
        0
    } else if h < 2 * FX_ONE as int {
        0
    } else if h < 3 * FX_ONE as int {
        hue_x(h)
    } else if h < 4 * FX_ONE as int {
        FX_ONE as int
    } else if h < 5 * FX_ONE as int {
        FX_ONE as int
    } else {
        hue_x(h)
    }
}

} // verus!
