//! A single RGB colour sample and its pointwise transforms.
//!
//! A channel is stored as its 8-bit intensity `v`, standing for the
//! unit-range value `v / 255`. Working on the intensities directly keeps
//! every transform exact where it can be exact: inverting a channel is
//! `255 - v`, a byte round-trips through a pixel unchanged, and the mean of
//! three channels is rounded once, to the nearest representable intensity.

use vstd::prelude::*;

verus! {

/// One RGB colour sample; channel intensity `v` stands for `v / 255`.
#[derive(Clone, Copy, PartialEq, Eq, Structural, Debug)]
pub struct Rgb {
    pub r: u8,
    pub g: u8,
    pub b: u8,
}

/// The nearest intensity to the arithmetic mean of three channels
/// (the exact mean `(a+b+c)/3` is never half-way between two integers).
pub open spec fn mean3(a: u8, b: u8, c: u8) -> u8 {
    (((a + b + c) + 1) / 3) as u8
}

/// Keep red, zero green and blue.
pub open spec fn spec_as_red(c: Rgb) -> Rgb {
    Rgb { r: c.r, g: 0, b: 0 }
}

/// All three channels replaced by the mean of the original three.
pub open spec fn spec_mean(c: Rgb) -> Rgb {
    Rgb { r: mean3(c.r, c.g, c.b), g: mean3(c.r, c.g, c.b), b: mean3(c.r, c.g, c.b) }
}

/// Each channel rounded (half away from zero) to the nearest of the two
/// unit-range endpoints: intensities of 128 and above become full, the rest
/// become zero.
pub open spec fn spec_quantize(c: Rgb) -> Rgb {
    Rgb {
        r: if c.r >= 128 { 255 as u8 } else { 0 as u8 },
        g: if c.g >= 128 { 255 as u8 } else { 0 as u8 },
        b: if c.b >= 128 { 255 as u8 } else { 0 as u8 },
    }
}

/// Each channel `v` replaced by `255 - v` (the unit-range `1 - v/255`).
pub open spec fn spec_invert(c: Rgb) -> Rgb {
    Rgb { r: (255 - c.r) as u8, g: (255 - c.g) as u8, b: (255 - c.b) as u8 }
}

/// The three bytes of a pixel, in channel order.
pub open spec fn spec_bytes(c: Rgb) -> Seq<u8> {
    seq![c.r, c.g, c.b]
}

impl Rgb {
    pub fn new(r: u8, g: u8, b: u8) -> (c: Rgb)
        ensures
            c == (Rgb { r, g, b }),
    {
        Rgb { r, g, b }
    }

    pub fn black() -> (c: Rgb)
        ensures
            c == (Rgb { r: 0u8, g: 0u8, b: 0u8 }),
    {
        Rgb { r: 0, g: 0, b: 0 }
    }

    pub fn white() -> (c: Rgb)
        ensures
            c == (Rgb { r: 255u8, g: 255u8, b: 255u8 }),
    {
        Rgb { r: 255, g: 255, b: 255 }
    }

    pub fn red() -> (c: Rgb)
        ensures
            c == (Rgb { r: 255u8, g: 0u8, b: 0u8 }),
    {
        Rgb { r: 255, g: 0, b: 0 }
    }

    pub fn green() -> (c: Rgb)
        ensures
            c == (Rgb { r: 0u8, g: 255u8, b: 0u8 }),
    {
        Rgb { r: 0, g: 255, b: 0 }
    }

    pub fn blue() -> (c: Rgb)
        ensures
            c == (Rgb { r: 0u8, g: 0u8, b: 255u8 }),
    {
        Rgb { r: 0, g: 0, b: 255 }
    }

    pub fn yellow() -> (c: Rgb)
        ensures
            c == (Rgb { r: 255u8, g: 255u8, b: 0u8 }),
    {
        Rgb { r: 255, g: 255, b: 0 }
    }

    pub fn cyan() -> (c: Rgb)
        ensures
            c == (Rgb { r: 0u8, g: 255u8, b: 255u8 }),
    {
        Rgb { r: 0, g: 255, b: 255 }
    }

    pub fn magenta() -> (c: Rgb)
        ensures
            c == (Rgb { r: 255u8, g: 0u8, b: 255u8 }),
    {
        Rgb { r: 255, g: 0, b: 255 }
    }

    /// Mid gray: the nearest intensity to one half.
    pub fn gray() -> (c: Rgb)
        ensures
            c == (Rgb { r: 128u8, g: 128u8, b: 128u8 }),
    {
        Rgb { r: 128, g: 128, b: 128 }
    }

    /// A pixel from the next three bytes of a decoded row.
    pub fn from_bytes(v: &[u8]) -> (c: Rgb)
        requires
            v@.len() >= 3,
        ensures
            c == (Rgb { r: v@[0], g: v@[1], b: v@[2] }),
    {
        Rgb { r: v[0], g: v[1], b: v[2] }
    }

    pub fn as_red(&self) -> (c: Rgb)
        ensures
            c == spec_as_red(*self),
    {
        Rgb { r: self.r, g: 0, b: 0 }
    }

    pub fn mean(&self) -> (c: Rgb)
        ensures
            c == spec_mean(*self),
    {
        let sum: u16 = self.r as u16 + self.g as u16 + self.b as u16;
        let m: u8 = ((sum + 1) / 3) as u8;
        Rgb { r: m, g: m, b: m }
    }

    pub fn quantize(&self) -> (c: Rgb)
        ensures
            c == spec_quantize(*self),
    {
        Rgb {
            r: if self.r >= 128 { 255 } else { 0 },
            g: if self.g >= 128 { 255 } else { 0 },
            b: if self.b >= 128 { 255 } else { 0 },
        }
    }

    /// The three bytes a pixel contributes to the encoded stream.
    pub fn to_u8(&self) -> (v: Vec<u8>)
        ensures
            v@ == spec_bytes(*self),
    {
        let mut v: Vec<u8> = Vec::new();
        v.push(self.r);
        v.push(self.g);
        v.push(self.b);
        proof {
            assert(v@ =~= spec_bytes(*self));
        }
        v
    }

    pub fn invert(&self) -> (c: Rgb)
        ensures
            c == spec_invert(*self),
    {
        Rgb { r: 255 - self.r, g: 255 - self.g, b: 255 - self.b }
    }
}

/// Inverting a pixel twice gives the pixel back.
pub proof fn lemma_invert_involution_pixel(c: Rgb)
    ensures
        spec_invert(spec_invert(c)) == c,
{
}

} // verus!
