//! Colours and the packed forms in which drawing code takes them.

use vstd::prelude::*;

verus! {

/// The packed value that stands for full transparency.
pub const TRANSPARENT_COLOR: u32 = 0;

/// A colour by its channels. Only the low eight bits of a channel belong to
/// it; what lies above them spills into the channel packed next to it.
#[derive(Clone, Copy, Debug, PartialEq, Eq, Structural)]
pub enum Color {
    Rgb { r: u32, g: u32, b: u32 },
    Rgba { r: u32, g: u32, b: u32, alpha: u32 },
    Transparent,
}

/// Three channels in one value: `high` from bit 16, `mid` from bit 8, `low`
/// from bit 0.
pub open spec fn pack3(high: u32, mid: u32, low: u32) -> u32 {
    high << 16 | mid << 8 | low
}

/// Four channels in one value: `top` from bit 24, then as [`pack3`].
pub open spec fn pack4(top: u32, high: u32, mid: u32, low: u32) -> u32 {
    top << 24 | high << 16 | mid << 8 | low
}

/// Channels that fit in a byte each are packed without loss: the packed
/// value is their weighted sum.
proof fn lemma_pack_bytes(top: u32, high: u32, mid: u32, low: u32)
    requires
        top <= 0xFF,
        high <= 0xFF,
        mid <= 0xFF,
        low <= 0xFF,
    ensures
        pack3(high, mid, low) == high * 0x1_0000 + mid * 0x100 + low,
        pack4(top, high, mid, low) == top * 0x100_0000 + high * 0x1_0000 + mid * 0x100 + low,
{
    assert(high << 16 | mid << 8 | low == high * 0x1_0000 + mid * 0x100 + low) by (bit_vector)
        requires
            high <= 0xFF,
            mid <= 0xFF,
            low <= 0xFF,
    ;
    assert(top << 24 | high << 16 | mid << 8 | low == top * 0x100_0000 + high * 0x1_0000 + mid
        * 0x100 + low) by (bit_vector)
        requires
            top <= 0xFF,
            high <= 0xFF,
            mid <= 0xFF,
            low <= 0xFF,
    ;
}

impl Color {
    /// Every channel of the colour fits in a byte.
    pub open spec fn in_bytes(&self) -> bool {
        match *self {
            Color::Rgb { r, g, b } => r <= 0xFF && g <= 0xFF && b <= 0xFF,
            Color::Rgba { r, g, b, alpha } => r <= 0xFF && g <= 0xFF && b <= 0xFF && alpha <= 0xFF,
            Color::Transparent => true,
        }
    }

    /// The BGR value of a colour whose channels fit in a byte each: the
    /// channels side by side, a byte for each.
    pub open spec fn byte_bgr(&self) -> int {
        match *self {
            Color::Rgb { r, g, b } => b * 0x1_0000 + g * 0x100 + r,
            Color::Rgba { r, g, b, alpha } => b * 0x1_0000 + g * 0x100 + r,
            Color::Transparent => 0,
        }
    }

    /// The ARGB value of a colour whose channels fit in a byte each: the
    /// channels side by side, a byte for each, with full alpha for a colour
    /// that has none.
    pub open spec fn byte_argb(&self) -> int {
        match *self {
            Color::Rgb { r, g, b } => 0xFF * 0x100_0000 + r * 0x1_0000 + g * 0x100 + b,
            Color::Rgba { r, g, b, alpha } => alpha * 0x100_0000 + r * 0x1_0000 + g * 0x100 + b,
            Color::Transparent => 0,
        }
    }

    /// The colour with blue in the most significant bits, then green, then
    /// red.
    pub open spec fn spec_bgr(&self) -> u32 {
        match *self {
            Color::Rgb { r, g, b } => pack3(b, g, r),
            Color::Rgba { r, g, b, alpha } => pack3(b, g, r),
            Color::Transparent => TRANSPARENT_COLOR,
        }
    }

    /// The colour with alpha in the most significant bits, then red, green
    /// and blue. A colour without alpha is opaque.
    pub open spec fn spec_argb(&self) -> u32 {
        match *self {
            Color::Rgb { r, g, b } => pack4(0xFF, r, g, b),
            Color::Rgba { r, g, b, alpha } => pack4(alpha, r, g, b),
            Color::Transparent => TRANSPARENT_COLOR,
        }
    }

    /// Returns the BGR value, where blue is encoded in the most significant
    /// bits, followed by green, and red.
    pub fn bgr(&self) -> (packed: u32)
        ensures
            packed == self.spec_bgr(),
            self.in_bytes() ==> packed == self.byte_bgr(),
    {
        proof {
            match *self {
                Color::Rgb { r, g, b } => {
                    if self.in_bytes() {
                        lemma_pack_bytes(0, b, g, r);
                    }
                },
                Color::Rgba { r, g, b, alpha } => {
                    if self.in_bytes() {
                        lemma_pack_bytes(0, b, g, r);
                    }
                },
                Color::Transparent => {},
            }
        }
        match self {
            Color::Rgb { r, g, b } => *b << 16 | *g << 8 | *r,
            Color::Rgba { r, g, b, alpha: _ } => *b << 16 | *g << 8 | *r,
            Color::Transparent => TRANSPARENT_COLOR,
        }
    }

    /// Returns the ARGB value, where alpha is encoded in the most significant
    /// bits, followed by red, green, and blue.
    pub fn argb(&self) -> (packed: u32)
        ensures
            packed == self.spec_argb(),
            self.in_bytes() ==> packed == self.byte_argb(),
    {
        proof {
            match *self {
                Color::Rgb { r, g, b } => {
                    if self.in_bytes() {
                        lemma_pack_bytes(0xFF, r, g, b);
                    }
                },
                Color::Rgba { r, g, b, alpha } => {
                    if self.in_bytes() {
                        lemma_pack_bytes(alpha, r, g, b);
                    }
                },
                Color::Transparent => {},
            }
        }
        match self {
            Color::Rgb { r, g, b } => 0xFFu32 << 24 | *r << 16 | *g << 8 | *b,
            Color::Rgba { r, g, b, alpha } => *alpha << 24 | *r << 16 | *g << 8 | *b,
            Color::Transparent => TRANSPARENT_COLOR,
        }
    }

    /// Returns the colour as the single value that a pen or a brush takes:
    /// blue in the most significant bits, followed by green, and red.
    pub fn to_single_rgb(&self) -> (packed: u32)
        ensures
            packed == self.spec_bgr(),
            self.in_bytes() ==> packed == self.byte_bgr(),
    {
        self.bgr()
    }
}

} // verus!
