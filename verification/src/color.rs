use vstd::prelude::*;

verus! {

/// A 24-bit RGB colour.
#[derive(Clone, Copy, Debug, PartialEq, Eq, Structural)]
pub struct Color {
    pub r: u8,
    pub g: u8,
    pub b: u8,
}

/// The packed `0xRRGGBB` value of a colour.
pub open spec fn spec_hex(c: Color) -> int {
    c.r * 65536 + c.g * 256 + c.b
}

/// The colour whose packed value is the low 24 bits of `hex`.
pub open spec fn spec_from_hex(hex: u32) -> Color {
    Color { r: ((hex / 65536) % 256) as u8, g: ((hex / 256) % 256) as u8, b: (hex % 256) as u8 }
}

/// Opaque white, the colour a texture gives where it has no texel.
pub open spec fn white() -> Color {
    Color { r: 255, g: 255, b: 255 }
}

impl Color {
    pub fn new(r: u8, g: u8, b: u8) -> (c: Color)
        ensures
            c == (Color { r, g, b }),
    {
        Color { r, g, b }
    }

    /// Packs the colour as `0xRRGGBB`, the pixel format of the window buffer.
    pub fn to_hex(&self) -> (hex: u32)
        ensures
            hex == spec_hex(*self),
            hex < 0x100_0000,
    {
        let r = self.r;
        let g = self.g;
        let b = self.b;
        let hex: u32 = ((r as u32) << 16u32) | ((g as u32) << 8u32) | (b as u32);
        assert(((r as u32) << 16u32) | ((g as u32) << 8u32) | (b as u32) == r * 65536 + g * 256 + b)
            by (bit_vector);
        hex
    }

    /// Unpacks `0xRRGGBB`; bits above the lowest 24 are ignored.
    pub fn from_hex(hex: u32) -> (c: Color)
        ensures
            c == spec_from_hex(hex),
    {
        let r = ((hex >> 16u32) & 0xFFu32) as u8;
        let g = ((hex >> 8u32) & 0xFFu32) as u8;
        let b = (hex & 0xFFu32) as u8;
        assert(((hex >> 16u32) & 0xFFu32) == (hex / 65536) % 256) by (bit_vector);
        assert(((hex >> 8u32) & 0xFFu32) == (hex / 256) % 256) by (bit_vector);
        assert((hex & 0xFFu32) == hex % 256) by (bit_vector);
        Color { r, g, b }
    }
}

/// Packing a colour and unpacking it again gives the colour back.
pub proof fn lemma_hex_round_trip(c: Color)
    ensures
        spec_from_hex(spec_hex(c) as u32) == c,
{
    let h = spec_hex(c);
    assert(0 <= h < 0x100_0000);
    assert(h / 65536 == c.r as int);
    assert((h / 256) % 256 == c.g as int);
    assert(h % 256 == c.b as int);
}

/// The packed value holds red in bits 16 to 23, green in bits 8 to 15 and
/// blue in bits 0 to 7.
pub proof fn lemma_hex_channels(c: Color)
    ensures
        0 <= spec_hex(c) < 0x100_0000,
        spec_hex(c) / 65536 == c.r,
        (spec_hex(c) / 256) % 256 == c.g,
        spec_hex(c) % 256 == c.b,
{
}

/// Unpacking a value and packing the colour again keeps its low 24 bits.
pub proof fn lemma_from_hex_round_trip(hex: u32)
    ensures
        spec_hex(spec_from_hex(hex)) == hex % 0x100_0000,
{
    let c = spec_from_hex(hex);
    assert(c.r * 65536 + c.g * 256 + c.b == hex % 0x100_0000) by (nonlinear_arith)
        requires
            c.r == (hex / 65536) % 256,
            c.g == (hex / 256) % 256,
            c.b == hex % 256,
    ;
}

} // verus!
