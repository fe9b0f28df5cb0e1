//! Colors, and their packed form in the configuration.
use vstd::prelude::*;

verus! {

/// A color with 8-bit red, green, blue and alpha channels.
#[derive(Clone, Copy, Debug, PartialEq, Eq, Structural)]
pub struct Color {
    pub r: u8,
    pub g: u8,
    pub b: u8,
    pub a: u8,
}

impl Color {
    /// The color that a packed `0xRRGGBB` value stands for: always opaque.
    pub open spec fn from_packed_spec(v: u32) -> Color {
        Color {
            r: ((v / 0x10000) % 0x100) as u8,
            g: ((v / 0x100) % 0x100) as u8,
            b: (v % 0x100) as u8,
            a: 0xff,
        }
    }

    /// The packed `0xRRGGBB` value of a color; the alpha channel is not kept.
    pub open spec fn packed_spec(self) -> u32 {
        (self.r * 0x10000 + self.g * 0x100 + self.b) as u32
    }

    /// An opaque color.
    pub fn solid_color(r: u8, g: u8, b: u8) -> (c: Color)
        ensures
            c == (Color { r, g, b, a: 0xff }),
    {
        Color { r, g, b, a: 0xff }
    }

    /// Fully transparent black.
    pub fn transparent() -> (c: Color)
        ensures
            c == (Color { r: 0, g: 0, b: 0, a: 0 }),
    {
        Color { r: 0, g: 0, b: 0, a: 0 }
    }

    /// The color of a packed `0xRRGGBB` value; the top byte is ignored.
    pub fn from_packed(v: u32) -> (c: Color)
        ensures
            c == Color::from_packed_spec(v),
    {
        Color::solid_color(((v / 0x10000) % 0x100) as u8, ((v / 0x100) % 0x100) as u8, (v % 0x100) as u8)
    }

    /// The packed `0xRRGGBB` value of this color.
    pub fn packed(&self) -> (v: u32)
        ensures
            v == self.packed_spec(),
    {
        self.r as u32 * 0x10000 + self.g as u32 * 0x100 + self.b as u32
    }

    /// The four channels, red first.
    pub fn values(&self) -> (v: (u8, u8, u8, u8))
        ensures
            v == (self.r, self.g, self.b, self.a),
    {
        (self.r, self.g, self.b, self.a)
    }
}

/// Packing the color of a packed value gives that value back, for every value
/// that fits in 24 bits.
pub proof fn lemma_packed_round_trip(v: u32)
    requires
        v < 0x1000000,
    ensures
        Color::from_packed_spec(v).packed_spec() == v,
{
}

/// Unpacking the packed value of an opaque color gives that color back.
pub proof fn lemma_color_round_trip(c: Color)
    requires
        c.a == 0xff,
    ensures
        Color::from_packed_spec(c.packed_spec()) == c,
{
}

} // verus!
