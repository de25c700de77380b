//! Colors with four 8-bit channels in sRGB space.

use vstd::prelude::*;
use vstd::string::StringExecFns;
use crate::strfmt::{dec_str, hex_str_fixed, u32_to_hex_fixed, u64_to_dec};

verus! {

/// A color with 8-bit red, green, blue and alpha channels, in sRGB
/// space.
#[derive(Debug, Clone, Copy, PartialEq, Eq, Structural, Hash)]
pub struct Color {
    pub r: u8,
    pub g: u8,
    pub b: u8,
    pub a: u8,
}

/// The text form of a color: its channels in decimal, then the same
/// channels as eight hexadecimal digits.
pub open spec fn color_display_str(c: Color) -> Seq<char> {
    "Color(R="@ + dec_str(c.r as nat) + ", G="@ + dec_str(c.g as nat) + ", B="@ + dec_str(
        c.b as nat,
    ) + ", A="@ + dec_str(c.a as nat) + ") [#"@ + hex_str_fixed(c.r as nat, 2) + hex_str_fixed(
        c.g as nat,
        2,
    ) + hex_str_fixed(c.b as nat, 2) + hex_str_fixed(c.a as nat, 2) + "]"@
}

impl Color {
    /// Create a color from all four channels.
    pub fn new(r: u8, g: u8, b: u8, a: u8) -> (c: Self)
        ensures
            c == (Color { r, g, b, a }),
    {
        Self { r, g, b, a }
    }

    /// Create an opaque color from its red, green and blue channels.
    pub fn rgb(r: u8, g: u8, b: u8) -> (c: Self)
        ensures
            c == (Color { r, g, b, a: 255u8 }),
    {
        Self { r, g, b, a: 255 }
    }

    /// Create an opaque gray with the given brightness.
    pub fn gray(value: u8) -> (c: Self)
        ensures
            c == (Color { r: value, g: value, b: value, a: 255u8 }),
    {
        Self { r: value, g: value, b: value, a: 255 }
    }

    /// Pure opaque red.
    pub fn red() -> (c: Self)
        ensures
            c == (Color { r: 255u8, g: 0u8, b: 0u8, a: 255u8 }),
    {
        Self { r: 255, g: 0, b: 0, a: 255 }
    }

    /// Pure opaque white.
    pub fn white() -> (c: Self)
        ensures
            c == (Color { r: 255u8, g: 255u8, b: 255u8, a: 255u8 }),
    {
        Self { r: 255, g: 255, b: 255, a: 255 }
    }

    /// Pure opaque black.
    pub fn black() -> (c: Self)
        ensures
            c == (Color { r: 0u8, g: 0u8, b: 0u8, a: 255u8 }),
    {
        Self { r: 0, g: 0, b: 0, a: 255 }
    }

    /// An opaque color from a `0xRRGGBB` value; bits above the low 24
    /// are ignored.
    pub fn from_hex(hex: u32) -> (c: Self)
        ensures
            c.r == (hex >> 16) & 0xFF,
            c.g == (hex >> 8) & 0xFF,
            c.b == hex & 0xFF,
            c.a == 255,
    {
        proof {
            assert(forall|h: u32, k: u32| k < 32 ==> #[trigger] ((h >> k) & 0xFF) <= 0xFF) by (
            bit_vector);
            assert(forall|h: u32| #[trigger] (h & 0xFF) <= 0xFF) by (bit_vector);
        }
        Self {
            r: ((hex >> 16) & 0xFF) as u8,
            g: ((hex >> 8) & 0xFF) as u8,
            b: (hex & 0xFF) as u8,
            a: 255,
        }
    }

    /// A color from a `0xRRGGBBAA` value.
    pub fn from_hex_rgba(hex: u32) -> (c: Self)
        ensures
            c.r == (hex >> 24) & 0xFF,
            c.g == (hex >> 16) & 0xFF,
            c.b == (hex >> 8) & 0xFF,
            c.a == hex & 0xFF,
    {
        proof {
            assert(forall|h: u32, k: u32| k < 32 ==> #[trigger] ((h >> k) & 0xFF) <= 0xFF) by (
            bit_vector);
            assert(forall|h: u32| #[trigger] (h & 0xFF) <= 0xFF) by (bit_vector);
        }
        Self {
            r: ((hex >> 24) & 0xFF) as u8,
            g: ((hex >> 16) & 0xFF) as u8,
            b: ((hex >> 8) & 0xFF) as u8,
            a: (hex & 0xFF) as u8,
        }
    }

    /// The `0xRRGGBB` value of the color, without its alpha channel.
    pub fn to_hex(self) -> (hex: u32)
        ensures
            hex == ((self.r as u32) << 16) | ((self.g as u32) << 8) | (self.b as u32),
    {
        ((self.r as u32) << 16) | ((self.g as u32) << 8) | (self.b as u32)
    }

    /// The `0xRRGGBBAA` value of the color.
    pub fn to_hex_rgba(self) -> (hex: u32)
        ensures
            hex == ((self.r as u32) << 24) | ((self.g as u32) << 16) | ((self.b as u32) << 8) | (
            self.a as u32),
    {
        ((self.r as u32) << 24) | ((self.g as u32) << 16) | ((self.b as u32) << 8) | (self.a as u32)
    }

    /// Renders the color as its channels in decimal followed by the
    /// same channels in hexadecimal.
    pub fn to_display_string(&self) -> (s: String)
        ensures
            s@ == color_display_str(*self),
    {
        let mut s: String = "Color(R=".to_owned();
        s.append(u64_to_dec(self.r as u64).as_str());
        s.append(", G=");
        s.append(u64_to_dec(self.g as u64).as_str());
        s.append(", B=");
        s.append(u64_to_dec(self.b as u64).as_str());
        s.append(", A=");
        s.append(u64_to_dec(self.a as u64).as_str());
        s.append(") [#");
        s.append(u32_to_hex_fixed(self.r as u32, 2).as_str());
        s.append(u32_to_hex_fixed(self.g as u32, 2).as_str());
        s.append(u32_to_hex_fixed(self.b as u32, 2).as_str());
        s.append(u32_to_hex_fixed(self.a as u32, 2).as_str());
        s.append("]");
        proof {
            assert(s@ =~= color_display_str(*self));
        }
        s
    }
}

/// Packing three channels as `to_hex` does and unpacking them as
/// `from_hex` does gives the channels back: the two are inverses on
/// opaque colors.
pub proof fn lemma_hex_round_trip(r: u8, g: u8, b: u8)
    ensures
        ((((r as u32) << 16) | ((g as u32) << 8) | (b as u32)) >> 16) & 0xFF == r,
        ((((r as u32) << 16) | ((g as u32) << 8) | (b as u32)) >> 8) & 0xFF == g,
        (((r as u32) << 16) | ((g as u32) << 8) | (b as u32)) & 0xFF == b,
{
    assert(((((r as u32) << 16) | ((g as u32) << 8) | (b as u32)) >> 16) & 0xFF == r && ((((r
        as u32) << 16) | ((g as u32) << 8) | (b as u32)) >> 8) & 0xFF == g && ((((r as u32) << 16)
        | ((g as u32) << 8) | (b as u32)) & 0xFF) == b) by (bit_vector);
}

} // verus!
