//! Color layouts of a pixel word. A strip type fixes at which bit offset the
//! red, green and blue bytes of one LED sit inside its 32-bit pixel word; the
//! hardware layer consumes the packed words directly, so the mapping must be
//! exact. The numeric code of each layout carries the three shift amounts in
//! its own bytes (white, red, green, blue, from the most significant byte
//! down), which is the encoding the strip protocol tables use.

use vstd::prelude::*;

verus! {

/// The six supported byte orderings of red, green and blue inside a pixel
/// word.
#[derive(Clone, Copy, Debug, PartialEq, Eq, Structural)]
pub enum StripType {
    /// Layout code 0x0010_0800: red at bit 16, green at bit 8, blue at bit 0.
    Rgb,
    /// Layout code 0x0010_0008: red at bit 16, green at bit 0, blue at bit 8.
    Rbg,
    /// Layout code 0x0008_1000: red at bit 8, green at bit 16, blue at bit 0.
    Grb,
    /// Layout code 0x0008_0010: red at bit 8, green at bit 0, blue at bit 16.
    Gbr,
    /// Layout code 0x0000_1008: red at bit 0, green at bit 16, blue at bit 8.
    Brg,
    /// Layout code 0x0000_0810: red at bit 0, green at bit 8, blue at bit 16.
    Bgr,
}

impl StripType {
    /// The numeric layout code of the strip type.
    pub open spec fn spec_code(self) -> u32 {
        match self {
            StripType::Rgb => 0x0010_0800,
            StripType::Rbg => 0x0010_0008,
            StripType::Grb => 0x0008_1000,
            StripType::Gbr => 0x0008_0010,
            StripType::Brg => 0x0000_1008,
            StripType::Bgr => 0x0000_0810,
        }
    }

    /// Returns the numeric layout code of the strip type.
    pub fn code(&self) -> (c: u32)
        ensures
            c == self.spec_code(),
    {
        match self {
            StripType::Rgb => 0x0010_0800,
            StripType::Rbg => 0x0010_0008,
            StripType::Grb => 0x0008_1000,
            StripType::Gbr => 0x0008_0010,
            StripType::Brg => 0x0000_1008,
            StripType::Bgr => 0x0000_0810,
        }
    }

    /// Bit offset of the red byte inside a pixel word.
    pub open spec fn spec_red_shift(self) -> u32 {
        match self {
            StripType::Rgb => 16,
            StripType::Rbg => 16,
            StripType::Grb => 8,
            StripType::Gbr => 8,
            StripType::Brg => 0,
            StripType::Bgr => 0,
        }
    }

    /// Bit offset of the green byte inside a pixel word.
    pub open spec fn spec_green_shift(self) -> u32 {
        match self {
            StripType::Rgb => 8,
            StripType::Rbg => 0,
            StripType::Grb => 16,
            StripType::Gbr => 0,
            StripType::Brg => 16,
            StripType::Bgr => 8,
        }
    }

    /// Bit offset of the blue byte inside a pixel word.
    pub open spec fn spec_blue_shift(self) -> u32 {
        match self {
            StripType::Rgb => 0,
            StripType::Rbg => 8,
            StripType::Grb => 0,
            StripType::Gbr => 16,
            StripType::Brg => 8,
            StripType::Bgr => 16,
        }
    }

    /// Returns the bit offset of the red byte inside a pixel word.
    pub fn red_shift(&self) -> (s: u32)
        ensures
            s == self.spec_red_shift(),
            s < 32,
    {
        match self {
            StripType::Rgb => 16,
            StripType::Rbg => 16,
            StripType::Grb => 8,
            StripType::Gbr => 8,
            StripType::Brg => 0,
            StripType::Bgr => 0,
        }
    }

    /// Returns the bit offset of the green byte inside a pixel word.
    pub fn green_shift(&self) -> (s: u32)
        ensures
            s == self.spec_green_shift(),
            s < 32,
    {
        match self {
            StripType::Rgb => 8,
            StripType::Rbg => 0,
            StripType::Grb => 16,
            StripType::Gbr => 0,
            StripType::Brg => 16,
            StripType::Bgr => 8,
        }
    }

    /// Returns the bit offset of the blue byte inside a pixel word.
    pub fn blue_shift(&self) -> (s: u32)
        ensures
            s == self.spec_blue_shift(),
            s < 32,
    {
        match self {
            StripType::Rgb => 0,
            StripType::Rbg => 8,
            StripType::Grb => 0,
            StripType::Gbr => 16,
            StripType::Brg => 8,
            StripType::Bgr => 16,
        }
    }

    /// The pixel word that carries the given red, green and blue bytes under
    /// this layout.
    pub open spec fn spec_pack(self, red: u8, green: u8, blue: u8) -> u32 {
        ((red as u32) << self.spec_red_shift()) | ((green as u32) << self.spec_green_shift()) | (
        (blue as u32) << self.spec_blue_shift())
    }

    /// Packs a red, green and blue byte into one pixel word under this layout.
    pub fn pack(&self, red: u8, green: u8, blue: u8) -> (w: u32)
        ensures
            w == self.spec_pack(red, green, blue),
    {
        ((red as u32) << self.red_shift()) | ((green as u32) << self.green_shift()) | ((blue
            as u32) << self.blue_shift())
    }

    /// The red byte of a pixel word under this layout.
    pub open spec fn spec_red_of(self, w: u32) -> u8 {
        ((w >> self.spec_red_shift()) & 0xff) as u8
    }

    /// The green byte of a pixel word under this layout.
    pub open spec fn spec_green_of(self, w: u32) -> u8 {
        ((w >> self.spec_green_shift()) & 0xff) as u8
    }

    /// The blue byte of a pixel word under this layout.
    pub open spec fn spec_blue_of(self, w: u32) -> u8 {
        ((w >> self.spec_blue_shift()) & 0xff) as u8
    }

    /// Reads the red byte back out of a pixel word under this layout.
    pub fn red_of(&self, w: u32) -> (b: u8)
        ensures
            b == self.spec_red_of(w),
    {
        ((w >> self.red_shift()) & 0xff) as u8
    }

    /// Reads the green byte back out of a pixel word under this layout.
    pub fn green_of(&self, w: u32) -> (b: u8)
        ensures
            b == self.spec_green_of(w),
    {
        ((w >> self.green_shift()) & 0xff) as u8
    }

    /// Reads the blue byte back out of a pixel word under this layout.
    pub fn blue_of(&self, w: u32) -> (b: u8)
        ensures
            b == self.spec_blue_of(w),
    {
        ((w >> self.blue_shift()) & 0xff) as u8
    }
}

/// Law: under every layout, the three shift amounts are exactly the red,
/// green and blue bytes of the layout's own numeric code, so the packing here
/// agrees bit for bit with a consumer that derives its shifts from the code.
pub proof fn lemma_shifts_match_code(s: StripType)
    ensures
        s.spec_red_shift() == (s.spec_code() >> 16) & 0xff,
        s.spec_green_shift() == (s.spec_code() >> 8) & 0xff,
        s.spec_blue_shift() == s.spec_code() & 0xff,
{
    match s {
        StripType::Rgb => {
            assert((0x0010_0800u32 >> 16) & 0xff == 16 && (0x0010_0800u32 >> 8) & 0xff == 8
                && 0x0010_0800u32 & 0xff == 0) by (bit_vector);
        },
        StripType::Rbg => {
            assert((0x0010_0008u32 >> 16) & 0xff == 16 && (0x0010_0008u32 >> 8) & 0xff == 0
                && 0x0010_0008u32 & 0xff == 8) by (bit_vector);
        },
        StripType::Grb => {
            assert((0x0008_1000u32 >> 16) & 0xff == 8 && (0x0008_1000u32 >> 8) & 0xff == 16
                && 0x0008_1000u32 & 0xff == 0) by (bit_vector);
        },
        StripType::Gbr => {
            assert((0x0008_0010u32 >> 16) & 0xff == 8 && (0x0008_0010u32 >> 8) & 0xff == 0
                && 0x0008_0010u32 & 0xff == 16) by (bit_vector);
        },
        StripType::Brg => {
            assert((0x0000_1008u32 >> 16) & 0xff == 0 && (0x0000_1008u32 >> 8) & 0xff == 16
                && 0x0000_1008u32 & 0xff == 8) by (bit_vector);
        },
        StripType::Bgr => {
            assert((0x0000_0810u32 >> 16) & 0xff == 0 && (0x0000_0810u32 >> 8) & 0xff == 8
                && 0x0000_0810u32 & 0xff == 16) by (bit_vector);
        },
    }
}

/// Law: packing a red, green and blue triplet into a pixel word and reading
/// it back through the same layout yields the original triplet, for every
/// layout and every triplet.
pub proof fn lemma_pack_round_trip(s: StripType, red: u8, green: u8, blue: u8)
    ensures
        s.spec_red_of(s.spec_pack(red, green, blue)) == red,
        s.spec_green_of(s.spec_pack(red, green, blue)) == green,
        s.spec_blue_of(s.spec_pack(red, green, blue)) == blue,
{
    let r = red;
    let g = green;
    let b = blue;
    match s {
        StripType::Rgb => {
            assert((((((r as u32) << 16) | ((g as u32) << 8) | ((b as u32) << 0)) >> 16) & 0xff)
                as u8 == r && (((((r as u32) << 16) | ((g as u32) << 8) | ((b as u32) << 0)) >> 8)
                & 0xff) as u8 == g && (((((r as u32) << 16) | ((g as u32) << 8) | ((b as u32) << 0))
                >> 0) & 0xff) as u8 == b) by (bit_vector);
        },
        StripType::Rbg => {
            assert((((((r as u32) << 16) | ((g as u32) << 0) | ((b as u32) << 8)) >> 16) & 0xff)
                as u8 == r && (((((r as u32) << 16) | ((g as u32) << 0) | ((b as u32) << 8)) >> 0)
                & 0xff) as u8 == g && (((((r as u32) << 16) | ((g as u32) << 0) | ((b as u32) << 8))
                >> 8) & 0xff) as u8 == b) by (bit_vector);
        },
        StripType::Grb => {
            assert((((((r as u32) << 8) | ((g as u32) << 16) | ((b as u32) << 0)) >> 8) & 0xff)
                as u8 == r && (((((r as u32) << 8) | ((g as u32) << 16) | ((b as u32) << 0)) >> 16)
                & 0xff) as u8 == g && (((((r as u32) << 8) | ((g as u32) << 16) | ((b as u32) << 0))
                >> 0) & 0xff) as u8 == b) by (bit_vector);
        },
        StripType::Gbr => {
            assert((((((r as u32) << 8) | ((g as u32) << 0) | ((b as u32) << 16)) >> 8) & 0xff)
                as u8 == r && (((((r as u32) << 8) | ((g as u32) << 0) | ((b as u32) << 16)) >> 0)
                & 0xff) as u8 == g && (((((r as u32) << 8) | ((g as u32) << 0) | ((b as u32) << 16))
                >> 16) & 0xff) as u8 == b) by (bit_vector);
        },
        StripType::Brg => {
            assert((((((r as u32) << 0) | ((g as u32) << 16) | ((b as u32) << 8)) >> 0) & 0xff)
                as u8 == r && (((((r as u32) << 0) | ((g as u32) << 16) | ((b as u32) << 8)) >> 16)
                & 0xff) as u8 == g && (((((r as u32) << 0) | ((g as u32) << 16) | ((b as u32) << 8))
                >> 8) & 0xff) as u8 == b) by (bit_vector);
        },
        StripType::Bgr => {
            assert((((((r as u32) << 0) | ((g as u32) << 8) | ((b as u32) << 16)) >> 0) & 0xff)
                as u8 == r && (((((r as u32) << 0) | ((g as u32) << 8) | ((b as u32) << 16)) >> 8)
                & 0xff) as u8 == g && (((((r as u32) << 0) | ((g as u32) << 8) | ((b as u32) << 16))
                >> 16) & 0xff) as u8 == b) by (bit_vector);
        },
    }
}

} // verus!
