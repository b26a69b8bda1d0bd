//! The backdrop color value.
//!
//! A 16-bit bit-packed record with three five-bit channels: red in bits
//! 0 through 4, green in bits 5 through 9, blue in bits 10 through 14. Each
//! channel's legal values are 0 through 31; an update rejects anything
//! larger and leaves the other channels and the top bit untouched.

use vstd::prelude::*;

use crate::voladdress::RegisterValue;

verus! {

/// A color value: three five-bit channels packed into one 16-bit word.
#[derive(Clone, Copy)]
pub struct Color(u16);

impl Color {
    /// The red channel of the raw word: bits 0 through 4.
    pub open spec fn spec_red(self) -> u16 {
        self.spec_bits() & 0x1F
    }

    /// The green channel of the raw word: bits 5 through 9.
    pub open spec fn spec_green(self) -> u16 {
        (self.spec_bits() >> 5) & 0x1F
    }

    /// The blue channel of the raw word: bits 10 through 14.
    pub open spec fn spec_blue(self) -> u16 {
        (self.spec_bits() >> 10) & 0x1F
    }

    /// Black: every channel zero.
    pub fn new() -> (r: Self)
        ensures
            r.spec_bits() == 0,
    {
        Color(0)
    }

    /// Reads the red channel, right-justified.
    pub fn red(self) -> (r: u16)
        ensures
            r == self.spec_red(),
            r < 32,
    {
        proof {
            let b = self.0;
            assert(b & 0x1F < 32) by (bit_vector);
        }
        self.0 & 0x1F
    }

    /// Reads the green channel, right-justified.
    pub fn green(self) -> (r: u16)
        ensures
            r == self.spec_green(),
            r < 32,
    {
        proof {
            let b = self.0;
            assert((b >> 5) & 0x1F < 32) by (bit_vector);
        }
        (self.0 >> 5) & 0x1F
    }

    /// Reads the blue channel, right-justified.
    pub fn blue(self) -> (r: u16)
        ensures
            r == self.spec_blue(),
            r < 32,
    {
        proof {
            let b = self.0;
            assert((b >> 10) & 0x1F < 32) by (bit_vector);
        }
        (self.0 >> 10) & 0x1F
    }

    /// Replaces the red channel with `level`, which must fit in five bits.
    /// The other channels and the top bit keep their values.
    pub fn with_red(self, level: u16) -> (r: Self)
        requires
            level < 32,
        ensures
            r.spec_red() == level,
            r.spec_green() == self.spec_green(),
            r.spec_blue() == self.spec_blue(),
            r.spec_bits() >> 15 == self.spec_bits() >> 15,
    {
        let r = Color((self.0 & !0x1F) | level);
        proof {
            let b = self.0;
            let v = level;
            assert(((b & !0x1F) | v) & 0x1F == v && (((b & !0x1F) | v) >> 5) & 0x1F == (b >> 5)
                & 0x1F && (((b & !0x1F) | v) >> 10) & 0x1F == (b >> 10) & 0x1F && ((b & !0x1F) | v)
                >> 15 == b >> 15) by (bit_vector)
                requires
                    v < 32,
            ;
        }
        r
    }

    /// Replaces the green channel with `level`, which must fit in five
    /// bits. The other channels and the top bit keep their values.
    pub fn with_green(self, level: u16) -> (r: Self)
        requires
            level < 32,
        ensures
            r.spec_green() == level,
            r.spec_red() == self.spec_red(),
            r.spec_blue() == self.spec_blue(),
            r.spec_bits() >> 15 == self.spec_bits() >> 15,
    {
        let r = Color((self.0 & !0x03E0) | (level << 5));
        proof {
            let b = self.0;
            let v = level;
            assert((((b & !0x03E0) | (v << 5)) >> 5) & 0x1F == v && ((b & !0x03E0) | (v << 5))
                & 0x1F == b & 0x1F && (((b & !0x03E0) | (v << 5)) >> 10) & 0x1F == (b >> 10) & 0x1F
                && ((b & !0x03E0) | (v << 5)) >> 15 == b >> 15) by (bit_vector)
                requires
                    v < 32,
            ;
        }
        r
    }

    /// Replaces the blue channel with `level`, which must fit in five bits.
    /// The other channels and the top bit keep their values.
    pub fn with_blue(self, level: u16) -> (r: Self)
        requires
            level < 32,
        ensures
            r.spec_blue() == level,
            r.spec_red() == self.spec_red(),
            r.spec_green() == self.spec_green(),
            r.spec_bits() >> 15 == self.spec_bits() >> 15,
    {
        let r = Color((self.0 & !0x7C00) | (level << 10));
        proof {
            let b = self.0;
            let v = level;
            assert((((b & !0x7C00) | (v << 10)) >> 10) & 0x1F == v && ((b & !0x7C00) | (v << 10))
                & 0x1F == b & 0x1F && (((b & !0x7C00) | (v << 10)) >> 5) & 0x1F == (b >> 5) & 0x1F
                && ((b & !0x7C00) | (v << 10)) >> 15 == b >> 15) by (bit_vector)
                requires
                    v < 32,
            ;
        }
        r
    }
}

impl Default for Color {
    /// Same value as [`Color::new`]: black.
    fn default() -> (r: Self)
        ensures
            r.spec_bits() == 0,
    {
        Color(0)
    }
}

impl RegisterValue for Color {
    closed spec fn spec_bits(self) -> u16 {
        self.0
    }

    fn to_bits(self) -> (r: u16) {
        self.0
    }

    fn from_bits(bits: u16) -> (r: Self) {
        Color(bits)
    }
}

} // verus!
