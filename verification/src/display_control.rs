//! The display control word.
//!
//! A 16-bit bit-packed record. The video-mode field occupies the three
//! lowest bits; its legal values are 0 through 5. An update rejects an
//! out-of-range mode and leaves every bit outside the field untouched.

use vstd::prelude::*;

use crate::voladdress::RegisterValue;

verus! {

/// The display control word: a 16-bit register value whose low three bits
/// select the video mode.
#[derive(Clone, Copy)]
pub struct DisplayControl(u16);

impl DisplayControl {
    /// The video-mode field of the raw word: the low three bits.
    pub open spec fn spec_video_mode(self) -> u16 {
        self.spec_bits() & 0b111
    }

    /// A word with every field zeroed: video mode 0, everything disabled.
    pub fn new() -> (r: Self)
        ensures
            r.spec_bits() == 0,
    {
        DisplayControl(0)
    }

    /// Reads the video-mode field, right-justified.
    pub fn video_mode(self) -> (r: u16)
        ensures
            r == self.spec_video_mode(),
            r < 8,
    {
        proof {
            let b = self.0;
            assert(b & 0b111 < 8) by (bit_vector);
        }
        self.0 & 0b111
    }

    /// Replaces the video-mode field with `mode`, which must be a legal
    /// mode (below 6). Every bit outside the field keeps its value.
    pub fn with_video_mode(self, mode: u16) -> (r: Self)
        requires
            mode < 6,
        ensures
            r.spec_bits() == (self.spec_bits() & !0b111) | mode,
            r.spec_video_mode() == mode,
            r.spec_bits() >> 3 == self.spec_bits() >> 3,
    {
        let r = DisplayControl((self.0 & !0b111) | mode);
        proof {
            let b = self.0;
            let m = mode;
            assert(((b & !0b111) | m) & 0b111 == m) by (bit_vector)
                requires
                    m < 6,
            ;
            assert(((b & !0b111) | m) >> 3 == b >> 3) by (bit_vector)
                requires
                    m < 6,
            ;
        }
        r
    }

    /// Replaces the video-mode field if `mode` is legal; rejects any other
    /// mode and gives nothing back.
    pub fn try_with_video_mode(self, mode: u16) -> (r: Option<Self>)
        ensures
            r is Some <==> mode < 6,
            r matches Some(v) ==> v.spec_bits() == (self.spec_bits() & !0b111) | mode,
            r matches Some(v) ==> v.spec_video_mode() == mode,
            r matches Some(v) ==> v.spec_bits() >> 3 == self.spec_bits() >> 3,
    {
        if mode < 6 {
            Some(self.with_video_mode(mode))
        } else {
            None
        }
    }
}

impl Default for DisplayControl {
    /// Same word as [`DisplayControl::new`]: all fields zeroed.
    fn default() -> (r: Self)
        ensures
            r.spec_bits() == 0,
    {
        DisplayControl(0)
    }
}

impl RegisterValue for DisplayControl {
    closed spec fn spec_bits(self) -> u16 {
        self.0
    }

    fn to_bits(self) -> (r: u16) {
        self.0
    }

    fn from_bits(bits: u16) -> (r: Self) {
        DisplayControl(bits)
    }
}

} // verus!
