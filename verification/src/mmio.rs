//! The register table: the closed set of named register bindings.
//!
//! Each binding pairs a fixed physical address with a value type and a
//! capability pair matching real hardware behaviour. Both registers here
//! are two bytes wide and both directions are permitted on them.

use vstd::prelude::*;

use crate::color::Color;
use crate::display_control::DisplayControl;
use crate::voladdress::Safe;
use crate::voladdress::VolAddress;

verus! {

/// The fixed physical address of the display control register.
pub const DISPCNT_ADDR: usize = 0x0400_0000;

/// The fixed physical address of the backdrop color register.
pub const BACKDROP_COLOR_ADDR: usize = 0x0500_0000;

/// The display control register: readable and writable.
pub fn dispcnt() -> (r: VolAddress<DisplayControl, Safe, Safe>)
    ensures
        r.spec_addr() == DISPCNT_ADDR,
{
    VolAddress::new(DISPCNT_ADDR)
}

/// The backdrop color register: readable and writable.
pub fn backdrop_color() -> (r: VolAddress<Color, Safe, Safe>)
    ensures
        r.spec_addr() == BACKDROP_COLOR_ADDR,
{
    VolAddress::new(BACKDROP_COLOR_ADDR)
}

} // verus!
