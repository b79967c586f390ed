//! The 3-channel, 8-bit color value that behaviors produce.

use vstd::prelude::*;

verus! {

/// An RGB color with one byte per channel.
#[derive(Clone, Copy, Debug, PartialEq, Eq, Structural)]
pub struct Rgb8 {
    /// Red channel.
    pub r: u8,
    /// Green channel.
    pub g: u8,
    /// Blue channel.
    pub b: u8,
}

impl Rgb8 {
    /// The color with the given channel values.
    pub fn new(r: u8, g: u8, b: u8) -> (c: Rgb8)
        ensures
            c == (Rgb8 { r, g, b }),
    {
        Rgb8 { r, g, b }
    }

    /// All channels off.
    pub fn black() -> (c: Rgb8)
        ensures
            c == spec_black(),
    {
        Rgb8 { r: 0, g: 0, b: 0 }
    }

    /// All channels at full brightness.
    pub fn white() -> (c: Rgb8)
        ensures
            c == spec_white(),
    {
        Rgb8 { r: 255, g: 255, b: 255 }
    }
}

/// The color with all channels off.
pub open spec fn spec_black() -> Rgb8 {
    Rgb8 { r: 0, g: 0, b: 0 }
}

/// The color with all channels at full brightness.
pub open spec fn spec_white() -> Rgb8 {
    Rgb8 { r: 255, g: 255, b: 255 }
}

} // verus!
