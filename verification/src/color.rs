//! Colours.

use vstd::prelude::*;

verus! {

/// An RGBA color with 8-bit channels.
#[derive(Debug, Clone, Copy, PartialEq, Eq, Structural)]
pub struct Color {
    /// Red channel.
    pub r: u8,
    /// Green channel.
    pub g: u8,
    /// Blue channel.
    pub b: u8,
    /// Alpha channel.
    pub a: u8,
}

impl Color {
    /// An opaque color.
    pub fn from_rgb(r: u8, g: u8, b: u8) -> (c: Color)
        ensures c.r == r, c.g == g, c.b == b, c.a == 255,
    {
        Color { r, g, b, a: 255 }
    }

    /// A color with an alpha channel.
    pub fn from_rgba(r: u8, g: u8, b: u8, a: u8) -> (c: Color)
        ensures c.r == r, c.g == g, c.b == b, c.a == a,
    {
        Color { r, g, b, a }
    }

    /// The same color with another alpha channel.
    pub fn with_alpha(self, a: u8) -> (c: Color)
        ensures c.r == self.r, c.g == self.g, c.b == self.b, c.a == a,
    {
        Color { r: self.r, g: self.g, b: self.b, a }
    }
}

} // verus!
