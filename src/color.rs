use vstd::prelude::*;

verus! {

/// An 8-bit-per-channel RGB colour.
#[derive(Clone, Copy, Debug, PartialEq, Eq, Structural)]
pub struct Color {
    pub r: u8,
    pub g: u8,
    pub b: u8,
}

/// One of the three channels of a colour.
#[derive(Clone, Copy, Debug, PartialEq, Eq, Structural)]
pub enum Channel {
    Red,
    Green,
    Blue,
}

/// Reads channel `k` of `c`.
pub fn channel_of(c: Color, k: Channel) -> (r: u8)
    ensures
        r == c.channel(k),
{
    match k {
        Channel::Red => c.r,
        Channel::Green => c.g,
        Channel::Blue => c.b,
    }
}

impl Color {
    /// The value of channel `k`.
    pub open spec fn channel(self, k: Channel) -> u8 {
        match k {
            Channel::Red => self.r,
            Channel::Green => self.g,
            Channel::Blue => self.b,
        }
    }

    /// Builds a colour from its three channels.
    pub fn new(r: u8, g: u8, b: u8) -> (c: Color)
        ensures
            c == (Color { r, g, b }),
    {
        Color { r, g, b }
    }
}

} // verus!
