//! Display colors carried by entities, as 8-bit RGBA channels.
use vstd::prelude::*;

verus! {

/// An RGBA color, one byte per channel.
#[derive(Clone, Copy, Debug, PartialEq, Eq, Structural)]
pub struct Color {
    pub r: u8,
    pub g: u8,
    pub b: u8,
    pub a: u8,
}

impl Color {
    /// The arcade green used for gameplay entities.
    pub fn arcade_green() -> (c: Color)
        ensures
            c == (Color { r: 0, g: 255, b: 84, a: 255 }),
    {
        Color { r: 0, g: 255, b: 84, a: 255 }
    }

    /// The grey used for the status display.
    pub fn grey() -> (c: Color)
        ensures
            c == (Color { r: 153, g: 153, b: 153, a: 255 }),
    {
        Color { r: 153, g: 153, b: 153, a: 255 }
    }
}

} // verus!
