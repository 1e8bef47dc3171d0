use vstd::prelude::*;

verus! {

/// An RGB color with one byte per channel, the range most display and image
/// formats take. A plain value: operations build new colors, none mutates.
#[derive(Copy, Clone, Debug, PartialEq, Eq, Structural)]
pub struct Color {
    pub r: u8,
    pub g: u8,
    pub b: u8,
}

impl Color {
    /// Returns a new color with the given red, green and blue channel values.
    pub fn new(r: u8, g: u8, b: u8) -> (c: Color)
        ensures
            c == (Color { r, g, b }),
    {
        Color { r, g, b }
    }

    /// Returns the channel values as one array in `[r, g, b]` order, ready to
    /// be pushed into a pixel buffer.
    pub fn data(self) -> (d: [u8; 3])
        ensures
            d@ =~= seq![self.r, self.g, self.b],
    {
        [self.r, self.g, self.b]
    }
}

} // verus!
