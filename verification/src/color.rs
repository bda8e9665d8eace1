//! Pixel colors.
use vstd::prelude::*;

verus! {

/// The two colors of a monochrome plane.
#[derive(Clone, Copy, PartialEq, Eq, Structural, Debug)]
pub enum Color {
    Black,
    White,
}

impl Color {
    /// A byte of eight pixels of this color: a set bit is a white pixel.
    pub open spec fn byte_value(self) -> u8 {
        match self {
            Color::Black => 0x00,
            Color::White => 0xFF,
        }
    }

    /// The byte that fills eight pixels with this color.
    pub fn get_byte_value(self) -> (b: u8)
        ensures
            b == self.byte_value(),
    {
        match self {
            Color::Black => 0x00,
            Color::White => 0xFF,
        }
    }
}

} // verus!
