//! 8-bit RGBA colours.

use vstd::prelude::*;

verus! {

/// A colour with four 8-bit channels; 255 is full intensity.
#[derive(Clone, Copy, Debug, PartialEq, Eq)]
pub struct Color {
    pub r: u8,
    pub g: u8,
    pub b: u8,
    pub a: u8,
}

impl Color {
    pub fn new(r: u8, g: u8, b: u8, a: u8) -> (c: Color)
        ensures
            c == (Color { r, g, b, a }),
    {
        Color { r, g, b, a }
    }
}

pub fn red() -> (c: Color)
    ensures
        c == (Color { r: 230, g: 41, b: 55, a: 255 }),
{
    Color { r: 230, g: 41, b: 55, a: 255 }
}

pub fn blue() -> (c: Color)
    ensures
        c == (Color { r: 0, g: 121, b: 241, a: 255 }),
{
    Color { r: 0, g: 121, b: 241, a: 255 }
}

pub fn black() -> (c: Color)
    ensures
        c == (Color { r: 0, g: 0, b: 0, a: 255 }),
{
    Color { r: 0, g: 0, b: 0, a: 255 }
}

pub fn white() -> (c: Color)
    ensures
        c == (Color { r: 255, g: 255, b: 255, a: 255 }),
{
    Color { r: 255, g: 255, b: 255, a: 255 }
}

} // verus!
