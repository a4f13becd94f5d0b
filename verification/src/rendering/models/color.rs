use vstd::prelude::*;

verus! {

/// A color: red, green, blue and alpha, one byte each.
#[derive(Debug, Clone, Copy, PartialEq, Eq)]
pub struct Color {
    pub r: u8,
    pub g: u8,
    pub b: u8,
    pub a: u8,
}

impl Color {
    pub fn new(r: u8, g: u8, b: u8, a: u8) -> (c: Color)
        ensures
            c == (Color { r, g, b, a }),
    {
        Color { r, g, b, a }
    }
}

/// Channel `k` of a color in buffer order, the BGRA order that Wayland
/// expects: blue, green, red, alpha.
pub open spec fn channel(color: Color, k: int) -> u8 {
    if k == 0 {
        color.b
    } else if k == 1 {
        color.g
    } else if k == 2 {
        color.r
    } else {
        color.a
    }
}

} // verus!
