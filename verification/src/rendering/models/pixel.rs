use vstd::prelude::*;
use crate::rendering::models::color::Color;

verus! {

/// A colored point of a canvas.
#[derive(Debug, Clone, Copy, PartialEq, Eq)]
pub struct Pixel {
    pub x: u32,
    pub y: u32,
    pub color: Color,
}

} // verus!
