use vstd::prelude::*;
use crate::rendering::models::canvas::Canvas;
use crate::rendering::models::color::Color;
use crate::rendering::services::buffer::{rect_filled, rect_fits};
use crate::rendering::services::shapes::rect;

verus! {

/// Fills a rectangle; see `shapes::rect::draw_rect`.
pub fn draw_rect(x: u32, y: u32, width: u32, height: u32, color: &Color, canvas: &mut Canvas)
    requires
        rect_fits(
            old(canvas).buffer@.len() as int,
            old(canvas).width as int,
            old(canvas).height as int,
            x as int,
            y as int,
            width as int,
            height as int,
        ),
        height > 0 ==> x + width <= u32::MAX,
        y + height <= u32::MAX,
    ensures
        final(canvas).width == old(canvas).width,
        final(canvas).height == old(canvas).height,
        final(canvas).buffer@ == rect_filled(
            old(canvas).buffer@,
            old(canvas).width as int,
            old(canvas).height as int,
            x as int,
            y as int,
            width as int,
            height as int,
            *color,
        ),
{
    rect::draw_rect(x, y, width, height, color, canvas);
}

} // verus!
