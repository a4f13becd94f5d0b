use vstd::prelude::*;
use crate::rendering::models::canvas::Canvas;
use crate::rendering::models::color::Color;
use crate::rendering::services::buffer::{
    fill_region, in_rect, lemma_fill_nothing, lemma_fill_same_region, lemma_set_pixel_step,
    pixel_fits, rect_filled, rect_fits, set_pixel,
};

verus! {

/// The buffer of a `cw` by `ch` canvas once the pixels of row `y` from
/// column `x` up to, not including, `x_end` are set to `color`; those off
/// the canvas are dropped.
pub open spec fn hline_filled(buf: Seq<u8>, cw: int, ch: int, x: int, x_end: int, y: int, color: Color) -> Seq<u8> {
    fill_region(buf, cw, color, hline_region(cw, ch, x, x_end, y))
}

/// The pixels of row `y` from column `x` up to `x_end`, on the canvas.
pub open spec fn hline_region(cw: int, ch: int, x: int, x_end: int, y: int) -> spec_fn(int, int) -> bool {
    |px: int, py: int| px < cw && py < ch && py == y && x <= px < x_end
}

/// The pixels of column `x` from row `y` up to `y_end`, on the canvas.
pub open spec fn vline_region(cw: int, ch: int, y: int, y_end: int, x: int) -> spec_fn(int, int) -> bool {
    |px: int, py: int| px < cw && py < ch && px == x && y <= py < y_end
}

/// The buffer of a `cw` by `ch` canvas once the pixels of column `x` from
/// row `y` up to, not including, `y_end` are set to `color`; those off the
/// canvas are dropped.
pub open spec fn vline_filled(buf: Seq<u8>, cw: int, ch: int, y: int, y_end: int, x: int, color: Color) -> Seq<u8> {
    fill_region(buf, cw, color, vline_region(cw, ch, y, y_end, x))
}

/// Draws the pixels of row `y` from column `x` up to, not including,
/// `x_end`; nothing when `x_end <= x`. Each pixel written must lie in the
/// buffer.
pub fn draw_line_horizontal(x: u32, x_end: u32, y: u32, color: &Color, canvas: &mut Canvas)
    requires
        rect_fits(
            old(canvas).buffer@.len() as int,
            old(canvas).width as int,
            old(canvas).height as int,
            x as int,
            y as int,
            x_end - x,
            1,
        ),
    ensures
        final(canvas).width == old(canvas).width,
        final(canvas).height == old(canvas).height,
        final(canvas).buffer@ == hline_filled(
            old(canvas).buffer@,
            old(canvas).width as int,
            old(canvas).height as int,
            x as int,
            x_end as int,
            y as int,
            *color,
        ),
{
    let ghost buf0 = canvas.buffer@;
    let ghost cw = canvas.width as int;
    let ghost ch = canvas.height as int;
    let ghost x0 = x as int;
    let ghost len0 = canvas.buffer@.len() as int;
    proof {
        let empty = hline_region(cw, ch, x0, x0, y as int);
        assert forall|qx: int, qy: int| #[trigger] empty(qx, qy) == false by {}
        lemma_fill_same_region(buf0, cw, *color, empty, |qx: int, qy: int| false);
        lemma_fill_nothing(buf0, cw, *color);
    }
    let mut px = x;
    while px < x_end
        invariant
            canvas.buffer@.len() == len0,
            rect_fits(len0, cw, ch, x0, y as int, x_end - x0, 1),
            canvas.width == cw,
            canvas.height == ch,
            x0 <= px,
            px <= x_end || px == x0,
            canvas.buffer@ == hline_filled(buf0, cw, ch, x0, px as int, y as int, *color),
        decreases x_end - px,
    {
        proof {
            if px < cw && y < ch {
                assert(in_rect(x0, y as int, x_end - x0, 1, px as int, y as int));
                assert(pixel_fits(len0, cw, px as int, y as int));
            }
            let before = hline_region(cw, ch, x0, px as int, y as int);
            let next = hline_region(cw, ch, x0, px + 1, y as int);
            assert forall|qx: int, qy: int| #[trigger] next(qx, qy) == (before(qx, qy) || (qx == px
                && qy == y && px < cw && y < ch)) by {}
        }
        set_pixel(&mut canvas.buffer, px, y, canvas.width, canvas.height, color);
        proof {
            let before = hline_region(cw, ch, x0, px as int, y as int);
            let next = hline_region(cw, ch, x0, px + 1, y as int);
            assert forall|qx: int, qy: int| #[trigger] next(qx, qy) == (before(qx, qy) || (qx == px
                && qy == y && px < cw && y < ch)) by {}
            lemma_set_pixel_step(buf0, canvas.buffer@, cw, ch, *color, before, next, px as int, y as int);
        }
        px = px + 1;
    }
    proof {
        if x_end < x0 {
            let a = hline_region(cw, ch, x0, px as int, y as int);
            let b = hline_region(cw, ch, x0, x_end as int, y as int);
            assert forall|qx: int, qy: int| #[trigger] a(qx, qy) == b(qx, qy) by {}
            lemma_fill_same_region(buf0, cw, *color, a, b);
        }
    }
}

/// Draws the pixels of column `x` from row `y` up to, not including,
/// `y_end`; nothing when `y_end <= y`. Each pixel written must lie in the
/// buffer.
pub fn draw_line_vertical(y: u32, y_end: u32, x: u32, color: &Color, canvas: &mut Canvas)
    requires
        rect_fits(
            old(canvas).buffer@.len() as int,
            old(canvas).width as int,
            old(canvas).height as int,
            x as int,
            y as int,
            1,
            y_end - y,
        ),
    ensures
        final(canvas).width == old(canvas).width,
        final(canvas).height == old(canvas).height,
        final(canvas).buffer@ == vline_filled(
            old(canvas).buffer@,
            old(canvas).width as int,
            old(canvas).height as int,
            y as int,
            y_end as int,
            x as int,
            *color,
        ),
{
    let ghost buf0 = canvas.buffer@;
    let ghost cw = canvas.width as int;
    let ghost ch = canvas.height as int;
    let ghost y0 = y as int;
    let ghost len0 = canvas.buffer@.len() as int;
    proof {
        let empty = vline_region(cw, ch, y0, y0, x as int);
        assert forall|qx: int, qy: int| #[trigger] empty(qx, qy) == false by {}
        lemma_fill_same_region(buf0, cw, *color, empty, |qx: int, qy: int| false);
        lemma_fill_nothing(buf0, cw, *color);
    }
    let mut py = y;
    while py < y_end
        invariant
            canvas.buffer@.len() == len0,
            rect_fits(len0, cw, ch, x as int, y0, 1, y_end - y0),
            canvas.width == cw,
            canvas.height == ch,
            y0 <= py,
            py <= y_end || py == y0,
            canvas.buffer@ == vline_filled(buf0, cw, ch, y0, py as int, x as int, *color),
        decreases y_end - py,
    {
        proof {
            if x < cw && py < ch {
                assert(in_rect(x as int, y0, 1, y_end - y0, x as int, py as int));
                assert(pixel_fits(len0, cw, x as int, py as int));
            }
        }
        set_pixel(&mut canvas.buffer, x, py, canvas.width, canvas.height, color);
        proof {
            let before = vline_region(cw, ch, y0, py as int, x as int);
            let next = vline_region(cw, ch, y0, py + 1, x as int);
            assert forall|qx: int, qy: int| #[trigger] next(qx, qy) == (before(qx, qy) || (qx == x
                && qy == py && x < cw && py < ch)) by {}
            lemma_set_pixel_step(buf0, canvas.buffer@, cw, ch, *color, before, next, x as int, py as int);
        }
        py = py + 1;
    }
    proof {
        if y_end < y0 {
            let a = vline_region(cw, ch, y0, py as int, x as int);
            let b = vline_region(cw, ch, y0, y_end as int, x as int);
            assert forall|qx: int, qy: int| #[trigger] a(qx, qy) == b(qx, qy) by {}
            lemma_fill_same_region(buf0, cw, *color, a, b);
        }
    }
}

/// A horizontal line is the rectangle one pixel high that it spans.
pub proof fn law_hline_is_thin_rect(buf: Seq<u8>, cw: int, ch: int, x: int, x_end: int, y: int, color: Color)
    requires
        x <= x_end,
    ensures
        hline_filled(buf, cw, ch, x, x_end, y, color) == rect_filled(buf, cw, ch, x, y, x_end - x, 1, color),
{
    let a = hline_region(cw, ch, x, x_end, y);
    let b = |px: int, py: int| px < cw && py < ch && crate::rendering::services::buffer::in_rect(x, y, x_end - x, 1, px, py);
    assert forall|qx: int, qy: int| #[trigger] a(qx, qy) == b(qx, qy) by {}
    lemma_fill_same_region(buf, cw, color, a, b);
}

/// A vertical line is the rectangle one pixel wide that it spans.
pub proof fn law_vline_is_thin_rect(buf: Seq<u8>, cw: int, ch: int, y: int, y_end: int, x: int, color: Color)
    requires
        y <= y_end,
    ensures
        vline_filled(buf, cw, ch, y, y_end, x, color) == rect_filled(buf, cw, ch, x, y, 1, y_end - y, color),
{
    let a = vline_region(cw, ch, y, y_end, x);
    let b = |px: int, py: int| px < cw && py < ch && crate::rendering::services::buffer::in_rect(x, y, 1, y_end - y, px, py);
    assert forall|qx: int, qy: int| #[trigger] a(qx, qy) == b(qx, qy) by {}
    lemma_fill_same_region(buf, cw, color, a, b);
}

} // verus!
