use vstd::prelude::*;
use crate::rendering::models::canvas::Canvas;
use crate::rendering::models::color::{Color, channel};
use crate::rendering::services::buffer::{
    fill_region, in_rect, lemma_fill_nothing, lemma_fill_same_region, lemma_set_pixel_step,
    pixel_fits, rect_filled, rect_fits, set_pixel,
};

verus! {

/// The pixels set so far while filling the rectangle at (`x`, `y`), `w`
/// wide, row by row: the rows above `py`, and the row `py` left of `px`;
/// only those on the `cw` by `ch` canvas.
pub open spec fn rows_filled(cw: int, ch: int, x: int, y: int, w: int, py: int, px: int) -> spec_fn(int, int) -> bool {
    |qx: int, qy: int| qx < cw && qy < ch && x <= qx < x + w && (y <= qy < py || (qy == py && qx < px))
}

/// Fills the rectangle at (`x`, `y`), `width` by `height` pixels, with
/// `color`; the part that lies off the canvas is dropped. The ends `y +
/// height` and, for each row, `x + width` are computed in `u32` and must fit
/// there, and
/// each pixel written must lie in the buffer (as it does on a well-formed
/// canvas).
pub fn draw_rect(x: u32, y: u32, width: u32, height: u32, color: &Color, canvas: &mut Canvas)
    requires
        rect_fits(
            old(canvas).buffer@.len() as int,
            old(canvas).width as int,
            old(canvas).height as int,
            x as int,
            y as int,
            width as int,
            height as int,
        ),
        height > 0 ==> x + width <= u32::MAX,
        y + height <= u32::MAX,
    ensures
        final(canvas).width == old(canvas).width,
        final(canvas).height == old(canvas).height,
        final(canvas).buffer@ == rect_filled(
            old(canvas).buffer@,
            old(canvas).width as int,
            old(canvas).height as int,
            x as int,
            y as int,
            width as int,
            height as int,
            *color,
        ),
{
    let ghost buf0 = canvas.buffer@;
    let ghost cw = canvas.width as int;
    let ghost ch = canvas.height as int;
    let ghost len0 = canvas.buffer@.len() as int;
    proof {
        let empty = rows_filled(cw, ch, x as int, y as int, width as int, y as int, x as int);
        assert forall|qx: int, qy: int| #[trigger] empty(qx, qy) == false by {}
        lemma_fill_same_region(buf0, cw, *color, empty, |qx: int, qy: int| false);
        lemma_fill_nothing(buf0, cw, *color);
    }
    let mut py = y;
    while py < y + height
        invariant
            canvas.buffer@.len() == len0,
            rect_fits(len0, cw, ch, x as int, y as int, width as int, height as int),
            canvas.width == cw,
            canvas.height == ch,
            y <= py <= y + height,
            y + height <= u32::MAX,
            height > 0 ==> x + width <= u32::MAX,
            canvas.buffer@ == fill_region(
                buf0,
                cw,
                *color,
                rows_filled(cw, ch, x as int, y as int, width as int, py as int, x as int),
            ),
        decreases y + height - py,
    {
        let mut px = x;
        while px < x + width
            invariant
                canvas.buffer@.len() == len0,
                rect_fits(len0, cw, ch, x as int, y as int, width as int, height as int),
                canvas.width == cw,
                canvas.height == ch,
                y <= py < y + height,
                x <= px <= x + width,
                x + width <= u32::MAX,
                canvas.buffer@ == fill_region(
                    buf0,
                    cw,
                    *color,
                    rows_filled(cw, ch, x as int, y as int, width as int, py as int, px as int),
                ),
            decreases x + width - px,
        {
            proof {
                if px < cw && py < ch {
                    assert(in_rect(x as int, y as int, width as int, height as int, px as int, py as int));
                    assert(pixel_fits(len0, cw, px as int, py as int));
                }
            }
            set_pixel(&mut canvas.buffer, px, py, canvas.width, canvas.height, color);
            proof {
                let before = rows_filled(cw, ch, x as int, y as int, width as int, py as int, px as int);
                let next = rows_filled(cw, ch, x as int, y as int, width as int, py as int, px + 1);
                assert forall|qx: int, qy: int| #[trigger] next(qx, qy) == (before(qx, qy) || (qx
                    == px && qy == py && px < cw && py < ch)) by {}
                lemma_set_pixel_step(buf0, canvas.buffer@, cw, ch, *color, before, next, px as int, py as int);
            }
            px = px + 1;
        }
        proof {
            let full_row = rows_filled(cw, ch, x as int, y as int, width as int, py as int, px as int);
            let next_row = rows_filled(cw, ch, x as int, y as int, width as int, py + 1, x as int);
            assert forall|qx: int, qy: int| #[trigger] full_row(qx, qy) == next_row(qx, qy) by {}
            lemma_fill_same_region(buf0, cw, *color, full_row, next_row);
        }
        py = py + 1;
    }
    proof {
        let done = rows_filled(cw, ch, x as int, y as int, width as int, py as int, x as int);
        let rect = |px: int, py: int| px < cw && py < ch && in_rect(x as int, y as int, width as int, height as int, px, py);
        assert forall|qx: int, qy: int| #[trigger] done(qx, qy) == rect(qx, qy) by {}
        lemma_fill_same_region(buf0, cw, *color, done, rect);
    }
}

/// The straight part of a rectangle with rounded corners: a band the full
/// width between the corner rows, and the bands between the corners along
/// the top and the bottom; the corners themselves are circles drawn before
/// them. The bottom band is `radius + 1` rows high: it reaches row `y +
/// height`, the last row that the filled circles of the bottom corners
/// (centred on row `y + height - radius`) paint.
pub open spec fn rounded_rect_bands_filled(
    buf: Seq<u8>,
    cw: int,
    ch: int,
    x: int,
    y: int,
    width: int,
    height: int,
    radius: int,
    color: Color,
) -> Seq<u8> {
    let middle = rect_filled(buf, cw, ch, x, y + radius, width, height - 2 * radius, color);
    let top = rect_filled(middle, cw, ch, x + radius, y, width - 2 * radius, radius, color);
    rect_filled(top, cw, ch, x + radius, y + height - radius, width - 2 * radius, radius + 1, color)
}

/// Every pixel of the three bands that lies on the canvas fits in a buffer
/// of `len` bytes.
pub open spec fn rounded_rect_bands_fit(len: int, cw: int, ch: int, x: int, y: int, width: int, height: int, radius: int) -> bool {
    &&& rect_fits(len, cw, ch, x, y + radius, width, height - 2 * radius)
    &&& rect_fits(len, cw, ch, x + radius, y, width - 2 * radius, radius)
    &&& rect_fits(len, cw, ch, x + radius, y + height - radius, width - 2 * radius, radius + 1)
}

/// Draws the straight part of a rectangle with rounded corners: the three
/// bands of `rounded_rect_bands_filled`, in that order.
pub fn draw_rect_rounded_bands(
    x: u32,
    y: u32,
    width: u32,
    height: u32,
    radius: u32,
    color: &Color,
    canvas: &mut Canvas,
)
    requires
        rounded_rect_bands_fit(
            old(canvas).buffer@.len() as int,
            old(canvas).width as int,
            old(canvas).height as int,
            x as int,
            y as int,
            width as int,
            height as int,
            radius as int,
        ),
        2 * radius <= width,
        2 * radius <= height,
        x + width <= u32::MAX,
        y + height + 1 <= u32::MAX,
    ensures
        final(canvas).width == old(canvas).width,
        final(canvas).height == old(canvas).height,
        final(canvas).buffer@ == rounded_rect_bands_filled(
            old(canvas).buffer@,
            old(canvas).width as int,
            old(canvas).height as int,
            x as int,
            y as int,
            width as int,
            height as int,
            radius as int,
            *color,
        ),
{
    draw_rect(x, y + radius, width, height - 2 * radius, color, canvas);
    draw_rect(x + radius, y, width - 2 * radius, radius, color, canvas);
    draw_rect(x + radius, y + height - radius, width - 2 * radius, radius + 1, color, canvas);
}

/// The straight part of a rounded rectangle paints nothing outside its
/// `width` by `height` box and the one row below it, where the bottom
/// corners end.
pub proof fn law_rounded_bands_inside_box(
    buf: Seq<u8>,
    cw: int,
    ch: int,
    x: int,
    y: int,
    width: int,
    height: int,
    radius: int,
    color: Color,
)
    requires
        0 <= radius,
        2 * radius <= width,
        2 * radius <= height,
    ensures
        ({
            let out = rounded_rect_bands_filled(buf, cw, ch, x, y, width, height, radius, color);
            &&& out.len() == buf.len()
            &&& forall|i: int|
                0 <= i < buf.len() && !in_rect(x, y, width, height + 1, (i / 4) % cw, (i / 4) / cw)
                    ==> #[trigger] out[i] == buf[i]
        }),
{
}

/// The straight part of a rounded rectangle covers the whole box (with the
/// extra row below it) except the four corner squares: a pixel on the
/// canvas is set to `color` exactly when it lies in the box and is not both
/// within `radius` columns of the left or right edge and within `radius`
/// rows of the top or `radius + 1` rows of the bottom. Every other byte
/// keeps its value.
pub proof fn law_rounded_bands_cover_box_but_corners(
    buf: Seq<u8>,
    cw: int,
    ch: int,
    x: int,
    y: int,
    width: int,
    height: int,
    radius: int,
    color: Color,
)
    requires
        0 <= radius,
        2 * radius <= width,
        2 * radius <= height,
    ensures
        ({
            let out = rounded_rect_bands_filled(buf, cw, ch, x, y, width, height, radius, color);
            &&& out.len() == buf.len()
            &&& forall|i: int|
                0 <= i < buf.len() ==> #[trigger] out[i] == {
                    let px = (i / 4) % cw;
                    let py = (i / 4) / cw;
                    let in_box = px < cw && py < ch && x <= px < x + width && y <= py < y + height + 1;
                    let side = px < x + radius || x + width - radius <= px;
                    let end_rows = py < y + radius || y + height - radius <= py;
                    if in_box && !(side && end_rows) {
                        channel(color, i % 4)
                    } else {
                        buf[i]
                    }
                }
        }),
{
    let middle = rect_filled(buf, cw, ch, x, y + radius, width, height - 2 * radius, color);
    let top = rect_filled(middle, cw, ch, x + radius, y, width - 2 * radius, radius, color);
    let out = rect_filled(top, cw, ch, x + radius, y + height - radius, width - 2 * radius, radius + 1, color);
    assert forall|i: int| 0 <= i < buf.len() implies #[trigger] out[i] == {
        let px = (i / 4) % cw;
        let py = (i / 4) / cw;
        let in_box = px < cw && py < ch && x <= px < x + width && y <= py < y + height + 1;
        let side = px < x + radius || x + width - radius <= px;
        let end_rows = py < y + radius || y + height - radius <= py;
        if in_box && !(side && end_rows) {
            channel(color, i % 4)
        } else {
            buf[i]
        }
    } by {
        let px = (i / 4) % cw;
        let py = (i / 4) / cw;
        assert(middle[i] == if px < cw && py < ch && in_rect(x, y + radius, width, height - 2 * radius, px, py) {
            channel(color, i % 4)
        } else {
            buf[i]
        });
        assert(top[i] == if px < cw && py < ch && in_rect(x + radius, y, width - 2 * radius, radius, px, py) {
            channel(color, i % 4)
        } else {
            middle[i]
        });
        assert(out[i] == if px < cw && py < ch && in_rect(x + radius, y + height - radius, width - 2 * radius, radius + 1, px, py) {
            channel(color, i % 4)
        } else {
            top[i]
        });
        let in_box = px < cw && py < ch && x <= px < x + width && y <= py < y + height + 1;
        let side = px < x + radius || x + width - radius <= px;
        let end_rows = py < y + radius || y + height - radius <= py;
        let bands = px < cw && py < ch && (in_rect(x, y + radius, width, height - 2 * radius, px, py)
            || in_rect(x + radius, y, width - 2 * radius, radius, px, py) || in_rect(
            x + radius,
            y + height - radius,
            width - 2 * radius,
            radius + 1,
            px,
            py,
        ));
        assert(bands == (in_box && !(side && end_rows)));
        assert(out[i] == if bands {
            channel(color, i % 4)
        } else {
            buf[i]
        });
    }
}

/// Filling a rectangle twice leaves the same pixels as filling it once.
pub proof fn law_rect_fill_idempotent(buf: Seq<u8>, cw: int, ch: int, x: int, y: int, w: int, h: int, color: Color)
    ensures
        rect_filled(rect_filled(buf, cw, ch, x, y, w, h, color), cw, ch, x, y, w, h, color)
            == rect_filled(buf, cw, ch, x, y, w, h, color),
{
    assert(rect_filled(rect_filled(buf, cw, ch, x, y, w, h, color), cw, ch, x, y, w, h, color)
        =~= rect_filled(buf, cw, ch, x, y, w, h, color));
}

/// A rectangle filled over another that it contains hides it: the result
/// is as if only the outer one had been filled.
pub proof fn law_rect_fill_covers(
    buf: Seq<u8>,
    cw: int,
    ch: int,
    inner: (int, int, int, int),
    outer: (int, int, int, int),
    c1: Color,
    c2: Color,
)
    requires
        outer.0 <= inner.0,
        outer.1 <= inner.1,
        inner.0 + inner.2 <= outer.0 + outer.2,
        inner.1 + inner.3 <= outer.1 + outer.3,
    ensures
        rect_filled(
            rect_filled(buf, cw, ch, inner.0, inner.1, inner.2, inner.3, c1),
            cw,
            ch,
            outer.0,
            outer.1,
            outer.2,
            outer.3,
            c2,
        ) == rect_filled(buf, cw, ch, outer.0, outer.1, outer.2, outer.3, c2),
{
    assert(rect_filled(
        rect_filled(buf, cw, ch, inner.0, inner.1, inner.2, inner.3, c1),
        cw,
        ch,
        outer.0,
        outer.1,
        outer.2,
        outer.3,
        c2,
    ) =~= rect_filled(buf, cw, ch, outer.0, outer.1, outer.2, outer.3, c2));
}

} // verus!
