//! Pixel addressing in a flat buffer of four bytes per pixel, and the model
//! of drawing: a buffer in which a region of pixels has been set to a color.
use vstd::prelude::*;
use vstd::arithmetic::div_mod::{lemma_fundamental_div_mod, lemma_fundamental_div_mod_converse};
use crate::rendering::models::color::{Color, channel};

verus! {

/// The byte offset of pixel (`x`, `y`) in a buffer `width` pixels wide.
pub open spec fn pixel_index(x: int, y: int, width: int) -> int {
    (y * width + x) * 4
}

/// The buffer with the four bytes of pixel number `k` set to `color`.
pub open spec fn with_pixel(buf: Seq<u8>, k: int, color: Color) -> Seq<u8> {
    Seq::new(buf.len(), |i: int| if i / 4 == k { channel(color, i % 4) } else { buf[i] })
}

/// The buffer of a canvas `width` pixels wide with every pixel (`px`, `py`)
/// for which `region(px, py)` holds set to `color`, and the other bytes kept.
pub open spec fn fill_region(buf: Seq<u8>, width: int, color: Color, region: spec_fn(int, int) -> bool) -> Seq<u8> {
    Seq::new(
        buf.len(),
        |i: int|
            if region((i / 4) % width, (i / 4) / width) {
                channel(color, i % 4)
            } else {
                buf[i]
            },
    )
}

/// Pixel (`px`, `py`) lies in the `w` by `h` rectangle whose top left pixel is
/// (`x`, `y`).
pub open spec fn in_rect(x: int, y: int, w: int, h: int, px: int, py: int) -> bool {
    x <= px < x + w && y <= py < y + h
}

/// The buffer of a `cw` by `ch` canvas once the part of the rectangle at
/// (`x`, `y`), `w` by `h`, that lies on the canvas is set to `color`.
pub open spec fn rect_filled(buf: Seq<u8>, cw: int, ch: int, x: int, y: int, w: int, h: int, color: Color) -> Seq<u8> {
    fill_region(buf, cw, color, |px: int, py: int| px < cw && py < ch && in_rect(x, y, w, h, px, py))
}

/// The bytes of pixel (`px`, `py`) of a canvas `cw` pixels wide lie in a
/// buffer of `len` bytes, at an offset that fits in a `u32`.
pub open spec fn pixel_fits(len: int, cw: int, px: int, py: int) -> bool {
    &&& pixel_index(px, py, cw) + 4 <= len
    &&& pixel_index(px, py, cw) <= u32::MAX
}

/// Every pixel of the rectangle at (`x`, `y`), `w` by `h`, that lies on the
/// `cw` by `ch` canvas fits in a buffer of `len` bytes.
pub open spec fn rect_fits(len: int, cw: int, ch: int, x: int, y: int, w: int, h: int) -> bool {
    forall|px: int, py: int|
        0 <= px < cw && 0 <= py < ch && in_rect(x, y, w, h, px, py) ==> #[trigger] pixel_fits(
            len,
            cw,
            px,
            py,
        )
}

/// Returns the byte offset of pixel (`x`, `y`); it is computed in `u32`.
pub fn get_pixel_index(x: u32, y: u32, width: u32) -> (index: usize)
    requires
        pixel_index(x as int, y as int, width as int) <= u32::MAX,
    ensures
        index == pixel_index(x as int, y as int, width as int),
{
    return ((y * width + x) * 4) as usize;
}

/// Writes `color` into pixel (`x`, `y`) of a buffer `width` by `height`
/// pixels, converted to BGRA: blue, green, red, alpha; a pixel outside those bounds is left alone.
pub fn set_pixel(buffer: &mut Vec<u8>, x: u32, y: u32, width: u32, height: u32, color: &Color)
    requires
        x < width && y < height ==> pixel_index(x as int, y as int, width as int) + 4 <= old(buffer)@.len()
            && pixel_index(x as int, y as int, width as int) <= u32::MAX,
    ensures
        final(buffer)@ == if x < width && y < height {
            with_pixel(old(buffer)@, y * width + x, *color)
        } else {
            old(buffer)@
        },
{
    if x >= width || y >= height {
        return;
    }
    let index = get_pixel_index(x, y, width);
    buffer.set(index, color.b);
    buffer.set(index + 1, color.g);
    buffer.set(index + 2, color.r);
    buffer.set(index + 3, color.a);
    assert(final(buffer)@ =~= with_pixel(old(buffer)@, y * width + x, *color));
}

/// On a canvas, every pixel number corresponds to exactly one pair of
/// column and row: `k` is pixel (`px`, `py`) exactly when
/// `k == py * width + px`.
pub proof fn lemma_pixel_number(k: int, width: int, px: int, py: int)
    requires
        width > 0,
        0 <= k,
        0 <= px < width,
        0 <= py,
    ensures
        (k % width == px && k / width == py) <==> k == py * width + px,
{
    lemma_fundamental_div_mod(k, width);
    assert(width * (k / width) == (k / width) * width) by (nonlinear_arith);
    if k == py * width + px {
        lemma_fundamental_div_mod_converse(k, width, py, px);
    }
}

/// Setting one more pixel in a filled region gives the region extended by
/// that pixel.
pub proof fn lemma_fill_one_more(buf: Seq<u8>, width: int, color: Color, region: spec_fn(int, int) -> bool, px: int, py: int)
    requires
        width > 0,
        0 <= px < width,
        0 <= py,
    ensures
        with_pixel(fill_region(buf, width, color, region), py * width + px, color) == fill_region(
            buf,
            width,
            color,
            |qx: int, qy: int| region(qx, qy) || (qx == px && qy == py),
        ),
{
    let lhs = with_pixel(fill_region(buf, width, color, region), py * width + px, color);
    let rhs = fill_region(buf, width, color, |qx: int, qy: int| region(qx, qy) || (qx == px && qy == py));
    assert forall|i: int| 0 <= i < buf.len() implies lhs[i] == rhs[i] by {
        lemma_pixel_number(i / 4, width, px, py);
    }
    assert(lhs =~= rhs);
}

/// The effect of `set_pixel` at (`px`, `py`) on a canvas `cw` by `ch` whose
/// buffer is `buf` with the region `before` filled: the buffer with the
/// region `next` filled, where `next` is `before` and the pixel, when the
/// pixel lies on the canvas.
pub proof fn lemma_set_pixel_step(
    buf: Seq<u8>,
    after: Seq<u8>,
    cw: int,
    ch: int,
    color: Color,
    before: spec_fn(int, int) -> bool,
    next: spec_fn(int, int) -> bool,
    px: int,
    py: int,
)
    requires
        0 <= px,
        0 <= py,
        after == if px < cw && py < ch {
            with_pixel(fill_region(buf, cw, color, before), py * cw + px, color)
        } else {
            fill_region(buf, cw, color, before)
        },
        forall|qx: int, qy: int|
            #[trigger] next(qx, qy) == (before(qx, qy) || (qx == px && qy == py && px < cw && py
                < ch)),
    ensures
        after == fill_region(buf, cw, color, next),
{
    if px < cw && py < ch {
        lemma_fill_one_more(buf, cw, color, before, px, py);
        let grown = |qx: int, qy: int| before(qx, qy) || (qx == px && qy == py);
        assert forall|qx: int, qy: int| #[trigger] grown(qx, qy) == next(qx, qy) by {}
        lemma_fill_same_region(buf, cw, color, grown, next);
    } else {
        assert forall|qx: int, qy: int| #[trigger] before(qx, qy) == next(qx, qy) by {}
        lemma_fill_same_region(buf, cw, color, before, next);
    }
}

/// Filling two regions that hold of the same pixels gives the same buffer.
pub proof fn lemma_fill_same_region(buf: Seq<u8>, width: int, color: Color, r1: spec_fn(int, int) -> bool, r2: spec_fn(int, int) -> bool)
    requires
        forall|qx: int, qy: int| #[trigger] r1(qx, qy) == r2(qx, qy),
    ensures
        fill_region(buf, width, color, r1) == fill_region(buf, width, color, r2),
{
    assert(fill_region(buf, width, color, r1) =~= fill_region(buf, width, color, r2));
}

/// Filling an empty region leaves the buffer as it was.
pub proof fn lemma_fill_nothing(buf: Seq<u8>, width: int, color: Color)
    ensures
        fill_region(buf, width, color, |qx: int, qy: int| false) == buf,
{
    assert(fill_region(buf, width, color, |qx: int, qy: int| false) =~= buf);
}

/// On a canvas `cw` by `ch` every pixel lies before byte `cw * ch * 4`.
pub proof fn lemma_pixel_in_buffer(px: int, py: int, cw: int, ch: int)
    requires
        0 <= px < cw,
        0 <= py < ch,
    ensures
        pixel_index(px, py, cw) + 4 <= cw * ch * 4,
{
    assert(py * cw + px + 1 <= cw * ch) by (nonlinear_arith)
        requires
            0 <= px < cw,
            0 <= py < ch,
    ;
}

/// On a well-formed canvas every rectangle fits: its buffer covers every
/// pixel, and every pixel's offset fits in a `u32`.
pub proof fn law_wf_canvas_fits_every_rect(len: int, cw: int, ch: int, x: int, y: int, w: int, h: int)
    requires
        cw * ch * 4 <= u32::MAX,
        len >= cw * ch * 4,
    ensures
        rect_fits(len, cw, ch, x, y, w, h),
{
    assert forall|px: int, py: int|
        0 <= px < cw && 0 <= py < ch && in_rect(x, y, w, h, px, py) implies #[trigger] pixel_fits(
        len,
        cw,
        px,
        py,
    ) by {
        lemma_pixel_in_buffer(px, py, cw, ch);
    }
}

} // verus!
