use vstd::prelude::*;
use crate::rendering::models::color::{Color, channel};
use crate::rendering::services::buffer::{get_pixel_index, pixel_index};

verus! {

/// One channel of `fg` drawn with opacity `alpha` (out of 255) over `bg`:
/// `(fg * alpha + bg * (255 - alpha)) / 255`, rounded down.
pub open spec fn blend_channel(fg: u8, alpha: u8, bg: u8) -> u8 {
    ((fg * alpha + bg * (255 - alpha)) / 255) as u8
}

/// The buffer after `color` is composited over pixel number `k`: its red,
/// green and blue channels blended with the color's alpha, and its alpha
/// channel made opaque.
pub open spec fn with_blended_pixel(buf: Seq<u8>, k: int, color: Color) -> Seq<u8> {
    Seq::new(
        buf.len(),
        |i: int|
            if i / 4 == k {
                if i % 4 == 3 {
                    255u8
                } else {
                    blend_channel(channel(color, i % 4), color.a, buf[i])
                }
            } else {
                buf[i]
            },
    )
}

/// The blend of one channel stays between the two values it mixes.
proof fn lemma_blend_bounds(fg: u8, alpha: u8, bg: u8)
    ensures
        fg * alpha + bg * (255 - alpha) <= 65025,
        (fg * alpha + bg * (255 - alpha)) / 255 <= 255,
{
    assert(fg * alpha + bg * (255 - alpha) <= 255 * alpha + 255 * (255 - alpha)) by (nonlinear_arith)
        requires
            fg <= 255,
            bg <= 255,
            alpha <= 255,
    ;
}

fn blend(fg: u8, alpha: u8, bg: u8) -> (c: u8)
    ensures
        c == blend_channel(fg, alpha, bg),
        255 * c <= fg * alpha + bg * (255 - alpha) < 255 * (c + 1),
{
    proof {
        lemma_blend_bounds(fg, alpha, bg);
        law_blend_weighted_mean(fg, alpha, bg);
    }
    ((fg as u16 * alpha as u16 + bg as u16 * (255 - alpha as u16)) / 255) as u8
}

/// Composites `color` over pixel (`x`, `y`) with the Porter-Duff `over`
/// operator on its blue, green and red channels (BGRA order) and leaves it
/// opaque; a
/// pixel outside `width` by `height` is left alone.
pub fn blend_pixel(buffer: &mut Vec<u8>, x: u32, y: u32, width: u32, height: u32, color: &Color)
    requires
        x < width && y < height ==> pixel_index(x as int, y as int, width as int) + 4 <= old(buffer)@.len()
            && pixel_index(x as int, y as int, width as int) <= u32::MAX,
    ensures
        final(buffer)@ == if x < width && y < height {
            with_blended_pixel(old(buffer)@, y * width + x, *color)
        } else {
            old(buffer)@
        },
{
    if x >= width || y >= height {
        return;
    }
    let index_pixel = get_pixel_index(x, y, width);
    let bg_b = buffer[index_pixel];
    let bg_g = buffer[index_pixel + 1];
    let bg_r = buffer[index_pixel + 2];
    let r = blend(color.r, color.a, bg_r);
    let g = blend(color.g, color.a, bg_g);
    let b = blend(color.b, color.a, bg_b);
    buffer.set(index_pixel, b);
    buffer.set(index_pixel + 1, g);
    buffer.set(index_pixel + 2, r);
    buffer.set(index_pixel + 3, 255);
    assert(final(buffer)@ =~= with_blended_pixel(old(buffer)@, y * width + x, *color));
}

/// At every opacity, a blended channel is the weighted mean of the two
/// values, `fg` weighted by `alpha` and `bg` by `255 - alpha`, rounded down:
/// 255 times it is at most the weighted sum, and 255 times the next value
/// is more than that sum.
pub proof fn law_blend_weighted_mean(fg: u8, alpha: u8, bg: u8)
    ensures
        255 * blend_channel(fg, alpha, bg) <= fg * alpha + bg * (255 - alpha),
        fg * alpha + bg * (255 - alpha) < 255 * (blend_channel(fg, alpha, bg) + 1),
{
    lemma_blend_bounds(fg, alpha, bg);
    let s = fg * alpha + bg * (255 - alpha);
    assert(0 <= s);
    assert(255 * (s / 255) <= s < 255 * (s / 255 + 1)) by (nonlinear_arith)
        requires
            0 <= s,
    ;
}

/// More opacity moves the blend towards the color: when `fg` lies above
/// `bg`, a higher alpha never gives a lower channel, and when it lies below,
/// never a higher one.
pub proof fn law_blend_monotone_in_alpha(fg: u8, a1: u8, a2: u8, bg: u8)
    requires
        a1 <= a2,
    ensures
        bg <= fg ==> blend_channel(fg, a1, bg) <= blend_channel(fg, a2, bg),
        fg <= bg ==> blend_channel(fg, a2, bg) <= blend_channel(fg, a1, bg),
{
    lemma_blend_bounds(fg, a1, bg);
    lemma_blend_bounds(fg, a2, bg);
    let s1 = fg * a1 + bg * (255 - a1);
    let s2 = fg * a2 + bg * (255 - a2);
    assert(s2 - s1 == (fg - bg) * (a2 - a1)) by (nonlinear_arith)
        requires
            s1 == fg * a1 + bg * (255 - a1),
            s2 == fg * a2 + bg * (255 - a2),
    ;
    assert(bg <= fg ==> s1 <= s2) by (nonlinear_arith)
        requires
            s2 - s1 == (fg - bg) * (a2 - a1),
            a1 <= a2,
    ;
    assert(fg <= bg ==> s2 <= s1) by (nonlinear_arith)
        requires
            s2 - s1 == (fg - bg) * (a2 - a1),
            a1 <= a2,
    ;
    assert(s1 <= s2 ==> s1 / 255 <= s2 / 255) by (nonlinear_arith)
        requires
            0 <= s1,
    ;
    assert(s2 <= s1 ==> s2 / 255 <= s1 / 255) by (nonlinear_arith)
        requires
            0 <= s2,
    ;
}

/// An opaque color covers what lies under it.
pub proof fn law_blend_opaque(fg: u8, bg: u8)
    ensures
        blend_channel(fg, 255, bg) == fg,
{
    assert(fg * 255 + bg * 0 == fg * 255) by (nonlinear_arith);
    assert((fg * 255) / 255 == fg) by (nonlinear_arith);
}

/// A fully transparent color leaves what lies under it.
pub proof fn law_blend_transparent(fg: u8, bg: u8)
    ensures
        blend_channel(fg, 0, bg) == bg,
{
    assert(fg * 0 + bg * 255 == bg * 255) by (nonlinear_arith);
    assert((bg * 255) / 255 == bg) by (nonlinear_arith);
}

/// A blend lies between the two values it mixes.
pub proof fn law_blend_between(fg: u8, alpha: u8, bg: u8)
    ensures
        fg <= bg ==> fg <= blend_channel(fg, alpha, bg) <= bg,
        bg <= fg ==> bg <= blend_channel(fg, alpha, bg) <= fg,
{
    lemma_blend_bounds(fg, alpha, bg);
    let s = fg * alpha + bg * (255 - alpha);
    if fg <= bg {
        assert(fg * 255 <= s <= bg * 255) by (nonlinear_arith)
            requires
                s == fg * alpha + bg * (255 - alpha),
                fg <= bg,
                alpha <= 255,
        ;
    } else {
        assert(bg * 255 <= s <= fg * 255) by (nonlinear_arith)
            requires
                s == fg * alpha + bg * (255 - alpha),
                bg <= fg,
                alpha <= 255,
        ;
    }
    assert((fg * 255) / 255 == fg) by (nonlinear_arith);
    assert((bg * 255) / 255 == bg) by (nonlinear_arith);
    assert(s / 255 <= (bg * 255) / 255 || bg < fg) by (nonlinear_arith)
        requires
            fg <= bg ==> s <= bg * 255,
            s >= 0,
    ;
    assert(s / 255 >= (fg * 255) / 255 || bg < fg) by (nonlinear_arith)
        requires
            fg <= bg ==> s >= fg * 255,
            s >= 0,
    ;
    assert(s / 255 <= (fg * 255) / 255 || fg < bg) by (nonlinear_arith)
        requires
            bg <= fg ==> s <= fg * 255,
            s >= 0,
    ;
    assert(s / 255 >= (bg * 255) / 255 || fg < bg) by (nonlinear_arith)
        requires
            bg <= fg ==> s >= bg * 255,
            s >= 0,
    ;
}

/// Blending an opaque color into a pixel writes the color, as setting the
/// pixel does.
pub proof fn law_opaque_blend_sets_pixel(buf: Seq<u8>, k: int, color: Color)
    requires
        color.a == 255,
    ensures
        with_blended_pixel(buf, k, color) == crate::rendering::services::buffer::with_pixel(buf, k, color),
{
    assert forall|i: int| 0 <= i < buf.len() implies with_blended_pixel(buf, k, color)[i]
        == crate::rendering::services::buffer::with_pixel(buf, k, color)[i] by {
        law_blend_opaque(channel(color, i % 4), buf[i]);
    }
    assert(with_blended_pixel(buf, k, color) =~= crate::rendering::services::buffer::with_pixel(buf, k, color));
}

} // verus!
