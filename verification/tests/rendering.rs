use azure_engine::rendering::managers::renderer;
use azure_engine::rendering::models::canvas::Canvas;
use azure_engine::rendering::models::color::Color;
use azure_engine::rendering::models::pixel::Pixel;
use azure_engine::rendering::services::buffer::{get_pixel_index, set_pixel};
use azure_engine::rendering::services::effects::blend_pixel;
use azure_engine::rendering::services::shapes::line::{draw_line_horizontal, draw_line_vertical};
use azure_engine::rendering::services::shapes::rect::{draw_rect, draw_rect_rounded_bands};

fn px(canvas: &Canvas, x: u32, y: u32) -> [u8; 4] {
    let i = ((y * canvas.width + x) * 4) as usize;
    [canvas.buffer[i], canvas.buffer[i + 1], canvas.buffer[i + 2], canvas.buffer[i + 3]]
}

fn painted(canvas: &Canvas) -> Vec<(u32, u32)> {
    let mut v = Vec::new();
    for y in 0..canvas.height {
        for x in 0..canvas.width {
            if px(canvas, x, y) != [0, 0, 0, 0] {
                v.push((x, y));
            }
        }
    }
    v
}

const RED: Color = Color { r: 255, g: 0, b: 0, a: 255 };

#[test]
fn color_and_pixel_models() {
    let c = Color::new(1, 2, 3, 4);
    assert_eq!((c.r, c.g, c.b, c.a), (1, 2, 3, 4));
    let p = Pixel { x: 3, y: 4, color: c };
    assert_eq!(p.color, c);
}

#[test]
fn new_canvas_is_zeroed() {
    let c = Canvas::new(4, 3);
    assert_eq!((c.width, c.height), (4, 3));
    assert_eq!(c.buffer.len(), 48);
    assert!(c.buffer.iter().all(|&b| b == 0));
    assert_eq!(Canvas::new(0, 5).buffer.len(), 0);
}

#[test]
fn pixel_index_formula() {
    assert_eq!(get_pixel_index(3, 2, 800), 6412);
    assert_eq!(get_pixel_index(0, 0, 10), 0);
    assert_eq!(get_pixel_index(9, 0, 10), 36);
}

#[test]
fn set_pixel_writes_bgra_in_bounds_only() {
    let mut c = Canvas::new(4, 3);
    set_pixel(&mut c.buffer, 1, 2, 4, 3, &Color::new(10, 20, 30, 40));
    // BGRA: blue, green, red, alpha
    assert_eq!(&c.buffer[36..40], &[30, 20, 10, 40]);
    assert_eq!(painted(&c), vec![(1, 2)]);
    let before = c.buffer.clone();
    set_pixel(&mut c.buffer, 4, 0, 4, 3, &RED);
    set_pixel(&mut c.buffer, 0, 3, 4, 3, &RED);
    assert_eq!(c.buffer, before);
}

#[test]
fn blend_pixel_over_background() {
    // the pixel is blue 30, green 30, red 50
    let mut buf = vec![30u8, 30, 50, 255];
    blend_pixel(&mut buf, 0, 0, 1, 1, &Color::new(255, 0, 0, 128));
    assert_eq!(buf, vec![14, 14, 152, 255]);
    let mut out = vec![1u8, 2, 3, 4];
    blend_pixel(&mut out, 1, 0, 1, 1, &RED);
    assert_eq!(out, vec![1, 2, 3, 4]);
}

#[test]
fn blend_opaque_and_transparent() {
    let mut a = vec![30u8, 40, 50, 7];
    blend_pixel(&mut a, 0, 0, 1, 1, &Color::new(200, 100, 0, 255));
    assert_eq!(a, vec![0, 100, 200, 255]);
    let mut b = vec![30u8, 40, 50, 7];
    blend_pixel(&mut b, 0, 0, 1, 1, &Color::new(200, 100, 0, 0));
    assert_eq!(b, vec![30, 40, 50, 255]);
}

#[test]
fn blend_stays_between_inputs() {
    for alpha in [1u8, 64, 128, 200, 254] {
        let mut buf = vec![100u8, 250, 10, 0];
        blend_pixel(&mut buf, 0, 0, 1, 1, &Color::new(200, 20, 100, alpha));
        assert!(10 <= buf[2] && buf[2] <= 200);
        assert!(20 <= buf[1] && buf[1] <= 250);
        assert_eq!(buf[0], 100);
    }
}

#[test]
fn draw_rect_fills_and_clips() {
    let mut c = Canvas::new(5, 4);
    draw_rect(3, 2, 4, 4, &RED, &mut c);
    assert_eq!(painted(&c), vec![(3, 2), (4, 2), (3, 3), (4, 3)]);
    assert_eq!(px(&c, 4, 3), [0, 0, 255, 255]);
}

#[test]
fn draw_rect_empty_and_idempotent() {
    let mut c = Canvas::new(4, 4);
    draw_rect(1, 1, 0, 3, &RED, &mut c);
    assert!(painted(&c).is_empty());
    draw_rect(1, 1, 2, 2, &RED, &mut c);
    let once = c.buffer.clone();
    draw_rect(1, 1, 2, 2, &RED, &mut c);
    assert_eq!(c.buffer, once);
}

#[test]
fn renderer_draw_rect_matches_shape() {
    let mut a = Canvas::new(6, 6);
    let mut b = Canvas::new(6, 6);
    renderer::draw_rect(1, 2, 3, 2, &RED, &mut a);
    draw_rect(1, 2, 3, 2, &RED, &mut b);
    assert_eq!(a.buffer, b.buffer);
    assert_eq!(painted(&a).len(), 6);
}

#[test]
fn lines_are_thin_rects() {
    let mut h = Canvas::new(6, 4);
    draw_line_horizontal(1, 4, 2, &RED, &mut h);
    assert_eq!(painted(&h), vec![(1, 2), (2, 2), (3, 2)]);
    let mut r = Canvas::new(6, 4);
    draw_rect(1, 2, 3, 1, &RED, &mut r);
    assert_eq!(h.buffer, r.buffer);

    let mut v = Canvas::new(6, 4);
    draw_line_vertical(1, 9, 5, &RED, &mut v);
    assert_eq!(painted(&v), vec![(5, 1), (5, 2), (5, 3)]);

    let mut none = Canvas::new(6, 4);
    draw_line_horizontal(4, 1, 2, &RED, &mut none);
    draw_line_vertical(3, 3, 2, &RED, &mut none);
    assert!(painted(&none).is_empty());
}

#[test]
fn rounded_rect_bands() {
    let mut c = Canvas::new(10, 10);
    draw_rect_rounded_bands(1, 1, 6, 6, 2, &RED, &mut c);
    let p = painted(&c);
    // the middle band spans the full width on rows 3 and 4
    for x in 1..7 {
        assert!(p.contains(&(x, 3)) && p.contains(&(x, 4)));
    }
    // corners are left to the circles
    assert!(!p.contains(&(1, 1)));
    assert!(!p.contains(&(6, 1)));
    // top band between the corners, inside the 6x6 box
    assert!(p.contains(&(3, 1)) && p.contains(&(4, 2)));
    // the bottom band is radius + 1 rows high: rows 5, 6 and 7
    assert!(p.contains(&(3, 5)) && p.contains(&(4, 6)) && p.contains(&(4, 7)));
    assert!(!p.contains(&(3, 8)) && !p.contains(&(7, 3)));
    assert!(p.iter().all(|&(x, y)| (1..7).contains(&x) && (1..8).contains(&y)));
    assert_eq!(p.len(), 12 + 4 + 6);
}

#[test]
fn outer_rect_hides_inner_rect() {
    let blue = Color::new(0, 0, 255, 255);
    let mut a = Canvas::new(8, 8);
    draw_rect(2, 2, 2, 2, &RED, &mut a);
    draw_rect(1, 1, 5, 5, &blue, &mut a);
    let mut b = Canvas::new(8, 8);
    draw_rect(1, 1, 5, 5, &blue, &mut b);
    assert_eq!(a.buffer, b.buffer);
}
