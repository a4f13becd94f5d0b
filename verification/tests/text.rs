use azure_engine::rendering::services::text::font::{glyph_metrics, open_font, BoundingBox};
use azure_engine::rendering::services::text::outline::OutlineContours;

fn be16(v: &mut Vec<u8>, x: u16) {
    v.extend_from_slice(&x.to_be_bytes());
}

fn be32(v: &mut Vec<u8>, x: u32) {
    v.extend_from_slice(&x.to_be_bytes());
}

/// A TrueType font with three glyphs: an empty `.notdef`; a triangle with
/// points (100, 0), (500, 700), (900, 0) and advance 1000, mapped from 'A';
/// and an empty glyph mapped from 'C'.
fn tiny_font() -> Vec<u8> {
    let mut cmap = Vec::new();
    be16(&mut cmap, 0); // version
    be16(&mut cmap, 1); // one encoding record
    be16(&mut cmap, 0); // platform: Unicode
    be16(&mut cmap, 3); // encoding: BMP
    be32(&mut cmap, 12); // subtable offset
    be16(&mut cmap, 0); // format 0
    be16(&mut cmap, 262); // length
    be16(&mut cmap, 0); // language
    let mut ids = vec![0u8; 256];
    ids[b'A' as usize] = 1;
    ids[b'C' as usize] = 2;
    cmap.extend_from_slice(&ids);

    let mut glyf = Vec::new();
    be16(&mut glyf, 1); // one contour
    for v in [100u16, 0, 900, 700] {
        be16(&mut glyf, v);
    }
    be16(&mut glyf, 2); // last point of the contour
    be16(&mut glyf, 0); // no instructions
    glyf.extend_from_slice(&[1, 1, 1]); // on-curve points, 16-bit deltas
    for dx in [100i16, 400, 400] {
        be16(&mut glyf, dx as u16);
    }
    for dy in [0i16, 700, -700] {
        be16(&mut glyf, dy as u16);
    }
    glyf.push(0); // pad to an even length

    let mut head = Vec::new();
    be32(&mut head, 0x0001_0000);
    be32(&mut head, 0x0001_0000);
    be32(&mut head, 0);
    be32(&mut head, 0x5F0F_3CF5);
    be16(&mut head, 0);
    be16(&mut head, 1000); // units per em
    head.extend_from_slice(&[0; 16]);
    for v in [100u16, 0, 900, 700] {
        be16(&mut head, v);
    }
    be16(&mut head, 0);
    be16(&mut head, 8);
    be16(&mut head, 2);
    be16(&mut head, 0); // short loca
    be16(&mut head, 0);

    let mut hhea = Vec::new();
    be32(&mut hhea, 0x0001_0000);
    hhea.extend_from_slice(&[0; 30]);
    be16(&mut hhea, 3); // three horizontal metrics

    let mut hmtx = Vec::new();
    for (adv, lsb) in [(500u16, 0u16), (1000, 100), (300, 0)] {
        be16(&mut hmtx, adv);
        be16(&mut hmtx, lsb);
    }

    let mut loca = Vec::new();
    for off in [0u16, 0, (glyf.len() / 2) as u16, (glyf.len() / 2) as u16] {
        be16(&mut loca, off);
    }

    let mut maxp = Vec::new();
    be32(&mut maxp, 0x0000_5000);
    be16(&mut maxp, 3);

    let tables: Vec<(&[u8; 4], Vec<u8>)> = vec![
        (b"cmap", cmap),
        (b"glyf", glyf),
        (b"head", head),
        (b"hhea", hhea),
        (b"hmtx", hmtx),
        (b"loca", loca),
        (b"maxp", maxp),
    ];
    let mut font = Vec::new();
    be32(&mut font, 0x0001_0000);
    be16(&mut font, tables.len() as u16);
    font.extend_from_slice(&[0; 6]);
    let mut offset = 12 + 16 * tables.len();
    let mut body = Vec::new();
    for (tag, data) in &tables {
        font.extend_from_slice(*tag);
        be32(&mut font, 0);
        be32(&mut font, offset as u32);
        be32(&mut font, data.len() as u32);
        body.extend_from_slice(data);
        while body.len() % 4 != 0 {
            body.push(0);
        }
        offset = 12 + 16 * tables.len() + body.len();
    }
    font.extend_from_slice(&body);
    font
}

#[test]
fn garbage_is_not_a_font() {
    assert_eq!(open_font(&[]).err(), Some("unknown magic".to_string()));
    assert!(open_font(&[0, 1, 2, 3, 4, 5, 6, 7]).is_err());
}

#[test]
fn metrics_of_a_mapped_glyph() {
    let data = tiny_font();
    let font = open_font(&data).expect("tiny font parses");
    let m = glyph_metrics(&font, 'A').expect("glyph A");
    assert_eq!(m.glyph_id, 1);
    assert_eq!(m.bbox, BoundingBox { x_min: 100, y_min: 0, x_max: 900, y_max: 700 });
    assert_eq!(m.units_per_em, 1000);
    assert_eq!(m.advance, 1000);
}

#[test]
fn unmapped_and_empty_glyphs() {
    let data = tiny_font();
    let font = open_font(&data).expect("tiny font parses");
    assert_eq!(glyph_metrics(&font, 'B').unwrap_err(), "Glyph not found");
    assert_eq!(glyph_metrics(&font, '\u{263a}').unwrap_err(), "Glyph not found");
    assert_eq!(glyph_metrics(&font, 'C').unwrap_err(), "No bounding box");
}

#[test]
fn contours_close_on_move_and_close() {
    let mut o: OutlineContours<(i32, i32)> = OutlineContours::new();
    assert_eq!(o.last_point(), None);
    o.move_to((0, 0));
    o.line_to((5, 0));
    assert_eq!(o.last_point(), Some((5, 0)));
    o.move_to((1, 1));
    o.line_to((2, 2));
    o.close();
    o.close();
    assert_eq!(o.last_point(), None);
    o.move_to((9, 9));
    let contours = o.into_contours();
    assert_eq!(contours, vec![vec![(0, 0), (5, 0)], vec![(1, 1), (2, 2)], vec![(9, 9)]]);
}

#[test]
fn empty_outline_has_no_contours() {
    let mut o: OutlineContours<u8> = OutlineContours::new();
    o.close();
    assert!(o.into_contours().is_empty());
}
