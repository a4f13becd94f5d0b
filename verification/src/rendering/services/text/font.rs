//! The integer metrics of a glyph, read from a TrueType/OpenType font with
//! `ttf_parser`: its glyph id, bounding box, units per em and advance.
use vstd::prelude::*;

verus! {

/// `ttf_parser::Face`, a parsed font face, held opaque.
#[verifier::external_type_specification]
#[verifier::external_body]
pub struct ExFace<'a>(ttf_parser::Face<'a>);

/// Whether `ttf_parser` parses `data` as a font face (face index 0).
pub uninterp spec fn ttf_face_parses(data: Seq<u8>) -> bool;

/// The text (the `Display` of `ttf_parser::FaceParsingError`) of the error
/// that parsing `data` as a font face gives, when it fails.
pub uninterp spec fn ttf_parse_error_text(data: Seq<u8>) -> Seq<char>;

/// The glyph id that the font in `data` maps `c` to, if any.
pub uninterp spec fn ttf_glyph_index(data: Seq<u8>, c: char) -> Option<u16>;

/// The bounding box of glyph `glyph` of the font in `data`, if it has an
/// outline.
pub uninterp spec fn ttf_glyph_bounding_box(data: Seq<u8>, glyph: u16) -> Option<BoundingBox>;

/// The units per em of the font in `data`.
pub uninterp spec fn ttf_units_per_em(data: Seq<u8>) -> u16;

/// The horizontal advance of glyph `glyph` of the font in `data`, if the
/// font holds one.
pub uninterp spec fn ttf_glyph_hor_advance(data: Seq<u8>, glyph: u16) -> Option<u16>;

/// A glyph's bounding box in font units.
#[derive(Debug, Clone, Copy, PartialEq, Eq)]
pub struct BoundingBox {
    pub x_min: i16,
    pub y_min: i16,
    pub x_max: i16,
    pub y_max: i16,
}

/// A parsed font face together with the bytes it was parsed from. Only
/// `parse_face` builds one, so `face` is always the face of `data`.
pub struct FontFace<'a> {
    face: ttf_parser::Face<'a>,
    data: &'a [u8],
}

impl<'a> View for FontFace<'a> {
    /// The bytes the face was parsed from.
    type V = Seq<u8>;

    closed spec fn view(&self) -> Seq<u8> {
        self.data@
    }
}

impl<'a> FontFace<'a> {
    /// The parsed face, for what only `ttf_parser` can do with it, such as
    /// walking a glyph's outline.
    pub fn face(&self) -> (face: &ttf_parser::Face<'a>)
        ensures
            *face == self.parsed_face(),
    {
        &self.face
    }

    /// The face that was parsed from the bytes `self@`, as `parse_face`
    /// stored it.
    pub closed spec fn parsed_face(&self) -> ttf_parser::Face<'a> {
        self.face
    }
}

/// Calls `ttf_parser::Face::parse(data, 0)`. Trusted: it succeeds exactly
/// when `ttf_face_parses` holds of the bytes, and the face it gives is
/// kept with those bytes. On failure the error is the `Display` text of the
/// parse error, `ttf_parse_error_text` of the bytes.
#[verifier::external_body]
fn parse_face<'a>(data: &'a [u8]) -> (r: Result<FontFace<'a>, String>)
    ensures
        r is Ok <==> ttf_face_parses(data@),
        r matches Ok(f) ==> f@ == data@,
        r matches Err(e) ==> e@ == ttf_parse_error_text(data@),
{
    match ttf_parser::Face::parse(data, 0) {
        Ok(face) => Ok(FontFace { face, data }),
        Err(e) => Err(e.to_string()),
    }
}

/// Calls `ttf_parser::Face::glyph_index`. Trusted: its result is
/// `ttf_glyph_index` of the face's bytes and the character.
#[verifier::external_body]
fn face_glyph_index(font: &FontFace, c: char) -> (id: Option<u16>)
    ensures
        id == ttf_glyph_index(font@, c),
{
    font.face.glyph_index(c).map(|g| g.0)
}

/// Calls `ttf_parser::Face::glyph_bounding_box`. Trusted: its result is
/// `ttf_glyph_bounding_box` of the face's bytes and the glyph id.
#[verifier::external_body]
fn face_glyph_bounding_box(font: &FontFace, glyph: u16) -> (bbox: Option<BoundingBox>)
    ensures
        bbox == ttf_glyph_bounding_box(font@, glyph),
{
    font.face.glyph_bounding_box(ttf_parser::GlyphId(glyph)).map(
        |r| BoundingBox { x_min: r.x_min, y_min: r.y_min, x_max: r.x_max, y_max: r.y_max },
    )
}

/// Calls `ttf_parser::Face::units_per_em`. Trusted: its result is
/// `ttf_units_per_em` of the face's bytes, and, as `ttf_parser` documents,
/// lies in 16..=16384.
#[verifier::external_body]
fn face_units_per_em(font: &FontFace) -> (upem: u16)
    ensures
        upem == ttf_units_per_em(font@),
        16 <= upem <= 16384,
{
    font.face.units_per_em()
}

/// Calls `ttf_parser::Face::glyph_hor_advance`. Trusted: its result is
/// `ttf_glyph_hor_advance` of the face's bytes and the glyph id.
#[verifier::external_body]
fn face_glyph_hor_advance(font: &FontFace, glyph: u16) -> (advance: Option<u16>)
    ensures
        advance == ttf_glyph_hor_advance(font@, glyph),
{
    font.face.glyph_hor_advance(ttf_parser::GlyphId(glyph))
}

/// Parses the font in `data` (face index 0).
pub fn open_font<'a>(data: &'a [u8]) -> (r: Result<FontFace<'a>, String>)
    ensures
        r is Ok <==> ttf_face_parses(data@),
        r matches Ok(f) ==> f@ == data@,
        r matches Err(e) ==> e@ == ttf_parse_error_text(data@),
{
    parse_face(data)
}

/// The integer metrics of one glyph.
#[derive(Debug, Clone, Copy, PartialEq, Eq)]
pub struct GlyphMetrics {
    pub glyph_id: u16,
    pub bbox: BoundingBox,
    pub units_per_em: u16,
    /// The horizontal advance in font units; 0 when the font holds none.
    pub advance: u16,
}

/// Looks up the glyph of `character` and its metrics: "Glyph not found"
/// when the font maps the character to no glyph, "No bounding box" when the
/// glyph has no outline.
pub fn glyph_metrics(font: &FontFace, character: char) -> (r: Result<GlyphMetrics, String>)
    ensures
        ttf_glyph_index(font@, character) is None ==> (r matches Err(e) && e@
            == "Glyph not found"@),
        ttf_glyph_index(font@, character) matches Some(g) ==> {
            &&& ttf_glyph_bounding_box(font@, g) is None ==> (r matches Err(e) && e@
                == "No bounding box"@)
            &&& ttf_glyph_bounding_box(font@, g) matches Some(bbox) ==> r == Ok::<
                GlyphMetrics,
                String,
            >(
                GlyphMetrics {
                    glyph_id: g,
                    bbox,
                    units_per_em: ttf_units_per_em(font@),
                    advance: match ttf_glyph_hor_advance(font@, g) {
                        Some(a) => a,
                        None => 0,
                    },
                },
            )
        },
        r matches Ok(m) ==> 16 <= m.units_per_em <= 16384,
{
    let glyph_id = match face_glyph_index(font, character) {
        Some(g) => g,
        None => return Err("Glyph not found".to_owned()),
    };
    let bbox = match face_glyph_bounding_box(font, glyph_id) {
        Some(b) => b,
        None => return Err("No bounding box".to_owned()),
    };
    let units_per_em = face_units_per_em(font);
    let advance = match face_glyph_hor_advance(font, glyph_id) {
        Some(a) => a,
        None => 0,
    };
    Ok(GlyphMetrics { glyph_id, bbox, units_per_em, advance })
}

} // verus!
