//! The boundary to the system font rasterizer.
//!
//! The crossfont crate drives the platform font engine.  What it returns
//! depends on the fonts installed on the machine, so the wrappers below
//! promise nothing about the bitmaps they hand back; the verified cache in
//! [`crate::glyph_manager`] normalizes every outcome before storing it.

use vstd::prelude::*;

verus! {

#[verifier::external_type_specification]
#[verifier::external_body]
/// The platform font rasterizer of the crossfont crate.
pub struct ExRasterizer(crossfont::Rasterizer);

#[verifier::external_type_specification]
#[verifier::external_body]
/// crossfont's identifier for a loaded font.
pub struct ExFontKey(crossfont::FontKey);

/// A glyph bitmap exactly as the font engine reported it: dimensions and
/// bearings are unchecked, and the pixel bytes are grouped per pixel in
/// three channels (coverage mask) or four (premultiplied color).
pub struct RawGlyph {
    pub width: i32,
    pub height: i32,
    pub top: i32,
    pub left: i32,
    pub advance: (i32, i32),
    pub rgba: bool,
    pub bytes: Vec<u8>,
}

/// Relies on crossfont::Rasterize::new: opens the platform font system.
/// Returns None when the font system is unavailable.
#[verifier::external_body]
pub(crate) fn new_rasterizer() -> (r: Option<crossfont::Rasterizer>) {
    <crossfont::Rasterizer as crossfont::Rasterize>::new().ok()
}

/// Relies on crossfont::Rasterize::load_font: loads the named font family
/// with a normal style at `pt` points.  Returns None when no such family
/// is found or no rasterizer is at hand.
#[verifier::external_body]
pub(crate) fn load_font(r: &mut Option<crossfont::Rasterizer>, name: &str, pt: u16) -> (k: Option<
    crossfont::FontKey,
>) {
    let style = crossfont::Style::Description {
        slant: crossfont::Slant::Normal,
        weight: crossfont::Weight::Normal,
    };
    let desc = crossfont::FontDesc::new(name, style);
    let size = crossfont::Size::new(From::from(pt));
    match r {
        Some(rasterizer) => crossfont::Rasterize::load_font(rasterizer, &desc, size).ok(),
        None => None,
    }
}

/// Relies on crossfont::Rasterize::get_glyph: rasterizes one character of
/// the loaded font at `pt` points.  Returns None when the character has no
/// glyph there or no rasterizer or font is at hand.
#[verifier::external_body]
pub(crate) fn rasterize_glyph(
    r: &mut Option<crossfont::Rasterizer>,
    key: &Option<crossfont::FontKey>,
    code: char,
    pt: u16,
) -> (g: Option<RawGlyph>) {
    let (Some(ra), Some(k)) = (r, key) else { return None };
    let size = crossfont::Size::new(From::from(pt));
    let gk = crossfont::GlyphKey { character: code, font_key: *k, size };
    let g = crossfont::Rasterize::get_glyph(ra, gk).ok()?;
    let (bytes, rgba) = match g.buffer {
        crossfont::BitmapBuffer::Rgb(v) => (v, false),
        crossfont::BitmapBuffer::Rgba(v) => (v, true),
    };
    Some(RawGlyph {
        width: g.width, height: g.height, top: g.top, left: g.left,
        advance: g.advance, rgba, bytes,
    })
}

} // verus!
