//! Font rasterization cache.
//!
//! [`GlyphManager`] wraps the system font rasterizer.  On demand it
//! rasterizes a character at one fixed size chosen at construction,
//! normalizes the bitmap to one byte per pixel, and caches it keyed by
//! character.  The space character is synthesized as a blank bitmap of the
//! fixed cell size and is cached from the start, so lookups can always
//! fall back on it: callers of [`GlyphManager::get_rasterized_glyph`]
//! never observe a missing entry.

use std::collections::HashMap;
use vstd::prelude::*;

use crate::font;

verus! {

broadcast use vstd::std_specs::hash::group_hash_axioms;

/// Pixel height and width of the blank glyph synthesized for space, and
/// the point size at which every character is rasterized.
pub const CELL_SIZE: u32 = 32;

/// Largest accepted glyph dimension; what the font engine reports is
/// clamped into `[0, GLYPH_DIMENSION_LIMIT]` so that a bitmap always fits
/// in memory and in the glyph atlas.
pub const GLYPH_DIMENSION_LIMIT: u32 = 4096;

/// A cached glyph bitmap: one byte of coverage per pixel, row-major.
pub struct RasterizedGlyph {
    pub character: char,
    pub width: u32,
    pub height: u32,
    pub top: i32,
    pub left: i32,
    pub advance: (i32, i32),
    pub buffer: Vec<u8>,
}

/// A well-formed glyph: dimensions within the accepted limit and a
/// tightly-packed single-channel buffer, one byte per pixel.
pub open spec fn glyph_wf(g: RasterizedGlyph) -> bool {
    &&& g.width <= GLYPH_DIMENSION_LIMIT
    &&& g.height <= GLYPH_DIMENSION_LIMIT
    &&& g.buffer@.len() == g.width as int * g.height as int
}

/// The blank glyph synthesized for the space character: a full cell of
/// zero coverage.
pub open spec fn is_blank_space_glyph(g: RasterizedGlyph) -> bool {
    &&& g.character == ' '
    &&& g.width == CELL_SIZE
    &&& g.height == CELL_SIZE
    &&& g.top == 0
    &&& g.left == 0
    &&& g.advance == (0i32, 0i32)
    &&& g.buffer@ == Seq::new((CELL_SIZE * CELL_SIZE) as nat, |i: int| 0u8)
}

/// The cache entry that a lookup of `code` observes: the cached glyph, or
/// the cached space glyph where `code` was never cached.
pub open spec fn glyph_for(glyphs: Map<u32, RasterizedGlyph>, code: char) -> RasterizedGlyph {
    if glyphs.contains_key(code as u32) {
        glyphs[code as u32]
    } else {
        glyphs[' ' as u32]
    }
}

/// Every third (coverage mask) or fourth (premultiplied color) byte of
/// `bytes`, padded with zeroes to exactly `count` pixels.
pub open spec fn reduced_channel(bytes: Seq<u8>, stride: int, count: int) -> Seq<u8> {
    Seq::new(
        count as nat,
        |i: int| if stride * i < bytes.len() { bytes[stride * i] } else { 0u8 },
    )
}

/// Font rasterization cache, keyed by character.
pub struct GlyphManager {
    rasterizer: Option<crossfont::Rasterizer>,
    font_key: Option<crossfont::FontKey>,
    rasterized_glyph_table: HashMap<u32, RasterizedGlyph>,
}

impl GlyphManager {
    /// The cached glyphs, keyed by character code point.
    pub closed spec fn glyphs(self) -> Map<u32, RasterizedGlyph> {
        self.rasterized_glyph_table@
    }

    /// The cache always holds a blank glyph for space, and every cached
    /// glyph is well-formed.
    pub open spec fn wf(self) -> bool {
        &&& self.glyphs().contains_key(' ' as u32)
        &&& is_blank_space_glyph(self.glyphs()[' ' as u32])
        &&& forall|k: u32|
            self.glyphs().contains_key(k) ==> glyph_wf(#[trigger] self.glyphs()[k])
        &&& forall|k: u32| #[trigger]
            self.glyphs().contains_key(k) ==> self.glyphs()[k].character as u32 == k
    }

    /// The glyphs cached after a call, compared with those cached before
    /// it: nothing is evicted, no cached bitmap changes, and at most the
    /// entry for `code` is added.
    pub open spec fn extended_by(
        pre: Map<u32, RasterizedGlyph>,
        post: Map<u32, RasterizedGlyph>,
        code: char,
    ) -> bool {
        &&& forall|k: u32|
            pre.contains_key(k) ==> post.contains_key(k) && post[k] == #[trigger] pre[k]
        &&& forall|k: u32| #[trigger] post.contains_key(k) ==> pre.contains_key(k) || k == code as u32
    }

    /// Opens the system font rasterizer and loads the monospace font at
    /// the fixed size; where either step fails, the manager still works,
    /// with every extraction of a non-space character failing.  The blank
    /// space glyph is cached immediately.
    pub fn new() -> (r: Self)
        ensures
            r.wf(),
            r.glyphs().dom() =~= set![' ' as u32],
    {
        let mut rasterizer = font::new_rasterizer();
        let font_key = font::load_font(&mut rasterizer, "monospace", CELL_SIZE as u16);
        let space = Self::make_space_glyph();
        let mut rasterized_glyph_table: HashMap<u32, RasterizedGlyph> = HashMap::new();
        rasterized_glyph_table.insert(' ' as u32, space);
        GlyphManager { rasterizer, font_key, rasterized_glyph_table }
    }

    /// The blank full-cell bitmap that stands in for the space character.
    fn make_space_glyph() -> (g: RasterizedGlyph)
        ensures
            is_blank_space_glyph(g),
            glyph_wf(g),
    {
        let count = (CELL_SIZE * CELL_SIZE) as usize;
        let mut buffer: Vec<u8> = Vec::new();
        let mut i: usize = 0;
        while i < count
            invariant
                i <= count,
                buffer@ =~= Seq::new(i as nat, |j: int| 0u8),
            decreases count - i,
        {
            buffer.push(0u8);
            i = i + 1;
        }
        proof {
            assert(buffer@ =~= Seq::new((CELL_SIZE * CELL_SIZE) as nat, |j: int| 0u8));
        }
        RasterizedGlyph {
            character: ' ',
            width: CELL_SIZE,
            height: CELL_SIZE,
            top: 0,
            left: 0,
            advance: (0i32, 0i32),
            buffer,
        }
    }

    /// Turns whatever the font engine reported into a well-formed cache
    /// entry for `code`: dimensions are clamped into
    /// `[0, GLYPH_DIMENSION_LIMIT]` and the pixel bytes are reduced to one
    /// coverage byte per pixel, padded with zeroes where the engine handed
    /// back fewer bytes than the dimensions call for.
    pub fn normalize_glyph(code: char, raw: font::RawGlyph) -> (g: RasterizedGlyph)
        ensures
            glyph_wf(g),
            g.character == code,
            g.width == Self::clamped_dimension(raw.width),
            g.height == Self::clamped_dimension(raw.height),
            g.top == raw.top,
            g.left == raw.left,
            g.advance == raw.advance,
            g.buffer@ == reduced_channel(
                raw.bytes@,
                if raw.rgba { 4int } else { 3int },
                g.width as int * g.height as int,
            ),
    {
        let width = Self::clamp_dimension(raw.width);
        let height = Self::clamp_dimension(raw.height);
        let stride: usize = if raw.rgba { 4 } else { 3 };
        proof {
            assert((width as int) * (height as int) <= 16777216) by (nonlinear_arith)
                requires
                    width <= 4096,
                    height <= 4096,
            ;
        }
        let count = (width as usize) * (height as usize);
        let mut buffer: Vec<u8> = Vec::new();
        let mut i: usize = 0;
        while i < count
            invariant
                i <= count,
                count == width as int * height as int,
                count <= GLYPH_DIMENSION_LIMIT as int * GLYPH_DIMENSION_LIMIT as int,
                stride == if raw.rgba { 4int } else { 3int },
                buffer@ =~= reduced_channel(raw.bytes@, stride as int, i as int),
            decreases count - i,
        {
            let byte = if i <= usize::MAX / stride && stride * i < raw.bytes.len() {
                raw.bytes[stride * i]
            } else {
                0u8
            };
            proof {
                if i > usize::MAX / stride {
                    assert(stride * i > raw.bytes@.len());
                }
                assert(reduced_channel(raw.bytes@, stride as int, i as int + 1)
                    =~= reduced_channel(raw.bytes@, stride as int, i as int).push(byte));
            }
            buffer.push(byte);
            i = i + 1;
        }
        RasterizedGlyph {
            character: code,
            width,
            height,
            top: raw.top,
            left: raw.left,
            advance: raw.advance,
            buffer,
        }
    }

    /// A dimension reported by the font engine, forced into
    /// `[0, GLYPH_DIMENSION_LIMIT]`.
    pub open spec fn clamped_dimension(d: i32) -> u32 {
        if d < 0 {
            0u32
        } else if d > GLYPH_DIMENSION_LIMIT {
            GLYPH_DIMENSION_LIMIT
        } else {
            d as u32
        }
    }

    fn clamp_dimension(d: i32) -> (r: u32)
        ensures
            r == Self::clamped_dimension(d),
    {
        if d < 0 {
            0
        } else if d > GLYPH_DIMENSION_LIMIT as i32 {
            GLYPH_DIMENSION_LIMIT
        } else {
            d as u32
        }
    }

    /// Caches a caller-provided bitmap as the glyph for `code`, normalized
    /// exactly as a rasterized one would be; returns whether it was taken,
    /// which it is if and only if `code` had no cached glyph yet.  This is
    /// the deterministic counterpart of [`GlyphManager::extract`] for
    /// callers that bring their own bitmaps.
    pub fn insert_glyph(&mut self, code: char, raw: font::RawGlyph) -> (r: bool)
        requires
            old(self).wf(),
        ensures
            final(self).wf(),
            Self::extended_by(old(self).glyphs(), final(self).glyphs(), code),
            r == !old(self).glyphs().contains_key(code as u32),
            final(self).glyphs().contains_key(code as u32),
            r && code != ' ' ==> {
                let g = final(self).glyphs()[code as u32];
                &&& g.character == code
                &&& g.width == Self::clamped_dimension(raw.width)
                &&& g.height == Self::clamped_dimension(raw.height)
                &&& g.top == raw.top
                &&& g.left == raw.left
                &&& g.advance == raw.advance
                &&& g.buffer@ == reduced_channel(
                    raw.bytes@,
                    if raw.rgba { 4int } else { 3int },
                    g.width as int * g.height as int,
                )
            },
    {
        if self.rasterized_glyph_table.contains_key(&(code as u32)) {
            return false;
        }
        if code == ' ' {
            let space = Self::make_space_glyph();
            self.rasterized_glyph_table.insert(' ' as u32, space);
            return true;
        }
        let glyph = Self::normalize_glyph(code, raw);
        self.rasterized_glyph_table.insert(code as u32, glyph);
        true
    }

    /// Rasterizes and caches the glyph for `code` if it is not cached yet;
    /// returns whether the glyph is cached afterwards.  Extraction fails
    /// only for a character that the loaded font has no glyph for, and
    /// never for space, whose blank bitmap is synthesized locally.  A
    /// cached glyph is never re-rasterized or replaced.
    pub fn extract(&mut self, code: char) -> (r: bool)
        requires
            old(self).wf(),
        ensures
            final(self).wf(),
            Self::extended_by(old(self).glyphs(), final(self).glyphs(), code),
            r == final(self).glyphs().contains_key(code as u32),
            r ==> final(self).glyphs()[code as u32].character == code,
            old(self).glyphs().contains_key(code as u32) ==> final(self).glyphs() == old(self).glyphs(),
            !r ==> final(self).glyphs() == old(self).glyphs(),
            code == ' ' ==> r,
    {
        if self.rasterized_glyph_table.contains_key(&(code as u32)) {
            return true;
        }
        if code == ' ' {
            let space = Self::make_space_glyph();
            self.rasterized_glyph_table.insert(' ' as u32, space);
            return true;
        }
        match font::rasterize_glyph(&mut self.rasterizer, &self.font_key, code, CELL_SIZE as u16) {
            None => false,
            Some(raw) => {
                let glyph = Self::normalize_glyph(code, raw);
                self.rasterized_glyph_table.insert(code as u32, glyph);
                true
            },
        }
    }

    /// Front-loads extraction of the basic Latin alphabet, so that
    /// steady-state rendering of common text needs no rasterizer call.
    pub fn extract_alphabet(&mut self)
        requires
            old(self).wf(),
        ensures
            final(self).wf(),
            forall|k: u32|
                old(self).glyphs().contains_key(k) ==> final(self).glyphs().contains_key(k)
                    && final(self).glyphs()[k] == #[trigger] old(self).glyphs()[k],
            forall|k: u32| #[trigger]
                final(self).glyphs().contains_key(k) ==> old(self).glyphs().contains_key(k) || (
                'A' as u32 <= k <= 'z' as u32),
    {
        let ghost orig = self.glyphs();
        let mut c: u8 = 65;
        while c <= 122
            invariant
                self.wf(),
                65 <= c <= 123,
                forall|k: u32| #[trigger]
                    orig.contains_key(k) ==> self.glyphs().contains_key(k) && self.glyphs()[k]
                        == orig[k],
                forall|k: u32| #[trigger]
                    self.glyphs().contains_key(k) ==> orig.contains_key(k) || (65 <= k < c),
            decreases 123 - c,
        {
            let ghost table_before = self.glyphs();
            self.extract(c as char);
            proof {
                assert forall|k: u32| #[trigger] orig.contains_key(k) implies self.glyphs()
                    .contains_key(k) && self.glyphs()[k] == orig[k] by {
                    assert(table_before.contains_key(k) && table_before[k] == orig[k]);
                    assert(self.glyphs()[k] == table_before[k]);
                }
            }
            c = c + 1;
        }
    }

    /// The cached glyph for `code`, or the cached blank space glyph where
    /// `code` was never cached: a lookup never observes a missing entry,
    /// at the cost of rendering unknown characters blank.
    pub fn get_rasterized_glyph(&self, code: char) -> (g: &RasterizedGlyph)
        requires
            self.wf(),
        ensures
            *g == glyph_for(self.glyphs(), code),
            glyph_wf(*g),
            self.glyphs().contains_key(code as u32) ==> g.character == code,
            !self.glyphs().contains_key(code as u32) ==> g.character == ' ',
    {
        match self.rasterized_glyph_table.get(&(code as u32)) {
            Some(glyph) => glyph,
            None => self.rasterized_glyph_table.get(&(' ' as u32)).unwrap(),
        }
    }

    /// Extracts `code` and returns its cached glyph; returns None exactly
    /// on genuine rasterization failure.
    pub fn acquire_rasterized_glyph(&mut self, code: char) -> (r: Option<&RasterizedGlyph>)
        requires
            old(self).wf(),
        ensures
            final(self).wf(),
            Self::extended_by(old(self).glyphs(), final(self).glyphs(), code),
            match r {
                Some(g) => final(self).glyphs().contains_key(code as u32) && *g == final(self).glyphs()[code as u32] && g.character == code,
                None => !final(self).glyphs().contains_key(code as u32) && final(self).glyphs()
                    == old(self).glyphs(),
            },
    {
        if !self.extract(code) {
            return None;
        }
        self.rasterized_glyph_table.get(&(code as u32))
    }
}

} // verus!
