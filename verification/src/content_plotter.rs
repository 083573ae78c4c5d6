//! Content plotter: turns one terminal frame into GPU-ready draw data.
//!
//! [`ContentPlotter::calculate_diff`] takes a snapshot of the terminal's
//! cell grid, diffs it against the previous frame, packs the glyphs of the
//! changed cells into the atlas, and packages the result as a [`Diff`]:
//! atlas texture patches, one draw record per changed cell (screen
//! transform, resolved color, UV rectangle, destination index), the cursor
//! position, and the total cell count.
//!
//! All coordinates that the original pipeline computes in floating point
//! are carried here as exact rationals: a transform coefficient is an
//! integer numerator over an integer denominator, a color channel a
//! numerator over 255, a UV coordinate a numerator over the atlas size.

use vstd::prelude::*;
use vstd::slice::slice_to_vec;
use vstd::std_specs::cmp::PartialEqSpec;

use crate::diff::{diff_index_seq, diff_item_seq, DiffCalculator};
use crate::glyph_manager::{glyph_for, GlyphManager, RasterizedGlyph, CELL_SIZE};
use crate::glyph_writer::{clip_rect_spec, GlyphWriter, UvPoint, ATLAS_SIZE};

verus! {

/// A named terminal color, mirroring the standard ANSI palette names.
#[derive(Debug, Clone, Copy)]
pub enum NamedColor {
    Black,
    Red,
    Green,
    Yellow,
    Blue,
    Magenta,
    Cyan,
    White,
    BrightBlack,
    BrightRed,
    BrightGreen,
    BrightYellow,
    BrightBlue,
    BrightMagenta,
    BrightCyan,
    BrightWhite,
    Foreground,
    Background,
    Cursor,
    DimBlack,
    DimRed,
    DimGreen,
    DimYellow,
    DimBlue,
    DimMagenta,
    DimCyan,
    DimWhite,
    BrightForeground,
    DimForeground,
}

/// A direct RGB color, one byte per channel.
#[derive(Debug, Clone, Copy)]
pub struct Rgb {
    pub r: u8,
    pub g: u8,
    pub b: u8,
}

/// A cell's foreground color descriptor as the terminal reports it:
/// named, direct RGB, or indexed into the 256-color table.
#[derive(Debug, Clone, Copy)]
pub enum CellColor {
    Named(NamedColor),
    Spec(Rgb),
    Indexed(u8),
}

/// One terminal cell as the differencer sees it: character, foreground
/// color, and grid position (column and line).
#[derive(Debug, Clone, Copy)]
pub struct CellRecord {
    pub code: char,
    pub color: CellColor,
    pub column: usize,
    pub line: i32,
}

/// The cursor's grid position.
#[derive(Debug, Clone, Copy)]
pub struct CursorPosition {
    pub column: usize,
    pub line: i32,
}

/// One frame of the terminal as this pipeline consumes it: the cell grid
/// in row-major order and the cursor position.
pub struct RenderableContent {
    pub cells: Vec<CellRecord>,
    pub cursor: CursorPosition,
}

/// A resolved RGBA color, each channel a numerator over 255: a channel
/// value `v` stands for the intensity `v / 255`.
#[derive(Debug, Clone, Copy, PartialEq)]
pub struct ColorRgba {
    pub r: u8,
    pub g: u8,
    pub b: u8,
    pub a: u8,
}

/// A cell's screen transform as two exact rational affine maps, one per
/// axis: a point `p` of the glyph's unit square maps to
/// `(s_num * p + t_num) / den` in clip space.  It is the composition, in
/// this order, of the glyph pixel scale, the bearing and baseline
/// translation, the normalization to a 0.6 fraction of the viewport, the
/// view map onto clip space, and the grid position offset.
#[derive(Debug, Clone, Copy, PartialEq)]
pub struct CellTransform {
    pub sx_num: i64,
    pub sy_num: i64,
    pub tx_num: i64,
    pub ty_num: i64,
    pub x_den: i64,
    pub y_den: i64,
}

/// One draw record of a changed cell: destination index into the per-cell
/// GPU buffer, screen transform, resolved foreground color, and the
/// glyph's UV rectangle in the atlas.
#[derive(Debug, Clone, Copy)]
pub struct CharacterInfo {
    pub code: char,
    pub transform: CellTransform,
    pub fore_ground_color: ColorRgba,
    pub uv0: UvPoint,
    pub uv1: UvPoint,
    pub index: usize,
}

/// An atlas texture update for the GPU layer: a sub-rectangle and its
/// tightly-packed single-channel pixel bytes.
#[derive(Debug)]
pub struct GlyphTexturePatch {
    offset_x: u32,
    offset_y: u32,
    width: u32,
    height: u32,
    pixels: Vec<u8>,
}

impl PartialEq for NamedColor {
    fn eq(&self, other: &Self) -> (r: bool)
    {
        match (self, other) {
            (NamedColor::Black, NamedColor::Black) => true,
            (NamedColor::Red, NamedColor::Red) => true,
            (NamedColor::Green, NamedColor::Green) => true,
            (NamedColor::Yellow, NamedColor::Yellow) => true,
            (NamedColor::Blue, NamedColor::Blue) => true,
            (NamedColor::Magenta, NamedColor::Magenta) => true,
            (NamedColor::Cyan, NamedColor::Cyan) => true,
            (NamedColor::White, NamedColor::White) => true,
            (NamedColor::BrightBlack, NamedColor::BrightBlack) => true,
            (NamedColor::BrightRed, NamedColor::BrightRed) => true,
            (NamedColor::BrightGreen, NamedColor::BrightGreen) => true,
            (NamedColor::BrightYellow, NamedColor::BrightYellow) => true,
            (NamedColor::BrightBlue, NamedColor::BrightBlue) => true,
            (NamedColor::BrightMagenta, NamedColor::BrightMagenta) => true,
            (NamedColor::BrightCyan, NamedColor::BrightCyan) => true,
            (NamedColor::BrightWhite, NamedColor::BrightWhite) => true,
            (NamedColor::Foreground, NamedColor::Foreground) => true,
            (NamedColor::Background, NamedColor::Background) => true,
            (NamedColor::Cursor, NamedColor::Cursor) => true,
            (NamedColor::DimBlack, NamedColor::DimBlack) => true,
            (NamedColor::DimRed, NamedColor::DimRed) => true,
            (NamedColor::DimGreen, NamedColor::DimGreen) => true,
            (NamedColor::DimYellow, NamedColor::DimYellow) => true,
            (NamedColor::DimBlue, NamedColor::DimBlue) => true,
            (NamedColor::DimMagenta, NamedColor::DimMagenta) => true,
            (NamedColor::DimCyan, NamedColor::DimCyan) => true,
            (NamedColor::DimWhite, NamedColor::DimWhite) => true,
            (NamedColor::BrightForeground, NamedColor::BrightForeground) => true,
            (NamedColor::DimForeground, NamedColor::DimForeground) => true,
            _ => false,
        }
    }
}

impl vstd::std_specs::cmp::PartialEqSpecImpl for NamedColor {
    open spec fn obeys_eq_spec() -> bool {
        true
    }

    open spec fn eq_spec(&self, other: &Self) -> bool {
        *self == *other
    }
}

impl Eq for NamedColor {

}

impl PartialEq for CellColor {
    fn eq(&self, other: &Self) -> (r: bool)
    {
        match (self, other) {
            (CellColor::Named(a), CellColor::Named(b)) => a == b,
            (CellColor::Spec(a), CellColor::Spec(b)) => a.r == b.r && a.g == b.g && a.b == b.b,
            (CellColor::Indexed(a), CellColor::Indexed(b)) => a == b,
            _ => false,
        }
    }
}

impl vstd::std_specs::cmp::PartialEqSpecImpl for CellColor {
    open spec fn obeys_eq_spec() -> bool {
        true
    }

    open spec fn eq_spec(&self, other: &Self) -> bool {
        *self == *other
    }
}

impl Eq for CellColor {

}

impl PartialEq for CellRecord {
    fn eq(&self, other: &Self) -> (r: bool)
    {
        self.code == other.code && self.color == other.color && self.column == other.column
            && self.line == other.line
    }
}

impl vstd::std_specs::cmp::PartialEqSpecImpl for CellRecord {
    open spec fn obeys_eq_spec() -> bool {
        true
    }

    open spec fn eq_spec(&self, other: &Self) -> bool {
        *self == *other
    }
}

impl Eq for CellRecord {

}

/// The RGBA color of a named palette entry.  Names with no table entry
/// resolve to the defined default, transparent black.
pub open spec fn named_color_spec(color: NamedColor) -> ColorRgba {
    match color {
        NamedColor::Black => ColorRgba { r: 0, g: 0, b: 0, a: 0 },
        NamedColor::Red => ColorRgba { r: 255, g: 0, b: 0, a: 0 },
        NamedColor::Green => ColorRgba { r: 0, g: 255, b: 0, a: 0 },
        NamedColor::Yellow => ColorRgba { r: 255, g: 255, b: 0, a: 0 },
        NamedColor::Blue => ColorRgba { r: 0, g: 0, b: 204, a: 0 },
        NamedColor::White => ColorRgba { r: 255, g: 255, b: 255, a: 0 },
        NamedColor::Magenta => ColorRgba { r: 255, g: 0, b: 255, a: 0 },
        NamedColor::Cyan => ColorRgba { r: 87, g: 154, b: 205, a: 0 },
        NamedColor::BrightBlack => ColorRgba { r: 51, g: 51, b: 51, a: 0 },
        NamedColor::BrightBlue => ColorRgba { r: 0, g: 0, b: 255, a: 0 },
        NamedColor::BrightMagenta => ColorRgba { r: 255, g: 0, b: 255, a: 0 },
        NamedColor::BrightCyan => ColorRgba { r: 0, g: 255, b: 255, a: 0 },
        NamedColor::BrightWhite => ColorRgba { r: 204, g: 204, b: 204, a: 0 },
        NamedColor::Foreground => ColorRgba { r: 255, g: 255, b: 255, a: 0 },
        NamedColor::Background => ColorRgba { r: 255, g: 255, b: 255, a: 0 },
        _ => ColorRgba { r: 0, g: 0, b: 0, a: 0 },
    }
}

/// The RGBA color of an indexed palette entry.  The table is known
/// incomplete by design: an index with no entry resolves to white, the
/// defined fallback.
pub open spec fn index_color_spec(i: u8) -> ColorRgba {
    if i == 0 {
        named_color_spec(NamedColor::White)
    } else if i == 1 {
        named_color_spec(NamedColor::Magenta)
    } else if i == 2 {
        named_color_spec(NamedColor::Black)
    } else if i == 3 {
        named_color_spec(NamedColor::BrightBlack)
    } else if i == 4 {
        named_color_spec(NamedColor::White)
    } else if i == 5 {
        named_color_spec(NamedColor::BrightMagenta)
    } else if i == 6 {
        named_color_spec(NamedColor::BrightWhite)
    } else if i == 7 {
        named_color_spec(NamedColor::White)
    } else if i == 8 {
        named_color_spec(NamedColor::BrightBlack)
    } else if i == 10 {
        named_color_spec(NamedColor::BrightBlue)
    } else if i == 11 {
        named_color_spec(NamedColor::Green)
    } else if i == 12 {
        named_color_spec(NamedColor::Blue)
    } else if i == 13 {
        named_color_spec(NamedColor::Cyan)
    } else if i == 14 {
        named_color_spec(NamedColor::White)
    } else if i == 15 {
        named_color_spec(NamedColor::Green)
    } else if i == 48 || i == 81 || i == 149 || i == 208 || i == 243 {
        named_color_spec(NamedColor::White)
    } else {
        named_color_spec(NamedColor::White)
    }
}

/// The RGBA color of any cell color descriptor: named and indexed colors
/// resolve through the palette tables, direct RGB passes through with full
/// alpha.
pub open spec fn cell_color_spec(color: CellColor) -> ColorRgba {
    match color {
        CellColor::Named(name) => named_color_spec(name),
        CellColor::Spec(rgb) => ColorRgba { r: rgb.r, g: rgb.g, b: rgb.b, a: 255 },
        CellColor::Indexed(i) => index_color_spec(i),
    }
}

/// A cell whose grid column fits the transform arithmetic; terminal grids
/// are bounded by the viewport, far below this.
pub open spec fn cell_in_range(cell: CellRecord) -> bool {
    cell.column <= u32::MAX
}

/// The draw record that a changed cell must produce, given the glyph
/// cache, the atlas map, the cell, its frame position, and the viewport
/// size in pixels.
///
/// The transform applies, in this order: the scale of the unit square to
/// the glyph's pixel size, the translation by the left bearing and by the
/// baseline drop below the cell top, the normalization that renders the
/// glyph at 3/5 of its size relative to the viewport, the view map from
/// the unit square onto clip space (scale two, translate minus one), and
/// last the grid offset of sixteen viewport-normalized units per cell.
/// Folded into one rational map per axis that composition gives, for a
/// viewport side `v`, the scale `(6 * size) / (5 * v)` and the
/// translations `(6 * left + 80 * column - 5 * v) / (5 * v)` and
/// `(6 * (cell - top) + 80 * line - 5 * v) / (5 * v)`.
pub open spec fn info_matches(
    info: CharacterInfo,
    glyphs: Map<u32, RasterizedGlyph>,
    slots: Map<u32, crate::glyph_writer::CharacterCache>,
    cell: CellRecord,
    idx: usize,
    size: (u32, u32),
) -> bool {
    let g = glyph_for(glyphs, cell.code);
    let uv = clip_rect_spec(slots, cell.code);
    &&& info.code == cell.code
    &&& info.index == idx
    &&& info.fore_ground_color == cell_color_spec(cell.color)
    &&& info.uv0 == uv.uv_begin
    &&& info.uv1 == uv.uv_end
    &&& info.transform.sx_num == 6 * g.width
    &&& info.transform.sy_num == 6 * g.height
    &&& info.transform.tx_num == 6 * g.left + 80 * cell.column - 5 * size.0
    &&& info.transform.ty_num == 6 * (CELL_SIZE - g.top) + 80 * cell.line - 5 * size.1
    &&& info.transform.x_den == 5 * size.0
    &&& info.transform.y_den == 5 * size.1
}

/// Diff minimality: two consecutive frames of equal length that differ at
/// exactly one cell produce a diff of exactly that cell, so the plotter's
/// draw-record array for such a frame has exactly one entry, at the
/// changed position.
pub proof fn lemma_single_cell_change(prev: Seq<CellRecord>, cells: Seq<CellRecord>, i: int)
    requires
        prev.len() == cells.len(),
        cells.len() <= usize::MAX,
        0 <= i < cells.len(),
        prev[i] != cells[i],
        forall|j: int| 0 <= j < cells.len() && j != i ==> #[trigger] prev[j] == cells[j],
    ensures
        diff_index_seq(prev, cells) =~= seq![i as usize],
        diff_item_seq(prev, cells) =~= seq![cells[i]],
{
    assert forall|j: int| 0 <= j < cells.len() && j != i implies #[trigger] prev[j].eq_spec(
        &cells[j],
    ) by {
        assert(prev[j] == cells[j]);
    }
    crate::diff::lemma_diff_minimality(prev, cells, i);
}

impl GlyphTexturePatch {
    /// Pixel offset of the patch's left edge in the atlas.
    pub closed spec fn spec_offset_x(self) -> u32 {
        self.offset_x
    }

    /// Pixel offset of the patch's top edge in the atlas.
    pub closed spec fn spec_offset_y(self) -> u32 {
        self.offset_y
    }

    /// Pixel width of the patch.
    pub closed spec fn spec_width(self) -> u32 {
        self.width
    }

    /// Pixel height of the patch.
    pub closed spec fn spec_height(self) -> u32 {
        self.height
    }

    /// The patch's pixel bytes, one coverage byte per pixel, row-major.
    pub closed spec fn spec_pixels(self) -> Seq<u8> {
        self.pixels@
    }

    /// Pixel offset of the patch's left edge in the atlas.
    pub fn offset_x(&self) -> (r: u32)
        ensures
            r == self.spec_offset_x(),
    {
        self.offset_x
    }

    /// Pixel offset of the patch's top edge in the atlas.
    pub fn offset_y(&self) -> (r: u32)
        ensures
            r == self.spec_offset_y(),
    {
        self.offset_y
    }

    /// Pixel width of the patch.
    pub fn width(&self) -> (r: u32)
        ensures
            r == self.spec_width(),
    {
        self.width
    }

    /// Pixel height of the patch.
    pub fn height(&self) -> (r: u32)
        ensures
            r == self.spec_height(),
    {
        self.height
    }

    /// The patch's pixel bytes, one coverage byte per pixel, row-major.
    pub fn pixels(&self) -> (r: &[u8])
        ensures
            r@ == self.spec_pixels(),
    {
        self.pixels.as_slice()
    }
}

/// The characters of a run of cell records, in order.
pub open spec fn codes_of(cells: Seq<CellRecord>) -> Seq<char> {
    cells.map_values(|c: CellRecord| c.code)
}

/// A texture patch carries exactly what the packing model describes.
pub open spec fn tex_patch_matches(
    p: GlyphTexturePatch,
    m: crate::glyph_writer::PatchModel,
) -> bool {
    &&& p.spec_offset_x() == m.x
    &&& p.spec_offset_y() == m.y
    &&& p.spec_width() == m.width
    &&& p.spec_height() == m.height
    &&& p.spec_pixels() == m.pixels
}

/// A texture patch that fits inside the atlas image, with exactly one
/// byte per pixel of its rectangle.
pub open spec fn tex_patch_wf(p: GlyphTexturePatch) -> bool {
    &&& p.spec_offset_x() + p.spec_width() <= ATLAS_SIZE
    &&& p.spec_offset_y() + p.spec_height() <= ATLAS_SIZE
    &&& p.spec_pixels().len() == p.spec_width() as int * p.spec_height() as int
}

/// Everything the GPU layer needs to bring one frame up to date: atlas
/// texture patches for newly packed glyphs, one draw record per changed
/// cell, the cursor position, and the total live cell count.
pub struct Diff {
    glyph_texture_patches: Vec<GlyphTexturePatch>,
    character_info_array: Vec<CharacterInfo>,
    cursor: Option<CursorPosition>,
    item_count: i32,
}

impl Diff {
    /// The atlas texture patches of the frame.
    pub closed spec fn spec_patches(self) -> Seq<GlyphTexturePatch> {
        self.glyph_texture_patches@
    }

    /// The draw records of the frame's changed cells.
    pub closed spec fn spec_infos(self) -> Seq<CharacterInfo> {
        self.character_info_array@
    }

    /// The cursor position of the frame.
    pub closed spec fn spec_cursor(self) -> Option<CursorPosition> {
        self.cursor
    }

    /// The total live cell count of the frame.
    pub closed spec fn spec_item_count(self) -> i32 {
        self.item_count
    }

    /// The atlas texture patches of the frame.
    pub fn glyph_texture_patches(&self) -> (r: &[GlyphTexturePatch])
        ensures
            r@ == self.spec_patches(),
    {
        self.glyph_texture_patches.as_slice()
    }

    /// The draw records of the frame's changed cells.
    pub fn character_info_array(&self) -> (r: &[CharacterInfo])
        ensures
            r@ == self.spec_infos(),
    {
        self.character_info_array.as_slice()
    }

    /// The cursor position of the frame.
    pub fn cursor(&self) -> (r: Option<&CursorPosition>)
        ensures
            match r {
                Some(c) => self.spec_cursor() == Some(*c),
                None => self.spec_cursor() is None,
            },
    {
        self.cursor.as_ref()
    }

    /// The total live cell count of the frame.
    pub fn item_count(&self) -> (r: i32)
        ensures
            r == self.spec_item_count(),
    {
        self.item_count
    }
}

/// Orchestrates the pipeline once per frame: the frame differencer's
/// previous-frame cache and the atlas packer's character map are the only
/// state carried between calls.
pub struct ContentPlotter {
    glyph_writer: GlyphWriter,
    diff_calculator: DiffCalculator<CellRecord>,
}

impl ContentPlotter {
    /// The previous frame's cell records, against which the next call
    /// diffs.
    pub closed spec fn previous(self) -> Seq<CellRecord> {
        self.diff_calculator.previous()
    }

    /// The atlas packer's character-to-cell map.
    pub closed spec fn slots(self) -> Map<u32, crate::glyph_writer::CharacterCache> {
        self.glyph_writer.slots()
    }

    /// The atlas packer's row-major grid cursor.
    pub closed spec fn cursor(self) -> (u32, u32) {
        self.glyph_writer.cursor()
    }

    /// The plotter's atlas packer is well-formed.
    pub closed spec fn wf(self) -> bool {
        self.glyph_writer.wf()
    }

    /// A plotter with an empty previous frame and an empty atlas, so that
    /// the first frame registers as all-changed.
    pub fn new() -> (r: Self)
        ensures
            r.wf(),
            r.previous() == Seq::<CellRecord>::empty(),
            r.slots() == Map::<u32, crate::glyph_writer::CharacterCache>::empty(),
    {
        ContentPlotter { glyph_writer: GlyphWriter::new(), diff_calculator: DiffCalculator::new() }
    }

    /// The RGBA color of a named palette entry; names with no table entry
    /// resolve to the defined default.
    pub fn convert_named_color(color: NamedColor) -> (r: ColorRgba)
        ensures
            r == named_color_spec(color),
    {
        match color {
            NamedColor::Black => ColorRgba { r: 0, g: 0, b: 0, a: 0 },
            NamedColor::Red => ColorRgba { r: 255, g: 0, b: 0, a: 0 },
            NamedColor::Green => ColorRgba { r: 0, g: 255, b: 0, a: 0 },
            NamedColor::Yellow => ColorRgba { r: 255, g: 255, b: 0, a: 0 },
            NamedColor::Blue => ColorRgba { r: 0, g: 0, b: 204, a: 0 },
            NamedColor::White => ColorRgba { r: 255, g: 255, b: 255, a: 0 },
            NamedColor::Magenta => ColorRgba { r: 255, g: 0, b: 255, a: 0 },
            NamedColor::Cyan => ColorRgba { r: 87, g: 154, b: 205, a: 0 },
            NamedColor::BrightBlack => ColorRgba { r: 51, g: 51, b: 51, a: 0 },
            NamedColor::BrightBlue => ColorRgba { r: 0, g: 0, b: 255, a: 0 },
            NamedColor::BrightMagenta => ColorRgba { r: 255, g: 0, b: 255, a: 0 },
            NamedColor::BrightCyan => ColorRgba { r: 0, g: 255, b: 255, a: 0 },
            NamedColor::BrightWhite => ColorRgba { r: 204, g: 204, b: 204, a: 0 },
            NamedColor::Foreground => ColorRgba { r: 255, g: 255, b: 255, a: 0 },
            NamedColor::Background => ColorRgba { r: 255, g: 255, b: 255, a: 0 },
            _ => ColorRgba { r: 0, g: 0, b: 0, a: 0 },
        }
    }

    /// The RGBA color of an indexed palette entry; an index with no table
    /// entry resolves to white, the defined fallback.
    pub fn convert_index_color(i: u8) -> (r: ColorRgba)
        ensures
            r == index_color_spec(i),
    {
        if i == 0 {
            Self::convert_named_color(NamedColor::White)
        } else if i == 1 {
            Self::convert_named_color(NamedColor::Magenta)
        } else if i == 2 {
            Self::convert_named_color(NamedColor::Black)
        } else if i == 3 {
            Self::convert_named_color(NamedColor::BrightBlack)
        } else if i == 4 {
            Self::convert_named_color(NamedColor::White)
        } else if i == 5 {
            Self::convert_named_color(NamedColor::BrightMagenta)
        } else if i == 6 {
            Self::convert_named_color(NamedColor::BrightWhite)
        } else if i == 7 {
            Self::convert_named_color(NamedColor::White)
        } else if i == 8 {
            Self::convert_named_color(NamedColor::BrightBlack)
        } else if i == 10 {
            Self::convert_named_color(NamedColor::BrightBlue)
        } else if i == 11 {
            Self::convert_named_color(NamedColor::Green)
        } else if i == 12 {
            Self::convert_named_color(NamedColor::Blue)
        } else if i == 13 {
            Self::convert_named_color(NamedColor::Cyan)
        } else if i == 14 {
            Self::convert_named_color(NamedColor::White)
        } else if i == 15 {
            Self::convert_named_color(NamedColor::Green)
        } else if i == 48 || i == 81 || i == 149 || i == 208 || i == 243 {
            Self::convert_named_color(NamedColor::White)
        } else {
            Self::convert_named_color(NamedColor::White)
        }
    }

    /// Turns the frame `content` into the minimal set of changes the GPU
    /// layer needs: exactly one draw record per changed cell (in position
    /// order, with its exact transform, color and UV rectangle), the atlas
    /// patches of the newly packed characters, the cursor, and the total
    /// cell count.  A frame equal to the previous one produces no draw
    /// records and no patches.
    pub fn calculate_diff(
        &mut self,
        content: &RenderableContent,
        glyph_manager: &mut GlyphManager,
        size: (u32, u32),
    ) -> (r: Diff)
        requires
            old(self).wf(),
            old(glyph_manager).wf(),
            size.0 >= 1,
            size.1 >= 1,
            content.cells@.len() <= 0x7fffffff,
            forall|j: int|
                0 <= j < content.cells@.len() ==> cell_in_range(#[trigger] content.cells@[j]),
        ensures
            final(self).wf(),
            final(glyph_manager).wf(),
            final(self).previous() == content.cells@,
            forall|k: u32| #[trigger]
                old(self).slots().contains_key(k) ==> final(self).slots().contains_key(k)
                    && final(self).slots()[k] == old(self).slots()[k],
            forall|k: u32| #[trigger]
                old(glyph_manager).glyphs().contains_key(k) ==> final(glyph_manager).glyphs().contains_key(k) && final(glyph_manager).glyphs()[k] == old(glyph_manager).glyphs()[k],
            r.spec_item_count() == content.cells@.len(),
            r.spec_cursor() == Some(content.cursor),
            r.spec_infos().len() == diff_index_seq(old(self).previous(), content.cells@).len(),
            forall|k: int|
                0 <= k < r.spec_infos().len() ==> {
                    let idxs = diff_index_seq(old(self).previous(), content.cells@);
                    info_matches(
                        #[trigger] r.spec_infos()[k],
                        final(glyph_manager).glyphs(),
                        final(self).slots(),
                        content.cells@[idxs[k] as int],
                        idxs[k],
                        size,
                    )
                },
            forall|k: int|
                0 <= k < r.spec_infos().len() ==> (#[trigger] r.spec_infos()[k]).index
                    < content.cells@.len(),
            forall|k: int| 0 <= k < r.spec_patches().len() ==> tex_patch_wf(#[trigger] r.spec_patches()[k]),
            r.spec_patches().len() == final(self).slots().dom().len() - old(self).slots().dom().len(),
            old(self).previous() == content.cells@ ==> r.spec_infos().len() == 0
                && r.spec_patches().len() == 0,
            crate::glyph_writer::all_packable(
                codes_of(diff_item_seq(old(self).previous(), content.cells@)),
                old(glyph_manager).glyphs(),
            ) ==> {
                let t = crate::glyph_writer::pack_trace(
                    crate::glyph_writer::pack_start(
                        old(self).slots(),
                        old(self).cursor().0,
                        old(self).cursor().1,
                    ),
                    codes_of(diff_item_seq(old(self).previous(), content.cells@)),
                    old(glyph_manager).glyphs(),
                );
                &&& final(self).slots() == t.slots
                &&& r.spec_patches().len() == t.patches.len()
                &&& forall|k: int|
                    0 <= k < r.spec_patches().len() ==> tex_patch_matches(
                        #[trigger] r.spec_patches()[k],
                        t.patches[k],
                    )
            },
    {
        let ghost prev = self.diff_calculator.previous();
        let n = content.cells.len();

        // Materialize the snapshot's cells; this is the only point where
        // the snapshot is read.
        let mut records: Vec<CellRecord> = Vec::new();
        let mut i: usize = 0;
        while i < n
            invariant
                n == content.cells@.len(),
                i <= n,
                records@ =~= content.cells@.take(i as int),
            decreases n - i,
        {
            records.push(content.cells[i]);
            i = i + 1;
        }
        proof {
            assert(records@ =~= content.cells@);
        }

        // Diff against the previous frame.
        let frame_diff = self.diff_calculator.calculate(records);
        let changed = frame_diff.items();
        let indices = frame_diff.indicies();
        proof {
            crate::diff::lemma_diff_characterization(prev, content.cells@);
            if prev == content.cells@ {
                assert forall|j: int|
                    0 <= j < content.cells@.len() implies #[trigger] prev[j].eq_spec(
                    &content.cells@[j],
                ) by {
                    assert(prev[j] == content.cells@[j]);
                }
                crate::diff::lemma_no_change_frame(prev, content.cells@);
            }
        }

        // Pack the changed cells' characters in one batch.
        let mut codes: Vec<char> = Vec::new();
        let mut k: usize = 0;
        while k < changed.len()
            invariant
                k <= changed@.len(),
                codes@.len() == k as int,
                forall|j: int| 0 <= j < k ==> #[trigger] codes@[j] == changed@[j].code,
            decreases changed@.len() - k,
        {
            codes.push(changed[k].code);
            k = k + 1;
        }
        proof {
            assert(codes@ =~= codes_of(changed@));
        }
        let glyph_patches = self.glyph_writer.execute(&codes, glyph_manager);

        // Resolve each changed cell into a draw record.
        let ghost idxs = diff_index_seq(prev, content.cells@);
        let mut infos: Vec<CharacterInfo> = Vec::new();
        let mut k: usize = 0;
        while k < changed.len()
            invariant
                self.wf(),
                glyph_manager.wf(),
                size.0 >= 1,
                size.1 >= 1,
                changed@ == diff_item_seq(prev, content.cells@),
                indices@ == idxs,
                idxs == diff_index_seq(prev, content.cells@),
                changed@.len() == idxs.len(),
                forall|j: int|
                    0 <= j < idxs.len() ==> (#[trigger] idxs[j]) < content.cells@.len()
                        && diff_item_seq(prev, content.cells@)[j] == content.cells@[idxs[j] as int],
                forall|j: int|
                    0 <= j < content.cells@.len() ==> cell_in_range(#[trigger] content.cells@[j]),
                k <= changed@.len(),
                infos@.len() == k as int,
                forall|j: int|
                    0 <= j < k ==> info_matches(
                        #[trigger] infos@[j],
                        glyph_manager.glyphs(),
                        self.slots(),
                        content.cells@[idxs[j] as int],
                        idxs[j],
                        size,
                    ),
            decreases changed@.len() - k,
        {
            let cell = changed[k];
            let cell_index = indices[k];
            proof {
                assert(cell == content.cells@[idxs[k as int] as int]);
                assert(cell_in_range(cell));
            }
            let glyph = glyph_manager.get_rasterized_glyph(cell.code);

            let sx_num: i64 = 6 * (glyph.width as i64);
            let sy_num: i64 = 6 * (glyph.height as i64);
            let tx_num: i64 = 6 * (glyph.left as i64) + 80 * (cell.column as i64) - 5 * (
            size.0 as i64);
            let ty_num: i64 = 6 * ((CELL_SIZE as i64) - (glyph.top as i64)) + 80 * (
            cell.line as i64) - 5 * (size.1 as i64);
            let transform = CellTransform {
                sx_num,
                sy_num,
                tx_num,
                ty_num,
                x_den: 5 * (size.0 as i64),
                y_den: 5 * (size.1 as i64),
            };

            let character = self.glyph_writer.get_clip_rect(cell.code);
            let fore_ground_color = match cell.color {
                CellColor::Named(name) => Self::convert_named_color(name),
                CellColor::Spec(rgb) => ColorRgba { r: rgb.r, g: rgb.g, b: rgb.b, a: 255 },
                CellColor::Indexed(idx) => Self::convert_index_color(idx),
            };

            infos.push(
                CharacterInfo {
                    code: cell.code,
                    transform,
                    fore_ground_color,
                    uv0: character.uv_begin,
                    uv1: character.uv_end,
                    index: cell_index,
                },
            );
            k = k + 1;
        }

        // Re-package the atlas patches for the GPU layer.
        let mut glyph_texture_patches: Vec<GlyphTexturePatch> = Vec::new();
        let mut k: usize = 0;
        while k < glyph_patches.len()
            invariant
                k <= glyph_patches@.len(),
                glyph_texture_patches@.len() == k as int,
                forall|j: int|
                    0 <= j < glyph_patches@.len() ==> crate::glyph_writer::patch_wf(
                        #[trigger] glyph_patches@[j],
                    ),
                forall|j: int| 0 <= j < k ==> tex_patch_wf(#[trigger] glyph_texture_patches@[j]),
                forall|j: int|
                    0 <= j < k ==> {
                        let p = #[trigger] glyph_texture_patches@[j];
                        &&& p.spec_offset_x() == glyph_patches@[j].spec_offset_x()
                        &&& p.spec_offset_y() == glyph_patches@[j].spec_offset_y()
                        &&& p.spec_width() == glyph_patches@[j].spec_width()
                        &&& p.spec_height() == glyph_patches@[j].spec_height()
                        &&& p.spec_pixels() == glyph_patches@[j].spec_pixels()
                    },
            decreases glyph_patches@.len() - k,
        {
            let patch = &glyph_patches[k];
            glyph_texture_patches.push(
                GlyphTexturePatch {
                    offset_x: patch.offset_x(),
                    offset_y: patch.offset_y(),
                    width: patch.width(),
                    height: patch.height(),
                    pixels: slice_to_vec(patch.pixels()),
                },
            );
            k = k + 1;
        }

        let item_count = n as i32;
        Diff {
            glyph_texture_patches,
            character_info_array: infos,
            cursor: Some(content.cursor),
            item_count,
        }
    }
}

} // verus!
