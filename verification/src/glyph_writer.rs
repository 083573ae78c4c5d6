//! Glyph atlas packer.
//!
//! [`GlyphWriter`] assigns each newly-seen character a fixed-size cell of a
//! fixed-dimension atlas image, in row-major order over a grid of
//! [`CELLS_PER_ROW`] cells per row and [`CELLS_PER_ROW`] rows, and emits
//! one texture patch per newly packed character.  A character already
//! packed keeps its cell forever, so repeated packing is idempotent and a
//! character's UV rectangle never moves.  Once every grid cell is taken,
//! further new characters are skipped: the atlas never reassigns or
//! overflows a cell.  The space character carries no visible pixels and is
//! special-cased to a sentinel cell outside the grid.

use std::collections::HashMap;
use vstd::prelude::*;

use crate::glyph_manager::{glyph_wf, GlyphManager, RasterizedGlyph};

verus! {

broadcast use vstd::std_specs::hash::group_hash_axioms, vstd::set::group_set_axioms;

/// Pixel width and height of the atlas image.
pub const ATLAS_SIZE: u32 = 4096;

/// Pixel width and height of one atlas grid cell.
pub const ATLAS_CELL: u32 = 64;

/// Number of grid cells per atlas row, and number of rows.
pub const CELLS_PER_ROW: u32 = 64;

/// Number of pixels in the whole atlas image.
pub const ATLAS_PIXEL_COUNT: usize = 4096 * 4096;

/// A character's cell in the atlas: pixel offset and pixel size.
#[derive(Clone, Copy)]
pub struct CharacterCache {
    pub x: u32,
    pub y: u32,
    pub width: u32,
    pub height: u32,
}

/// The UV rectangle of a packed character, as numerators over
/// [`ATLAS_SIZE`]: a pixel offset `p` stands for the normalized
/// coordinate `p / 4096`.
pub struct CharacterData {
    pub uv_begin: UvPoint,
    pub uv_end: UvPoint,
}

/// One corner of a UV rectangle, as numerators over [`ATLAS_SIZE`].
#[derive(Debug, Clone, Copy, PartialEq)]
pub struct UvPoint {
    pub x: u32,
    pub y: u32,
}

/// An atlas sub-rectangle update: pixel offset, pixel size, and
/// tightly-packed single-channel pixel bytes to upload there.
pub struct GlyphImagePatch {
    offset_x: u32,
    offset_y: u32,
    width: u32,
    height: u32,
    pixel_data: Vec<u8>,
}

/// A slot that lies inside the atlas image.
pub open spec fn slot_wf(s: CharacterCache) -> bool {
    &&& s.x + s.width <= ATLAS_SIZE
    &&& s.y + s.height <= ATLAS_SIZE
}

/// The sentinel cell for the space character, outside the packing grid.
pub open spec fn space_slot() -> CharacterCache {
    CharacterCache { x: 4000, y: 4000, width: 32, height: 32 }
}

/// The pixels of a glyph bitmap of width `src_width`, clipped to its top
/// left `w` by `h` corner, row-major.
pub open spec fn clip_pixels(buffer: Seq<u8>, src_width: int, w: int, h: int) -> Seq<u8> {
    Seq::new((w * h) as nat, |i: int| buffer[(i / w) * src_width + i % w])
}

/// An all-blank bitmap of the sentinel space cell's size.
pub open spec fn blank_space_pixels() -> Seq<u8> {
    Seq::new((32 * 32) as nat, |i: int| 0u8)
}

/// One emitted atlas patch, as the packing model describes it.
pub ghost struct PatchModel {
    pub x: u32,
    pub y: u32,
    pub width: u32,
    pub height: u32,
    pub pixels: Seq<u8>,
}

/// The state of the packer as the packing model describes it: the
/// character-to-cell map, the row-major grid cursor, and the patches
/// emitted so far.
pub ghost struct PackState {
    pub slots: Map<u32, CharacterCache>,
    pub cx: u32,
    pub cy: u32,
    pub patches: Seq<PatchModel>,
}

/// A packer state with no patches emitted yet.
pub open spec fn pack_start(slots: Map<u32, CharacterCache>, cx: u32, cy: u32) -> PackState {
    PackState { slots, cx, cy, patches: Seq::empty() }
}

/// The next free grid cell, as a slot clipped to the given glyph's size
/// (at most one atlas cell).
pub open spec fn grid_slot(cx: u32, cy: u32, g: RasterizedGlyph) -> CharacterCache {
    CharacterCache {
        x: (cx * ATLAS_CELL) as u32,
        y: (cy * ATLAS_CELL) as u32,
        width: if g.width < ATLAS_CELL { g.width } else { ATLAS_CELL },
        height: if g.height < ATLAS_CELL { g.height } else { ATLAS_CELL },
    }
}

/// How packing one character changes the packer state, given the cached
/// glyph bitmaps: a character already packed changes nothing; space takes
/// the sentinel cell and a blank patch; a character with a cached glyph
/// takes the cursor's grid cell, clipped to the glyph size, unless the
/// grid is full; a character without a cached glyph changes nothing.
pub open spec fn pack_step(
    st: PackState,
    code: char,
    glyphs: Map<u32, RasterizedGlyph>,
) -> PackState {
    let k = code as u32;
    if st.slots.contains_key(k) {
        st
    } else if code == ' ' {
        PackState {
            slots: st.slots.insert(k, space_slot()),
            cx: st.cx,
            cy: st.cy,
            patches: st.patches.push(
                PatchModel {
                    x: 4000,
                    y: 4000,
                    width: 32,
                    height: 32,
                    pixels: clip_pixels(blank_space_pixels(), 32, 32, 32),
                },
            ),
        }
    } else if !glyphs.contains_key(k) {
        st
    } else if st.cy >= CELLS_PER_ROW {
        st
    } else {
        let g = glyphs[k];
        let slot = grid_slot(st.cx, st.cy, g);
        PackState {
            slots: st.slots.insert(k, slot),
            cx: ((st.cx + 1) % (CELLS_PER_ROW as int)) as u32,
            cy: (st.cy + (st.cx + 1) / (CELLS_PER_ROW as int)) as u32,
            patches: st.patches.push(
                PatchModel {
                    x: slot.x,
                    y: slot.y,
                    width: slot.width,
                    height: slot.height,
                    pixels: clip_pixels(
                        g.buffer@,
                        g.width as int,
                        slot.width as int,
                        slot.height as int,
                    ),
                },
            ),
        }
    }
}

/// The packer state after packing `codes` in order, given the cached
/// glyph bitmaps.
pub open spec fn pack_trace(
    st: PackState,
    codes: Seq<char>,
    glyphs: Map<u32, RasterizedGlyph>,
) -> PackState
    decreases codes.len(),
{
    if codes.len() == 0 {
        st
    } else {
        pack_step(pack_trace(st, codes.drop_last(), glyphs), codes.last(), glyphs)
    }
}

/// Every character of `codes` is either space or has a cached glyph: on
/// such an input, packing is deterministic and the packing model predicts
/// it exactly.
pub open spec fn all_packable(codes: Seq<char>, glyphs: Map<u32, RasterizedGlyph>) -> bool {
    forall|j: int|
        0 <= j < codes.len() ==> (#[trigger] codes[j]) == ' ' || glyphs.contains_key(
            codes[j] as u32,
        )
}

/// A character the packer has nothing left to do for, in the given state:
/// it has a cell, or it is not space and has no cached glyph to pack, or
/// it is not space and the grid is full.
pub open spec fn code_settled(st: PackState, code: char, glyphs: Map<u32, RasterizedGlyph>) -> bool {
    ||| st.slots.contains_key(code as u32)
    ||| (code != ' ' && !glyphs.contains_key(code as u32))
    ||| (code != ' ' && st.cy >= CELLS_PER_ROW)
}

/// Packing one character keeps every assigned cell and never moves the
/// cursor backwards.
proof fn lemma_pack_step_monotone(st: PackState, code: char, glyphs: Map<u32, RasterizedGlyph>)
    ensures
        forall|k: u32| #[trigger]
            st.slots.contains_key(k) ==> pack_step(st, code, glyphs).slots.contains_key(k)
                && pack_step(st, code, glyphs).slots[k] == st.slots[k],
        pack_step(st, code, glyphs).cy >= st.cy,
{
}

/// After a packing pass, every character of its input is settled: packed,
/// without a glyph to pack, or shut out by a full grid that stays full.
proof fn lemma_pack_trace_settles(st: PackState, codes: Seq<char>, glyphs: Map<u32, RasterizedGlyph>)
    ensures
        pack_trace(st, codes, glyphs).cy >= st.cy,
        forall|j: int|
            0 <= j < codes.len() ==> code_settled(
                pack_trace(st, codes, glyphs),
                #[trigger] codes[j],
                glyphs,
            ),
    decreases codes.len(),
{
    if codes.len() > 0 {
        let pre = codes.drop_last();
        lemma_pack_trace_settles(st, pre, glyphs);
        let t_pre = pack_trace(st, pre, glyphs);
        let t = pack_trace(st, codes, glyphs);
        lemma_pack_step_monotone(t_pre, codes.last(), glyphs);
        assert forall|j: int| 0 <= j < codes.len() implies code_settled(
            t,
            #[trigger] codes[j],
            glyphs,
        ) by {
            if j < codes.len() - 1 {
                assert(codes[j] == pre[j]);
                assert(code_settled(t_pre, pre[j], glyphs));
            }
        }
    }
}

/// Packing a sequence of settled characters changes nothing and emits no
/// patch.
proof fn lemma_pack_trace_of_settled(
    st: PackState,
    codes: Seq<char>,
    glyphs: Map<u32, RasterizedGlyph>,
)
    requires
        forall|j: int| 0 <= j < codes.len() ==> code_settled(st, #[trigger] codes[j], glyphs),
    ensures
        pack_trace(st, codes, glyphs) == st,
    decreases codes.len(),
{
    if codes.len() > 0 {
        let pre = codes.drop_last();
        assert(forall|j: int| 0 <= j < pre.len() ==> pre[j] == codes[j]);
        lemma_pack_trace_of_settled(st, pre, glyphs);
    }
}

/// Idempotent packing: a second packing pass over the same characters,
/// started from the state the first pass left behind, assigns no new
/// cell, leaves every assigned cell (and so every UV rectangle) exactly
/// where the first pass put it, and emits no patch.
pub proof fn lemma_idempotent_packing(
    st: PackState,
    codes: Seq<char>,
    glyphs: Map<u32, RasterizedGlyph>,
)
    ensures
        ({
            let first = pack_trace(st, codes, glyphs);
            let second = pack_trace(pack_start(first.slots, first.cx, first.cy), codes, glyphs);
            &&& second.slots == first.slots
            &&& second.cx == first.cx
            &&& second.cy == first.cy
            &&& second.patches.len() == 0
        }),
{
    let first = pack_trace(st, codes, glyphs);
    let restart = pack_start(first.slots, first.cx, first.cy);
    lemma_pack_trace_settles(st, codes, glyphs);
    assert forall|j: int| 0 <= j < codes.len() implies code_settled(
        restart,
        #[trigger] codes[j],
        glyphs,
    ) by {
        assert(code_settled(first, codes[j], glyphs));
    }
    lemma_pack_trace_of_settled(restart, codes, glyphs);
}

impl GlyphImagePatch {
    /// Pixel offset of the patch's left edge in the atlas.
    pub closed spec fn spec_offset_x(self) -> u32 {
        self.offset_x
    }

    /// Pixel offset of the patch's top edge in the atlas.
    pub closed spec fn spec_offset_y(self) -> u32 {
        self.offset_y
    }

    /// Pixel width of the patch.
    pub closed spec fn spec_width(self) -> u32 {
        self.width
    }

    /// Pixel height of the patch.
    pub closed spec fn spec_height(self) -> u32 {
        self.height
    }

    /// The patch's pixel bytes, one coverage byte per pixel, row-major.
    pub closed spec fn spec_pixels(self) -> Seq<u8> {
        self.pixel_data@
    }

    /// Pixel offset of the patch's left edge in the atlas.
    pub fn offset_x(&self) -> (r: u32)
        ensures
            r == self.spec_offset_x(),
    {
        self.offset_x
    }

    /// Pixel offset of the patch's top edge in the atlas.
    pub fn offset_y(&self) -> (r: u32)
        ensures
            r == self.spec_offset_y(),
    {
        self.offset_y
    }

    /// Pixel width of the patch.
    pub fn width(&self) -> (r: u32)
        ensures
            r == self.spec_width(),
    {
        self.width
    }

    /// Pixel height of the patch.
    pub fn height(&self) -> (r: u32)
        ensures
            r == self.spec_height(),
    {
        self.height
    }

    /// The patch's pixel bytes, one coverage byte per pixel, row-major.
    pub fn pixels(&self) -> (r: &[u8])
        ensures
            r@ == self.spec_pixels(),
    {
        self.pixel_data.as_slice()
    }
}

/// A patch that fits inside the atlas image, with exactly one byte per
/// pixel of its rectangle.
pub open spec fn patch_wf(p: GlyphImagePatch) -> bool {
    &&& p.spec_offset_x() + p.spec_width() <= ATLAS_SIZE
    &&& p.spec_offset_y() + p.spec_height() <= ATLAS_SIZE
    &&& p.spec_pixels().len() == p.spec_width() as int * p.spec_height() as int
}

/// The patch's rectangle is exactly the cell assigned to some character
/// newly packed by the call that emitted it.
pub open spec fn patch_covers_new_slot(
    p: GlyphImagePatch,
    pre: Map<u32, CharacterCache>,
    post: Map<u32, CharacterCache>,
) -> bool {
    exists|k: u32|
        {
            &&& #[trigger] post.contains_key(k)
            &&& !pre.contains_key(k)
            &&& p.spec_offset_x() == post[k].x
            &&& p.spec_offset_y() == post[k].y
            &&& p.spec_width() == post[k].width
            &&& p.spec_height() == post[k].height
        }
}

/// An emitted patch carries exactly what the packing model describes.
pub open spec fn patch_matches(p: GlyphImagePatch, m: PatchModel) -> bool {
    &&& p.spec_offset_x() == m.x
    &&& p.spec_offset_y() == m.y
    &&& p.spec_width() == m.width
    &&& p.spec_height() == m.height
    &&& p.spec_pixels() == m.pixels
}

/// Glyph atlas packer: assigns characters to atlas cells and produces the
/// incremental texture patches for characters not packed before.
pub struct GlyphWriter {
    image_width: u32,
    image_height: u32,
    character_data: HashMap<u32, CharacterCache>,
    current_x: u32,
    current_y: u32,
    buffer: Vec<u8>,
}

impl GlyphWriter {
    /// The character-to-cell map, keyed by character code point.
    pub closed spec fn slots(self) -> Map<u32, CharacterCache> {
        self.character_data@
    }

    /// The row-major grid cursor: the column and row of the next free
    /// cell.
    pub closed spec fn cursor(self) -> (u32, u32) {
        (self.current_x, self.current_y)
    }

    /// Pixel width and height of the atlas image.
    pub closed spec fn dims(self) -> (u32, u32) {
        (self.image_width, self.image_height)
    }

    /// The atlas has its fixed dimensions, the cursor stays on the grid
    /// (the row index may rest one past the last row once the atlas is
    /// full), and every assigned slot lies inside the atlas image.
    pub open spec fn wf(self) -> bool {
        &&& self.dims() == (ATLAS_SIZE, ATLAS_SIZE)
        &&& self.cursor().0 < CELLS_PER_ROW
        &&& self.cursor().1 <= CELLS_PER_ROW
        &&& forall|k: u32| #[trigger]
            self.slots().contains_key(k) ==> slot_wf(self.slots()[k])
    }

    /// An empty packer for the fixed 4096 by 4096 atlas, its cursor on
    /// the first grid cell.
    pub fn new() -> (r: Self)
        ensures
            r.wf(),
            r.slots() == Map::<u32, CharacterCache>::empty(),
            r.cursor() == (0u32, 0u32),
            r.spec_buffer() == Seq::new(ATLAS_PIXEL_COUNT as nat, |i: int| 0u8),
    {
        let side = ATLAS_PIXEL_COUNT;
        let mut buffer: Vec<u8> = Vec::new();
        let mut i: usize = 0;
        while i < side
            invariant
                i <= side,
                buffer@ =~= Seq::new(i as nat, |j: int| 0u8),
            decreases side - i,
        {
            buffer.push(0u8);
            i = i + 1;
        }
        proof {
            assert(buffer@ =~= Seq::new(ATLAS_PIXEL_COUNT as nat, |j: int| 0u8));
        }
        GlyphWriter {
            image_width: ATLAS_SIZE,
            image_height: ATLAS_SIZE,
            character_data: HashMap::new(),
            current_x: 0,
            current_y: 0,
            buffer,
        }
    }

    /// Packs every not-yet-packed character of `codes` into the atlas and
    /// returns one patch per newly packed character, in input order.
    ///
    /// Unconditionally: packed characters keep their cells and their
    /// patches are never re-emitted, new cells go only to characters of
    /// `codes`, every patch fits the atlas, exactly one patch is emitted
    /// per new cell, and an input whose characters were all packed before
    /// changes nothing and returns no patches.  On an input whose
    /// characters all have cached glyphs (or are space), the result is
    /// exactly what the packing model [`pack_trace`] predicts.
    pub fn execute(&mut self, codes: &Vec<char>, glyph_manager: &mut GlyphManager) -> (r: Vec<
        GlyphImagePatch,
    >)
        requires
            old(self).wf(),
            old(glyph_manager).wf(),
        ensures
            final(self).wf(),
            final(glyph_manager).wf(),
            forall|k: u32| #[trigger]
                old(self).slots().contains_key(k) ==> final(self).slots().contains_key(k)
                    && final(self).slots()[k] == old(self).slots()[k],
            forall|k: u32| #[trigger]
                final(self).slots().contains_key(k) ==> old(self).slots().contains_key(k)
                    || exists|j: int| 0 <= j < codes@.len() && (#[trigger] codes@[j]) as u32 == k,
            forall|k: u32| #[trigger]
                old(glyph_manager).glyphs().contains_key(k) ==> final(glyph_manager).glyphs().contains_key(k) && final(glyph_manager).glyphs()[k] == old(glyph_manager).glyphs()[k],
            forall|j: int| 0 <= j < r@.len() ==> patch_wf(#[trigger] r@[j]),
            final(self).spec_buffer() == old(self).spec_buffer(),
            forall|k: u32| #[trigger]
                final(self).slots().contains_key(k) && !old(self).slots().contains_key(k) ==> k
                    == ' ' as u32 || final(glyph_manager).glyphs().contains_key(k),
            forall|j: int|
                0 <= j < r@.len() ==> patch_covers_new_slot(
                    #[trigger] r@[j],
                    old(self).slots(),
                    final(self).slots(),
                ),
            r@.len() == final(self).slots().dom().len() - old(self).slots().dom().len(),
            (forall|j: int|
                0 <= j < codes@.len() ==> old(self).slots().contains_key(
                    (#[trigger] codes@[j]) as u32,
                )) ==> final(self).slots() == old(self).slots() && r@.len() == 0,
            all_packable(codes@, old(glyph_manager).glyphs()) ==> {
                let t = pack_trace(
                    pack_start(old(self).slots(), old(self).cursor().0, old(self).cursor().1),
                    codes@,
                    old(glyph_manager).glyphs(),
                );
                &&& final(self).slots() == t.slots
                &&& final(self).cursor() == (t.cx, t.cy)
                &&& final(glyph_manager).glyphs() == old(glyph_manager).glyphs()
                &&& r@.len() == t.patches.len()
                &&& forall|j: int| 0 <= j < r@.len() ==> patch_matches(#[trigger] r@[j], t.patches[j])
            },
    {
        let ghost orig_slots = self.slots();
        let ghost orig_cx = self.current_x;
        let ghost orig_cy = self.current_y;
        let ghost orig_glyphs = glyph_manager.glyphs();
        let ghost hyp = all_packable(codes@, orig_glyphs);
        let mut patches: Vec<GlyphImagePatch> = Vec::new();
        let n = codes.len();
        let mut i: usize = 0;
        while i < n
            invariant
                self.wf(),
                glyph_manager.wf(),
                n == codes@.len(),
                i <= n,
                hyp == all_packable(codes@, orig_glyphs),
                forall|k: u32| #[trigger]
                    orig_slots.contains_key(k) ==> self.slots().contains_key(k) && self.slots()[k]
                        == orig_slots[k],
                forall|k: u32| #[trigger]
                    self.slots().contains_key(k) ==> orig_slots.contains_key(k) || exists|j: int|
                        0 <= j < i && (#[trigger] codes@[j]) as u32 == k,
                forall|k: u32| #[trigger]
                    orig_glyphs.contains_key(k) ==> glyph_manager.glyphs().contains_key(k)
                        && glyph_manager.glyphs()[k] == orig_glyphs[k],
                forall|j: int| 0 <= j < patches@.len() ==> patch_wf(#[trigger] patches@[j]),
                self.spec_buffer() == old(self).spec_buffer(),
                forall|k: u32| #[trigger]
                    self.slots().contains_key(k) && !orig_slots.contains_key(k) ==> k == ' ' as u32
                        || glyph_manager.glyphs().contains_key(k),
                forall|j: int|
                    0 <= j < patches@.len() ==> patch_covers_new_slot(
                        #[trigger] patches@[j],
                        orig_slots,
                        self.slots(),
                    ),
                patches@.len() == self.slots().dom().len() - orig_slots.dom().len(),
                (forall|j: int|
                    0 <= j < i ==> orig_slots.contains_key((#[trigger] codes@[j]) as u32))
                    ==> self.slots() == orig_slots && patches@.len() == 0,
                hyp ==> {
                    let t = pack_trace(
                        pack_start(orig_slots, orig_cx, orig_cy),
                        codes@.take(i as int),
                        orig_glyphs,
                    );
                    &&& self.slots() == t.slots
                    &&& self.cursor() == (t.cx, t.cy)
                    &&& glyph_manager.glyphs() == orig_glyphs
                    &&& patches@.len() == t.patches.len()
                    &&& forall|j: int|
                        0 <= j < patches@.len() ==> patch_matches(
                            #[trigger] patches@[j],
                            t.patches[j],
                        )
                },
            decreases n - i,
        {
            let ghost slots_before = self.slots();
            let ghost glyphs_before = glyph_manager.glyphs();
            let ghost patches_before = patches@;
            proof {
                assert(codes@.take(i as int + 1).drop_last() =~= codes@.take(i as int));
                assert(codes@.take(i as int + 1).last() == codes@[i as int]);
            }
            let code = codes[i];
            let key = code as u32;
            if !self.character_data.contains_key(&key) {
                if code == ' ' {
                    let slot = CharacterCache { x: 4000, y: 4000, width: 32, height: 32 };
                    self.character_data.insert(key, slot);
                    let space = glyph_manager.get_rasterized_glyph(' ');
                    let pixels = clip_glyph_pixels(space, 32, 32);
                    proof {
                        assert(space.buffer@ =~= blank_space_pixels());
                    }
                    patches.push(
                        GlyphImagePatch {
                            offset_x: 4000,
                            offset_y: 4000,
                            width: 32,
                            height: 32,
                            pixel_data: pixels,
                        },
                    );
                    proof {
                        assert(!orig_slots.contains_key(key));
                        assert(self.slots().contains_key(key) && self.slots()[key] == slot);
                        assert(patch_covers_new_slot(
                            patches@[patches@.len() - 1],
                            orig_slots,
                            self.slots(),
                        ));
                    }
                } else {
                    let extracted = glyph_manager.extract(code);
                    if extracted {
                        if self.current_y < CELLS_PER_ROW {
                            let glyph = glyph_manager.get_rasterized_glyph(code);
                            let width = if glyph.width < ATLAS_CELL {
                                glyph.width
                            } else {
                                ATLAS_CELL
                            };
                            let height = if glyph.height < ATLAS_CELL {
                                glyph.height
                            } else {
                                ATLAS_CELL
                            };
                            let offset_x = self.current_x * ATLAS_CELL;
                            let offset_y = self.current_y * ATLAS_CELL;
                            let slot = CharacterCache {
                                x: offset_x,
                                y: offset_y,
                                width,
                                height,
                            };
                            let pixels = clip_glyph_pixels(glyph, width, height);
                            self.character_data.insert(key, slot);
                            self.current_y = self.current_y + (self.current_x + 1) / CELLS_PER_ROW;
                            self.current_x = (self.current_x + 1) % CELLS_PER_ROW;
                            patches.push(
                                GlyphImagePatch {
                                    offset_x,
                                    offset_y,
                                    width,
                                    height,
                                    pixel_data: pixels,
                                },
                            );
                            proof {
                                assert(!orig_slots.contains_key(key));
                                assert(self.slots().contains_key(key) && self.slots()[key]
                                    == slot);
                                assert(patch_covers_new_slot(
                                    patches@[patches@.len() - 1],
                                    orig_slots,
                                    self.slots(),
                                ));
                            }
                        }
                    }
                }
            }
            proof {
                if hyp {
                    let t_pre = pack_trace(
                        pack_start(orig_slots, orig_cx, orig_cy),
                        codes@.take(i as int),
                        orig_glyphs,
                    );
                    let t_post = pack_trace(
                        pack_start(orig_slots, orig_cx, orig_cy),
                        codes@.take(i as int + 1),
                        orig_glyphs,
                    );
                    assert(t_post == pack_step(t_pre, codes@[i as int], orig_glyphs));
                }
                assert forall|k: u32| #[trigger]
                    orig_glyphs.contains_key(k) implies glyph_manager.glyphs().contains_key(k)
                    && glyph_manager.glyphs()[k] == orig_glyphs[k] by {
                    assert(glyphs_before.contains_key(k) && glyphs_before[k] == orig_glyphs[k]);
                }
                assert forall|k: u32| #[trigger]
                    orig_slots.contains_key(k) implies self.slots().contains_key(k)
                    && self.slots()[k] == orig_slots[k] by {
                    assert(slots_before.contains_key(k) && slots_before[k] == orig_slots[k]);
                }
                assert forall|j: int|
                    0 <= j < patches@.len() implies patch_covers_new_slot(
                    #[trigger] patches@[j],
                    orig_slots,
                    self.slots(),
                ) by {
                    if j < patches_before.len() {
                        assert(patches@[j] == patches_before[j]);
                        assert(patch_covers_new_slot(patches_before[j], orig_slots, slots_before));
                        let k0 = choose|k0: u32|
                            {
                                &&& #[trigger] slots_before.contains_key(k0)
                                &&& !orig_slots.contains_key(k0)
                                &&& patches_before[j].spec_offset_x() == slots_before[k0].x
                                &&& patches_before[j].spec_offset_y() == slots_before[k0].y
                                &&& patches_before[j].spec_width() == slots_before[k0].width
                                &&& patches_before[j].spec_height() == slots_before[k0].height
                            };
                        assert(self.slots().contains_key(k0) && self.slots()[k0]
                            == slots_before[k0]);
                    }
                }
            }
            i = i + 1;
        }
        proof {
            assert(codes@.take(n as int) =~= codes@);
        }
        patches
    }

    /// The UV rectangle of `code`'s atlas cell, or the fallback glyph
    /// `'-'`'s rectangle where `code` was never packed, or the zero
    /// rectangle where the fallback was never packed either.  Numerators
    /// over [`ATLAS_SIZE`].
    pub fn get_clip_rect(&self, code: char) -> (r: CharacterData)
        requires
            self.wf(),
        ensures
            r == clip_rect_spec(self.slots(), code),
    {
        let slot = match self.character_data.get(&(code as u32)) {
            Some(slot) => {
                proof {
                    assert(self.slots().contains_key(code as u32));
                }
                *slot
            },
            None => {
                match self.character_data.get(&('-' as u32)) {
                    Some(slot) => {
                        proof {
                            assert(self.slots().contains_key('-' as u32));
                        }
                        *slot
                    },
                    None => CharacterCache { x: 0, y: 0, width: 0, height: 0 },
                }
            },
        };
        proof {
            assert(slot_wf(slot));
        }
        CharacterData {
            uv_begin: UvPoint { x: slot.x, y: slot.y },
            uv_end: UvPoint { x: slot.x + slot.width, y: slot.y + slot.height },
        }
    }

    /// The side image buffer covering the whole atlas; useful for
    /// debugging exports.
    pub fn get_buffer(&self) -> (r: &[u8])
        ensures
            r@ == self.spec_buffer(),
    {
        self.buffer.as_slice()
    }

    /// The side image buffer's bytes.
    pub closed spec fn spec_buffer(self) -> Seq<u8> {
        self.buffer@
    }

    /// Pixel width of the atlas image.
    pub fn width(&self) -> (r: u32)
        requires
            self.wf(),
        ensures
            r == ATLAS_SIZE,
    {
        self.image_width
    }

    /// Pixel height of the atlas image.
    pub fn height(&self) -> (r: u32)
        requires
            self.wf(),
        ensures
            r == ATLAS_SIZE,
    {
        self.image_height
    }
}

/// The UV rectangle of one atlas slot, as numerators over [`ATLAS_SIZE`].
pub open spec fn uv_rect_of(s: CharacterCache) -> CharacterData {
    CharacterData {
        uv_begin: UvPoint { x: s.x, y: s.y },
        uv_end: UvPoint { x: (s.x + s.width) as u32, y: (s.y + s.height) as u32 },
    }
}

/// The UV rectangle that a clip-rect lookup of `code` observes: the
/// packed slot's rectangle, else the fallback glyph `'-'`'s, else the
/// zero rectangle.
pub open spec fn clip_rect_spec(slots: Map<u32, CharacterCache>, code: char) -> CharacterData {
    if slots.contains_key(code as u32) {
        uv_rect_of(slots[code as u32])
    } else if slots.contains_key('-' as u32) {
        uv_rect_of(slots['-' as u32])
    } else {
        uv_rect_of(CharacterCache { x: 0, y: 0, width: 0, height: 0 })
    }
}

/// The top left `w` by `h` corner of a glyph's bitmap, as tightly-packed
/// row-major bytes.
fn clip_glyph_pixels(g: &RasterizedGlyph, w: u32, h: u32) -> (r: Vec<u8>)
    requires
        glyph_wf(*g),
        w <= g.width,
        h <= g.height,
    ensures
        r@ == clip_pixels(g.buffer@, g.width as int, w as int, h as int),
{
    proof {
        assert((w as int) * (h as int) <= 16777216) by (nonlinear_arith)
            requires
                w <= 4096,
                h <= 4096,
        ;
    }
    let count = (w as usize) * (h as usize);
    let src_width = g.width as usize;
    let mut pixels: Vec<u8> = Vec::new();
    let mut i: usize = 0;
    while i < count
        invariant
            i <= count,
            count == w as int * h as int,
            count <= 16777216,
            src_width == g.width,
            glyph_wf(*g),
            w <= g.width,
            h <= g.height,
            pixels@ =~= clip_pixels(g.buffer@, g.width as int, w as int, h as int).take(i as int),
        decreases count - i,
    {
        proof {
            assert(w > 0 && h > 0) by (nonlinear_arith)
                requires
                    0 <= i,
                    i < w as int * h as int,
            ;
        }
        let wu = w as usize;
        let row = i / wu;
        let col = i % wu;
        proof {
            assert((i as int) / (w as int) < h as int) by (nonlinear_arith)
                requires
                    0 < w,
                    0 <= i,
                    i < w as int * h as int,
            ;
            assert(row < h);
            assert((row as int) * (g.width as int) + (col as int) < g.width as int
                * g.height as int && g.width as int * g.height as int <= 16777216) by (
            nonlinear_arith)
                requires
                    0 <= row < g.height,
                    0 <= col < g.width,
                    h <= g.height,
                    g.width <= 4096,
                    g.height <= 4096,
            ;
        }
        let byte = g.buffer[row * src_width + col];
        proof {
            let whole = clip_pixels(g.buffer@, g.width as int, w as int, h as int);
            assert(whole[i as int] == byte);
            assert(whole.take(i as int + 1) =~= whole.take(i as int).push(byte));
        }
        pixels.push(byte);
        i = i + 1;
    }
    proof {
        assert(clip_pixels(g.buffer@, g.width as int, w as int, h as int).take(count as int)
            =~= clip_pixels(g.buffer@, g.width as int, w as int, h as int));
    }
    pixels
}

} // verus!
