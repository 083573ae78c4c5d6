use termplot::content_plotter::{
    CellColor, CellRecord, ColorRgba, ContentPlotter, CursorPosition, NamedColor,
    RenderableContent, Rgb,
};
use termplot::diff::DiffCalculator;
use termplot::font::RawGlyph;
use termplot::glyph_manager::GlyphManager;
use termplot::glyph_writer::GlyphWriter;

fn square_glyph(side: i32, value: u8) -> RawGlyph {
    RawGlyph {
        width: side,
        height: side,
        top: 0,
        left: 0,
        advance: (0, 0),
        rgba: false,
        bytes: vec![value; (3 * side * side) as usize],
    }
}

fn blank_frame(columns: usize, lines: i32, code: char) -> RenderableContent {
    let mut cells = Vec::new();
    for line in 0..lines {
        for column in 0..columns {
            cells.push(CellRecord {
                code,
                color: CellColor::Named(NamedColor::White),
                column,
                line,
            });
        }
    }
    RenderableContent {
        cells,
        cursor: CursorPosition { column: 0, line: 0 },
    }
}

// Packing the same character set twice produces an empty patch list on
// the second call, and identical UV rectangles both times.
#[test]
fn idempotent_packing() {
    let mut manager = GlyphManager::new();
    assert!(manager.insert_glyph('A', square_glyph(64, 200)));
    assert!(manager.insert_glyph('B', square_glyph(64, 100)));

    let mut writer = GlyphWriter::new();
    let codes = vec!['A', 'B', 'A'];
    let first = writer.execute(&codes, &mut manager);
    assert_eq!(first.len(), 2);
    let rect_a_first = writer.get_clip_rect('A');
    let rect_b_first = writer.get_clip_rect('B');

    let second = writer.execute(&codes, &mut manager);
    assert!(second.is_empty());
    let rect_a_second = writer.get_clip_rect('A');
    let rect_b_second = writer.get_clip_rect('B');

    assert_eq!(rect_a_first.uv_begin, rect_a_second.uv_begin);
    assert_eq!(rect_a_first.uv_end, rect_a_second.uv_end);
    assert_eq!(rect_b_first.uv_begin, rect_b_second.uv_begin);
    assert_eq!(rect_b_first.uv_end, rect_b_second.uv_end);
}

// Atlas of 64-pixel cells on a 64 by 64 grid: packing ['A', 'B', 'A']
// yields exactly two patches, at cell offsets (0,0) and (64,0), with UV
// rectangles [0,0]-[1/64,1/64] and [1/64,0]-[2/64,1/64] (numerators over
// 4096).
#[test]
fn pack_two_characters_row_major() {
    let mut manager = GlyphManager::new();
    assert!(manager.insert_glyph('A', square_glyph(64, 200)));
    assert!(manager.insert_glyph('B', square_glyph(64, 100)));

    let mut writer = GlyphWriter::new();
    let codes = vec!['A', 'B', 'A'];
    let patches = writer.execute(&codes, &mut manager);

    assert_eq!(patches.len(), 2);
    assert_eq!((patches[0].offset_x(), patches[0].offset_y()), (0, 0));
    assert_eq!((patches[0].width(), patches[0].height()), (64, 64));
    assert_eq!(patches[0].pixels().len(), 64 * 64);
    assert_eq!(patches[0].pixels()[0], 200);
    assert_eq!((patches[1].offset_x(), patches[1].offset_y()), (64, 0));
    assert_eq!((patches[1].width(), patches[1].height()), (64, 64));
    assert_eq!(patches[1].pixels()[0], 100);

    let rect_a = writer.get_clip_rect('A');
    assert_eq!((rect_a.uv_begin.x, rect_a.uv_begin.y), (0, 0));
    assert_eq!((rect_a.uv_end.x, rect_a.uv_end.y), (64, 64));
    let rect_b = writer.get_clip_rect('B');
    assert_eq!((rect_b.uv_begin.x, rect_b.uv_begin.y), (64, 0));
    assert_eq!((rect_b.uv_end.x, rect_b.uv_end.y), (128, 64));
}

// A character never packed falls back on the designated fallback glyph's
// rectangle.
#[test]
fn clip_rect_falls_back_on_dash() {
    let mut manager = GlyphManager::new();
    assert!(manager.insert_glyph('-', square_glyph(32, 50)));

    let mut writer = GlyphWriter::new();
    let codes = vec!['-'];
    writer.execute(&codes, &mut manager);

    let dash = writer.get_clip_rect('-');
    let unknown = writer.get_clip_rect('Z');
    assert_eq!(unknown.uv_begin, dash.uv_begin);
    assert_eq!(unknown.uv_end, dash.uv_end);
}

// The positional differencer reports exactly the changed positions.
#[test]
fn diff_positions() {
    let mut differ: DiffCalculator<u32> = DiffCalculator::new();

    let first = differ.calculate(vec![1, 2, 3]);
    assert_eq!(first.items(), &[1, 2, 3]);
    assert_eq!(first.indicies(), &[0, 1, 2]);

    let second = differ.calculate(vec![1, 9, 3]);
    assert_eq!(second.items(), &[9]);
    assert_eq!(second.indicies(), &[1]);

    let third = differ.calculate(vec![1, 9, 3, 7]);
    assert_eq!(third.items(), &[7]);
    assert_eq!(third.indicies(), &[3]);
}

// Two consecutive frames differing in one cell produce exactly one draw
// record, at that cell's position.
#[test]
fn diff_minimality() {
    let mut plotter = ContentPlotter::new();
    let mut manager = GlyphManager::new();

    let frame = blank_frame(8, 4, ' ');
    plotter.calculate_diff(&frame, &mut manager, (800, 600));

    let mut changed = blank_frame(8, 4, ' ');
    let changed_index = 2 * 8 + 5;
    changed.cells[changed_index].code = '!';
    let diff = plotter.calculate_diff(&changed, &mut manager, (800, 600));

    assert_eq!(diff.character_info_array().len(), 1);
    assert_eq!(diff.character_info_array()[0].index, changed_index);
    assert_eq!(diff.character_info_array()[0].code, '!');
}

// Feeding the same snapshot twice yields an empty diff.
#[test]
fn no_change_frame() {
    let mut plotter = ContentPlotter::new();
    let mut manager = GlyphManager::new();

    let frame = blank_frame(8, 4, 'x');
    plotter.calculate_diff(&frame, &mut manager, (800, 600));

    let again = blank_frame(8, 4, 'x');
    let diff = plotter.calculate_diff(&again, &mut manager, (800, 600));

    assert!(diff.character_info_array().is_empty());
    assert!(diff.glyph_texture_patches().is_empty());
    assert_eq!(diff.item_count(), 32);
}

// A character absent from the font never panics the cache and comes back
// as a blank bitmap of the fixed cell size.
#[test]
fn fallback_safety() {
    let mut manager = GlyphManager::new();
    let glyph = manager.get_rasterized_glyph('\u{10FFFF}');
    assert_eq!(glyph.width, 32);
    assert_eq!(glyph.height, 32);
    assert_eq!(glyph.buffer.len(), 32 * 32);
    assert!(glyph.buffer.iter().all(|b| *b == 0));
}

// Every named color resolves to a defined RGBA value.
#[test]
fn named_color_table() {
    let white = ContentPlotter::convert_named_color(NamedColor::White);
    assert_eq!(white, ColorRgba { r: 255, g: 255, b: 255, a: 0 });
    let blue = ContentPlotter::convert_named_color(NamedColor::Blue);
    assert_eq!(blue, ColorRgba { r: 0, g: 0, b: 204, a: 0 });
    let cyan = ContentPlotter::convert_named_color(NamedColor::Cyan);
    assert_eq!(cyan, ColorRgba { r: 87, g: 154, b: 205, a: 0 });
    let bright_black = ContentPlotter::convert_named_color(NamedColor::BrightBlack);
    assert_eq!(bright_black, ColorRgba { r: 51, g: 51, b: 51, a: 0 });

    // Names outside the table resolve to the defined default.
    let default = ColorRgba { r: 0, g: 0, b: 0, a: 0 };
    assert_eq!(ContentPlotter::convert_named_color(NamedColor::Cursor), default);
    assert_eq!(ContentPlotter::convert_named_color(NamedColor::DimRed), default);
    assert_eq!(
        ContentPlotter::convert_named_color(NamedColor::BrightForeground),
        default
    );
}

// Every indexed value 0-255 resolves to a defined RGBA value.
#[test]
fn indexed_color_table() {
    for i in 0..=255u8 {
        let color = ContentPlotter::convert_index_color(i);
        assert!(color.a == 0);
    }
    let white = ColorRgba { r: 255, g: 255, b: 255, a: 0 };
    assert_eq!(ContentPlotter::convert_index_color(0), white);
    assert_eq!(ContentPlotter::convert_index_color(7), white);
    assert_eq!(
        ContentPlotter::convert_index_color(12),
        ColorRgba { r: 0, g: 0, b: 204, a: 0 }
    );
    assert_eq!(
        ContentPlotter::convert_index_color(15),
        ColorRgba { r: 0, g: 255, b: 0, a: 0 }
    );
    assert_eq!(ContentPlotter::convert_index_color(243), white);

    // Indices outside the table fall back to white.
    assert_eq!(ContentPlotter::convert_index_color(9), white);
    assert_eq!(ContentPlotter::convert_index_color(200), white);
}

// A direct RGB color passes through with full alpha.
#[test]
fn direct_color_passthrough() {
    let mut plotter = ContentPlotter::new();
    let mut manager = GlyphManager::new();

    let mut frame = blank_frame(2, 1, ' ');
    frame.cells[1].color = CellColor::Spec(Rgb { r: 10, g: 20, b: 30 });
    let diff = plotter.calculate_diff(&frame, &mut manager, (800, 600));

    assert_eq!(diff.character_info_array().len(), 2);
    assert_eq!(
        diff.character_info_array()[1].fore_ground_color,
        ColorRgba { r: 10, g: 20, b: 30, a: 255 }
    );
}

// The screen transform of a changed cell is the exact rational
// composition of the five maps.
#[test]
fn transform_composition() {
    let mut plotter = ContentPlotter::new();
    let mut manager = GlyphManager::new();
    assert!(manager.insert_glyph(
        'X',
        RawGlyph {
            width: 30,
            height: 40,
            top: 5,
            left: 2,
            advance: (0, 0),
            rgba: false,
            bytes: vec![255; 3 * 30 * 40],
        }
    ));

    let frame = RenderableContent {
        cells: vec![CellRecord {
            code: 'X',
            color: CellColor::Named(NamedColor::White),
            column: 3,
            line: 2,
        }],
        cursor: CursorPosition { column: 3, line: 2 },
    };
    let diff = plotter.calculate_diff(&frame, &mut manager, (800, 600));

    assert_eq!(diff.character_info_array().len(), 1);
    let transform = diff.character_info_array()[0].transform;
    // Scale: 6 * size / (5 * viewport side).
    assert_eq!(transform.sx_num, 6 * 30);
    assert_eq!(transform.sy_num, 6 * 40);
    assert_eq!(transform.x_den, 5 * 800);
    assert_eq!(transform.y_den, 5 * 600);
    // Translation: (6 * left + 80 * column - 5 * width) / (5 * width).
    assert_eq!(transform.tx_num, 6 * 2 + 80 * 3 - 5 * 800);
    // Translation: (6 * (32 - top) + 80 * line - 5 * height) / (5 * height).
    assert_eq!(transform.ty_num, 6 * (32 - 5) + 80 * 2 - 5 * 600);

    // The cursor and the cell count ride along.
    let cursor = diff.cursor().unwrap();
    assert_eq!((cursor.column, cursor.line), (3, 2));
    assert_eq!(diff.item_count(), 1);
}

// A resize from 80x24 to 100x30 cells with fresh content forces a full
// redraw: 3000 draw records covering every live cell.
#[test]
fn resize_forces_full_redraw() {
    let mut plotter = ContentPlotter::new();
    let mut manager = GlyphManager::new();

    let small = blank_frame(80, 24, 'a');
    plotter.calculate_diff(&small, &mut manager, (1280, 384));

    let large = blank_frame(100, 30, 'b');
    let diff = plotter.calculate_diff(&large, &mut manager, (1600, 480));

    assert_eq!(diff.item_count(), 3000);
    assert_eq!(diff.character_info_array().len(), 3000);
    for (k, info) in diff.character_info_array().iter().enumerate() {
        assert_eq!(info.index, k);
    }
}

// The packer reduces four-channel bitmaps to one coverage byte per pixel,
// taking the first channel of each pixel.
#[test]
fn channel_reduction() {
    let mut manager = GlyphManager::new();
    let bytes: Vec<u8> = (1..=16).collect();
    assert!(manager.insert_glyph(
        'q',
        RawGlyph {
            width: 2,
            height: 2,
            top: 0,
            left: 0,
            advance: (0, 0),
            rgba: true,
            bytes,
        }
    ));

    let mut writer = GlyphWriter::new();
    let codes = vec!['q'];
    let patches = writer.execute(&codes, &mut manager);
    assert_eq!(patches.len(), 1);
    assert_eq!(patches[0].pixels(), &[1, 5, 9, 13]);
}

// A bitmap shorter than its dimensions call for is padded with zeroes.
#[test]
fn short_bitmap_padded() {
    let mut manager = GlyphManager::new();
    assert!(manager.insert_glyph(
        'p',
        RawGlyph {
            width: 2,
            height: 2,
            top: 0,
            left: 0,
            advance: (0, 0),
            rgba: false,
            bytes: vec![7, 8, 9, 10],
        }
    ));

    let glyph = manager.get_rasterized_glyph('p');
    assert_eq!(glyph.buffer, vec![7, 10, 0, 0]);
}

// Once every grid cell is taken, a new character gets no cell and no
// patch, and packed characters keep theirs.
#[test]
fn atlas_capacity_exhaustion() {
    let mut manager = GlyphManager::new();
    let mut writer = GlyphWriter::new();

    // 64 x 64 grid cells, filled one row-major pass at a time.
    let mut codes: Vec<char> = Vec::new();
    let mut filled = 0u32;
    let mut cp = 0x4E00u32;
    while filled < 64 * 64 {
        let code = char::from_u32(cp).unwrap();
        assert!(manager.insert_glyph(
            code,
            RawGlyph {
                width: 1,
                height: 1,
                top: 0,
                left: 0,
                advance: (0, 0),
                rgba: false,
                bytes: vec![255, 0, 0],
            }
        ));
        codes.push(code);
        filled += 1;
        cp += 1;
    }
    let patches = writer.execute(&codes, &mut manager);
    assert_eq!(patches.len(), 64 * 64);
    let last = &patches[64 * 64 - 1];
    assert_eq!((last.offset_x(), last.offset_y()), (63 * 64, 63 * 64));

    // The grid is full: one more character changes nothing.
    assert!(manager.insert_glyph(
        'Q',
        RawGlyph {
            width: 1,
            height: 1,
            top: 0,
            left: 0,
            advance: (0, 0),
            rgba: false,
            bytes: vec![255, 0, 0],
        }
    ));
    let more = writer.execute(&vec!['Q'], &mut manager);
    assert!(more.is_empty());
    let first = writer.get_clip_rect(char::from_u32(0x4E00).unwrap());
    assert_eq!((first.uv_begin.x, first.uv_begin.y), (0, 0));
}
