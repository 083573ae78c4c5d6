use bmp::Image;

use termplot::glyph_manager::GlyphManager;
use termplot::glyph_writer::GlyphWriter;

// Exports one extracted glyph as an image file.
#[test]
fn glyph_manager_export() {
    let mut glyph_manager = GlyphManager::new();
    glyph_manager.extract_alphabet();

    let glyph = glyph_manager.get_rasterized_glyph('K');
    let width = glyph.width;
    let height = glyph.height;
    let buffer = &glyph.buffer;

    let mut image = Image::new(width.max(1), height.max(1));
    for y in 0..height as usize {
        for x in 0..width as usize {
            let data = buffer[x + (width as usize) * y];
            image.set_pixel(
                x as u32,
                y as u32,
                bmp::Pixel {
                    r: data,
                    g: data,
                    b: data,
                },
            );
        }
    }

    image.save("/tmp/image.png").unwrap();
}

// Exports the whole packed atlas as an image file.
#[test]
fn glyph_writer_export() {
    let mut glyph_manager = GlyphManager::new();
    glyph_manager.extract_alphabet();

    let mut glyph_writer = GlyphWriter::new();
    let codes: Vec<char> = (' '..='~').collect();
    let image_patches = glyph_writer.execute(&codes, &mut glyph_manager);

    let mut image = Image::new(glyph_writer.width(), glyph_writer.height());
    for image_patch in image_patches {
        for y in 0..image_patch.height() {
            for x in 0..image_patch.width() {
                let src_index = x + y * image_patch.width();
                let data = image_patch.pixels()[src_index as usize];
                let dst_x = image_patch.offset_x() + x;
                let dst_y = image_patch.offset_y() + y;
                image.set_pixel(
                    dst_x,
                    dst_y,
                    bmp::Pixel {
                        r: data,
                        g: data,
                        b: data,
                    },
                );
            }
        }
    }

    image.save("/tmp/placed_glyph.png").unwrap();
}

// Exports each emitted patch as its own image file.
#[test]
fn patch() {
    let mut glyph_manager = GlyphManager::new();
    let mut glyph_writer = GlyphWriter::new();
    let codes: Vec<char> = ('a'..'d').collect();
    let image_patches = glyph_writer.execute(&codes, &mut glyph_manager);

    for image_patch in image_patches {
        let mut image = Image::new(image_patch.width().max(1), image_patch.height().max(1));
        for y in 0..image_patch.height() {
            for x in 0..image_patch.width() {
                let index = (x + y * image_patch.width()) as usize;

                let pixels = image_patch.pixels();
                let r = pixels[index];
                let g = pixels[index];
                let b = pixels[index];
                image.set_pixel(x, y, bmp::Pixel { r, g, b });
            }
        }

        let file_name = format!("/tmp/{}x{}.png", image_patch.offset_x(), image_patch.offset_y());
        image.save(file_name).unwrap();
    }
}
