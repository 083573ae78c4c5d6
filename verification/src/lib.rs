//! Presentation pipeline of a GPU-accelerated terminal emulator.
//!
//! The library turns a grid of terminal cells (character, color, cursor)
//! into a minimal set of GPU-ready draw instructions and texture updates:
//! a font rasterization cache ([`glyph_manager::GlyphManager`]), a glyph
//! atlas packer ([`glyph_writer::GlyphWriter`]), a positional frame
//! differencer ([`diff::DiffCalculator`]), and a content plotter
//! ([`content_plotter::ContentPlotter`]) that orchestrates them once per
//! frame.  Window and GPU backends consume the resulting
//! [`content_plotter::Diff`]; they are not part of this crate.

pub mod content_plotter;
pub mod diff;
pub mod font;
pub mod glyph_manager;
pub mod glyph_writer;
pub mod shell_manager;
pub mod virtual_window_manager;
