//! A bitmap glyph rasterizer and cursor-advance text writer.
//!
//! The library draws a small set of ASCII glyphs directly into a linear
//! framebuffer, one byte at a time.  [`glyph`] computes the intensity of a
//! single pixel of a glyph cell; [`screen`] tracks a cursor in cell units and
//! writes whole glyph cells into a framebuffer byte buffer.

pub mod glyph;
pub mod screen;
