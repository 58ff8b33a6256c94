//! Text layout and compositing on integer pixel surfaces.
//!
//! A run of rasterised glyphs is measured, anchored inside a rectangle and
//! alpha-composited onto a canvas. Every quantity is an integer: coverage is
//! an eight-bit weight, font metrics are counted in 64ths of a pixel and edge
//! positions are whole percentages.

pub mod pixel;
pub mod canvas;
pub mod rect;
pub mod position;
pub mod glyph;
pub mod compose;
pub mod text;
pub mod laws;
