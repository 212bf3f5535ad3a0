//! Batch recoloring of a vector-graphics template.
//!
//! A template contains three placeholder tokens standing in for color values.
//! The library models hue/saturation/lightness color triples, derives one
//! recolored palette per sweep angle, substitutes the palette into the
//! template text, plans the sweep of frames, rasterizes each frame's text
//! through the resvg renderer, names each frame's output artifact, and
//! summarizes per-frame outcomes. Reading the template and writing the
//! artifact files is left to the surrounding program.

pub mod batch;
pub mod hsl;
pub mod plan;
pub mod render;
pub mod text;
