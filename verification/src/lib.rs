//! Safety layer over a native text-shaping engine's font and glyph-buffer
//! primitives.
//!
//! The engine itself (shaping, allocation, reference counting) is foreign
//! code reached through C entry points; this crate holds the parts whose
//! correctness is ours to establish: the single-ownership protocol for an
//! opaque font handle, a bounds-checked, read-only view over the two
//! parallel arrays of glyph records that a shaping call produces, and the
//! integer core of the conversion into the engine's 16.16 fixed-point
//! format.
//!
//! The embedder performs the actual engine calls; it consults [`font::Font`]
//! for every custody decision and builds [`glyph::Glyphs`] views from the
//! record values it reads out of the engine's buffers.

pub mod fixed;
pub mod font;
pub mod glyph;
