//! Adaptation layer between an OpenType font's MATH table and a math layout
//! engine: per-glyph metrics, font-wide typesetting constants, and resolution
//! of stretchy glyphs to a replacement glyph or an assembled chain of parts
//! whose length never undershoots the requested size.

pub mod types;
pub mod assembly;
pub mod variants;
pub mod kerning;
pub mod metrics;
pub mod constants;
pub mod font;
pub mod synthetic;
pub mod source;
pub mod svg;
pub mod undo;
