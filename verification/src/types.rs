//! Basic identifiers, axes and error kinds shared by the whole crate.

use vstd::prelude::*;

verus! {

/// Identifier of a glyph, scoped to one font instance.
#[derive(Clone, Copy, Debug, PartialEq, Eq, Hash, Structural)]
pub struct GlyphId(pub u16);

/// The axis along which a stretchy glyph is extended.
#[derive(Clone, Copy, Debug, PartialEq, Eq, Structural)]
pub enum Direction {
    Horizontal,
    Vertical,
}

/// Which corner of a glyph a kerning query concerns.
#[derive(Clone, Copy, Debug, PartialEq, Eq, Structural)]
pub enum Corner {
    TopLeft,
    TopRight,
    BottomLeft,
    BottomRight,
}

/// Error kinds of the font-adaptation layer.
#[derive(Clone, Copy, Debug, PartialEq, Eq, Structural)]
pub enum FontError {
    /// The font has no MATH table at all; typesetting cannot proceed.
    NoMathTable,
    /// The MATH table has no constants subtable.
    NoMathConstants,
    /// The glyph id does not resolve in the font's metrics tables.
    MissingGlyph(GlyphId),
    /// An assembly recipe is unusable: an empty part list, or extenders
    /// whose net contribution per repetition is not positive.
    MalformedAssembly,
}

impl FontError {
    /// A short human-readable description of the error.
    pub fn message(&self) -> &'static str {
        match self {
            FontError::NoMathTable => "font has no MATH table",
            FontError::NoMathConstants => "MATH table has no constants",
            FontError::MissingGlyph(_) => "glyph is missing from the font",
            FontError::MalformedAssembly => "malformed glyph assembly recipe",
        }
    }
}

} // verus!
