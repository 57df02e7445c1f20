//! The capability interface a layout engine consumes, with one variant per
//! font source: an OpenType face with a MATH table, or a synthetic font made
//! of plain tables.  Every method dispatches to the source's own verified
//! implementation and carries its exact contract: over the named face
//! lookups for the OpenType variant, over the stored tables for the
//! synthetic one.

use vstd::prelude::*;
use crate::types::Corner;
use crate::types::Direction;
use crate::types::FontError;
use crate::types::GlyphId;
use crate::constants::MathConstants;
use crate::constants::constants_match;
use crate::font::GlyphAsTextUtilities;
use crate::font::MathFont;
use crate::font::advance_of;
use crate::font::bounding_box_of;
use crate::font::connector_overlap_of;
use crate::font::fraction_constants_of;
use crate::font::general_constants_of;
use crate::font::horizontal_construction_of;
use crate::font::italic_correction_of;
use crate::font::kern_table_of;
use crate::font::limit_constants_of;
use crate::font::overlap_or_zero;
use crate::font::script_constants_of;
use crate::font::side_bearing_of;
use crate::font::stack_radical_constants_of;
use crate::font::top_accent_attachment_of;
use crate::font::underbar_scale_constants_of;
use crate::font::vertical_construction_of;
use crate::kerning::kern_value_at;
use crate::metrics::GlyphMetrics;
use crate::metrics::glyph_record_matches;
use crate::synthetic::SyntheticFont;
use crate::synthetic::find_char;
use crate::synthetic::find_entry;
use crate::synthetic::find_kern;
use crate::synthetic::synthetic_wf;
use crate::variants::VariantGlyph;
use crate::variants::resolution_matches;

verus! {

/// A font the layout engine can typeset with.
pub enum FontSource<'a, 'b> {
    OpenType(MathFont<'a, 'b>),
    Synthetic(SyntheticFont),
}

impl<'a, 'b> FontSource<'a, 'b> {
    /// The glyph a codepoint maps to, if the font maps it.
    pub fn glyph_index(&self, codepoint: char) -> (r: Option<GlyphId>)
        ensures
            (*self) matches FontSource::Synthetic(f) ==> r == find_char(f.char_map@, codepoint),
    {
        match self {
            FontSource::OpenType(f) => f.glyph_index(codepoint),
            FontSource::Synthetic(f) => f.glyph_index(codepoint),
        }
    }

    /// The glyph's scalar metrics, with the defaulting rules of
    /// `glyph_record_from_parts`, from the source's own lookups or tables.
    pub fn glyph_record(&self, gid: GlyphId) -> (r: Result<GlyphMetrics, FontError>)
        ensures
            r is Err ==> r == Err::<GlyphMetrics, FontError>(FontError::MissingGlyph(gid)),
            (*self) matches FontSource::OpenType(f) ==> glyph_record_matches(
                gid,
                bounding_box_of(f@, gid),
                advance_of(f@, gid),
                side_bearing_of(f@, gid),
                italic_correction_of(f@, gid),
                top_accent_attachment_of(f@, gid),
                r,
            ),
            (*self) matches FontSource::Synthetic(f) ==> ({
                let row = find_entry(f.glyphs@, gid);
                match row {
                    None => r == Err::<GlyphMetrics, FontError>(FontError::MissingGlyph(gid)),
                    Some(g) => glyph_record_matches(
                        gid,
                        Some((g.x_min, g.y_min, g.x_max, g.y_max)),
                        Some(g.advance),
                        Some(g.lsb),
                        g.italics,
                        g.attachment,
                        r,
                    ),
                }
            }),
    {
        match self {
            FontSource::OpenType(f) => f.glyph_record(gid),
            FontSource::Synthetic(f) => f.glyph_record(gid),
        }
    }

    /// The kerning for a glyph corner at a query height: `None` exactly when
    /// the source has no kerning for that corner, else the value of its step
    /// function at the query height.
    pub fn kern_for(&self, gid: GlyphId, height: i32, corner: Corner) -> (r: Option<i16>)
        requires
            (*self) matches FontSource::Synthetic(f) ==> synthetic_wf(f),
        ensures
            (*self) matches FontSource::OpenType(f) ==> ({
                match kern_table_of(f@, gid, corner) {
                    None => r is None,
                    Some(t) => r == Some(kern_value_at(t.heights@, t.kerns@, height as int)),
                }
            }),
            (*self) matches FontSource::Synthetic(f) ==> ({
                match find_kern(f.kern_tables@, gid, corner) {
                    None => r is None,
                    Some(t) => r == Some(kern_value_at(t.heights@, t.kerns@, height as int)),
                }
            }),
    {
        match self {
            FontSource::OpenType(f) => f.kern_for(gid, height, corner),
            FontSource::Synthetic(f) => f.kern_for(gid, height, corner),
        }
    }

    /// Resolve a glyph stretched vertically to at least `height` design
    /// units: the faithful resolution of the construction the source
    /// declares, under its minimum connector overlap.
    pub fn vert_variant(&self, gid: GlyphId, height: u32) -> (r: Result<VariantGlyph, FontError>)
        requires
            (*self) matches FontSource::Synthetic(f) ==> synthetic_wf(f),
        ensures
            (*self) matches FontSource::OpenType(f) ==> resolution_matches(
                vertical_construction_of(f@, gid),
                gid,
                Direction::Vertical,
                overlap_or_zero(connector_overlap_of(f@)) as int,
                height as int,
                r,
            ),
            (*self) matches FontSource::Synthetic(f) ==> resolution_matches(
                find_entry(f.vertical_constructions@, gid),
                gid,
                Direction::Vertical,
                f.min_connector_overlap as int,
                height as int,
                r,
            ),
            r is Err ==> r == Err::<VariantGlyph, FontError>(FontError::MalformedAssembly),
    {
        match self {
            FontSource::OpenType(f) => f.vert_variant(gid, height),
            FontSource::Synthetic(f) => f.vert_variant(gid, height),
        }
    }

    /// Resolve a glyph stretched horizontally to at least `width` design
    /// units: the faithful resolution of the construction the source
    /// declares, under its minimum connector overlap.
    pub fn horz_variant(&self, gid: GlyphId, width: u32) -> (r: Result<VariantGlyph, FontError>)
        requires
            (*self) matches FontSource::Synthetic(f) ==> synthetic_wf(f),
        ensures
            (*self) matches FontSource::OpenType(f) ==> resolution_matches(
                horizontal_construction_of(f@, gid),
                gid,
                Direction::Horizontal,
                overlap_or_zero(connector_overlap_of(f@)) as int,
                width as int,
                r,
            ),
            (*self) matches FontSource::Synthetic(f) ==> resolution_matches(
                find_entry(f.horizontal_constructions@, gid),
                gid,
                Direction::Horizontal,
                f.min_connector_overlap as int,
                width as int,
                r,
            ),
            r is Err ==> r == Err::<VariantGlyph, FontError>(FontError::MalformedAssembly),
    {
        match self {
            FontSource::OpenType(f) => f.horz_variant(gid, width),
            FontSource::Synthetic(f) => f.horz_variant(gid, width),
        }
    }

    /// The font-wide constants table, all-or-nothing.
    pub fn constants(&self) -> (r: Result<MathConstants, FontError>)
        ensures
            r is Err ==> r == Err::<MathConstants, FontError>(FontError::NoMathConstants),
            (*self) matches FontSource::OpenType(f) ==> constants_match(
                script_constants_of(f@),
                limit_constants_of(f@),
                fraction_constants_of(f@),
                general_constants_of(f@),
                stack_radical_constants_of(f@),
                underbar_scale_constants_of(f@),
                r,
            ),
            (*self) matches FontSource::Synthetic(f) ==> ({
                &&& (f.constants is None ==> r == Err::<MathConstants, FontError>(
                    FontError::NoMathConstants,
                ))
                &&& (f.constants matches Some(c) ==> r == Ok::<MathConstants, FontError>(c))
            }),
    {
        match self {
            FontSource::OpenType(f) => f.constants(),
            FontSource::Synthetic(f) => f.constants(),
        }
    }
}

impl<'a, 'b> GlyphAsTextUtilities for FontSource<'a, 'b> {
    fn glyph_index_for_char(&self, character: char) -> Option<GlyphId> {
        match self {
            FontSource::OpenType(f) => f.glyph_index_for_char(character),
            FontSource::Synthetic(f) => f.glyph_index_for_char(character),
        }
    }

    fn get_font_family_name(&self) -> Option<String> {
        match self {
            FontSource::OpenType(f) => f.get_font_family_name(),
            FontSource::Synthetic(f) => f.get_font_family_name(),
        }
    }
}

} // verus!
