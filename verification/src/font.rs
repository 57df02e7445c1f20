//! The OpenType-backed math font: a thin layer over a parsed font face that
//! reads the MATH table through trusted lookups and hands everything the
//! layout engine needs to the verified logic of the other modules.
//!
//! Every lookup is a pure function of the face and its arguments (the face
//! is read-only for the lifetime of the font), so each trusted reader's
//! result carries a name: an uninterpreted function of the face.  The public
//! methods' contracts are exact over those names, and identical queries on
//! one font give identical answers.

use vstd::prelude::*;
use crate::types::Corner;
use crate::types::Direction;
use crate::types::FontError;
use crate::types::GlyphId;
use crate::assembly::GlyphPart;
use crate::constants::FractionConstants;
use crate::constants::GeneralConstants;
use crate::constants::LimitConstants;
use crate::constants::MathConstants;
use crate::constants::ScriptConstants;
use crate::constants::StackRadicalConstants;
use crate::constants::UnderbarScaleConstants;
use crate::constants::assemble_constants;
use crate::constants::constants_match;
use crate::kerning::KernTable;
use crate::kerning::kern_lookup;
use crate::kerning::kern_table_wf;
use crate::kerning::kern_value_at;
use crate::metrics::GlyphMetrics;
use crate::metrics::glyph_record_from_parts;
use crate::metrics::glyph_record_matches;
use crate::variants::GlyphConstruction;
use crate::variants::VariantGlyph;
use crate::variants::VariantRecord;
use crate::variants::construction_wf;
use crate::variants::resolution_matches;
use crate::variants::resolve_variant;

verus! {

#[verifier::external_type_specification]
#[verifier::external_body]
pub struct ExFace<'a>(ttf_parser::Face<'a>);

/// Whether the face has a MATH table.
pub uninterp spec fn face_has_math(face: ttf_parser::Face) -> bool;

/// The glyph's bounding box in the face, if the glyph resolves.
pub uninterp spec fn bounding_box_of(face: ttf_parser::Face, gid: GlyphId) -> Option<
    (i16, i16, i16, i16),
>;

/// The glyph's horizontal advance in the face, if the glyph resolves.
pub uninterp spec fn advance_of(face: ttf_parser::Face, gid: GlyphId) -> Option<u16>;

/// The glyph's left side bearing in the face, if the glyph resolves.
pub uninterp spec fn side_bearing_of(face: ttf_parser::Face, gid: GlyphId) -> Option<i16>;

/// The glyph's italic-correction entry in the face's MATH glyph info, if it
/// has one.
pub uninterp spec fn italic_correction_of(face: ttf_parser::Face, gid: GlyphId) -> Option<i16>;

/// The glyph's top-accent-attachment entry in the face's MATH glyph info,
/// if it has one.
pub uninterp spec fn top_accent_attachment_of(face: ttf_parser::Face, gid: GlyphId) -> Option<
    i16,
>;

/// The glyph's kerning step function for one corner in the face's MATH kern
/// info, if the glyph has a readable record for that corner.
pub uninterp spec fn kern_table_of(face: ttf_parser::Face, gid: GlyphId, corner: Corner) -> Option<
    KernTable,
>;

/// The minimum connector overlap the face's MATH variants table declares,
/// if the face has one.
pub uninterp spec fn connector_overlap_of(face: ttf_parser::Face) -> Option<u16>;

/// The glyph's vertical stretch construction in the face's MATH variants
/// table, if it has an entry.
pub uninterp spec fn vertical_construction_of(face: ttf_parser::Face, gid: GlyphId) -> Option<
    GlyphConstruction,
>;

/// The glyph's horizontal stretch construction in the face's MATH variants
/// table, if it has an entry.
pub uninterp spec fn horizontal_construction_of(face: ttf_parser::Face, gid: GlyphId) -> Option<
    GlyphConstruction,
>;

/// The script shift and gap scalars of the face's MATH constants subtable,
/// if the face has one.
pub uninterp spec fn script_constants_of(face: ttf_parser::Face) -> Option<ScriptConstants>;

/// The limit placement scalars of the face's MATH constants subtable.
pub uninterp spec fn limit_constants_of(face: ttf_parser::Face) -> Option<LimitConstants>;

/// The fraction scalars of the face's MATH constants subtable.
pub uninterp spec fn fraction_constants_of(face: ttf_parser::Face) -> Option<FractionConstants>;

/// The axis height, accent base height and minimum formula heights of the
/// face's MATH constants subtable.
pub uninterp spec fn general_constants_of(face: ttf_parser::Face) -> Option<GeneralConstants>;

/// The stack and radical scalars of the face's MATH constants subtable.
pub uninterp spec fn stack_radical_constants_of(face: ttf_parser::Face) -> Option<
    StackRadicalConstants,
>;

/// The underbar scalars and scale-down percentages of the face's MATH
/// constants subtable.
pub uninterp spec fn underbar_scale_constants_of(face: ttf_parser::Face) -> Option<
    UnderbarScaleConstants,
>;

/// The minimum connector overlap used for planning: the declared value, or
/// zero where the face declares none.
pub open spec fn overlap_or_zero(declared: Option<u16>) -> u16 {
    match declared {
        Some(v) => v,
        None => 0u16,
    }
}

/// Utilities a renderer needs to paint glyphs as text rather than curves.
pub trait GlyphAsTextUtilities {
    fn glyph_index_for_char(&self, character: char) -> Option<GlyphId>;

    fn get_font_family_name(&self) -> Option<String>;
}

/// A math font backed by a parsed OpenType face with a MATH table.  The face
/// is borrowed immutably for the lifetime of all lookups and never mutated;
/// its value is the font's view, of which every lookup is a function.
pub struct MathFont<'a, 'b> {
    face: &'b ttf_parser::Face<'a>,
}

impl<'a, 'b> View for MathFont<'a, 'b> {
    type V = ttf_parser::Face<'a>;

    closed spec fn view(&self) -> ttf_parser::Face<'a> {
        *self.face
    }
}

/// Relies on ttf_parser::Face::tables: whether the face has a MATH table,
/// named `face_has_math`.
#[verifier::external_body]
fn has_math_table(face: &ttf_parser::Face) -> (r: bool)
    ensures
        r == face_has_math(*face),
{
    face.tables().math.is_some()
}

impl<'a, 'b> MathFont<'a, 'b> {
    /// Wrap a parsed face: a font exactly when the face has a MATH table,
    /// else `NoMathTable`, since math typesetting cannot proceed without
    /// one.
    pub fn new(face: &'b ttf_parser::Face<'a>) -> (r: Result<MathFont<'a, 'b>, FontError>)
        ensures
            r is Ok <==> face_has_math(*face),
            r is Err ==> r == Err::<MathFont<'a, 'b>, FontError>(FontError::NoMathTable),
            r matches Ok(f) ==> f@ == *face,
    {
        if has_math_table(face) {
            Ok(MathFont { face })
        } else {
            Err(FontError::NoMathTable)
        }
    }

    /// Relies on ttf_parser::Face::glyph_index: the glyph for a codepoint,
    /// if the font maps it.
    #[verifier::external_body]
    pub fn glyph_index(&self, codepoint: char) -> Option<GlyphId> {
        self.face.glyph_index(codepoint).map(|g| GlyphId(g.0))
    }

    /// Relies on ttf_parser::Face::glyph_bounding_box, named
    /// `bounding_box_of`.
    #[verifier::external_body]
    fn bounding_box_raw(&self, gid: GlyphId) -> (r: Option<(i16, i16, i16, i16)>)
        ensures
            r == bounding_box_of(self@, gid),
    {
        let b = self.face.glyph_bounding_box(ttf_parser::GlyphId(gid.0))?;
        Some((b.x_min, b.y_min, b.x_max, b.y_max))
    }

    /// Relies on ttf_parser::Face::glyph_hor_advance, named `advance_of`.
    #[verifier::external_body]
    fn advance_raw(&self, gid: GlyphId) -> (r: Option<u16>)
        ensures
            r == advance_of(self@, gid),
    {
        self.face.glyph_hor_advance(ttf_parser::GlyphId(gid.0))
    }

    /// Relies on ttf_parser::Face::glyph_hor_side_bearing, named
    /// `side_bearing_of`.
    #[verifier::external_body]
    fn side_bearing_raw(&self, gid: GlyphId) -> (r: Option<i16>)
        ensures
            r == side_bearing_of(self@, gid),
    {
        self.face.glyph_hor_side_bearing(ttf_parser::GlyphId(gid.0))
    }

    /// Relies on ttf_parser's MATH glyph-info table: the glyph's italic
    /// correction, if it has an entry, named `italic_correction_of`.
    #[verifier::external_body]
    fn italic_correction_raw(&self, gid: GlyphId) -> (r: Option<i16>)
        ensures
            r == italic_correction_of(self@, gid),
    {
        let v = self.face.tables().math?.glyph_info?.italic_corrections?.get(
            ttf_parser::GlyphId(gid.0),
        )?;
        Some(v.value)
    }

    /// Relies on ttf_parser's MATH glyph-info table: the glyph's top-accent
    /// attachment, if it has an entry, named `top_accent_attachment_of`.
    #[verifier::external_body]
    fn top_accent_attachment_raw(&self, gid: GlyphId) -> (r: Option<i16>)
        ensures
            r == top_accent_attachment_of(self@, gid),
    {
        let v = self.face.tables().math?.glyph_info?.top_accent_attachments?.get(
            ttf_parser::GlyphId(gid.0),
        )?;
        Some(v.value)
    }

    /// The glyph's italic correction in design units: the font's entry, or
    /// zero when the glyph has none (absence is a silent default, not an
    /// error).
    pub fn italics(&self, gid: GlyphId) -> (r: i16)
        ensures
            r == (match italic_correction_of(self@, gid) {
                Some(v) => v,
                None => 0i16,
            }),
    {
        match self.italic_correction_raw(gid) {
            Some(v) => v,
            None => 0,
        }
    }

    /// The glyph's scalar metrics, assembled from the font's own lookups:
    /// bounding box, advance and side bearing are owed (the glyph is
    /// `MissingGlyph` without them); the italic correction defaults to zero
    /// and the top-accent attachment to the bounding box midpoint.
    pub fn glyph_record(&self, gid: GlyphId) -> (r: Result<GlyphMetrics, FontError>)
        ensures
            glyph_record_matches(
                gid,
                bounding_box_of(self@, gid),
                advance_of(self@, gid),
                side_bearing_of(self@, gid),
                italic_correction_of(self@, gid),
                top_accent_attachment_of(self@, gid),
                r,
            ),
    {
        let bbox = self.bounding_box_raw(gid);
        let advance = self.advance_raw(gid);
        let lsb = self.side_bearing_raw(gid);
        let italics = self.italic_correction_raw(gid);
        let attachment = self.top_accent_attachment_raw(gid);
        glyph_record_from_parts(gid, bbox, advance, lsb, italics, attachment)
    }

    /// Relies on ttf_parser's MATH kern-info table: one corner's kerning
    /// step function for a glyph, as plain height and kern lists — nothing
    /// when the glyph has no record for that corner or an entry of the
    /// record cannot be read — named `kern_table_of`.
    #[verifier::external_body]
    fn corner_kern_table_raw(&self, gid: GlyphId, corner: Corner) -> (r: Option<KernTable>)
        ensures
            r == kern_table_of(self@, gid, corner),
            r matches Some(t) ==> kern_table_wf(t),
    {
        let rec = self.face.tables().math?.glyph_info?.kern_infos?.get(ttf_parser::GlyphId(gid.0))?;
        let k = match corner {
            Corner::TopRight => rec.top_right?, Corner::TopLeft => rec.top_left?,
            Corner::BottomRight => rec.bottom_right?, Corner::BottomLeft => rec.bottom_left?,
        };
        let count = k.count();
        let mut heights = Vec::new();
        let mut kerns = Vec::new();
        for i in 0..count {
            heights.push(k.height(i)?.value);
            kerns.push(k.kern(i)?.value);
        }
        kerns.push(k.kern(count)?.value);
        Some(KernTable { heights, kerns })
    }

    /// The kerning for a glyph corner at a query height, in design units:
    /// `None` exactly when the font has no kerning record for that corner
    /// (absence is not an error: the caller treats it as zero kerning), else
    /// the value of that record's step function at the query height.
    pub fn kern_for(&self, gid: GlyphId, height: i32, corner: Corner) -> (r: Option<i16>)
        ensures
            ({
                match kern_table_of(self@, gid, corner) {
                    None => r is None,
                    Some(t) => r == Some(kern_value_at(t.heights@, t.kerns@, height as int)),
                }
            }),
    {
        match self.corner_kern_table_raw(gid, corner) {
            None => None,
            Some(table) => Some(kern_lookup(&table, height)),
        }
    }

    /// Relies on ttf_parser's MATH variants table: the glyph's vertical
    /// construction as plain records, named `vertical_construction_of`.
    #[verifier::external_body]
    fn vertical_construction_raw(&self, gid: GlyphId) -> (r: Option<GlyphConstruction>)
        ensures
            r == vertical_construction_of(self@, gid),
            r matches Some(c) ==> construction_wf(c),
    {
        let variants = self.face.tables().math?.variants?;
        let c = variants.vertical_constructions.get(ttf_parser::GlyphId(gid.0))?;
        let recs = c.variants.into_iter().map(|v| VariantRecord {
            glyph_id: GlyphId(v.variant_glyph.0), min_advance: v.advance_measurement }).collect();
        let assembly = c.assembly.map(|a| a.parts.into_iter().map(|p| GlyphPart {
            glyph_id: GlyphId(p.glyph_id.0), is_extender: p.part_flags.extender(),
            start_connector_length: p.start_connector_length as u32,
            end_connector_length: p.end_connector_length as u32,
            full_advance: p.full_advance as u32 }).collect());
        Some(GlyphConstruction { variants: recs, assembly })
    }

    /// Relies on ttf_parser's MATH variants table: the glyph's horizontal
    /// construction as plain records, named `horizontal_construction_of`.
    #[verifier::external_body]
    fn horizontal_construction_raw(&self, gid: GlyphId) -> (r: Option<GlyphConstruction>)
        ensures
            r == horizontal_construction_of(self@, gid),
            r matches Some(c) ==> construction_wf(c),
    {
        let variants = self.face.tables().math?.variants?;
        let c = variants.horizontal_constructions.get(ttf_parser::GlyphId(gid.0))?;
        let recs = c.variants.into_iter().map(|v| VariantRecord {
            glyph_id: GlyphId(v.variant_glyph.0), min_advance: v.advance_measurement }).collect();
        let assembly = c.assembly.map(|a| a.parts.into_iter().map(|p| GlyphPart {
            glyph_id: GlyphId(p.glyph_id.0), is_extender: p.part_flags.extender(),
            start_connector_length: p.start_connector_length as u32,
            end_connector_length: p.end_connector_length as u32,
            full_advance: p.full_advance as u32 }).collect());
        Some(GlyphConstruction { variants: recs, assembly })
    }

    /// Relies on ttf_parser's MATH variants table: its declared minimum
    /// connector overlap, named `connector_overlap_of`.
    #[verifier::external_body]
    fn min_connector_overlap_raw(&self) -> (r: Option<u16>)
        ensures
            r == connector_overlap_of(self@),
    {
        Some(self.face.tables().math?.variants?.min_connector_overlap)
    }

    /// Resolve a glyph stretched vertically to at least `height` design
    /// units: the faithful resolution of the construction the font declares
    /// for the glyph, under the font's minimum connector overlap.
    pub fn vert_variant(&self, gid: GlyphId, height: u32) -> (r: Result<VariantGlyph, FontError>)
        ensures
            resolution_matches(
                vertical_construction_of(self@, gid),
                gid,
                Direction::Vertical,
                overlap_or_zero(connector_overlap_of(self@)) as int,
                height as int,
                r,
            ),
            r is Err ==> r == Err::<VariantGlyph, FontError>(FontError::MalformedAssembly),
    {
        match self.vertical_construction_raw(gid) {
            None => Ok(VariantGlyph::Replacement(gid)),
            Some(con) => {
                let mo = match self.min_connector_overlap_raw() {
                    Some(v) => v,
                    None => 0,
                };
                resolve_variant(Some(&con), gid, Direction::Vertical, mo as u32, height)
            },
        }
    }

    /// Resolve a glyph stretched horizontally to at least `width` design
    /// units: the faithful resolution of the construction the font declares
    /// for the glyph, under the font's minimum connector overlap.
    pub fn horz_variant(&self, gid: GlyphId, width: u32) -> (r: Result<VariantGlyph, FontError>)
        ensures
            resolution_matches(
                horizontal_construction_of(self@, gid),
                gid,
                Direction::Horizontal,
                overlap_or_zero(connector_overlap_of(self@)) as int,
                width as int,
                r,
            ),
            r is Err ==> r == Err::<VariantGlyph, FontError>(FontError::MalformedAssembly),
    {
        match self.horizontal_construction_raw(gid) {
            None => Ok(VariantGlyph::Replacement(gid)),
            Some(con) => {
                let mo = match self.min_connector_overlap_raw() {
                    Some(v) => v,
                    None => 0,
                };
                resolve_variant(Some(&con), gid, Direction::Horizontal, mo as u32, width)
            },
        }
    }

    /// Relies on ttf_parser's MATH constants subtable: the script shift and
    /// gap scalars, named `script_constants_of`.
    #[verifier::external_body]
    fn script_constants_raw(&self) -> (r: Option<ScriptConstants>)
        ensures
            r == script_constants_of(self@),
    {
        let c = self.face.tables().math?.constants?;
        Some(ScriptConstants {
            subscript_shift_down: c.subscript_shift_down().value,
            subscript_top_max: c.subscript_top_max().value,
            subscript_baseline_drop_min: c.subscript_baseline_drop_min().value,
            superscript_shift_up: c.superscript_shift_up().value,
            superscript_shift_up_cramped: c.superscript_shift_up_cramped().value,
            superscript_bottom_min: c.superscript_bottom_min().value,
            superscript_baseline_drop_max: c.superscript_baseline_drop_max().value,
            sub_superscript_gap_min: c.sub_superscript_gap_min().value,
        })
    }

    /// Relies on ttf_parser's MATH constants subtable: the limit placement
    /// scalars, named `limit_constants_of`.
    #[verifier::external_body]
    fn limit_constants_raw(&self) -> (r: Option<LimitConstants>)
        ensures
            r == limit_constants_of(self@),
    {
        let c = self.face.tables().math?.constants?;
        Some(LimitConstants {
            upper_limit_gap_min: c.upper_limit_gap_min().value,
            upper_limit_baseline_rise_min: c.upper_limit_baseline_rise_min().value,
            lower_limit_gap_min: c.lower_limit_gap_min().value,
            lower_limit_baseline_drop_min: c.lower_limit_baseline_drop_min().value,
        })
    }

    /// Relies on ttf_parser's MATH constants subtable: the fraction
    /// scalars, named `fraction_constants_of`.
    #[verifier::external_body]
    fn fraction_constants_raw(&self) -> (r: Option<FractionConstants>)
        ensures
            r == fraction_constants_of(self@),
    {
        let c = self.face.tables().math?.constants?;
        Some(FractionConstants {
            fraction_numerator_shift_up: c.fraction_numerator_shift_up().value,
            fraction_numerator_display_style_shift_up: c.fraction_numerator_display_style_shift_up().value,
            fraction_denominator_shift_down: c.fraction_denominator_shift_down().value,
            fraction_denominator_display_style_shift_down: c.fraction_denominator_display_style_shift_down().value,
            fraction_numerator_gap_min: c.fraction_numerator_gap_min().value,
            fraction_num_display_style_gap_min: c.fraction_num_display_style_gap_min().value,
            fraction_rule_thickness: c.fraction_rule_thickness().value,
            fraction_denominator_gap_min: c.fraction_denominator_gap_min().value,
            fraction_denom_display_style_gap_min: c.fraction_denom_display_style_gap_min().value,
        })
    }

    /// Relies on ttf_parser's MATH constants subtable: axis height, accent
    /// base height and the two minimum formula heights, named
    /// `general_constants_of`.
    #[verifier::external_body]
    fn general_constants_raw(&self) -> (r: Option<GeneralConstants>)
        ensures
            r == general_constants_of(self@),
    {
        let c = self.face.tables().math?.constants?;
        Some(GeneralConstants {
            axis_height: c.axis_height().value,
            accent_base_height: c.accent_base_height().value,
            delimited_sub_formula_min_height: c.delimited_sub_formula_min_height(),
            display_operator_min_height: c.display_operator_min_height(),
        })
    }

    /// Relies on ttf_parser's MATH constants subtable: the stack and
    /// radical scalars, named `stack_radical_constants_of`.
    #[verifier::external_body]
    fn stack_radical_constants_raw(&self) -> (r: Option<StackRadicalConstants>)
        ensures
            r == stack_radical_constants_of(self@),
    {
        let c = self.face.tables().math?.constants?;
        Some(StackRadicalConstants {
            stack_top_shift_up: c.stack_top_shift_up().value,
            stack_top_display_style_shift_up: c.stack_top_display_style_shift_up().value,
            stack_bottom_shift_down: c.stack_bottom_shift_down().value,
            stack_gap_min: c.stack_gap_min().value,
            stack_display_style_gap_min: c.stack_display_style_gap_min().value,
            radical_vertical_gap: c.radical_vertical_gap().value,
            radical_display_style_vertical_gap: c.radical_display_style_vertical_gap().value,
            radical_rule_thickness: c.radical_rule_thickness().value,
            radical_extra_ascender: c.radical_extra_ascender().value,
        })
    }

    /// Relies on ttf_parser's MATH constants subtable: the underbar scalars
    /// and the script scale-down percentages, named
    /// `underbar_scale_constants_of`.
    #[verifier::external_body]
    fn underbar_scale_constants_raw(&self) -> (r: Option<UnderbarScaleConstants>)
        ensures
            r == underbar_scale_constants_of(self@),
    {
        let c = self.face.tables().math?.constants?;
        Some(UnderbarScaleConstants {
            underbar_vertical_gap: c.underbar_vertical_gap().value,
            underbar_rule_thickness: c.underbar_rule_thickness().value,
            underbar_extra_descender: c.underbar_extra_descender().value,
            script_percent_scale_down: c.script_percent_scale_down(),
            script_script_percent_scale_down: c.script_script_percent_scale_down(),
        })
    }

    /// The font-wide constants table, all-or-nothing: the fully populated
    /// table assembled from the font's six constant groups, and
    /// `NoMathConstants` exactly when the font lacks any of them (a font
    /// with a constants subtable has them all).
    pub fn constants(&self) -> (r: Result<MathConstants, FontError>)
        ensures
            constants_match(
                script_constants_of(self@),
                limit_constants_of(self@),
                fraction_constants_of(self@),
                general_constants_of(self@),
                stack_radical_constants_of(self@),
                underbar_scale_constants_of(self@),
                r,
            ),
    {
        let scripts = self.script_constants_raw();
        let limits = self.limit_constants_raw();
        let fractions = self.fraction_constants_raw();
        let general = self.general_constants_raw();
        let stacks_radicals = self.stack_radical_constants_raw();
        let underbar_scale = self.underbar_scale_constants_raw();
        assemble_constants(scripts, limits, fractions, general, stacks_radicals, underbar_scale)
    }

    /// Relies on ttf_parser::Face::tables: the number of name records in
    /// the face's name table, zero when there is none.
    #[verifier::external_body]
    fn name_record_count(&self) -> u16 {
        match self.face.tables().name {
            Some(t) => t.names.len(),
            None => 0,
        }
    }

    /// Relies on ttf_parser's name table: one name record's id and raw
    /// bytes.
    #[verifier::external_body]
    fn name_record_raw(&self, i: u16) -> Option<(u16, Vec<u8>)> {
        let names = self.face.tables().name?.names;
        let n = names.get(i)?;
        Some((n.name_id, n.name.to_vec()))
    }
}

/// Relies on utf16string::WStr::from_utf16be and WStr::to_utf8: the UTF-8
/// form of well-formed UTF-16BE bytes, or nothing.
#[verifier::external_body]
fn utf16be_to_utf8(bytes: &Vec<u8>) -> Option<String> {
    match utf16string::WStr::from_utf16be(bytes.as_slice()) {
        Ok(w) => Some(w.to_utf8()),
        Err(_) => None,
    }
}

impl<'a, 'b> GlyphAsTextUtilities for MathFont<'a, 'b> {
    fn glyph_index_for_char(&self, character: char) -> Option<GlyphId> {
        self.glyph_index(character)
    }

    /// The font-family name: the first name record with the family name id,
    /// decoded from UTF-16BE.
    fn get_font_family_name(&self) -> Option<String> {
        let count = self.name_record_count();
        let mut i: u16 = 0;
        while i < count
            invariant
                0 <= i <= count,
            decreases count - i,
        {
            match self.name_record_raw(i) {
                Some((name_id, bytes)) => {
                    // Name id 1 is the font-family name.
                    if name_id == 1 {
                        match utf16be_to_utf8(&bytes) {
                            Some(s) => {
                                return Some(s);
                            },
                            None => {},
                        }
                    }
                },
                None => {},
            }
            i = i + 1;
        }
        None
    }
}

} // verus!
