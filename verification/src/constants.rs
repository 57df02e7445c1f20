//! Font-wide typesetting constants from the MATH table's constants subtable,
//! in font design units (the two percent fields in percent).  Extraction is
//! all-or-nothing: a font without the subtable yields `NoMathConstants`,
//! never a partially defaulted table.

use vstd::prelude::*;
use crate::types::FontError;

verus! {

/// Subscript and superscript shifts and gaps.
#[derive(Clone, Copy, Debug, PartialEq, Eq, Structural)]
pub struct ScriptConstants {
    pub subscript_shift_down: i16,
    pub subscript_top_max: i16,
    pub subscript_baseline_drop_min: i16,
    pub superscript_shift_up: i16,
    pub superscript_shift_up_cramped: i16,
    pub superscript_bottom_min: i16,
    pub superscript_baseline_drop_max: i16,
    pub sub_superscript_gap_min: i16,
}

/// Upper and lower limit placement.
#[derive(Clone, Copy, Debug, PartialEq, Eq, Structural)]
pub struct LimitConstants {
    pub upper_limit_gap_min: i16,
    pub upper_limit_baseline_rise_min: i16,
    pub lower_limit_gap_min: i16,
    pub lower_limit_baseline_drop_min: i16,
}

/// Fraction bar geometry and numerator/denominator placement.
#[derive(Clone, Copy, Debug, PartialEq, Eq, Structural)]
pub struct FractionConstants {
    pub fraction_numerator_shift_up: i16,
    pub fraction_numerator_display_style_shift_up: i16,
    pub fraction_denominator_shift_down: i16,
    pub fraction_denominator_display_style_shift_down: i16,
    pub fraction_numerator_gap_min: i16,
    pub fraction_num_display_style_gap_min: i16,
    pub fraction_rule_thickness: i16,
    pub fraction_denominator_gap_min: i16,
    pub fraction_denom_display_style_gap_min: i16,
}

/// Axis height, accent base height and the two minimum formula heights.
#[derive(Clone, Copy, Debug, PartialEq, Eq, Structural)]
pub struct GeneralConstants {
    pub axis_height: i16,
    pub accent_base_height: i16,
    pub delimited_sub_formula_min_height: u16,
    pub display_operator_min_height: u16,
}

/// Stack and radical geometry.
#[derive(Clone, Copy, Debug, PartialEq, Eq, Structural)]
pub struct StackRadicalConstants {
    pub stack_top_shift_up: i16,
    pub stack_top_display_style_shift_up: i16,
    pub stack_bottom_shift_down: i16,
    pub stack_gap_min: i16,
    pub stack_display_style_gap_min: i16,
    pub radical_vertical_gap: i16,
    pub radical_display_style_vertical_gap: i16,
    pub radical_rule_thickness: i16,
    pub radical_extra_ascender: i16,
}

/// Underbar geometry and the script scale-down percentages.
#[derive(Clone, Copy, Debug, PartialEq, Eq, Structural)]
pub struct UnderbarScaleConstants {
    pub underbar_vertical_gap: i16,
    pub underbar_rule_thickness: i16,
    pub underbar_extra_descender: i16,
    pub script_percent_scale_down: i16,
    pub script_script_percent_scale_down: i16,
}

/// The fully populated constants table, in design units.  Rendering-side
/// engine defaults that are not font data (the delimiter factor and short
/// fall, the null delimiter space) are applied by the em-unit conversion
/// outside this crate.
#[derive(Clone, Copy, Debug, PartialEq, Eq, Structural)]
pub struct MathConstants {
    pub scripts: ScriptConstants,
    pub limits: LimitConstants,
    pub fractions: FractionConstants,
    pub general: GeneralConstants,
    pub stacks_radicals: StackRadicalConstants,
    pub underbar_scale: UnderbarScaleConstants,
}

/// What the extractor must return, given the six raw group lookups: the
/// fully populated table when the constants subtable is present, and
/// `NoMathConstants` when it is not — never a partial table.
pub open spec fn constants_match(
    scripts: Option<ScriptConstants>,
    limits: Option<LimitConstants>,
    fractions: Option<FractionConstants>,
    general: Option<GeneralConstants>,
    stacks_radicals: Option<StackRadicalConstants>,
    underbar_scale: Option<UnderbarScaleConstants>,
    r: Result<MathConstants, FontError>,
) -> bool {
    &&& (r is Ok <==> scripts is Some && limits is Some && fractions is Some && general is Some
        && stacks_radicals is Some && underbar_scale is Some)
    &&& (r is Err ==> r == Err::<MathConstants, FontError>(FontError::NoMathConstants))
    &&& (r matches Ok(c) ==> {
        &&& scripts == Some(c.scripts)
        &&& limits == Some(c.limits)
        &&& fractions == Some(c.fractions)
        &&& general == Some(c.general)
        &&& stacks_radicals == Some(c.stacks_radicals)
        &&& underbar_scale == Some(c.underbar_scale)
    })
}

/// Assemble the constants table from the six raw group lookups,
/// all-or-nothing.
pub fn assemble_constants(
    scripts: Option<ScriptConstants>,
    limits: Option<LimitConstants>,
    fractions: Option<FractionConstants>,
    general: Option<GeneralConstants>,
    stacks_radicals: Option<StackRadicalConstants>,
    underbar_scale: Option<UnderbarScaleConstants>,
) -> (r: Result<MathConstants, FontError>)
    ensures
        constants_match(scripts, limits, fractions, general, stacks_radicals, underbar_scale, r),
{
    match (scripts, limits, fractions, general, stacks_radicals, underbar_scale) {
        (Some(s), Some(l), Some(f), Some(g), Some(sr), Some(us)) => Ok(
            MathConstants {
                scripts: s,
                limits: l,
                fractions: f,
                general: g,
                stacks_radicals: sr,
                underbar_scale: us,
            },
        ),
        _ => Err(FontError::NoMathConstants),
    }
}

} // verus!
