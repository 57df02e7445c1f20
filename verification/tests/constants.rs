use mathfont::constants::assemble_constants;
use mathfont::constants::FractionConstants;
use mathfont::constants::GeneralConstants;
use mathfont::constants::LimitConstants;
use mathfont::constants::ScriptConstants;
use mathfont::constants::StackRadicalConstants;
use mathfont::constants::UnderbarScaleConstants;
use mathfont::types::FontError;

fn scripts() -> ScriptConstants {
    ScriptConstants {
        subscript_shift_down: 210,
        subscript_top_max: 400,
        subscript_baseline_drop_min: 160,
        superscript_shift_up: 360,
        superscript_shift_up_cramped: 280,
        superscript_bottom_min: 130,
        superscript_baseline_drop_max: 230,
        sub_superscript_gap_min: 150,
    }
}

fn limits() -> LimitConstants {
    LimitConstants {
        upper_limit_gap_min: 100,
        upper_limit_baseline_rise_min: 300,
        lower_limit_gap_min: 150,
        lower_limit_baseline_drop_min: 600,
    }
}

fn fractions() -> FractionConstants {
    FractionConstants {
        fraction_numerator_shift_up: 400,
        fraction_numerator_display_style_shift_up: 700,
        fraction_denominator_shift_down: 400,
        fraction_denominator_display_style_shift_down: 700,
        fraction_numerator_gap_min: 60,
        fraction_num_display_style_gap_min: 150,
        fraction_rule_thickness: 60,
        fraction_denominator_gap_min: 60,
        fraction_denom_display_style_gap_min: 150,
    }
}

fn general() -> GeneralConstants {
    GeneralConstants {
        axis_height: 250,
        accent_base_height: 450,
        delimited_sub_formula_min_height: 1500,
        display_operator_min_height: 1400,
    }
}

fn stacks_radicals() -> StackRadicalConstants {
    StackRadicalConstants {
        stack_top_shift_up: 450,
        stack_top_display_style_shift_up: 700,
        stack_bottom_shift_down: 450,
        stack_gap_min: 150,
        stack_display_style_gap_min: 350,
        radical_vertical_gap: 75,
        radical_display_style_vertical_gap: 150,
        radical_rule_thickness: 60,
        radical_extra_ascender: 60,
    }
}

fn underbar_scale() -> UnderbarScaleConstants {
    UnderbarScaleConstants {
        underbar_vertical_gap: 180,
        underbar_rule_thickness: 60,
        underbar_extra_descender: 60,
        script_percent_scale_down: 70,
        script_script_percent_scale_down: 50,
    }
}

#[test]
fn full_table_is_assembled() {
    let c = assemble_constants(
        Some(scripts()),
        Some(limits()),
        Some(fractions()),
        Some(general()),
        Some(stacks_radicals()),
        Some(underbar_scale()),
    )
    .unwrap();
    assert_eq!(c.scripts, scripts());
    assert_eq!(c.limits, limits());
    assert_eq!(c.fractions, fractions());
    assert_eq!(c.general, general());
    assert_eq!(c.stacks_radicals, stacks_radicals());
    assert_eq!(c.underbar_scale, underbar_scale());
    assert_eq!(c.general.axis_height, 250);
    assert_eq!(c.underbar_scale.script_percent_scale_down, 70);
}

#[test]
fn extraction_is_all_or_nothing() {
    let e = assemble_constants(
        None,
        Some(limits()),
        Some(fractions()),
        Some(general()),
        Some(stacks_radicals()),
        Some(underbar_scale()),
    );
    assert_eq!(e, Err(FontError::NoMathConstants));
    let e = assemble_constants(
        Some(scripts()),
        Some(limits()),
        Some(fractions()),
        Some(general()),
        Some(stacks_radicals()),
        None,
    );
    assert_eq!(e, Err(FontError::NoMathConstants));
    let e = assemble_constants(None, None, None, None, None, None);
    assert_eq!(e, Err(FontError::NoMathConstants));
}
