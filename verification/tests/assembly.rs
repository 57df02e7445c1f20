use mathfont::assembly::plan_assembly;
use mathfont::assembly::GlyphInstruction;
use mathfont::assembly::GlyphPart;
use mathfont::types::FontError;
use mathfont::types::GlyphId;

fn part(gid: u16, advance: u32, start: u32, end: u32, ext: bool) -> GlyphPart {
    GlyphPart {
        glyph_id: GlyphId(gid),
        start_connector_length: start,
        end_connector_length: end,
        full_advance: advance,
        is_extender: ext,
    }
}

fn chain_length(parts: &[GlyphPart], instructions: &[GlyphInstruction]) -> i64 {
    let advance_of = |gid: GlyphId| -> i64 {
        parts
            .iter()
            .find(|p| p.glyph_id == gid)
            .map(|p| p.full_advance as i64)
            .unwrap()
    };
    instructions
        .iter()
        .map(|i| advance_of(i.glyph_id) - i.overlap as i64)
        .sum()
}

#[test]
fn worked_assembly() {
    // A fixed end-cap and one extender; three repeats are needed to reach 30.
    let parts = vec![part(1, 10, 0, 2, false), part(2, 8, 2, 2, true)];
    let instructions = plan_assembly(&parts, 1, 30).unwrap();
    let gids: Vec<u16> = instructions.iter().map(|i| i.glyph_id.0).collect();
    assert_eq!(gids, vec![1, 2, 2, 2]);
    assert_eq!(instructions[0].overlap, 0);
    for i in &instructions[1..] {
        assert!(i.overlap >= 1);
    }
    let length = chain_length(&parts, &instructions);
    assert!(length >= 30);
    // overlap budget: max pair overlap is 2 everywhere, the plan spends none
    // of the extra since 34 - 3 = 31 is already close to 30
    assert_eq!(instructions[1].overlap, 1);
    assert_eq!(instructions[2].overlap, 1);
    assert_eq!(instructions[3].overlap, 1);
    assert_eq!(length, 31);
}

#[test]
fn no_undershoot_over_many_targets() {
    let parts = vec![
        part(1, 100, 0, 40, false),
        part(2, 80, 50, 50, true),
        part(3, 120, 40, 30, false),
    ];
    for target in [0u32, 1, 150, 151, 152, 500, 1000, 12345] {
        let instructions = plan_assembly(&parts, 10, target).unwrap();
        let length = chain_length(&parts, &instructions);
        assert!(length >= target as i64, "target {} got {}", target, length);
    }
}

#[test]
fn determinism_byte_identical() {
    let parts = vec![
        part(1, 100, 0, 40, false),
        part(2, 80, 50, 50, true),
        part(3, 120, 40, 30, false),
    ];
    let a = plan_assembly(&parts, 10, 777).unwrap();
    let b = plan_assembly(&parts, 10, 777).unwrap();
    assert_eq!(a, b);
}

#[test]
fn no_extender_when_unnecessary() {
    // the two non-extenders alone span 100 + 120 - 10 = 210
    let parts = vec![
        part(1, 100, 0, 40, false),
        part(2, 80, 50, 50, true),
        part(3, 120, 40, 30, false),
    ];
    let instructions = plan_assembly(&parts, 10, 210).unwrap();
    let gids: Vec<u16> = instructions.iter().map(|i| i.glyph_id.0).collect();
    assert_eq!(gids, vec![1, 3]);
}

#[test]
fn overlap_floor_holds() {
    let parts = vec![
        part(1, 100, 0, 40, false),
        part(2, 80, 50, 50, true),
        part(3, 120, 40, 30, false),
    ];
    for target in [0u32, 100, 250, 333, 1000] {
        let instructions = plan_assembly(&parts, 10, target).unwrap();
        for i in &instructions[1..] {
            assert!(i.overlap >= 10);
        }
    }
}

#[test]
fn repeats_never_decrease_with_target() {
    let parts = vec![part(1, 10, 0, 2, false), part(2, 8, 2, 2, true)];
    let mut previous = 0usize;
    for target in 0u32..200 {
        let instructions = plan_assembly(&parts, 1, target).unwrap();
        let repeats = instructions.iter().filter(|i| i.glyph_id.0 == 2).count();
        assert!(
            repeats >= previous,
            "target {} repeats {} fell below {}",
            target,
            repeats,
            previous
        );
        previous = repeats;
    }
}

#[test]
fn empty_recipe_is_malformed() {
    let parts: Vec<GlyphPart> = Vec::new();
    assert_eq!(plan_assembly(&parts, 1, 10), Err(FontError::MalformedAssembly));
}

#[test]
fn nonpositive_extender_contribution_is_malformed() {
    // each extender repetition contributes 5 - 1 * 8 < 0
    let parts = vec![part(1, 10, 0, 2, false), part(2, 5, 5, 5, true)];
    assert_eq!(plan_assembly(&parts, 8, 100), Err(FontError::MalformedAssembly));
}

#[test]
fn large_targets_spend_overlap_budget() {
    // with plenty of connector room the planner lands close to the target
    let parts = vec![part(1, 100, 0, 80, false), part(2, 100, 80, 80, true)];
    let instructions = plan_assembly(&parts, 5, 330).unwrap();
    let length = chain_length(&parts, &instructions);
    assert!(length >= 330);
    // four parts at most: 100 * 4 with three joints of at least 5
    assert!(instructions.len() == 4);
    assert!(length <= 385);
}

#[test]
fn extender_only_recipe_repeats_as_needed() {
    let parts = vec![part(2, 8, 2, 2, true)];
    let instructions = plan_assembly(&parts, 1, 30).unwrap();
    assert!(instructions.iter().all(|i| i.glyph_id.0 == 2));
    assert!(chain_length(&parts, &instructions) >= 30);
}

#[test]
fn extender_only_recipe_with_tiny_target_builds_nothing() {
    // with no fixed part, a target within the minimum-overlap allowance is
    // met by an empty chain; nothing is emitted
    let parts = vec![part(2, 8, 2, 2, true)];
    let instructions = plan_assembly(&parts, 10, 9).unwrap();
    assert!(instructions.is_empty());
}

#[test]
fn error_messages_name_their_condition() {
    assert_eq!(
        FontError::MalformedAssembly.message(),
        "malformed glyph assembly recipe"
    );
    assert_eq!(FontError::NoMathTable.message(), "font has no MATH table");
    assert_eq!(
        FontError::NoMathConstants.message(),
        "MATH table has no constants"
    );
    assert_eq!(
        FontError::MissingGlyph(GlyphId(5)).message(),
        "glyph is missing from the font"
    );
}
