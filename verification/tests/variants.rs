use mathfont::assembly::GlyphPart;
use mathfont::types::Direction;
use mathfont::types::FontError;
use mathfont::types::GlyphId;
use mathfont::variants::resolve_variant;
use mathfont::variants::GlyphConstruction;
use mathfont::variants::VariantGlyph;
use mathfont::variants::VariantRecord;

fn variant(gid: u16, advance: u16) -> VariantRecord {
    VariantRecord { glyph_id: GlyphId(gid), min_advance: advance }
}

fn extender_recipe() -> Vec<GlyphPart> {
    vec![
        GlyphPart {
            glyph_id: GlyphId(50),
            start_connector_length: 0,
            end_connector_length: 2,
            full_advance: 10,
            is_extender: false,
        },
        GlyphPart {
            glyph_id: GlyphId(51),
            start_connector_length: 2,
            end_connector_length: 2,
            full_advance: 8,
            is_extender: true,
        },
    ]
}

#[test]
fn variant_fallback_without_entry() {
    for size in [0u32, 1, 100, 100000] {
        let r = resolve_variant(None, GlyphId(7), Direction::Vertical, 1, size);
        assert_eq!(r, Ok(VariantGlyph::Replacement(GlyphId(7))));
    }
}

#[test]
fn first_large_enough_variant_wins() {
    let construction = Some(GlyphConstruction {
        variants: vec![variant(10, 100), variant(11, 200), variant(12, 300)],
        assembly: None,
    });
    let r = resolve_variant(construction.as_ref(), GlyphId(7), Direction::Vertical, 1, 150);
    assert_eq!(r, Ok(VariantGlyph::Replacement(GlyphId(11))));
    let r = resolve_variant(construction.as_ref(), GlyphId(7), Direction::Vertical, 1, 100);
    assert_eq!(r, Ok(VariantGlyph::Replacement(GlyphId(10))));
}

#[test]
fn largest_variant_is_best_effort_without_recipe() {
    let construction = Some(GlyphConstruction {
        variants: vec![variant(10, 100), variant(11, 200)],
        assembly: None,
    });
    let r = resolve_variant(construction.as_ref(), GlyphId(7), Direction::Horizontal, 1, 999);
    assert_eq!(r, Ok(VariantGlyph::Replacement(GlyphId(11))));
}

#[test]
fn glyph_itself_is_best_effort_without_variants() {
    let construction = Some(GlyphConstruction { variants: Vec::new(), assembly: None });
    let r = resolve_variant(construction.as_ref(), GlyphId(7), Direction::Horizontal, 1, 999);
    assert_eq!(r, Ok(VariantGlyph::Replacement(GlyphId(7))));
}

#[test]
fn recipe_is_planned_when_variants_fall_short() {
    let construction = Some(GlyphConstruction {
        variants: vec![variant(10, 20)],
        assembly: Some(extender_recipe()),
    });
    let r = resolve_variant(construction.as_ref(), GlyphId(7), Direction::Vertical, 1, 30).unwrap();
    match r {
        VariantGlyph::Constructable(direction, instructions) => {
            assert_eq!(direction, Direction::Vertical);
            let gids: Vec<u16> = instructions.iter().map(|i| i.glyph_id.0).collect();
            assert_eq!(gids, vec![50, 51, 51, 51]);
            // the assembled length reaches the target
            let length: i64 = instructions
                .iter()
                .map(|i| {
                    let advance = if i.glyph_id.0 == 50 { 10i64 } else { 8i64 };
                    advance - i.overlap as i64
                })
                .sum();
            assert!(length >= 30);
        }
        other => panic!("expected a constructable glyph, got {:?}", other),
    }
}

#[test]
fn malformed_recipe_is_a_resolution_error() {
    let construction = Some(GlyphConstruction {
        variants: Vec::new(),
        assembly: Some(Vec::new()),
    });
    let r = resolve_variant(construction.as_ref(), GlyphId(7), Direction::Vertical, 1, 30);
    assert_eq!(r, Err(FontError::MalformedAssembly));
}
