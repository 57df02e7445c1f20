use mathfont::assembly::GlyphPart;
use mathfont::font::GlyphAsTextUtilities;
use mathfont::kerning::KernTable;
use mathfont::synthetic::SyntheticFont;
use mathfont::synthetic::SyntheticGlyph;
use mathfont::types::Corner;
use mathfont::types::FontError;
use mathfont::types::GlyphId;
use mathfont::variants::GlyphConstruction;
use mathfont::variants::VariantGlyph;
use mathfont::variants::VariantRecord;

fn sample_font() -> SyntheticFont {
    let brace_parts = vec![
        GlyphPart {
            glyph_id: GlyphId(100),
            start_connector_length: 0,
            end_connector_length: 20,
            full_advance: 100,
            is_extender: false,
        },
        GlyphPart {
            glyph_id: GlyphId(101),
            start_connector_length: 20,
            end_connector_length: 20,
            full_advance: 80,
            is_extender: true,
        },
        GlyphPart {
            glyph_id: GlyphId(102),
            start_connector_length: 20,
            end_connector_length: 0,
            full_advance: 100,
            is_extender: false,
        },
    ];
    SyntheticFont {
        min_connector_overlap: 10,
        char_map: vec![('x', GlyphId(1)), ('{', GlyphId(2))],
        glyphs: vec![
            (
                GlyphId(1),
                SyntheticGlyph {
                    x_min: 10,
                    y_min: -20,
                    x_max: 110,
                    y_max: 400,
                    advance: 120,
                    lsb: 10,
                    italics: Some(15),
                    attachment: None,
                },
            ),
        ],
        kern_tables: vec![(
            GlyphId(1),
            Corner::TopRight,
            KernTable { heights: vec![10, 20], kerns: vec![5, 8, 12] },
        )],
        vertical_constructions: vec![(
            GlyphId(2),
            GlyphConstruction {
                variants: vec![
                    VariantRecord { glyph_id: GlyphId(20), min_advance: 500 },
                    VariantRecord { glyph_id: GlyphId(21), min_advance: 700 },
                ],
                assembly: Some(brace_parts),
            },
        )],
        horizontal_constructions: Vec::new(),
        constants: None,
        family_name: Some(String::from("Synthetic Math")),
    }
}

#[test]
fn synthetic_glyph_lookup() {
    let font = sample_font();
    assert_eq!(font.glyph_index('x'), Some(GlyphId(1)));
    assert_eq!(font.glyph_index('{'), Some(GlyphId(2)));
    assert_eq!(font.glyph_index('y'), None);
    assert_eq!(font.glyph_index_for_char('x'), Some(GlyphId(1)));
}

#[test]
fn synthetic_record_defaults_attachment_to_midpoint() {
    let font = sample_font();
    let record = font.glyph_record(GlyphId(1)).unwrap();
    assert_eq!(record.advance, 120);
    assert_eq!(record.italics, 15);
    assert_eq!(record.attachment, 60);
    assert_eq!(
        font.glyph_record(GlyphId(9)),
        Err(FontError::MissingGlyph(GlyphId(9)))
    );
}

#[test]
fn synthetic_kern_steps() {
    let font = sample_font();
    assert_eq!(font.kern_for(GlyphId(1), 5, Corner::TopRight), Some(5));
    assert_eq!(font.kern_for(GlyphId(1), 15, Corner::TopRight), Some(8));
    assert_eq!(font.kern_for(GlyphId(1), 25, Corner::TopRight), Some(12));
    assert_eq!(font.kern_for(GlyphId(1), 15, Corner::TopLeft), None);
    assert_eq!(font.kern_for(GlyphId(2), 15, Corner::TopRight), None);
}

#[test]
fn synthetic_vertical_resolution() {
    let font = sample_font();
    // without a construction entry the glyph is unchanged, whatever the size
    assert_eq!(
        font.vert_variant(GlyphId(1), 100000),
        Ok(VariantGlyph::Replacement(GlyphId(1)))
    );
    // a discrete variant that reaches the size wins
    assert_eq!(
        font.vert_variant(GlyphId(2), 600),
        Ok(VariantGlyph::Replacement(GlyphId(21)))
    );
    // beyond the variants, the assembly recipe takes over
    match font.vert_variant(GlyphId(2), 1000).unwrap() {
        VariantGlyph::Constructable(_, instructions) => {
            let advance = |gid: GlyphId| -> i64 {
                match gid.0 {
                    100 | 102 => 100,
                    101 => 80,
                    other => panic!("unexpected glyph {}", other),
                }
            };
            assert_eq!(instructions[0].glyph_id, GlyphId(100));
            assert_eq!(instructions[0].overlap, 0);
            assert_eq!(instructions.last().unwrap().glyph_id, GlyphId(102));
            let length: i64 = instructions
                .iter()
                .map(|i| advance(i.glyph_id) - i.overlap as i64)
                .sum();
            assert!(length >= 1000);
            for i in &instructions[1..] {
                assert!(i.overlap >= 10);
            }
        }
        other => panic!("expected an assembly, got {:?}", other),
    }
    // the horizontal table is empty, so the glyph is unchanged there
    assert_eq!(
        font.horz_variant(GlyphId(2), 1000),
        Ok(VariantGlyph::Replacement(GlyphId(2)))
    );
}

#[test]
fn synthetic_constants_absent() {
    let font = sample_font();
    assert_eq!(font.constants(), Err(FontError::NoMathConstants));
    assert_eq!(font.get_font_family_name(), Some(String::from("Synthetic Math")));
}
