use mathfont::kerning::KernTable;
use mathfont::source::FontSource;
use mathfont::synthetic::SyntheticFont;
use mathfont::synthetic::SyntheticGlyph;
use mathfont::types::Corner;
use mathfont::types::FontError;
use mathfont::types::GlyphId;
use mathfont::variants::VariantGlyph;

fn small_font() -> SyntheticFont {
    SyntheticFont {
        min_connector_overlap: 1,
        char_map: vec![('a', GlyphId(4))],
        glyphs: vec![
            (
                GlyphId(4),
                SyntheticGlyph {
                    x_min: 0,
                    y_min: 0,
                    x_max: 100,
                    y_max: 100,
                    advance: 100,
                    lsb: 0,
                    italics: None,
                    attachment: None,
                },
            ),
        ],
        kern_tables: vec![(
            GlyphId(4),
            Corner::BottomLeft,
            KernTable { heights: vec![], kerns: vec![7] },
        )],
        vertical_constructions: Vec::new(),
        horizontal_constructions: Vec::new(),
        constants: None,
        family_name: None,
    }
}

#[test]
fn source_dispatches_to_synthetic_font() {
    let source = FontSource::Synthetic(small_font());
    assert_eq!(source.glyph_index('a'), Some(GlyphId(4)));
    assert_eq!(source.glyph_index('b'), None);
    let record = source.glyph_record(GlyphId(4)).unwrap();
    assert_eq!(record.italics, 0);
    assert_eq!(record.attachment, 50);
    assert_eq!(
        source.glyph_record(GlyphId(5)),
        Err(FontError::MissingGlyph(GlyphId(5)))
    );
    assert_eq!(source.kern_for(GlyphId(4), 3, Corner::BottomLeft), Some(7));
    assert_eq!(source.kern_for(GlyphId(4), 3, Corner::TopLeft), None);
    assert_eq!(
        source.vert_variant(GlyphId(4), 12345),
        Ok(VariantGlyph::Replacement(GlyphId(4)))
    );
    assert_eq!(
        source.horz_variant(GlyphId(4), 12345),
        Ok(VariantGlyph::Replacement(GlyphId(4)))
    );
    assert_eq!(source.constants(), Err(FontError::NoMathConstants));
}
