use mathfont::metrics::glyph_record_from_parts;
use mathfont::types::FontError;
use mathfont::types::GlyphId;

#[test]
fn full_record_passes_through() {
    let r = glyph_record_from_parts(
        GlyphId(3),
        Some((-5, -10, 105, 210)),
        Some(120),
        Some(-5),
        Some(14),
        Some(48),
    )
    .unwrap();
    assert_eq!(r.gid, GlyphId(3));
    assert_eq!((r.x_min, r.y_min, r.x_max, r.y_max), (-5, -10, 105, 210));
    assert_eq!(r.advance, 120);
    assert_eq!(r.lsb, -5);
    assert_eq!(r.italics, 14);
    assert_eq!(r.attachment, 48);
}

#[test]
fn missing_bbox_advance_or_bearing_is_missing_glyph() {
    let e = glyph_record_from_parts(GlyphId(9), None, Some(1), Some(1), None, None);
    assert_eq!(e, Err(FontError::MissingGlyph(GlyphId(9))));
    let e = glyph_record_from_parts(GlyphId(9), Some((0, 0, 1, 1)), None, Some(1), None, None);
    assert_eq!(e, Err(FontError::MissingGlyph(GlyphId(9))));
    let e = glyph_record_from_parts(GlyphId(9), Some((0, 0, 1, 1)), Some(1), None, None, None);
    assert_eq!(e, Err(FontError::MissingGlyph(GlyphId(9))));
}

#[test]
fn italic_correction_defaults_to_zero() {
    let r = glyph_record_from_parts(
        GlyphId(3),
        Some((0, 0, 100, 100)),
        Some(100),
        Some(0),
        None,
        Some(1),
    )
    .unwrap();
    assert_eq!(r.italics, 0);
}

#[test]
fn attachment_defaults_to_bbox_midpoint() {
    let r = glyph_record_from_parts(
        GlyphId(3),
        Some((10, 0, 110, 100)),
        Some(100),
        Some(0),
        Some(0),
        None,
    )
    .unwrap();
    assert_eq!(r.attachment, 60);
    // rounding is downward also for negative midpoints
    let r = glyph_record_from_parts(
        GlyphId(3),
        Some((-3, 0, 0, 100)),
        Some(100),
        Some(0),
        Some(0),
        None,
    )
    .unwrap();
    assert_eq!(r.attachment, -2);
}
