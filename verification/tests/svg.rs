use std::collections::HashMap;

use mathfont::svg::SvgContext;
use mathfont::svg::RGBA;
use mathfont::types::GlyphId;

#[test]
fn new_document_is_empty_and_black() {
    let ctx = SvgContext::new();
    assert_eq!(ctx.content, "");
    assert_eq!(ctx.current_color(), RGBA(0, 0, 0, 0xff));
    assert!(ctx.text_for_glyph(GlyphId(1)).is_none());
}

#[test]
fn color_stack_follows_begin_and_end() {
    let mut ctx = SvgContext::new();
    ctx.begin_color(RGBA(1, 2, 3, 4));
    ctx.begin_color(RGBA(5, 6, 7, 8));
    assert_eq!(ctx.current_color(), RGBA(5, 6, 7, 8));
    ctx.end_color();
    assert_eq!(ctx.current_color(), RGBA(1, 2, 3, 4));
    ctx.end_color();
    assert_eq!(ctx.current_color(), RGBA(0, 0, 0, 0xff));
    // ending with nothing pushed stays at the default
    ctx.end_color();
    assert_eq!(ctx.current_color(), RGBA(0, 0, 0, 0xff));
}

#[test]
fn fragments_accumulate_in_order() {
    let mut ctx = SvgContext::new();
    ctx.push_fragment("<rect />");
    ctx.push_fragment("<path />");
    assert_eq!(ctx.content, "<rect /><path />");
}

#[test]
fn text_for_glyph_uses_the_table() {
    let mut ctx = SvgContext::new();
    let mut table: HashMap<u16, char> = HashMap::new();
    table.insert(33, 'x');
    ctx.glyph_as_text(table, "Some Math Font");
    let (character, font) = ctx.text_for_glyph(GlyphId(33)).unwrap();
    assert_eq!(character, 'x');
    assert_eq!(font, "Some Math Font");
    assert!(ctx.text_for_glyph(GlyphId(34)).is_none());
}
