//! An SVG output accumulator: a fragment buffer, a colour stack, and the
//! optional glyph-to-character table that lets a renderer emit glyphs as
//! text instead of curves.  Painting itself (formatting coordinates into
//! fragments) happens outside this crate; this type keeps the state exact.

use vstd::prelude::*;
use vstd::string::StringExecFns;
use std::collections::HashMap;
use crate::types::GlyphId;

verus! {

broadcast use vstd::std_specs::hash::group_hash_axioms;

/// A colour with alpha, one byte per channel.
#[derive(Clone, Copy, Debug, PartialEq, Eq, Structural)]
pub struct RGBA(pub u8, pub u8, pub u8, pub u8);

/// The default paint colour: opaque black.
pub open spec fn default_color() -> RGBA {
    RGBA(0x00, 0x00, 0x00, 0xff)
}

/// The glyph-as-text state: which character each glyph id stands for, and
/// the font family to name in text elements.
pub struct TextAsText {
    pub glyph_to_char_table: HashMap<u16, char>,
    pub font_name: String,
}

/// An SVG document under construction.
pub struct SvgContext {
    pub content: String,
    pub color_stack: Vec<RGBA>,
    pub glyph_as_text: Option<TextAsText>,
}

impl SvgContext {
    /// An empty document: no content, no colours pushed, glyph-as-text off.
    pub fn new() -> (r: SvgContext)
        ensures
            r.content@ == Seq::<char>::empty(),
            r.color_stack@ == Seq::<RGBA>::empty(),
            r.glyph_as_text is None,
    {
        SvgContext { content: String::new(), color_stack: Vec::new(), glyph_as_text: None }
    }

    /// Enable rendering glyphs as text: record which character each glyph
    /// stands for and the font family name to use.
    pub fn glyph_as_text(&mut self, glyph_to_char_table: HashMap<u16, char>, font_name: &str)
        ensures
            final(self).glyph_as_text matches Some(t) && t.glyph_to_char_table
                == glyph_to_char_table && t.font_name@ == font_name@,
            final(self).content == old(self).content,
            final(self).color_stack == old(self).color_stack,
    {
        self.glyph_as_text = Some(
            TextAsText { glyph_to_char_table, font_name: String::from_str(font_name) },
        );
    }

    /// The colour to paint with now: the top of the colour stack, or opaque
    /// black when nothing was pushed.
    pub fn current_color(&self) -> (r: RGBA)
        ensures
            r == if self.color_stack@.len() == 0 {
                default_color()
            } else {
                self.color_stack@.last()
            },
    {
        if self.color_stack.len() == 0 {
            RGBA(0x00, 0x00, 0x00, 0xff)
        } else {
            self.color_stack[self.color_stack.len() - 1]
        }
    }

    /// Start painting with a colour.
    pub fn begin_color(&mut self, color: RGBA)
        ensures
            final(self).color_stack@ == old(self).color_stack@.push(color),
            final(self).content == old(self).content,
            final(self).glyph_as_text == old(self).glyph_as_text,
    {
        self.color_stack.push(color);
    }

    /// Return to the colour painted with before the last `begin_color`;
    /// with nothing pushed, the stack stays empty.
    pub fn end_color(&mut self)
        ensures
            final(self).color_stack@ == (if old(self).color_stack@.len() == 0 {
                old(self).color_stack@
            } else {
                old(self).color_stack@.drop_last()
            }),
            final(self).content == old(self).content,
            final(self).glyph_as_text == old(self).glyph_as_text,
    {
        if self.color_stack.len() > 0 {
            self.color_stack.pop();
            proof {
                assert(self.color_stack@ =~= old(self).color_stack@.drop_last());
            }
        }
    }

    /// Append one rendered fragment to the document.
    pub fn push_fragment(&mut self, fragment: &str)
        ensures
            final(self).content@ == old(self).content@ + fragment@,
            final(self).color_stack == old(self).color_stack,
            final(self).glyph_as_text == old(self).glyph_as_text,
    {
        self.content.append(fragment);
    }

    /// Decide how a glyph is rendered: the character and font family to
    /// emit as text, when glyph-as-text is on and the table maps the glyph;
    /// otherwise nothing, and the glyph is rendered as curves.
    pub fn text_for_glyph(&self, gid: GlyphId) -> (r: Option<(char, String)>)
        ensures
            r matches Some(p) ==> self.glyph_as_text matches Some(t)
                && t.glyph_to_char_table@.contains_key(gid.0) && p.0
                == t.glyph_to_char_table@[gid.0] && p.1@ == t.font_name@,
            r is None ==> (self.glyph_as_text is None || (self.glyph_as_text matches Some(t)
                && !t.glyph_to_char_table@.contains_key(gid.0))),
    {
        match &self.glyph_as_text {
            None => None,
            Some(t) => match t.glyph_to_char_table.get(&gid.0) {
                None => None,
                Some(c) => Some((*c, t.font_name.clone())),
            },
        }
    }
}

} // verus!
