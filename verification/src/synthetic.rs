//! A synthetic font source: the same capability interface as the
//! OpenType-backed font, but over caller-supplied plain tables.  Every
//! lookup is exact, which makes this source the reference implementation
//! for tests and for callers that do not read a font file.

use vstd::prelude::*;
use crate::types::Corner;
use crate::types::Direction;
use crate::types::FontError;
use crate::types::GlyphId;
use crate::constants::MathConstants;
use crate::font::GlyphAsTextUtilities;
use crate::kerning::KernTable;
use crate::kerning::kern_lookup;
use crate::kerning::kern_table_wf;
use crate::kerning::kern_value_at;
use crate::metrics::GlyphMetrics;
use crate::metrics::glyph_record_from_parts;
use crate::metrics::glyph_record_matches;
use crate::variants::GlyphConstruction;
use crate::variants::VariantGlyph;
use crate::variants::construction_wf;
use crate::variants::resolution_matches;
use crate::variants::resolve_variant;

verus! {

/// One glyph's raw metrics in a synthetic font; the optional entries default
/// exactly as in a real font.
#[derive(Clone, Copy, Debug, PartialEq, Eq, Structural)]
pub struct SyntheticGlyph {
    pub x_min: i16,
    pub y_min: i16,
    pub x_max: i16,
    pub y_max: i16,
    pub advance: u16,
    pub lsb: i16,
    pub italics: Option<i16>,
    pub attachment: Option<i16>,
}

/// A font made of plain tables, keyed by glyph id in association lists.
pub struct SyntheticFont {
    pub min_connector_overlap: u16,
    pub char_map: Vec<(char, GlyphId)>,
    pub glyphs: Vec<(GlyphId, SyntheticGlyph)>,
    pub kern_tables: Vec<(GlyphId, Corner, KernTable)>,
    pub vertical_constructions: Vec<(GlyphId, GlyphConstruction)>,
    pub horizontal_constructions: Vec<(GlyphId, GlyphConstruction)>,
    pub constants: Option<MathConstants>,
    pub family_name: Option<String>,
}

/// The first entry under a key, scanning in table order.
pub open spec fn find_entry<V>(s: Seq<(GlyphId, V)>, key: GlyphId) -> Option<V>
    decreases s.len(),
{
    if s.len() == 0 {
        None
    } else if s[0].0 == key {
        Some(s[0].1)
    } else {
        find_entry(s.skip(1), key)
    }
}

/// The first glyph mapped for a character, scanning in table order.
pub open spec fn find_char(s: Seq<(char, GlyphId)>, key: char) -> Option<GlyphId>
    decreases s.len(),
{
    if s.len() == 0 {
        None
    } else if s[0].0 == key {
        Some(s[0].1)
    } else {
        find_char(s.skip(1), key)
    }
}

/// The first kern table for a glyph corner, scanning in table order.
pub open spec fn find_kern(s: Seq<(GlyphId, Corner, KernTable)>, gid: GlyphId, corner: Corner)
    -> Option<KernTable>
    decreases s.len(),
{
    if s.len() == 0 {
        None
    } else if s[0].0 == gid && s[0].1 == corner {
        Some(s[0].2)
    } else {
        find_kern(s.skip(1), gid, corner)
    }
}

/// A well-formed synthetic font: every stored kern table and construction
/// satisfies the bounds the font format would guarantee.
pub open spec fn synthetic_wf(f: SyntheticFont) -> bool {
    &&& forall|i: int|
        0 <= i < f.kern_tables@.len() ==> kern_table_wf((#[trigger] f.kern_tables@[i]).2)
    &&& forall|i: int|
        0 <= i < f.vertical_constructions@.len() ==> construction_wf(
            (#[trigger] f.vertical_constructions@[i]).1,
        )
    &&& forall|i: int|
        0 <= i < f.horizontal_constructions@.len() ==> construction_wf(
            (#[trigger] f.horizontal_constructions@[i]).1,
        )
}

impl SyntheticFont {
    /// The glyph a codepoint maps to, if the font maps it.
    pub fn glyph_index(&self, codepoint: char) -> (r: Option<GlyphId>)
        ensures
            r == find_char(self.char_map@, codepoint),
    {
        let ghost s = self.char_map@;
        proof {
            assert(s.skip(0) =~= s);
        }
        let n = self.char_map.len();
        let mut i: usize = 0;
        while i < n
            invariant
                0 <= i <= n,
                n == s.len(),
                s == self.char_map@,
                find_char(s, codepoint) == find_char(s.skip(i as int), codepoint),
            decreases n - i,
        {
            proof {
                assert(s.skip(i as int)[0] == s[i as int]);
                assert(s.skip(i as int).skip(1) =~= s.skip(i as int + 1));
            }
            let entry = self.char_map[i];
            if entry.0 == codepoint {
                return Some(entry.1);
            }
            i = i + 1;
        }
        proof {
            assert(s.skip(n as int) =~= Seq::<(char, GlyphId)>::empty());
        }
        None
    }

    /// The glyph's scalar metrics, with the usual defaults: `MissingGlyph`
    /// when the font has no row for it, zero italic correction and the
    /// bounding box midpoint attachment when the row leaves them out.
    pub fn glyph_record(&self, gid: GlyphId) -> (r: Result<GlyphMetrics, FontError>)
        ensures
            ({
                let row = find_entry(self.glyphs@, gid);
                match row {
                    None => r == Err::<GlyphMetrics, FontError>(FontError::MissingGlyph(gid)),
                    Some(g) => glyph_record_matches(
                        gid,
                        Some((g.x_min, g.y_min, g.x_max, g.y_max)),
                        Some(g.advance),
                        Some(g.lsb),
                        g.italics,
                        g.attachment,
                        r,
                    ),
                }
            }),
    {
        let ghost s = self.glyphs@;
        proof {
            assert(s.skip(0) =~= s);
        }
        let n = self.glyphs.len();
        let mut i: usize = 0;
        while i < n
            invariant
                0 <= i <= n,
                n == s.len(),
                s == self.glyphs@,
                find_entry(s, gid) == find_entry(s.skip(i as int), gid),
            decreases n - i,
        {
            proof {
                assert(s.skip(i as int)[0] == s[i as int]);
                assert(s.skip(i as int).skip(1) =~= s.skip(i as int + 1));
            }
            let entry = self.glyphs[i];
            if entry.0 == gid {
                let g = entry.1;
                return glyph_record_from_parts(
                    gid,
                    Some((g.x_min, g.y_min, g.x_max, g.y_max)),
                    Some(g.advance),
                    Some(g.lsb),
                    g.italics,
                    g.attachment,
                );
            }
            i = i + 1;
        }
        proof {
            assert(s.skip(n as int) =~= Seq::<(GlyphId, SyntheticGlyph)>::empty());
        }
        Err(FontError::MissingGlyph(gid))
    }

    /// The kerning for a glyph corner at a query height; `None` when the
    /// font has no table for that corner.
    pub fn kern_for(&self, gid: GlyphId, height: i32, corner: Corner) -> (r: Option<i16>)
        requires
            synthetic_wf(*self),
        ensures
            ({
                let table = find_kern(self.kern_tables@, gid, corner);
                match table {
                    None => r is None,
                    Some(t) => r == Some(kern_value_at(t.heights@, t.kerns@, height as int)),
                }
            }),
    {
        let ghost s = self.kern_tables@;
        proof {
            assert(s.skip(0) =~= s);
        }
        let n = self.kern_tables.len();
        let mut i: usize = 0;
        while i < n
            invariant
                0 <= i <= n,
                n == s.len(),
                s == self.kern_tables@,
                synthetic_wf(*self),
                find_kern(s, gid, corner) == find_kern(s.skip(i as int), gid, corner),
            decreases n - i,
        {
            proof {
                assert(s.skip(i as int)[0] == s[i as int]);
                assert(s.skip(i as int).skip(1) =~= s.skip(i as int + 1));
            }
            let entry = &self.kern_tables[i];
            if entry.0 == gid && entry.1 == corner {
                return Some(kern_lookup(&entry.2, height));
            }
            i = i + 1;
        }
        proof {
            assert(s.skip(n as int) =~= Seq::<(GlyphId, Corner, KernTable)>::empty());
        }
        None
    }

    fn find_construction(table: &Vec<(GlyphId, GlyphConstruction)>, gid: GlyphId) -> (r: Option<
        &GlyphConstruction,
    >)
        ensures
            crate::variants::entry_of(r) == find_entry(table@, gid),
    {
        let ghost s = table@;
        proof {
            assert(s.skip(0) =~= s);
        }
        let n = table.len();
        let mut i: usize = 0;
        while i < n
            invariant
                0 <= i <= n,
                n == s.len(),
                s == table@,
                find_entry(s, gid) == find_entry(s.skip(i as int), gid),
            decreases n - i,
        {
            proof {
                assert(s.skip(i as int)[0] == s[i as int]);
                assert(s.skip(i as int).skip(1) =~= s.skip(i as int + 1));
            }
            if table[i].0 == gid {
                return Some(&table[i].1);
            }
            i = i + 1;
        }
        proof {
            assert(s.skip(n as int) =~= Seq::<(GlyphId, GlyphConstruction)>::empty());
        }
        None
    }

    /// Resolve a glyph stretched vertically to at least `height` design
    /// units, exactly as the resolution rules state, against this font's
    /// vertical construction table.
    pub fn vert_variant(&self, gid: GlyphId, height: u32) -> (r: Result<VariantGlyph, FontError>)
        requires
            synthetic_wf(*self),
        ensures
            resolution_matches(
                find_entry(self.vertical_constructions@, gid),
                gid,
                Direction::Vertical,
                self.min_connector_overlap as int,
                height as int,
                r,
            ),
    {
        let construction = Self::find_construction(&self.vertical_constructions, gid);
        proof {
            lemma_found_entry_is_stored(self.vertical_constructions@, gid);
        }
        resolve_variant(
            construction,
            gid,
            Direction::Vertical,
            self.min_connector_overlap as u32,
            height,
        )
    }

    /// Resolve a glyph stretched horizontally to at least `width` design
    /// units, exactly as the resolution rules state, against this font's
    /// horizontal construction table.
    pub fn horz_variant(&self, gid: GlyphId, width: u32) -> (r: Result<VariantGlyph, FontError>)
        requires
            synthetic_wf(*self),
        ensures
            resolution_matches(
                find_entry(self.horizontal_constructions@, gid),
                gid,
                Direction::Horizontal,
                self.min_connector_overlap as int,
                width as int,
                r,
            ),
    {
        let construction = Self::find_construction(&self.horizontal_constructions, gid);
        proof {
            lemma_found_entry_is_stored(self.horizontal_constructions@, gid);
        }
        resolve_variant(
            construction,
            gid,
            Direction::Horizontal,
            self.min_connector_overlap as u32,
            width,
        )
    }

    /// The font-wide constants table, all-or-nothing.
    pub fn constants(&self) -> (r: Result<MathConstants, FontError>)
        ensures
            self.constants is None ==> r == Err::<MathConstants, FontError>(
                FontError::NoMathConstants,
            ),
            self.constants matches Some(c) ==> r == Ok::<MathConstants, FontError>(c),
    {
        match self.constants {
            Some(c) => Ok(c),
            None => Err(FontError::NoMathConstants),
        }
    }
}

/// A found construction is one of the stored entries, so a well-formed
/// table hands out only well-formed constructions.
proof fn lemma_found_entry_is_stored(s: Seq<(GlyphId, GlyphConstruction)>, gid: GlyphId)
    ensures
        find_entry(s, gid) matches Some(c) ==> exists|i: int|
            0 <= i < s.len() && #[trigger] s[i].1 == c,
    decreases s.len(),
{
    if s.len() > 0 && s[0].0 != gid {
        lemma_found_entry_is_stored(s.skip(1), gid);
        match find_entry(s, gid) {
            Some(c) => {
                assert(find_entry(s.skip(1), gid) == Some(c));
                let i = choose|i: int|
                    0 <= i < s.skip(1).len() && #[trigger] s.skip(1)[i].1 == c;
                assert(s.skip(1)[i] == s[i + 1]);
            },
            None => {},
        }
    }
}

impl GlyphAsTextUtilities for SyntheticFont {
    fn glyph_index_for_char(&self, character: char) -> Option<GlyphId> {
        self.glyph_index(character)
    }

    fn get_font_family_name(&self) -> Option<String> {
        match &self.family_name {
            Some(name) => Some(name.clone()),
            None => None,
        }
    }
}

} // verus!
