//! Per-glyph scalar metrics, with the defaulting rules for the optional
//! MATH-table entries: a missing italic correction defaults to zero, a
//! missing top-accent attachment to the glyph's horizontal midpoint.

use vstd::prelude::*;
use crate::types::FontError;
use crate::types::GlyphId;

verus! {

/// A glyph's scalar metrics, in font design units.
#[derive(Clone, Copy, Debug, PartialEq, Eq, Structural)]
pub struct GlyphMetrics {
    pub gid: GlyphId,
    pub x_min: i16,
    pub y_min: i16,
    pub x_max: i16,
    pub y_max: i16,
    pub advance: u16,
    pub lsb: i16,
    pub italics: i16,
    pub attachment: i16,
}

/// The default top-accent attachment: the horizontal midpoint of the
/// glyph's bounding box, rounded down.
pub open spec fn bbox_midpoint(x_min: int, x_max: int) -> int {
    (x_min + x_max) / 2
}

/// What a glyph record must look like, given the raw lookup outcomes.
pub open spec fn glyph_record_matches(
    gid: GlyphId,
    bbox: Option<(i16, i16, i16, i16)>,
    advance: Option<u16>,
    lsb: Option<i16>,
    italics: Option<i16>,
    attachment: Option<i16>,
    r: Result<GlyphMetrics, FontError>,
) -> bool {
    &&& (r is Ok <==> bbox is Some && advance is Some && lsb is Some)
    &&& (r is Err ==> r == Err::<GlyphMetrics, FontError>(FontError::MissingGlyph(gid)))
    &&& (r matches Ok(g) ==> {
        &&& g.gid == gid
        &&& bbox matches Some(b) && g.x_min == b.0 && g.y_min == b.1 && g.x_max == b.2
            && g.y_max == b.3
        &&& advance matches Some(a) && g.advance == a
        &&& lsb matches Some(l) && g.lsb == l
        &&& g.italics == (match italics {
            Some(ic) => ic,
            None => 0i16,
        })
        &&& g.attachment as int == (match attachment {
            Some(at) => at as int,
            None => bbox_midpoint(g.x_min as int, g.x_max as int),
        })
    })
}

/// Divide by two, rounding down, for sums of two 16-bit coordinates.
fn half_down(s: i32) -> (r: i32)
    requires
        -0x2_0000 <= s <= 0x2_0000,
    ensures
        r == s as int / 2,
{
    if s >= 0 {
        ((s as u32) / 2) as i32
    } else {
        let n: u32 = (-s) as u32;
        let q: u32 = (n + 1) / 2;
        proof {
            vstd::arithmetic::div_mod::lemma_fundamental_div_mod((n + 1) as int, 2);
            vstd::arithmetic::div_mod::lemma_mod_bound((n + 1) as int, 2);
            vstd::arithmetic::div_mod::lemma_fundamental_div_mod_converse(
                s as int,
                2,
                -(q as int),
                1 - ((n + 1) as int % 2),
            );
        }
        -(q as i32)
    }
}

/// Build a glyph record from the raw per-glyph lookups: the bounding box,
/// advance and side bearing are owed (a glyph missing any of them is
/// reported as `MissingGlyph`), the italic correction defaults to zero, and
/// the top-accent attachment to the bounding box's horizontal midpoint.
pub fn glyph_record_from_parts(
    gid: GlyphId,
    bbox: Option<(i16, i16, i16, i16)>,
    advance: Option<u16>,
    lsb: Option<i16>,
    italics: Option<i16>,
    attachment: Option<i16>,
) -> (r: Result<GlyphMetrics, FontError>)
    ensures
        glyph_record_matches(gid, bbox, advance, lsb, italics, attachment, r),
{
    let b = match bbox {
        Some(b) => b,
        None => {
            return Err(FontError::MissingGlyph(gid));
        },
    };
    let a = match advance {
        Some(a) => a,
        None => {
            return Err(FontError::MissingGlyph(gid));
        },
    };
    let l = match lsb {
        Some(l) => l,
        None => {
            return Err(FontError::MissingGlyph(gid));
        },
    };
    let italics_value: i16 = match italics {
        Some(ic) => ic,
        None => 0,
    };
    let attachment_value: i16 = match attachment {
        Some(at) => at,
        None => {
            let mid = half_down(b.0 as i32 + b.2 as i32);
            proof {
                vstd::arithmetic::div_mod::lemma_div_is_ordered(
                    -0x1_0000,
                    b.0 as int + b.2 as int,
                    2,
                );
                vstd::arithmetic::div_mod::lemma_div_is_ordered(
                    b.0 as int + b.2 as int,
                    0xFFFE,
                    2,
                );
            }
            mid as i16
        },
    };
    Ok(
        GlyphMetrics {
            gid,
            x_min: b.0,
            y_min: b.1,
            x_max: b.2,
            y_max: b.3,
            advance: a,
            lsb: l,
            italics: italics_value,
            attachment: attachment_value,
        },
    )
}

} // verus!
