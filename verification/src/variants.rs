//! Resolution of a stretchy glyph: either a pre-built discrete variant that
//! is already large enough, or an assembled chain planned from the glyph's
//! assembly recipe.

use vstd::prelude::*;
use crate::types::Direction;
use crate::types::FontError;
use crate::types::GlyphId;
use crate::assembly::GlyphInstruction;
use crate::assembly::GlyphPart;
use crate::assembly::matches_plan;
use crate::assembly::parts_wf;
use crate::assembly::plan_assembly;
use crate::assembly::plan_ok;

verus! {

/// One pre-built size variant of a glyph: use `glyph_id` when the requested
/// size is at most `min_advance` design units.
#[derive(Clone, Copy, Debug, PartialEq, Eq, Structural)]
pub struct VariantRecord {
    pub glyph_id: GlyphId,
    pub min_advance: u16,
}

/// A glyph's stretch construction: its discrete size variants, sorted by the
/// font in ascending advance order, and an optional assembly recipe for
/// arbitrary sizes.
#[derive(Clone, Debug)]
pub struct GlyphConstruction {
    pub variants: Vec<VariantRecord>,
    pub assembly: Option<Vec<GlyphPart>>,
}

/// A resolved stretchy glyph: a single replacement glyph, or a chain of
/// instructions assembled along an axis.
#[derive(Clone, Debug, PartialEq, Eq)]
pub enum VariantGlyph {
    Replacement(GlyphId),
    Constructable(Direction, Vec<GlyphInstruction>),
}

/// The bounds the font format guarantees of a construction's assembly
/// recipe: at most 16-bit many parts, each with 16-bit fields.
pub open spec fn construction_wf(c: GlyphConstruction) -> bool {
    c.assembly matches Some(parts) ==> parts@.len() <= 0xFFFF && parts_wf(parts@)
}

/// The first discrete variant whose declared advance reaches the target,
/// scanning in the font's ascending order.
pub open spec fn first_fit(vs: Seq<VariantRecord>, target: int) -> Option<GlyphId>
    decreases vs.len(),
{
    if vs.len() == 0 {
        None
    } else if vs[0].min_advance >= target {
        Some(vs[0].glyph_id)
    } else {
        first_fit(vs.skip(1), target)
    }
}

/// The replacement used when no discrete variant is large enough and there
/// is no assembly recipe: the largest variant, or the glyph itself.
pub open spec fn largest_or_self(vs: Seq<VariantRecord>, gid: GlyphId) -> GlyphId {
    if vs.len() > 0 {
        vs.last().glyph_id
    } else {
        gid
    }
}

/// What resolution must return for a glyph, given its construction entry
/// (or the absence of one), the direction, the font's minimum connector
/// overlap and the requested size.
pub open spec fn resolution_matches(
    construction: Option<GlyphConstruction>,
    gid: GlyphId,
    direction: Direction,
    min_o: int,
    target: int,
    r: Result<VariantGlyph, FontError>,
) -> bool {
    &&& (construction is None ==> r == Ok::<VariantGlyph, FontError>(
        VariantGlyph::Replacement(gid),
    ))
    &&& (construction matches Some(c) ==> ({
        let found = first_fit(c.variants@, target);
        &&& (found matches Some(g) ==> r == Ok::<VariantGlyph, FontError>(
            VariantGlyph::Replacement(g),
        ))
        &&& (found is None && c.assembly is None ==> r == Ok::<VariantGlyph, FontError>(
            VariantGlyph::Replacement(largest_or_self(c.variants@, gid)),
        ))
        &&& (found is None ==> (c.assembly matches Some(parts) ==> {
            &&& (r is Ok <==> plan_ok(parts@, min_o, target))
            &&& (r matches Ok(vg) ==> vg matches VariantGlyph::Constructable(dir, instrs)
                && dir == direction && matches_plan(parts@, min_o, target, instrs@))
            &&& (r is Err ==> r == Err::<VariantGlyph, FontError>(FontError::MalformedAssembly))
        }))
    }))
}

/// The construction a borrowed entry stands for.
pub open spec fn entry_of(c: Option<&GlyphConstruction>) -> Option<GlyphConstruction> {
    match c {
        Some(x) => Some(*x),
        None => None,
    }
}

/// Resolve a stretchy glyph against its construction entry, if any.
///
/// A glyph without a construction entry is returned unchanged.  Otherwise
/// the first discrete variant at least as large as the target wins; failing
/// that, the assembly recipe is planned; failing that too, the largest
/// variant (or the glyph itself) is a best-effort replacement.  The only
/// error is a malformed assembly recipe.
pub fn resolve_variant(
    construction: Option<&GlyphConstruction>,
    gid: GlyphId,
    direction: Direction,
    min_connector_overlap: u32,
    target_size: u32,
) -> (r: Result<VariantGlyph, FontError>)
    requires
        entry_of(construction) matches Some(c) ==> construction_wf(c),
        min_connector_overlap <= 0xFFFF,
    ensures
        resolution_matches(
            entry_of(construction),
            gid,
            direction,
            min_connector_overlap as int,
            target_size as int,
            r,
        ),
{
    let c = match construction {
        None => {
            return Ok(VariantGlyph::Replacement(gid));
        },
        Some(c) => c,
    };
    let ghost vs = c.variants@;
    let ghost t = target_size as int;
    let n = c.variants.len();
    proof {
        assert(vs.skip(0) =~= vs);
    }
    let mut i: usize = 0;
    while i < n
        invariant
            0 <= i <= n,
            n == vs.len(),
            entry_of(construction) == Some(*c),
            vs == c.variants@,
            first_fit(vs, t) == first_fit(vs.skip(i as int), t),
            t == target_size as int,
        decreases n - i,
    {
        let v = c.variants[i];
        proof {
            assert(vs.skip(i as int)[0] == vs[i as int]);
            assert(vs.skip(i as int).skip(1) =~= vs.skip(i as int + 1));
        }
        if v.min_advance as u32 >= target_size {
            assert(first_fit(vs, t) == Some(v.glyph_id));
            return Ok(VariantGlyph::Replacement(v.glyph_id));
        }
        i = i + 1;
    }
    proof {
        assert(vs.skip(n as int) =~= Seq::<VariantRecord>::empty());
        assert(first_fit(vs, t) is None);
    }
    let parts = match &c.assembly {
        None => {
            let fallback = if c.variants.len() > 0 {
                c.variants[c.variants.len() - 1].glyph_id
            } else {
                gid
            };
            assert(fallback == largest_or_self(vs, gid));
            return Ok(VariantGlyph::Replacement(fallback));
        },
        Some(parts) => parts,
    };
    match plan_assembly(parts, min_connector_overlap, target_size) {
        Ok(instructions) => Ok(VariantGlyph::Constructable(direction, instructions)),
        Err(e) => Err(e),
    }
}

} // verus!
