//! Corner kerning: a per-glyph, per-corner step function from query height
//! to kern value.

use vstd::prelude::*;

verus! {

/// One corner's kerning step function, in design units: `heights` is the
/// ascending list of correction heights at which the kern value changes, and
/// `kerns` holds one value more than `heights`, the last being the value for
/// any height at or above the last correction height.
#[derive(Clone, Debug, PartialEq, Eq)]
pub struct KernTable {
    pub heights: Vec<i16>,
    pub kerns: Vec<i16>,
}

/// The font format stores one kern value more than correction heights.
pub open spec fn kern_table_wf(t: KernTable) -> bool {
    t.kerns@.len() == t.heights@.len() + 1
}

/// The kern value for a query height: the value of the first entry whose
/// height strictly exceeds the query, or the trailing value when no entry
/// does.
pub open spec fn kern_value_at(heights: Seq<i16>, kerns: Seq<i16>, h: int) -> i16
    decreases heights.len(),
{
    if heights.len() == 0 {
        kerns[0]
    } else if h < heights[0] {
        kerns[0]
    } else {
        kern_value_at(heights.skip(1), kerns.skip(1), h)
    }
}

/// Evaluate a corner's kerning step function at the given height.
pub fn kern_lookup(table: &KernTable, height: i32) -> (r: i16)
    requires
        kern_table_wf(*table),
    ensures
        r == kern_value_at(table.heights@, table.kerns@, height as int),
{
    let ghost hs = table.heights@;
    let ghost ks = table.kerns@;
    let n = table.heights.len();
    proof {
        assert(hs.skip(0) =~= hs);
        assert(ks.skip(0) =~= ks);
    }
    let mut i: usize = 0;
    while i < n
        invariant
            0 <= i <= n,
            n == hs.len(),
            hs == table.heights@,
            ks == table.kerns@,
            ks.len() == hs.len() + 1,
            kern_value_at(hs, ks, height as int) == kern_value_at(
                hs.skip(i as int),
                ks.skip(i as int),
                height as int,
            ),
        decreases n - i,
    {
        proof {
            assert(hs.skip(i as int)[0] == hs[i as int]);
            assert(ks.skip(i as int)[0] == ks[i as int]);
            assert(hs.skip(i as int).skip(1) =~= hs.skip(i as int + 1));
            assert(ks.skip(i as int).skip(1) =~= ks.skip(i as int + 1));
        }
        if height < table.heights[i] as i32 {
            return table.kerns[i];
        }
        i = i + 1;
    }
    proof {
        assert(hs.skip(n as int) =~= Seq::<i16>::empty());
        assert(ks.skip(n as int)[0] == ks[n as int]);
    }
    table.kerns[n]
}

} // verus!
