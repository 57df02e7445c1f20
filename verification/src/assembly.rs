//! The glyph-assembly planner: given the parts of an extensible glyph, the
//! font's minimum connector overlap and a target size, compute how many times
//! the extender parts repeat and the overlap at every joint, so that the
//! assembled chain is never shorter than the target.

use vstd::prelude::*;
use vstd::math::max;
use vstd::math::min;
use crate::types::FontError;
use crate::types::GlyphId;

verus! {

/// One piece of a stretchy-glyph assembly recipe, in font design units.
///
/// `full_advance`, `start_connector_length` and `end_connector_length` are
/// stored by the font as 16-bit design-unit values; `part_wf` records that
/// bound.
#[derive(Clone, Copy, Debug, PartialEq, Eq, Structural)]
pub struct GlyphPart {
    pub glyph_id: GlyphId,
    pub start_connector_length: u32,
    pub end_connector_length: u32,
    pub full_advance: u32,
    pub is_extender: bool,
}

/// One step of an assembled chain: paint `glyph_id` so that its start
/// overlaps the previous part's end by `overlap` design units.  The first
/// instruction of a chain has nothing before it and carries overlap `0`.
#[derive(Clone, Copy, Debug, PartialEq, Eq, Structural)]
pub struct GlyphInstruction {
    pub glyph_id: GlyphId,
    pub overlap: u32,
}

/// A part's scalar fields fit in 16 bits, as the font's binary format
/// (`GlyphPartRecord`, all uint16) guarantees.
pub open spec fn part_wf(p: GlyphPart) -> bool {
    p.full_advance <= 0xFFFF
        && p.start_connector_length <= 0xFFFF
        && p.end_connector_length <= 0xFFFF
}

pub open spec fn parts_wf(s: Seq<GlyphPart>) -> bool {
    forall|i: int| 0 <= i < s.len() ==> part_wf(#[trigger] s[i])
}

/// Number of parts among `s` whose extender flag equals `ext`.
pub open spec fn count_kind(s: Seq<GlyphPart>, ext: bool) -> int
    decreases s.len(),
{
    if s.len() == 0 {
        0
    } else {
        count_kind(s.drop_last(), ext) + if s.last().is_extender == ext { 1int } else { 0int }
    }
}

/// Total advance of the parts among `s` whose extender flag equals `ext`.
pub open spec fn sum_kind(s: Seq<GlyphPart>, ext: bool) -> int
    decreases s.len(),
{
    if s.len() == 0 {
        0
    } else {
        sum_kind(s.drop_last(), ext)
            + if s.last().is_extender == ext { s.last().full_advance as int } else { 0int }
    }
}

/// Largest length achievable by gluing each non-extender once with minimal
/// overlap at every joint.
pub open spec fn max_size_no_extender(s: Seq<GlyphPart>, min_o: int) -> int {
    sum_kind(s, false) - (count_kind(s, false) - 1) * min_o
}

/// Net contribution of one repetition of the full extender set, each glued
/// with minimal overlap.
pub open spec fn ext_quotient(s: Seq<GlyphPart>, min_o: int) -> int {
    sum_kind(s, true) - count_kind(s, true) * min_o
}

/// Extenders are needed whenever the non-extenders alone cannot reach the
/// target.
pub open spec fn needs_extenders(s: Seq<GlyphPart>, min_o: int, target: int) -> bool {
    max_size_no_extender(s, min_o) < target
}

/// Division rounded towards positive infinity, for a positive divisor.
pub open spec fn ceil_div(a: int, b: int) -> int {
    if a % b == 0 {
        a / b
    } else {
        a / b + 1
    }
}

/// How many times the full extender set repeats in the planned chain.
pub open spec fn min_repeats(s: Seq<GlyphPart>, min_o: int, target: int) -> int {
    if !needs_extenders(s, min_o, target) {
        0
    } else {
        ceil_div(target - max_size_no_extender(s, min_o), ext_quotient(s, min_o))
    }
}

/// `r` copies of one part.
pub open spec fn repeat_part(p: GlyphPart, r: int) -> Seq<GlyphPart> {
    Seq::new(r as nat, |i: int| p)
}

/// What one source part contributes to the realized chain: extenders repeat
/// `r` times, other parts appear once.
pub open spec fn expansion_of(p: GlyphPart, r: int) -> Seq<GlyphPart> {
    if p.is_extender {
        repeat_part(p, r)
    } else {
        seq![p]
    }
}

/// The realized chain: every part expanded in source order.
pub open spec fn expand(s: Seq<GlyphPart>, r: int) -> Seq<GlyphPart>
    decreases s.len(),
{
    if s.len() == 0 {
        Seq::empty()
    } else {
        expand(s.drop_last(), r) + expansion_of(s.last(), r)
    }
}

/// The chain the planner realizes for the given inputs.
pub open spec fn planned_chain(s: Seq<GlyphPart>, min_o: int, target: int) -> Seq<GlyphPart> {
    expand(s, min_repeats(s, min_o, target))
}

/// Largest admissible overlap between two adjacent parts: bounded by both
/// connector lengths and half the right part's advance, but never below the
/// font's minimum connector overlap.
pub open spec fn pair_max_overlap(min_o: int, l: GlyphPart, r: GlyphPart) -> int {
    let c = min(
        l.end_connector_length as int,
        min(r.start_connector_length as int, r.full_advance as int / 2),
    );
    max(c, min_o)
}

/// Total advance of a chain.
pub open spec fn sum_adv(c: Seq<GlyphPart>) -> int
    decreases c.len(),
{
    if c.len() == 0 {
        0
    } else {
        sum_adv(c.drop_last()) + c.last().full_advance as int
    }
}

/// Sum of `pair_max_overlap` over every adjacent pair of the chain.
pub open spec fn sum_pair_max(min_o: int, c: Seq<GlyphPart>) -> int
    decreases c.len(),
{
    if c.len() <= 1 {
        0
    } else {
        sum_pair_max(min_o, c.drop_last()) + pair_max_overlap(min_o, c[c.len() - 2], c.last())
    }
}

/// Chain length when every joint overlaps exactly by the minimum.
pub open spec fn size_with_min_overlap(s: Seq<GlyphPart>, min_o: int, target: int) -> int {
    let c = planned_chain(s, min_o, target);
    sum_adv(c) - (c.len() - 1) * min_o
}

/// Chain length when every joint overlaps by its own maximum.
pub open spec fn size_with_max_overlap(s: Seq<GlyphPart>, min_o: int, target: int) -> int {
    let c = planned_chain(s, min_o, target);
    sum_adv(c) - sum_pair_max(min_o, c)
}

/// The overlap the planner assigns to the joint before chain element `i`
/// (`1 <= i < chain.len()`): the minimum plus a floored share of the joint's
/// extra overlap budget, the share chosen so that the realized length lands
/// as close as possible to, but never below, the target.
pub open spec fn joint_overlap(s: Seq<GlyphPart>, min_o: int, target: int, i: int) -> int {
    let c = planned_chain(s, min_o, target);
    let smin = size_with_min_overlap(s, min_o, target);
    let d = smin - size_with_max_overlap(s, min_o, target);
    let pm = pair_max_overlap(min_o, c[i - 1], c[i]);
    if d == 0 {
        min_o
    } else {
        min_o + (smin - target) * (pm - min_o) / d
    }
}

/// The inputs on which planning succeeds: a non-empty recipe whose extender
/// set contributes positively whenever extenders are needed.
pub open spec fn plan_ok(s: Seq<GlyphPart>, min_o: int, target: int) -> bool {
    s.len() > 0 && (!needs_extenders(s, min_o, target) || ext_quotient(s, min_o) > 0)
}

/// Sum of the overlaps of an instruction sequence.
pub open spec fn sum_overlaps(v: Seq<GlyphInstruction>) -> int
    decreases v.len(),
{
    if v.len() == 0 {
        0
    } else {
        sum_overlaps(v.drop_last()) + v.last().overlap as int
    }
}

/// What the planner promises of a successful result: one instruction per
/// chain element, in chain order, the first with overlap `0` and each later
/// one with exactly the planned joint overlap.
pub open spec fn matches_plan(
    s: Seq<GlyphPart>,
    min_o: int,
    target: int,
    v: Seq<GlyphInstruction>,
) -> bool {
    let c = planned_chain(s, min_o, target);
    &&& v.len() == c.len()
    &&& forall|i: int| 0 <= i < c.len() ==> (#[trigger] v[i]).glyph_id == c[i].glyph_id
    &&& (v.len() > 0 ==> v[0].overlap == 0)
    &&& forall|i: int|
        1 <= i < c.len() ==> (#[trigger] v[i]).overlap == joint_overlap(s, min_o, target, i)
}

proof fn lemma_take_succ<T>(s: Seq<T>, i: int)
    requires
        0 <= i < s.len(),
    ensures
        s.take(i + 1).drop_last() =~= s.take(i),
        s.take(i + 1).last() == s[i],
        s.take(i + 1).len() == i + 1,
{
}

/// Every part is an extender or not, so the two counts partition the list.
proof fn lemma_count_partition(s: Seq<GlyphPart>)
    ensures
        count_kind(s, true) + count_kind(s, false) == s.len(),
    decreases s.len(),
{
    if s.len() > 0 {
        lemma_count_partition(s.drop_last());
    }
}

/// Counts are bounded by the length, sums by 16 bits per counted part.
proof fn lemma_kind_bounds(s: Seq<GlyphPart>, ext: bool)
    requires
        parts_wf(s),
    ensures
        0 <= count_kind(s, ext) <= s.len(),
        0 <= sum_kind(s, ext) <= count_kind(s, ext) * 0xFFFF,
    decreases s.len(),
{
    if s.len() > 0 {
        assert(parts_wf(s.drop_last())) by {
            assert(forall|i: int|
                0 <= i < s.drop_last().len() ==> #[trigger] s.drop_last()[i] == s[i]);
        }
        lemma_kind_bounds(s.drop_last(), ext);
    }
}

/// `ceil_div` is the least integer whose product with the divisor reaches the
/// dividend.
proof fn lemma_ceil_div_props(a: int, b: int)
    requires
        b > 0,
    ensures
        ceil_div(a, b) * b >= a,
        (ceil_div(a, b) - 1) * b < a,
        a > 0 ==> ceil_div(a, b) >= 1,
        a > 0 && b == 1 ==> ceil_div(a, b) == a,
        a > 0 ==> ceil_div(a, b) <= a,
{
    vstd::arithmetic::div_mod::lemma_fundamental_div_mod(a, b);
    assert(a == b * (a / b) + a % b);
    vstd::arithmetic::mul::lemma_mul_is_distributive_add(b, a / b, 1);
    vstd::arithmetic::mul::lemma_mul_is_distributive_sub(b, a / b, 1);
    vstd::arithmetic::mul::lemma_mul_is_commutative(b, a / b + 1);
    vstd::arithmetic::mul::lemma_mul_is_commutative(b, a / b - 1);
    vstd::arithmetic::mul::lemma_mul_is_commutative(b, a / b);
    vstd::arithmetic::div_mod::lemma_mod_bound(a, b);
    if a > 0 {
        vstd::arithmetic::div_mod::lemma_div_pos_is_pos(a, b);
        vstd::arithmetic::div_mod::lemma_div_nonincreasing(a, b);
        if a % b != 0 {
            assert(b >= 2) by {
                if b == 1 {
                    assert(a % 1 == 0) by (nonlinear_arith);
                }
            }
            vstd::arithmetic::div_mod::lemma_div_is_strictly_smaller(a, b);
        }
    }
}

/// Advances sum over a concatenation part by part.
proof fn lemma_sum_adv_concat(a: Seq<GlyphPart>, b: Seq<GlyphPart>)
    ensures
        sum_adv(a + b) == sum_adv(a) + sum_adv(b),
    decreases b.len(),
{
    if b.len() == 0 {
        assert(a + b =~= a);
    } else {
        assert((a + b).drop_last() =~= a + b.drop_last());
        lemma_sum_adv_concat(a, b.drop_last());
    }
}

proof fn lemma_sum_adv_repeat(p: GlyphPart, r: int)
    requires
        r >= 0,
    ensures
        repeat_part(p, r).len() == r,
        sum_adv(repeat_part(p, r)) == r * p.full_advance,
    decreases r,
{
    if r == 0 {
        assert(repeat_part(p, 0) =~= Seq::<GlyphPart>::empty());
    } else {
        assert(repeat_part(p, r).drop_last() =~= repeat_part(p, r - 1));
        lemma_sum_adv_repeat(p, r - 1);
        assert(r * p.full_advance == (r - 1) * p.full_advance + p.full_advance)
            by (nonlinear_arith);
    }
}

/// Length and total advance of an expanded chain, in terms of the source
/// parts and the repeat count.
proof fn lemma_expand_sums(s: Seq<GlyphPart>, r: int)
    requires
        r >= 0,
    ensures
        expand(s, r).len() == count_kind(s, false) + r * count_kind(s, true),
        sum_adv(expand(s, r)) == sum_kind(s, false) + r * sum_kind(s, true),
    decreases s.len(),
{
    if s.len() == 0 {
    } else {
        let pre = s.drop_last();
        let p = s.last();
        lemma_expand_sums(pre, r);
        lemma_sum_adv_concat(expand(pre, r), expansion_of(p, r));
        if p.is_extender {
            lemma_sum_adv_repeat(p, r);
            assert(r * count_kind(s, true) == r * count_kind(pre, true) + r * 1)
                by (nonlinear_arith)
                requires count_kind(s, true) == count_kind(pre, true) + 1;
            assert(r * sum_kind(s, true) == r * sum_kind(pre, true) + r * p.full_advance)
                by (nonlinear_arith)
                requires sum_kind(s, true) == sum_kind(pre, true) + p.full_advance;
        } else {
            assert(sum_adv(seq![p]) == p.full_advance as int) by {
                let single = seq![p];
                assert(single.len() == 1);
                assert(single.last() == p);
                assert(single.drop_last() =~= Seq::<GlyphPart>::empty());
                assert(sum_adv(Seq::<GlyphPart>::empty()) == 0);
            }
        }
    }
}

/// Every element of an expanded chain is one of the source parts, so the
/// chain is well formed whenever the source is.
proof fn lemma_expand_wf(s: Seq<GlyphPart>, r: int)
    requires
        r >= 0,
        parts_wf(s),
    ensures
        parts_wf(expand(s, r)),
    decreases s.len(),
{
    if s.len() > 0 {
        let pre = s.drop_last();
        assert(parts_wf(pre)) by {
            assert(forall|i: int| 0 <= i < pre.len() ==> #[trigger] pre[i] == s[i]);
        }
        lemma_expand_wf(pre, r);
        let c = expand(s, r);
        let cl = expand(pre, r);
        assert forall|i: int| 0 <= i < c.len() implies part_wf(#[trigger] c[i]) by {
            if i < cl.len() {
                assert(c[i] == cl[i]);
            } else {
                assert(c[i] == s.last());
                assert(part_wf(s[s.len() - 1]));
            }
        }
    }
}

/// Every joint's maximum is at least the minimum overlap, so the sum over
/// all joints is at least one minimum per joint.
proof fn lemma_sum_pair_max_lower(min_o: int, c: Seq<GlyphPart>)
    requires
        min_o >= 0,
    ensures
        sum_pair_max(min_o, c) >= (c.len() - 1) * min_o,
        sum_pair_max(min_o, c) >= 0,
    decreases c.len(),
{
    if c.len() <= 1 {
        assert((c.len() - 1) * min_o <= 0) by (nonlinear_arith)
            requires c.len() <= 1 && min_o >= 0;
    } else {
        lemma_sum_pair_max_lower(min_o, c.drop_last());
        assert((c.len() - 1) * min_o == (c.len() - 2) * min_o + min_o) by (nonlinear_arith);
    }
}

/// One joint's extra budget never exceeds the whole chain's extra budget.
proof fn lemma_pair_term_le_total(min_o: int, c: Seq<GlyphPart>, j: int)
    requires
        min_o >= 0,
        1 <= j < c.len(),
    ensures
        pair_max_overlap(min_o, c[j - 1], c[j]) - min_o
            <= sum_pair_max(min_o, c) - (c.len() - 1) * min_o,
    decreases c.len(),
{
    let pre = c.drop_last();
    if j == c.len() - 1 {
        lemma_sum_pair_max_lower(min_o, pre);
        assert((c.len() - 1) * min_o == (c.len() - 2) * min_o + min_o) by (nonlinear_arith);
    } else {
        lemma_pair_term_le_total(min_o, pre, j);
        assert(pre[j - 1] == c[j - 1] && pre[j] == c[j]);
        assert((c.len() - 1) * min_o == (c.len() - 2) * min_o + min_o) by (nonlinear_arith);
    }
}

/// Prefix step for the adjacent-maxima sum.
proof fn lemma_sum_pair_max_take_succ(min_o: int, c: Seq<GlyphPart>, k: int)
    requires
        1 <= k < c.len(),
    ensures
        sum_pair_max(min_o, c.take(k + 1))
            == sum_pair_max(min_o, c.take(k)) + pair_max_overlap(min_o, c[k - 1], c[k]),
{
    lemma_take_succ(c, k);
    let w = c.take(k + 1);
    assert(w.len() == k + 1 >= 2);
    assert(w[k - 1] == c[k - 1]);
    assert(w.last() == c[k]);
}

/// The minimal-overlap length of the realized chain equals the no-extender
/// maximum plus the repeats times the per-repetition net contribution.
proof fn lemma_smin_identity(s: Seq<GlyphPart>, min_o: int, r: int)
    requires
        r >= 0,
    ensures
        sum_adv(expand(s, r)) - (expand(s, r).len() - 1) * min_o
            == max_size_no_extender(s, min_o) + r * ext_quotient(s, min_o),
{
    lemma_expand_sums(s, r);
    let sn = sum_kind(s, false);
    let se = sum_kind(s, true);
    let cn = count_kind(s, false);
    let ce = count_kind(s, true);
    assert((sn + r * se) - ((cn + r * ce) - 1) * min_o
        == (sn - (cn - 1) * min_o) + r * (se - ce * min_o)) by (nonlinear_arith);
}

/// Partition the recipe: how many extenders and non-extenders there are and
/// their total advances.
fn classify_parts(parts: &Vec<GlyphPart>) -> (r: (u32, u32, u64, u64))
    requires
        parts@.len() <= 0xFFFF,
        parts_wf(parts@),
    ensures
        r.0 == count_kind(parts@, true),
        r.1 == count_kind(parts@, false),
        r.2 == sum_kind(parts@, true),
        r.3 == sum_kind(parts@, false),
{
    let mut n_ext: u32 = 0;
    let mut n_nonext: u32 = 0;
    let mut size_ext: u64 = 0;
    let mut size_nonext: u64 = 0;
    let n = parts.len();
    let mut i: usize = 0;
    while i < n
        invariant
            0 <= i <= n,
            n == parts@.len() <= 0xFFFF,
            parts_wf(parts@),
            n_ext == count_kind(parts@.take(i as int), true),
            n_nonext == count_kind(parts@.take(i as int), false),
            size_ext == sum_kind(parts@.take(i as int), true),
            size_nonext == sum_kind(parts@.take(i as int), false),
            n_ext <= i && n_nonext <= i,
            size_ext <= i * 0xFFFF && size_nonext <= i * 0xFFFF,
        decreases n - i,
    {
        proof {
            lemma_take_succ(parts@, i as int);
        }
        let p = parts[i];
        if p.is_extender {
            n_ext = n_ext + 1;
            size_ext = size_ext + p.full_advance as u64;
        } else {
            n_nonext = n_nonext + 1;
            size_nonext = size_nonext + p.full_advance as u64;
        }
        i = i + 1;
    }
    proof {
        assert(parts@.take(n as int) =~= parts@);
    }
    (n_ext, n_nonext, size_ext, size_nonext)
}

/// Largest admissible overlap between two adjacent chain elements.
fn max_overlap_at(min_o: u32, l: &GlyphPart, r: &GlyphPart) -> (res: u32)
    requires
        part_wf(*l),
        part_wf(*r),
        min_o <= 0xFFFF,
    ensures
        res == pair_max_overlap(min_o as int, *l, *r),
        res <= 0xFFFF,
{
    let mut c = l.end_connector_length;
    if r.start_connector_length < c {
        c = r.start_connector_length;
    }
    if r.full_advance / 2 < c {
        c = r.full_advance / 2;
    }
    if c < min_o {
        min_o
    } else {
        c
    }
}

/// Materialize the realized chain: non-extenders once each, extenders
/// `reps` times, in source order.
fn expand_parts(parts: &Vec<GlyphPart>, reps: u64) -> (chain: Vec<GlyphPart>)
    requires
        parts_wf(parts@),
    ensures
        chain@ == expand(parts@, reps as int),
        parts_wf(chain@),
{
    let mut chain: Vec<GlyphPart> = Vec::new();
    let n = parts.len();
    let mut i: usize = 0;
    while i < n
        invariant
            0 <= i <= n,
            n == parts@.len(),
            parts_wf(parts@),
            chain@ == expand(parts@.take(i as int), reps as int),
        decreases n - i,
    {
        proof {
            lemma_take_succ(parts@, i as int);
        }
        let p = parts[i];
        let ghost pre_chain = chain@;
        if p.is_extender {
            let mut j: u64 = 0;
            while j < reps
                invariant
                    0 <= j <= reps,
                    chain@ == pre_chain + repeat_part(p, j as int),
                decreases reps - j,
            {
                chain.push(p);
                proof {
                    assert(pre_chain + repeat_part(p, j as int + 1)
                        =~= (pre_chain + repeat_part(p, j as int)).push(p));
                }
                j = j + 1;
            }
        } else {
            chain.push(p);
            proof {
                assert(pre_chain + expansion_of(p, reps as int) =~= pre_chain.push(p));
            }
        }
        i = i + 1;
    }
    proof {
        assert(parts@.take(n as int) =~= parts@);
        lemma_expand_wf(parts@, reps as int);
    }
    chain
}

/// Whatever the chain's joints allow, one joint's planned overlap always
/// fits in 32 bits: the distance from the minimal-overlap length to the
/// target is less than one repetition's net contribution (when extenders
/// repeat) or bounded by the non-extenders' total advance (when they do not).
proof fn lemma_overlap_fits(s: Seq<GlyphPart>, m: int, t: int)
    requires
        parts_wf(s),
        s.len() <= 0xFFFF,
        0 <= m <= 0xFFFF,
        t >= 0,
        plan_ok(s, m, t),
        planned_chain(s, m, t).len() >= 2,
    ensures
        m + (sum_adv(planned_chain(s, m, t)) - (planned_chain(s, m, t).len() - 1) * m - t)
            <= u32::MAX,
{
    let r = min_repeats(s, m, t);
    let cn = count_kind(s, false);
    let ce = count_kind(s, true);
    let sn = sum_kind(s, false);
    let se = sum_kind(s, true);
    lemma_kind_bounds(s, false);
    lemma_kind_bounds(s, true);
    if needs_extenders(s, m, t) {
        lemma_ceil_div_props(t - max_size_no_extender(s, m), ext_quotient(s, m));
    }
    lemma_smin_identity(s, m, r);
    lemma_expand_sums(s, r);
    let smin_t = max_size_no_extender(s, m) + r * ext_quotient(s, m) - t;
    if !needs_extenders(s, m, t) {
        assert(r == 0);
        assert(0int * ext_quotient(s, m) == 0) by (nonlinear_arith);
        assert(0int * ce == 0) by (nonlinear_arith);
        assert(cn >= 2);
        assert(m + (sn - (cn - 1) * m) <= sn) by (nonlinear_arith)
            requires cn >= 2 && m >= 0;
        assert(cn * 0xFFFF <= 0xFFFF * 0xFFFF) by (nonlinear_arith)
            requires cn <= 0xFFFF;
    } else {
        let quot = ext_quotient(s, m);
        let num = t - max_size_no_extender(s, m);
        assert(r * quot == (r - 1) * quot + quot) by (nonlinear_arith);
        assert(smin_t < quot);
        assert(ce >= 1) by {
            if ce == 0 {
                assert(0int * 0xFFFF == 0) by (nonlinear_arith);
                assert(0int * m == 0) by (nonlinear_arith);
            }
        }
        assert(m + (se - ce * m) <= se) by (nonlinear_arith)
            requires ce >= 1 && m >= 0;
        assert(ce * 0xFFFF <= 0xFFFF * 0xFFFF) by (nonlinear_arith)
            requires ce <= 0xFFFF;
    }
}

/// Plan the assembly of an extensible glyph.
///
/// Partitions the parts into extenders and non-extenders, decides how many
/// times the extender set must repeat for the minimal-overlap chain to reach
/// `target_size`, then spreads each joint's extra overlap budget so that the
/// realized length lands as close as possible to the target from above.
///
/// The planned chain and every overlap are pinned exactly by `planned_chain`
/// and `joint_overlap`, so identical inputs yield identical instruction
/// sequences.  Whenever the chain is non-empty, its assembled length (total
/// advance minus total overlap) is at least `target_size`, and every joint's
/// overlap is at least `min_connector_overlap`.  The chain is empty only for
/// a recipe of extenders alone whose target is within the minimum-overlap
/// allowance: there the assembled length is zero, short of any positive
/// target — the one input on which no length is promised.
///
/// Planning fails, with `MalformedAssembly`, exactly on an empty part list
/// or on a recipe whose extender set contributes nothing per repetition
/// although extenders are needed.
///
/// The 16-bit bounds required of the inputs are those of the font format,
/// where part lists, connector lengths, advances and the minimum connector
/// overlap are all stored as 16-bit values.
pub fn plan_assembly(parts: &Vec<GlyphPart>, min_connector_overlap: u32, target_size: u32) -> (r:
    Result<Vec<GlyphInstruction>, FontError>)
    requires
        parts@.len() <= 0xFFFF,
        parts_wf(parts@),
        min_connector_overlap <= 0xFFFF,
    ensures
        r is Ok <==> plan_ok(parts@, min_connector_overlap as int, target_size as int),
        r is Err ==> r == Err::<Vec<GlyphInstruction>, FontError>(FontError::MalformedAssembly),
        r matches Ok(v) ==> matches_plan(
            parts@,
            min_connector_overlap as int,
            target_size as int,
            v@,
        ),
        r matches Ok(v) ==> forall|i: int|
            1 <= i < v@.len() ==> (#[trigger] v@[i]).overlap >= min_connector_overlap,
        r matches Ok(v) ==> (v@.len() > 0 ==> sum_adv(
            planned_chain(parts@, min_connector_overlap as int, target_size as int),
        ) - sum_overlaps(v@) >= target_size),
        r matches Ok(v) ==> (v@.len() == 0 ==> count_kind(parts@, false) == 0 && target_size
            <= min_connector_overlap),
{
    let ghost s = parts@;
    let ghost m = min_connector_overlap as int;
    let ghost t = target_size as int;
    if parts.len() == 0 {
        return Err(FontError::MalformedAssembly);
    }
    let (n_ext, n_nonext, size_ext, size_nonext) = classify_parts(parts);
    proof {
        lemma_kind_bounds(s, true);
        lemma_kind_bounds(s, false);
        vstd::arithmetic::mul::lemma_mul_inequality(count_kind(s, true), 0xFFFF, 0xFFFF);
        vstd::arithmetic::mul::lemma_mul_inequality(count_kind(s, false), 0xFFFF, 0xFFFF);
    }
    assert(-0xFFFF <= (n_nonext as int - 1) * (min_connector_overlap as int)
        && (n_nonext as int - 1) * (min_connector_overlap as int) <= 0xFFFF * 0xFFFF)
        by (nonlinear_arith)
        requires 0 <= n_nonext as int <= 0xFFFF && 0 <= min_connector_overlap as int <= 0xFFFF;
    let max_no_ext: i64 = size_nonext as i64 - (n_nonext as i64 - 1) * (min_connector_overlap
        as i64);
    assert(max_no_ext == max_size_no_extender(s, m));
    let mut reps: u64 = 0;
    if max_no_ext >= target_size as i64 {
        assert(!needs_extenders(s, m, t));
    } else {
        assert(needs_extenders(s, m, t));
        assert(0 <= (n_ext as int) * (min_connector_overlap as int) <= 0xFFFF * 0xFFFF)
            by (nonlinear_arith)
            requires 0 <= n_ext as int <= 0xFFFF && 0 <= min_connector_overlap as int <= 0xFFFF;
        let quot: i64 = size_ext as i64 - (n_ext as i64) * (min_connector_overlap as i64);
        assert(quot == ext_quotient(s, m));
        if quot <= 0 {
            assert(!plan_ok(s, m, t));
            return Err(FontError::MalformedAssembly);
        }
        let num: u64 = (target_size as i64 - max_no_ext) as u64;
        assert(num == t - max_size_no_extender(s, m));
        let q: u64 = num / (quot as u64);
        let rem: u64 = num % (quot as u64);
        proof {
            vstd::arithmetic::div_mod::lemma_div_nonincreasing(num as int, quot as int);
        }
        reps = if rem != 0 {
            q + 1
        } else {
            q
        };
        proof {
            lemma_ceil_div_props(num as int, quot as int);
            assert(reps == min_repeats(s, m, t));
        }
    }
    assert(reps == min_repeats(s, m, t));
    assert(plan_ok(s, m, t));

    let chain = expand_parts(parts, reps);
    let ghost c = planned_chain(s, m, t);
    assert(chain@ == c);
    let n_chain = chain.len();
    if n_chain == 0 {
        // an empty chain can only mean a recipe of extenders alone, none of
        // which is needed because the target is within the overlap allowance
        proof {
            lemma_expand_sums(s, reps as int);
            lemma_count_partition(s);
            lemma_kind_bounds(s, false);
            let cn = count_kind(s, false);
            let ce = count_kind(s, true);
            vstd::arithmetic::mul::lemma_mul_nonnegative(reps as int, ce);
            assert(cn == 0);
            assert(ce >= 1);
            assert(reps == 0) by {
                if reps >= 1 {
                    vstd::arithmetic::mul::lemma_mul_inequality(1, reps as int, ce);
                }
            }
            if needs_extenders(s, m, t) {
                lemma_ceil_div_props(t - max_size_no_extender(s, m), ext_quotient(s, m));
                assert(false);
            }
            assert(sum_kind(s, false) == 0) by {
                assert(0int * 0xFFFF == 0) by (nonlinear_arith);
            }
            assert(max_size_no_extender(s, m) == m) by {
                assert((0int - 1) * m == -m) by (nonlinear_arith);
            }
        }
        return Ok(Vec::new());
    }

    // Total advance of the chain and the sum of the joints' maximal overlaps.
    let mut swo: u128 = 0;
    let mut pm_total: u128 = 0;
    let mut k: usize = 0;
    while k < n_chain
        invariant
            0 <= k <= n_chain,
            n_chain == c.len(),
            chain@ == c,
            parts_wf(c),
            min_connector_overlap <= 0xFFFF,
            m == min_connector_overlap as int,
            swo == sum_adv(c.take(k as int)),
            swo <= k * 0xFFFF,
            pm_total == sum_pair_max(m, c.take(k as int)),
            pm_total <= k * 0xFFFF,
        decreases n_chain - k,
    {
        proof {
            lemma_take_succ(c, k as int);
        }
        if k >= 1 {
            let pm = max_overlap_at(min_connector_overlap, &chain[k - 1], &chain[k]);
            proof {
                lemma_sum_pair_max_take_succ(m, c, k as int);
            }
            pm_total = pm_total + pm as u128;
        } else {
            proof {
                assert(c.take(1).len() == 1);
            }
        }
        swo = swo + chain[k].full_advance as u128;
        k = k + 1;
    }
    proof {
        assert(c.take(n_chain as int) =~= c);
    }

    assert((n_chain as int - 1) * (min_connector_overlap as int) < 0x1_0000_0000_0000_0000_0000)
        by (nonlinear_arith)
        requires
            1 <= n_chain as int && (n_chain as int) < 0x1_0000_0000_0000_0000,
            0 <= min_connector_overlap as int <= 0xFFFF,
    ;
    let min_total: u128 = (n_chain as u128 - 1) * (min_connector_overlap as u128);
    proof {
        lemma_sum_pair_max_lower(m, c);
        lemma_smin_identity(s, m, reps as int);
        if needs_extenders(s, m, t) {
            lemma_ceil_div_props(t - max_size_no_extender(s, m), ext_quotient(s, m));
            assert(min_repeats(s, m, t) * ext_quotient(s, m) >= t - max_size_no_extender(s, m));
        } else {
            assert(reps == 0);
            assert(0int * ext_quotient(s, m) == 0) by (nonlinear_arith);
        }
        assert(sum_adv(c) - (c.len() - 1) * m >= t);
    }
    let target128: u128 = target_size as u128;
    let smin_minus_t: u128 = swo - min_total - target128;
    let d: u128 = pm_total - min_total;
    assert(d == sum_pair_max(m, c) - (c.len() - 1) * m);
    assert(smin_minus_t == sum_adv(c) - (c.len() - 1) * m - t);

    // The extra overlap available at one joint never exceeds the whole
    // chain's budget, and the planner spends at most `smin - target` of it.
    let ghost smin_t = smin_minus_t as int;
    let ghost dd = d as int;
    let mut out: Vec<GlyphInstruction> = Vec::new();
    let ghost mut total_extra: int = 0;
    let ghost mut budget: int = 0;
    let mut k: usize = 0;
    while k < n_chain
        invariant
            0 <= k <= n_chain,
            n_chain == c.len(),
            chain@ == c,
            parts_wf(c),
            parts_wf(s),
            s.len() <= 0xFFFF,
            plan_ok(s, m, t),
            min_connector_overlap <= 0xFFFF,
            m == min_connector_overlap as int,
            t == target_size as int,
            c == planned_chain(s, m, t),
            dd == d as int,
            smin_t == smin_minus_t as int,
            dd == sum_pair_max(m, c) - (c.len() - 1) * m,
            smin_t == sum_adv(c) - (c.len() - 1) * m - t,
            smin_t >= 0,
            dd >= 0,
            out@.len() == k,
            forall|i: int| 0 <= i < k ==> (#[trigger] out@[i]).glyph_id == c[i].glyph_id,
            k > 0 ==> out@[0].overlap == 0,
            forall|i: int|
                1 <= i < k ==> (#[trigger] out@[i]).overlap == joint_overlap(s, m, t, i),
            forall|i: int| 1 <= i < k ==> (#[trigger] out@[i]).overlap >= min_connector_overlap,
            budget == sum_pair_max(m, c.take(k as int)) - (if k >= 1 {
                (k - 1) * m
            } else {
                0int
            }),
            budget >= 0,
            total_extra >= 0,
            dd * total_extra <= smin_t * budget,
            dd == 0 ==> total_extra == 0,
            sum_overlaps(out@) == (if k >= 1 {
                (k - 1) * m
            } else {
                0int
            }) + total_extra,
        decreases n_chain - k,
    {
        let overlap: u32;
        if k == 0 {
            overlap = 0;
            proof {
                assert(c.take(1).len() == 1);
            }
        } else {
            let pm = max_overlap_at(min_connector_overlap, &chain[k - 1], &chain[k]);
            proof {
                lemma_pair_term_le_total(m, c, k as int);
                assert(pm - min_connector_overlap <= dd);
                lemma_overlap_fits(s, m, t);
                assert(smin_t <= u32::MAX);
                assert(smin_t * (pm as int - m) <= 0x1_0000_0000_0000_0000) by (nonlinear_arith)
                    requires 0 <= smin_t <= u32::MAX && 0 <= pm as int - m <= 0xFFFF;
            }
            let extra128: u128 = if d == 0 {
                0
            } else {
                smin_minus_t * ((pm - min_connector_overlap) as u128) / d
            };
            proof {
                if dd != 0 {
                    let x = smin_t * (pm - min_connector_overlap);
                    vstd::arithmetic::mul::lemma_mul_inequality(
                        pm - min_connector_overlap,
                        dd,
                        smin_t,
                    );
                    vstd::arithmetic::mul::lemma_mul_is_commutative(
                        smin_t,
                        pm - min_connector_overlap,
                    );
                    vstd::arithmetic::mul::lemma_mul_is_commutative(smin_t, dd);
                    vstd::arithmetic::div_mod::lemma_div_is_ordered(x, smin_t * dd, dd);
                    vstd::arithmetic::div_mod::lemma_div_multiples_vanish(smin_t, dd);
                    assert(extra128 as int == x / dd);
                    assert(extra128 <= smin_minus_t);
                    vstd::arithmetic::mul::lemma_mul_nonnegative(smin_t, pm - min_connector_overlap);
                    vstd::arithmetic::div_mod::lemma_div_pos_is_pos(x, dd);
                }
            }
            let ov128: u128 = min_connector_overlap as u128 + extra128;
            assert(ov128 <= u32::MAX);
            overlap = ov128 as u32;
            proof {
                assert(overlap as int == joint_overlap(s, m, t, k as int));
                // maintain the budget bookkeeping
                lemma_sum_pair_max_take_succ(m, c, k as int);
                let ghost e = extra128 as int;
                if dd != 0 {
                    let x = smin_t * (pm - min_connector_overlap);
                    vstd::arithmetic::div_mod::lemma_fundamental_div_mod(x, dd);
                    vstd::arithmetic::div_mod::lemma_mod_bound(x, dd);
                    assert(dd * e <= x);
                }
                vstd::arithmetic::mul::lemma_mul_is_distributive_add(
                    smin_t,
                    budget,
                    pm - min_connector_overlap,
                );
                total_extra = total_extra + e;
                budget = budget + (pm - min_connector_overlap);
                vstd::arithmetic::mul::lemma_mul_is_distributive_add(dd, total_extra - e, e);
                assert((k as int) * m == (k as int - 1) * m + m) by (nonlinear_arith);
            }
        }
        let inst = GlyphInstruction { glyph_id: chain[k].glyph_id, overlap };
        proof {
            assert((out@.push(inst)).drop_last() =~= out@);
        }
        out.push(inst);
        k = k + 1;
    }
    proof {
        assert(c.take(n_chain as int) =~= c);
        // the overlaps spend at most the distance from the minimal-overlap
        // length to the target
        if dd != 0 {
            vstd::arithmetic::mul::lemma_mul_is_commutative(smin_t, dd);
            vstd::arithmetic::mul::lemma_mul_is_commutative(dd, total_extra);
            vstd::arithmetic::mul::lemma_mul_inequality_converse(total_extra, smin_t, dd);
        }
        assert(total_extra <= smin_t);
    }
    Ok(out)
}

proof fn lemma_expand_zero_no_extender(s: Seq<GlyphPart>)
    ensures
        forall|i: int| 0 <= i < expand(s, 0).len() ==> !(#[trigger] expand(s, 0)[i]).is_extender,
    decreases s.len(),
{
    if s.len() > 0 {
        lemma_expand_zero_no_extender(s.drop_last());
        let c = expand(s, 0);
        let cl = expand(s.drop_last(), 0);
        let p = s.last();
        if p.is_extender {
            assert(repeat_part(p, 0) =~= Seq::<GlyphPart>::empty());
            assert(c =~= cl);
        } else {
            assert forall|i: int| 0 <= i < c.len() implies !(#[trigger] c[i]).is_extender by {
                if i < cl.len() {
                    assert(c[i] == cl[i]);
                } else {
                    assert(c[i] == p);
                }
            }
        }
    }
}

/// The minimal-overlap length of the planned chain reaches the target.
proof fn lemma_smin_reaches_target(s: Seq<GlyphPart>, min_o: int, target: int)
    requires
        plan_ok(s, min_o, target),
    ensures
        sum_adv(planned_chain(s, min_o, target)) - (planned_chain(s, min_o, target).len() - 1)
            * min_o >= target,
{
    let r = min_repeats(s, min_o, target);
    if needs_extenders(s, min_o, target) {
        lemma_ceil_div_props(target - max_size_no_extender(s, min_o), ext_quotient(s, min_o));
    } else {
        assert(0int * ext_quotient(s, min_o) == 0) by (nonlinear_arith);
    }
    lemma_smin_identity(s, min_o, r);
}

/// One planning step of the prefix bound: the overlaps spent on the first
/// `k` instructions stay within the proportional share of the first `k`
/// joints' extra budget.
proof fn lemma_overlaps_prefix_bound(
    s: Seq<GlyphPart>,
    min_o: int,
    target: int,
    v: Seq<GlyphInstruction>,
    k: int,
)
    requires
        0 <= min_o,
        0 <= target,
        plan_ok(s, min_o, target),
        matches_plan(s, min_o, target, v),
        1 <= k <= v.len(),
    ensures
        ({
            let c = planned_chain(s, min_o, target);
            let smin_t = sum_adv(c) - (c.len() - 1) * min_o - target;
            let d = sum_pair_max(min_o, c) - (c.len() - 1) * min_o;
            let budget = sum_pair_max(min_o, c.take(k)) - (k - 1) * min_o;
            &&& sum_overlaps(v.take(k)) >= (k - 1) * min_o
            &&& d * (sum_overlaps(v.take(k)) - (k - 1) * min_o) <= smin_t * budget
            &&& (d == 0 ==> sum_overlaps(v.take(k)) == (k - 1) * min_o)
            &&& budget >= 0
        }),
    decreases k,
{
    let c = planned_chain(s, min_o, target);
    let smin_t = sum_adv(c) - (c.len() - 1) * min_o - target;
    let d = sum_pair_max(min_o, c) - (c.len() - 1) * min_o;
    lemma_smin_reaches_target(s, min_o, target);
    lemma_sum_pair_max_lower(min_o, c);
    lemma_take_succ(v, k - 1);
    if k == 1 {
        assert(v.take(1).last() == v[0]);
        assert(v.take(1).drop_last() =~= Seq::<GlyphInstruction>::empty());
        assert(sum_overlaps(v.take(1)) == 0);
        assert(c.take(1).len() == 1);
        assert(0int * min_o == 0) by (nonlinear_arith);
        vstd::arithmetic::mul::lemma_mul_nonnegative(d, 0);
    } else {
        lemma_overlaps_prefix_bound(s, min_o, target, v, k - 1);
        let budget_pre = sum_pair_max(min_o, c.take(k - 1)) - (k - 2) * min_o;
        let spent_pre = sum_overlaps(v.take(k - 1)) - (k - 2) * min_o;
        lemma_sum_pair_max_take_succ(min_o, c, k - 1);
        lemma_pair_term_le_total(min_o, c, k - 1);
        let pm = pair_max_overlap(min_o, c[k - 2], c[k - 1]);
        assert(v[k - 1].overlap == joint_overlap(s, min_o, target, k - 1));
        let extra = joint_overlap(s, min_o, target, k - 1) - min_o;
        assert(sum_overlaps(v.take(k)) == sum_overlaps(v.take(k - 1)) + v[k - 1].overlap as int);
        if d == 0 {
            assert(extra == 0);
        } else {
            let x = smin_t * (pm - min_o);
            vstd::arithmetic::mul::lemma_mul_nonnegative(smin_t, pm - min_o);
            vstd::arithmetic::div_mod::lemma_fundamental_div_mod(x, d);
            vstd::arithmetic::div_mod::lemma_mod_bound(x, d);
            vstd::arithmetic::div_mod::lemma_div_pos_is_pos(x, d);
            assert(extra == x / d);
            assert(d * extra <= x);
        }
        // (k-1) and (k-2) many minimum overlaps differ by one
        assert((k - 1) * min_o == (k - 2) * min_o + min_o) by (nonlinear_arith);
        vstd::arithmetic::mul::lemma_mul_is_distributive_add(d, spent_pre, extra);
        vstd::arithmetic::mul::lemma_mul_is_distributive_add(smin_t, budget_pre, pm - min_o);
    }
}

/// The planned chain's assembled length — total advance minus total
/// overlap — never undershoots the target: any instruction sequence that
/// meets the plan spends at most the distance from the minimal-overlap
/// length to the target.
pub proof fn lemma_plan_no_undershoot(
    s: Seq<GlyphPart>,
    min_o: int,
    target: int,
    v: Seq<GlyphInstruction>,
)
    requires
        0 <= min_o,
        0 <= target,
        plan_ok(s, min_o, target),
        matches_plan(s, min_o, target, v),
        v.len() > 0,
    ensures
        sum_adv(planned_chain(s, min_o, target)) - sum_overlaps(v) >= target,
{
    let c = planned_chain(s, min_o, target);
    let len = c.len() as int;
    let smin_t = sum_adv(c) - (len - 1) * min_o - target;
    let d = sum_pair_max(min_o, c) - (len - 1) * min_o;
    lemma_smin_reaches_target(s, min_o, target);
    lemma_overlaps_prefix_bound(s, min_o, target, v, len);
    assert(v.take(len) =~= v);
    assert(c.take(len) =~= c);
    let spent = sum_overlaps(v) - (len - 1) * min_o;
    if d == 0 {
        assert(sum_overlaps(v) == (len - 1) * min_o);
    } else {
        assert(d * spent <= smin_t * d);
        vstd::arithmetic::mul::lemma_mul_is_commutative(d, spent);
        vstd::arithmetic::mul::lemma_mul_is_commutative(smin_t, d);
        vstd::arithmetic::mul::lemma_mul_inequality_converse(spent, smin_t, d);
    }
}

/// Every joint's planned overlap is at least the font's minimum connector
/// overlap; only the first instruction, which has nothing before it, carries
/// overlap zero.
pub proof fn lemma_plan_overlap_floor(
    s: Seq<GlyphPart>,
    min_o: int,
    target: int,
    v: Seq<GlyphInstruction>,
)
    requires
        0 <= min_o,
        0 <= target,
        plan_ok(s, min_o, target),
        matches_plan(s, min_o, target, v),
    ensures
        forall|i: int| 1 <= i < v.len() ==> (#[trigger] v[i]).overlap >= min_o,
{
    let c = planned_chain(s, min_o, target);
    let smin_t = sum_adv(c) - (c.len() - 1) * min_o - target;
    let d = sum_pair_max(min_o, c) - (c.len() - 1) * min_o;
    lemma_smin_reaches_target(s, min_o, target);
    lemma_sum_pair_max_lower(min_o, c);
    assert forall|i: int| 1 <= i < v.len() implies (#[trigger] v[i]).overlap >= min_o by {
        assert(v[i].overlap == joint_overlap(s, min_o, target, i));
        if d != 0 {
            let pm = pair_max_overlap(min_o, c[i - 1], c[i]);
            vstd::arithmetic::mul::lemma_mul_nonnegative(smin_t, pm - min_o);
            vstd::arithmetic::div_mod::lemma_div_pos_is_pos(smin_t * (pm - min_o), d);
        }
    }
}

/// Identical inputs plan identical instruction sequences: the planner's
/// contract pins every instruction, so any two results that meet it are
/// equal.
pub proof fn lemma_plan_deterministic(
    s: Seq<GlyphPart>,
    min_o: int,
    target: int,
    v1: Seq<GlyphInstruction>,
    v2: Seq<GlyphInstruction>,
)
    requires
        matches_plan(s, min_o, target, v1),
        matches_plan(s, min_o, target, v2),
    ensures
        v1 == v2,
{
    let c = planned_chain(s, min_o, target);
    assert forall|i: int| 0 <= i < v1.len() implies v1[i] == v2[i] by {
        if i >= 1 {
            assert(v1[i].overlap == joint_overlap(s, min_o, target, i));
            assert(v2[i].overlap == joint_overlap(s, min_o, target, i));
        }
    }
    assert(v1 =~= v2);
}

/// If the non-extenders alone reach the target, the planned chain contains
/// no extender part at all.
pub proof fn lemma_no_extender_when_unnecessary(s: Seq<GlyphPart>, min_o: int, target: int)
    requires
        target <= max_size_no_extender(s, min_o),
    ensures
        forall|i: int|
            0 <= i < planned_chain(s, min_o, target).len() ==> !(#[trigger] planned_chain(
                s,
                min_o,
                target,
            )[i]).is_extender,
{
    assert(!needs_extenders(s, min_o, target));
    lemma_expand_zero_no_extender(s);
}

/// Increasing the target size never decreases the number of extender
/// repeats.
pub proof fn lemma_repeats_monotonic(s: Seq<GlyphPart>, min_o: int, t1: int, t2: int)
    requires
        t1 <= t2,
        plan_ok(s, min_o, t2),
    ensures
        min_repeats(s, min_o, t1) <= min_repeats(s, min_o, t2),
{
    let q = ext_quotient(s, min_o);
    if !needs_extenders(s, min_o, t1) {
        if needs_extenders(s, min_o, t2) {
            lemma_ceil_div_props(t2 - max_size_no_extender(s, min_o), q);
        }
    } else {
        let num1 = t1 - max_size_no_extender(s, min_o);
        let num2 = t2 - max_size_no_extender(s, min_o);
        let r1 = ceil_div(num1, q);
        let r2 = ceil_div(num2, q);
        lemma_ceil_div_props(num1, q);
        lemma_ceil_div_props(num2, q);
        if r1 > r2 {
            assert((r1 - 1) * q < num1);
            assert(r2 * q >= num2);
            assert(r2 <= r1 - 1);
            vstd::arithmetic::mul::lemma_mul_inequality(r2, r1 - 1, q);
            assert(false);
        }
    }
}

} // verus!
