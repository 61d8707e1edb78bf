use vstd::prelude::*;

use vstd::arithmetic::div_mod::{
    lemma_div_pos_is_pos, lemma_fundamental_div_mod, lemma_mod_division_less_than_divisor,
};
use vstd::arithmetic::mul::lemma_mul_inequality;

use crate::iteration_size::IterationSize;

verus! {

// The distribution algorithm: declared sizes are either fixed counts or
// proportional weights.  Fixed entries take their literal count; the space
// left over is split among the proportional entries in proportion to their
// weights, rounding down, except that the last proportional entry in list
// order receives whatever is left, so that the assigned counts always add
// up to the total exactly.

/// The weight an entry contributes: zero for a fixed entry.
pub open spec fn weight_of(s: IterationSize) -> int {
    match s {
        IterationSize::Count(_) => 0,
        IterationSize::Proportional(w) => w as int,
    }
}

/// The fixed count an entry contributes: zero for a proportional entry.
pub open spec fn count_of(s: IterationSize) -> int {
    match s {
        IterationSize::Count(c) => c as int,
        IterationSize::Proportional(_) => 0,
    }
}

/// The sum of the fixed counts among the first `k` entries.
pub open spec fn fixed_before(sizes: Seq<IterationSize>, k: int) -> int
    decreases k,
{
    if k <= 0 {
        0
    } else {
        fixed_before(sizes, k - 1) + count_of(sizes[k - 1])
    }
}

/// The sum of all fixed counts.
pub open spec fn fixed_sum(sizes: Seq<IterationSize>) -> int {
    fixed_before(sizes, sizes.len() as int)
}

/// The sum of the weights among the first `k` entries.
pub open spec fn weight_before(sizes: Seq<IterationSize>, k: int) -> int
    decreases k,
{
    if k <= 0 {
        0
    } else {
        weight_before(sizes, k - 1) + weight_of(sizes[k - 1])
    }
}

/// The sum of all weights.
pub open spec fn weight_sum(sizes: Seq<IterationSize>) -> int {
    weight_before(sizes, sizes.len() as int)
}

/// Whether any entry is proportional.
pub open spec fn has_proportional(sizes: Seq<IterationSize>) -> bool {
    exists|i: int| 0 <= i < sizes.len() && (#[trigger] sizes[i]) is Proportional
}

/// The index of the last proportional entry, in list order; negative when
/// there is none.
pub open spec fn last_proportional(sizes: Seq<IterationSize>) -> int
    decreases sizes.len(),
{
    if sizes.len() == 0 {
        -1
    } else if sizes.last() is Proportional {
        sizes.len() - 1
    } else {
        last_proportional(sizes.drop_last())
    }
}

/// What is left to distribute once the fixed counts are taken out.
pub open spec fn remaining(sizes: Seq<IterationSize>, total: int) -> int {
    total - fixed_sum(sizes)
}

/// The rounded-down share of a proportional entry of weight `w` that is not
/// the last one.  With no weight anywhere, such an entry receives nothing.
pub open spec fn share(sizes: Seq<IterationSize>, total: int, w: int) -> int {
    if weight_sum(sizes) > 0 {
        remaining(sizes, total) * w / weight_sum(sizes)
    } else {
        0
    }
}

/// The sum of the shares of the proportional entries among the first `k`,
/// the last proportional entry excluded.
pub open spec fn shares_before(sizes: Seq<IterationSize>, total: int, k: int) -> int
    decreases k,
{
    if k <= 0 {
        0
    } else {
        shares_before(sizes, total, k - 1) + if sizes[k - 1] is Proportional && k - 1
            != last_proportional(sizes) {
            share(sizes, total, weight_of(sizes[k - 1]))
        } else {
            0
        }
    }
}

/// The sum of the weights of the proportional entries among the first `k`,
/// the last proportional entry excluded.
pub open spec fn weight_nonlast_before(sizes: Seq<IterationSize>, k: int) -> int
    decreases k,
{
    if k <= 0 {
        0
    } else {
        weight_nonlast_before(sizes, k - 1) + if sizes[k - 1] is Proportional && k - 1
            != last_proportional(sizes) {
            weight_of(sizes[k - 1])
        } else {
            0
        }
    }
}

/// The count the distribution assigns to entry `i`: a fixed entry gets its
/// literal count; a proportional entry gets its rounded-down share, except
/// the last one, which gets everything the others left.
pub open spec fn count_at(sizes: Seq<IterationSize>, total: int, i: int) -> int {
    match sizes[i] {
        IterationSize::Count(c) => c as int,
        IterationSize::Proportional(w) => if i == last_proportional(sizes) {
            remaining(sizes, total) - shares_before(sizes, total, sizes.len() as int)
        } else {
            share(sizes, total, w as int)
        },
    }
}

/// The sum of the assigned counts of the first `k` entries.
pub open spec fn counts_before(sizes: Seq<IterationSize>, total: int, k: int) -> int
    decreases k,
{
    if k <= 0 {
        0
    } else {
        counts_before(sizes, total, k - 1) + count_at(sizes, total, k - 1)
    }
}

/// Whether `counts` is exactly the distribution of `total` over `sizes`.
pub open spec fn is_distribution(
    sizes: Seq<IterationSize>,
    total: int,
    counts: Seq<usize>,
) -> bool {
    &&& counts.len() == sizes.len()
    &&& forall|i: int| 0 <= i < sizes.len() ==> counts[i] == count_at(sizes, total, i)
}

pub(crate) proof fn lemma_last_proportional_props(sizes: Seq<IterationSize>)
    ensures
        (last_proportional(sizes) >= 0) <==> has_proportional(sizes),
        -1 <= last_proportional(sizes) < sizes.len(),
        has_proportional(sizes) ==> sizes[last_proportional(sizes)] is Proportional,
        forall|j: int|
            last_proportional(sizes) < j < sizes.len() ==> !((#[trigger] sizes[j]) is Proportional),
    decreases sizes.len(),
{
    if sizes.len() == 0 {
    } else if sizes.last() is Proportional {
        assert(sizes[sizes.len() - 1] is Proportional);
    } else {
        let prefix = sizes.drop_last();
        lemma_last_proportional_props(prefix);
        assert(forall|i: int| 0 <= i < prefix.len() ==> prefix[i] == sizes[i]);
        if has_proportional(sizes) {
            let i = choose|i: int| 0 <= i < sizes.len() && (#[trigger] sizes[i]) is Proportional;
            assert(i < sizes.len() - 1);
            assert(prefix[i] is Proportional);
            assert(has_proportional(prefix));
        }
        if has_proportional(prefix) {
            let i = choose|i: int| 0 <= i < prefix.len() && (#[trigger] prefix[i]) is Proportional;
            assert(sizes[i] is Proportional);
            assert(has_proportional(sizes));
        }
        assert forall|j: int|
            last_proportional(sizes) < j < sizes.len() implies !(
        (#[trigger] sizes[j]) is Proportional) by {
            if j < sizes.len() - 1 {
                assert(prefix[j] == sizes[j]);
            }
        }
    }
}

/// The entry with a proportional size after which no proportional entry
/// follows is the last proportional entry.
pub(crate) proof fn lemma_last_proportional_is(sizes: Seq<IterationSize>, j: int)
    requires
        0 <= j < sizes.len(),
        sizes[j] is Proportional,
        forall|m: int| j < m < sizes.len() ==> !((#[trigger] sizes[m]) is Proportional),
    ensures
        last_proportional(sizes) == j,
    decreases sizes.len(),
{
    if j == sizes.len() - 1 {
    } else {
        assert(!(sizes[sizes.len() - 1] is Proportional));
        let prefix = sizes.drop_last();
        assert(forall|i: int| 0 <= i < prefix.len() ==> prefix[i] == sizes[i]);
        lemma_last_proportional_is(prefix, j);
    }
}

/// With no proportional entry anywhere, there is no last one.
pub(crate) proof fn lemma_no_proportional(sizes: Seq<IterationSize>)
    requires
        forall|m: int| 0 <= m < sizes.len() ==> !((#[trigger] sizes[m]) is Proportional),
    ensures
        last_proportional(sizes) == -1,
    decreases sizes.len(),
{
    if sizes.len() > 0 {
        let prefix = sizes.drop_last();
        assert(forall|i: int| 0 <= i < prefix.len() ==> prefix[i] == sizes[i]);
        lemma_no_proportional(prefix);
    }
}

/// Prefix sums of fixed counts grow with the prefix.
pub(crate) proof fn lemma_fixed_before_mono(sizes: Seq<IterationSize>, k1: int, k2: int)
    requires
        k1 <= k2,
    ensures
        fixed_before(sizes, k1) <= fixed_before(sizes, k2),
    decreases k2 - k1,
{
    if k1 < k2 {
        lemma_fixed_before_mono(sizes, k1, k2 - 1);
    }
}

/// Prefix sums of weights grow with the prefix.
proof fn lemma_weight_before_mono(sizes: Seq<IterationSize>, k1: int, k2: int)
    requires
        k1 <= k2,
    ensures
        weight_before(sizes, k1) <= weight_before(sizes, k2),
    decreases k2 - k1,
{
    if k1 < k2 {
        lemma_weight_before_mono(sizes, k1, k2 - 1);
    }
}

/// The weight of one entry is at most the sum of all weights.
proof fn lemma_weight_at_le_sum(sizes: Seq<IterationSize>, i: int)
    requires
        0 <= i < sizes.len(),
    ensures
        weight_of(sizes[i]) <= weight_sum(sizes),
{
    lemma_weight_before_mono(sizes, 0, i);
    assert(weight_before(sizes, i + 1) == weight_before(sizes, i) + weight_of(sizes[i]));
    lemma_weight_before_mono(sizes, i + 1, sizes.len() as int);
}

/// A non-last share lies between zero and what is left to distribute.
proof fn lemma_share_bounds(sizes: Seq<IterationSize>, total: int, w: int)
    requires
        fixed_sum(sizes) <= total,
        0 <= w <= weight_sum(sizes),
    ensures
        0 <= share(sizes, total, w) <= remaining(sizes, total),
{
    let r = remaining(sizes, total);
    let ws = weight_sum(sizes);
    if ws > 0 {
        lemma_mul_inequality(w, ws, r);
        assert(r * w == w * r && r * ws == ws * r) by (nonlinear_arith);
        lemma_div_pos_is_pos(r * w, ws);
        vstd::arithmetic::div_mod::lemma_div_is_ordered(r * w, r * ws, ws);
        assert(r * ws / ws == r) by {
            lemma_fundamental_div_mod(r * ws, ws);
            lemma_mod_division_less_than_divisor(r * ws, ws);
            assert(r * ws % ws == 0) by {
                vstd::arithmetic::div_mod::lemma_mod_multiples_basic(r, ws);
                assert(r * ws == ws * r) by (nonlinear_arith);
            }
            assert(ws * (r * ws / ws) == ws * r);
            assert(r * ws / ws == r) by (nonlinear_arith)
                requires
                    ws * (r * ws / ws) == ws * r,
                    ws > 0,
            {}
        }
    }
}

/// With no weight anywhere, every non-last share is zero.
proof fn lemma_shares_before_zero(sizes: Seq<IterationSize>, total: int, k: int)
    requires
        weight_sum(sizes) <= 0,
    ensures
        shares_before(sizes, total, k) == 0,
    decreases k,
{
    if k > 0 {
        lemma_shares_before_zero(sizes, total, k - 1);
    }
}

/// Multiplied through by the weight sum, the shares handed out so far are
/// bounded by what is left, weighted by the weights handed out so far.
proof fn lemma_shares_mul(sizes: Seq<IterationSize>, total: int, k: int)
    requires
        fixed_sum(sizes) <= total,
        weight_sum(sizes) > 0,
        0 <= k <= sizes.len(),
    ensures
        shares_before(sizes, total, k) >= 0,
        weight_sum(sizes) * shares_before(sizes, total, k) <= remaining(sizes, total)
            * weight_nonlast_before(sizes, k),
        weight_nonlast_before(sizes, k) >= 0,
    decreases k,
{
    let r = remaining(sizes, total);
    let ws = weight_sum(sizes);
    if k > 0 {
        lemma_shares_mul(sizes, total, k - 1);
        let sb = shares_before(sizes, total, k - 1);
        let wb = weight_nonlast_before(sizes, k - 1);
        if sizes[k - 1] is Proportional && k - 1 != last_proportional(sizes) {
            let w = weight_of(sizes[k - 1]);
            lemma_weight_at_le_sum(sizes, k - 1);
            let s = share(sizes, total, w);
            lemma_share_bounds(sizes, total, w);
            assert(ws * s <= r * w) by {
                lemma_fundamental_div_mod(r * w, ws);
                lemma_mod_division_less_than_divisor(r * w, ws);
            }
            assert(ws * (sb + s) == ws * sb + ws * s) by (nonlinear_arith);
            assert(r * (wb + w) == r * wb + r * w) by (nonlinear_arith);
        }
    }
}

/// The shares of the non-last proportional entries never exceed what is
/// left to distribute.
pub(crate) proof fn lemma_shares_before_le_remaining(sizes: Seq<IterationSize>, total: int, k: int)
    requires
        fixed_sum(sizes) <= total,
        0 <= k <= sizes.len(),
    ensures
        0 <= shares_before(sizes, total, k) <= remaining(sizes, total),
{
    let r = remaining(sizes, total);
    let ws = weight_sum(sizes);
    if ws <= 0 {
        lemma_shares_before_zero(sizes, total, k);
    } else {
        lemma_shares_mul(sizes, total, k);
        let sb = shares_before(sizes, total, k);
        let wb = weight_nonlast_before(sizes, k);
        assert(wb <= weight_before(sizes, k)) by {
            lemma_weight_nonlast_le(sizes, k);
        }
        lemma_weight_before_mono(sizes, k, sizes.len() as int);
        assert(r * wb <= r * ws) by (nonlinear_arith)
            requires
                wb <= ws,
                r >= 0,
        {}
        assert(sb <= r) by (nonlinear_arith)
            requires
                ws * sb <= r * ws,
                ws > 0,
        {}
    }
}

/// Skipping the last proportional entry only shrinks a weight prefix sum.
proof fn lemma_weight_nonlast_le(sizes: Seq<IterationSize>, k: int)
    ensures
        weight_nonlast_before(sizes, k) <= weight_before(sizes, k),
    decreases k,
{
    if k > 0 {
        lemma_weight_nonlast_le(sizes, k - 1);
    }
}


/// Past the last proportional entry the running share sum stays put: the
/// entries there are fixed, or the last proportional one itself, and none
/// of them adds a share.
pub(crate) proof fn lemma_shares_before_stable(
    sizes: Seq<IterationSize>,
    total: int,
    k1: int,
    k2: int,
)
    requires
        0 <= k1 <= k2 <= sizes.len(),
        forall|m: int|
            k1 <= m < k2 ==> m == last_proportional(sizes) || !(
            (#[trigger] sizes[m]) is Proportional),
    ensures
        shares_before(sizes, total, k2) == shares_before(sizes, total, k1),
    decreases k2 - k1,
{
    if k1 < k2 {
        lemma_shares_before_stable(sizes, total, k1, k2 - 1);
    }
}

/// The sum of the first `k` assigned counts, split into its fixed part, its
/// non-last shares, and the last proportional entry's remainder when it has
/// already been passed.
proof fn lemma_counts_before_split(sizes: Seq<IterationSize>, total: int, k: int)
    requires
        0 <= k <= sizes.len(),
    ensures
        counts_before(sizes, total, k) == fixed_before(sizes, k) + shares_before(sizes, total, k)
            + if 0 <= last_proportional(sizes) < k {
            remaining(sizes, total) - shares_before(sizes, total, sizes.len() as int)
        } else {
            0
        },
    decreases k,
{
    lemma_last_proportional_props(sizes);
    if k > 0 {
        lemma_counts_before_split(sizes, total, k - 1);
    }
}

/// Every count the distribution assigns is the fixed entry's literal count,
/// or lies between zero and what the fixed entries left over.
pub proof fn lemma_count_at_bounds(sizes: Seq<IterationSize>, total: int, i: int)
    requires
        fixed_sum(sizes) <= total,
        0 <= i < sizes.len(),
    ensures
        sizes[i] matches IterationSize::Count(c) ==> count_at(sizes, total, i) == c,
        sizes[i] is Proportional ==> 0 <= count_at(sizes, total, i) <= remaining(sizes, total),
{
    match sizes[i] {
        IterationSize::Count(_) => {},
        IterationSize::Proportional(w) => {
            if i == last_proportional(sizes) {
                lemma_shares_before_le_remaining(sizes, total, sizes.len() as int);
            } else {
                lemma_weight_at_le_sum(sizes, i);
                lemma_share_bounds(sizes, total, w as int);
            }
        },
    }
}

/// Distribution exactness: whenever the fixed counts fit in the total and
/// some entry is proportional, the assigned counts add up to the total
/// exactly, with no rounding drift, and every fixed entry receives exactly
/// its literal count.
pub proof fn lemma_distribution_exact(sizes: Seq<IterationSize>, total: int)
    requires
        fixed_sum(sizes) <= total,
        has_proportional(sizes),
    ensures
        counts_before(sizes, total, sizes.len() as int) == total,
        forall|i: int|
            0 <= i < sizes.len() ==> ((#[trigger] sizes[i]) matches IterationSize::Count(c)
                ==> count_at(sizes, total, i) == c),
{
    lemma_last_proportional_props(sizes);
    lemma_counts_before_split(sizes, total, sizes.len() as int);
}

/// With no proportional entry, the assigned counts add up to the fixed sum:
/// whatever the fixed entries do not claim stays unassigned.
pub proof fn lemma_distribution_all_fixed(sizes: Seq<IterationSize>, total: int)
    requires
        !has_proportional(sizes),
    ensures
        counts_before(sizes, total, sizes.len() as int) == fixed_sum(sizes),
{
    lemma_last_proportional_props(sizes);
    lemma_counts_before_split_no_shares(sizes, total, sizes.len() as int);
}

/// Without proportional entries there are no shares, so the count prefix
/// sums are the fixed prefix sums.
proof fn lemma_counts_before_split_no_shares(sizes: Seq<IterationSize>, total: int, k: int)
    requires
        !has_proportional(sizes),
        0 <= k <= sizes.len(),
    ensures
        counts_before(sizes, total, k) == fixed_before(sizes, k),
        shares_before(sizes, total, k) == 0,
    decreases k,
{
    lemma_last_proportional_props(sizes);
    if k > 0 {
        lemma_counts_before_split_no_shares(sizes, total, k - 1);
        assert(!(sizes[k - 1] is Proportional));
    }
}

} // verus!
