use vstd::prelude::*;

use core::marker::PhantomData;

use vstd::pervasive::cloned;

use crate::distribution::{
    count_at, count_of, counts_before, fixed_before, fixed_sum, has_proportional, is_distribution,
    last_proportional, lemma_count_at_bounds, lemma_distribution_exact, remaining, shares_before,
    weight_before, weight_sum,
};
use crate::error::Error;
use crate::iteration::{flatten_views, Iteration};
use crate::iteration_size::IterationSize;
use crate::sliced::{spec_total, Sliced};

verus! {

/// The sum of the first `k` assigned counts.
pub open spec fn counts_prefix(counts: Seq<usize>, k: int) -> int
    decreases k,
{
    if k <= 0 {
        0
    } else {
        counts_prefix(counts, k - 1) + counts[k - 1]
    }
}

proof fn lemma_counts_prefix_mono(counts: Seq<usize>, k1: int, k2: int)
    requires
        0 <= k1 <= k2,
    ensures
        counts_prefix(counts, k1) <= counts_prefix(counts, k2),
    decreases k2 - k1,
{
    if k1 < k2 {
        lemma_counts_prefix_mono(counts, k1, k2 - 1);
    }
}

/// `q` is a clone of `params` whose range was overwritten with `[s, e)`.
pub open spec fn reranged<T: Sliced + Clone>(params: T, q: T, s: int, e: int) -> bool {
    &&& exists|p: T| #[trigger] cloned::<T>(params, p) && p.same_rest(&q)
    &&& q.spec_start() == s
    &&& q.spec_end() == e
    &&& q.range_wf()
}

/// Child `pre` was bound with a clone of `params` carrying the sub-range of
/// `n` indices at `s`, became `post`, and the call returned `r`.
pub open spec fn child_rebound<T: Sliced + Clone, I: Iteration<T>>(
    pre: I,
    post: I,
    params: T,
    s: int,
    n: int,
    r: Result<(), Error>,
) -> bool {
    exists|q: T| #[trigger] reranged(params, q, s, s + n) && I::bind_ens(pre, post, q, r)
}

/// As `child_rebound`, for a one-shot synchronous evaluation.
pub open spec fn child_reevaluated<T: Sliced + Clone, I: Iteration<T>>(
    pre: I,
    post: I,
    params: T,
    s: int,
    n: int,
    r: Result<(), Error>,
) -> bool {
    exists|q: T|
        #[trigger] reranged(params, q, s, s + n) && I::evaluate_with_params_ens(pre, post, q, r)
}

/// As `child_rebound`, for a one-shot deferred evaluation with outcome `r`.
pub open spec fn child_reevaluated_async<T: Sliced + Clone, I: Iteration<T>>(
    pre: I,
    post: I,
    params: T,
    s: int,
    n: int,
    r: Result<Vec<wgpu::CommandBuffer>, Error>,
) -> bool {
    exists|q: T|
        #[trigger] reranged(params, q, s, s + n) && I::evaluate_with_params_async_ens(
            pre,
            post,
            q,
            r,
        )
}

/// Child `pre` had its deferred one-shot work issued successfully with some
/// command buffers, which the surrounding call later dropped.
pub open spec fn child_issued_async<T: Sliced + Clone, I: Iteration<T>>(
    pre: I,
    post: I,
    params: T,
    s: int,
    n: int,
) -> bool {
    exists|out: Vec<wgpu::CommandBuffer>|
        #[trigger] child_reevaluated_async::<T, I>(pre, post, params, s, n, Ok(out))
}

/// Child `pre` had its deferred bound-state work issued successfully with
/// some command buffers.
pub open spec fn child_evaluated_async_ok<T, I: Iteration<T>>(pre: I, post: I) -> bool {
    exists|out: Vec<wgpu::CommandBuffer>| #[trigger] I::evaluate_async_ens(pre, post, Ok(out))
}

/// Every child was bound, in list order, with its own sub-range; on an
/// error, the children before the failing one were bound, the failing one
/// reported the error, and the rest were not touched.
pub open spec fn children_rebound<T: Sliced + Clone, I: Iteration<T>>(
    pre: Seq<(IterationSize, I)>,
    post: Seq<(IterationSize, I)>,
    params: T,
    start: int,
    counts: Seq<usize>,
    r: Result<(), Error>,
) -> bool {
    match r {
        Ok(_) => forall|i: int|
            0 <= i < pre.len() ==> #[trigger] child_rebound::<T, I>(
                pre[i].1,
                post[i].1,
                params,
                start + counts_prefix(counts, i),
                counts[i] as int,
                Ok(()),
            ),
        Err(e) => exists|j: int|
            {
                &&& 0 <= j < pre.len()
                &&& #[trigger] child_rebound::<T, I>(
                    pre[j].1,
                    post[j].1,
                    params,
                    start + counts_prefix(counts, j),
                    counts[j] as int,
                    Err(e),
                )
                &&& forall|i: int|
                    0 <= i < j ==> #[trigger] child_rebound::<T, I>(
                        pre[i].1,
                        post[i].1,
                        params,
                        start + counts_prefix(counts, i),
                        counts[i] as int,
                        Ok(()),
                    )
                &&& forall|i: int| j < i < pre.len() ==> (#[trigger] post[i]).1 == pre[i].1
            },
    }
}

/// As `children_rebound`, for one-shot synchronous evaluation.
pub open spec fn children_reevaluated<T: Sliced + Clone, I: Iteration<T>>(
    pre: Seq<(IterationSize, I)>,
    post: Seq<(IterationSize, I)>,
    params: T,
    start: int,
    counts: Seq<usize>,
    r: Result<(), Error>,
) -> bool {
    match r {
        Ok(_) => forall|i: int|
            0 <= i < pre.len() ==> #[trigger] child_reevaluated::<T, I>(
                pre[i].1,
                post[i].1,
                params,
                start + counts_prefix(counts, i),
                counts[i] as int,
                Ok(()),
            ),
        Err(e) => exists|j: int|
            {
                &&& 0 <= j < pre.len()
                &&& #[trigger] child_reevaluated::<T, I>(
                    pre[j].1,
                    post[j].1,
                    params,
                    start + counts_prefix(counts, j),
                    counts[j] as int,
                    Err(e),
                )
                &&& forall|i: int|
                    0 <= i < j ==> #[trigger] child_reevaluated::<T, I>(
                        pre[i].1,
                        post[i].1,
                        params,
                        start + counts_prefix(counts, i),
                        counts[i] as int,
                        Ok(()),
                    )
                &&& forall|i: int| j < i < pre.len() ==> (#[trigger] post[i]).1 == pre[i].1
            },
    }
}

/// As `children_rebound`, for one-shot deferred evaluation: on success the
/// returned command buffers are the children's, concatenated in list order.
pub open spec fn children_reevaluated_async<T: Sliced + Clone, I: Iteration<T>>(
    pre: Seq<(IterationSize, I)>,
    post: Seq<(IterationSize, I)>,
    params: T,
    start: int,
    counts: Seq<usize>,
    r: Result<Vec<wgpu::CommandBuffer>, Error>,
) -> bool {
    match r {
        Ok(v) => exists|outs: Seq<Vec<wgpu::CommandBuffer>>|
            #![trigger flatten_views(outs)]
            {
                &&& outs.len() == pre.len()
                &&& forall|i: int|
                    0 <= i < pre.len() ==> #[trigger] child_reevaluated_async::<T, I>(
                        pre[i].1,
                        post[i].1,
                        params,
                        start + counts_prefix(counts, i),
                        counts[i] as int,
                        Ok(outs[i]),
                    )
                &&& v@ == flatten_views(outs)
            },
        Err(e) => exists|j: int|
            {
                &&& 0 <= j < pre.len()
                &&& #[trigger] child_reevaluated_async::<T, I>(
                    pre[j].1,
                    post[j].1,
                    params,
                    start + counts_prefix(counts, j),
                    counts[j] as int,
                    Err(e),
                )
                &&& forall|i: int|
                    0 <= i < j ==> #[trigger] child_issued_async::<T, I>(
                        pre[i].1,
                        post[i].1,
                        params,
                        start + counts_prefix(counts, i),
                        counts[i] as int,
                    )
                &&& forall|i: int| j < i < pre.len() ==> (#[trigger] post[i]).1 == pre[i].1
            },
    }
}

/// Every child was evaluated with its bound state, in list order, stopping
/// at the first error.
pub open spec fn children_evaluated<T, I: Iteration<T>>(
    pre: Seq<(IterationSize, I)>,
    post: Seq<(IterationSize, I)>,
    r: Result<(), Error>,
) -> bool {
    match r {
        Ok(_) => forall|i: int|
            0 <= i < pre.len() ==> #[trigger] I::evaluate_ens(pre[i].1, post[i].1, Ok(())),
        Err(e) => exists|j: int|
            {
                &&& 0 <= j < pre.len()
                &&& I::evaluate_ens(pre[j].1, post[j].1, Err(e))
                &&& forall|i: int|
                    0 <= i < j ==> #[trigger] I::evaluate_ens(pre[i].1, post[i].1, Ok(()))
                &&& forall|i: int| j < i < pre.len() ==> (#[trigger] post[i]).1 == pre[i].1
            },
    }
}

/// Every child's deferred work was issued in list order; on success the
/// returned command buffers are the children's, concatenated in list order.
pub open spec fn children_evaluated_async<T, I: Iteration<T>>(
    pre: Seq<(IterationSize, I)>,
    post: Seq<(IterationSize, I)>,
    r: Result<Vec<wgpu::CommandBuffer>, Error>,
) -> bool {
    match r {
        Ok(v) => exists|outs: Seq<Vec<wgpu::CommandBuffer>>|
            #![trigger flatten_views(outs)]
            {
                &&& outs.len() == pre.len()
                &&& forall|i: int|
                    0 <= i < pre.len() ==> #[trigger] I::evaluate_async_ens(
                        pre[i].1,
                        post[i].1,
                        Ok(outs[i]),
                    )
                &&& v@ == flatten_views(outs)
            },
        Err(e) => exists|j: int|
            {
                &&& 0 <= j < pre.len()
                &&& I::evaluate_async_ens(pre[j].1, post[j].1, Err(e))
                &&& forall|i: int|
                    0 <= i < j ==> #[trigger] child_evaluated_async_ok::<T, I>(pre[i].1, post[i].1)
                &&& forall|i: int| j < i < pre.len() ==> (#[trigger] post[i]).1 == pre[i].1
            },
    }
}

/// A composite that splits the incoming range over an ordered list of
/// children.  Each child is declared with an `IterationSize`; on any call
/// that carries parameters the composite computes (or reuses) the
/// distribution of the range's length over the children, cuts the range
/// into contiguous sub-ranges of those lengths, and forwards to each child
/// a clone of the parameters carrying its sub-range.
pub struct SlicedIteration<T, I> where T: Sliced + Clone, I: Iteration<T> {
    /// The ordered (declared size, child) pairs.
    pub children: Vec<(IterationSize, I)>,
    /// The cached distribution from an earlier call, invalidated by every
    /// structural change.
    pub cache: Option<Vec<usize>>,
    /// The parameter type the children work on.
    pub params: PhantomData<T>,
}

impl<T, I> SlicedIteration<T, I> where T: Sliced + Clone, I: Iteration<T> {
    /// The declared sizes, in list order.
    pub open spec fn spec_sizes(self) -> Seq<IterationSize> {
        self.children@.map_values(|p: (IterationSize, I)| p.0)
    }

    /// The counts a call distributing `total` works with: the cached ones
    /// if present, else the distribution of `total` over the declared
    /// sizes.
    pub open spec fn counts_for(self, total: int) -> Seq<usize> {
        match self.cache {
            Some(c) => c@,
            None => Seq::new(
                self.spec_sizes().len(),
                |i: int| count_at(self.spec_sizes(), total, i) as usize,
            ),
        }
    }

    /// A fresh distribution of `total` is impossible: the fixed sizes alone
    /// exceed it.
    pub open spec fn infeasible(self, total: int) -> bool {
        self.cache is None && fixed_sum(self.spec_sizes()) > total
    }

    /// Creates a composite with no children.
    pub fn new() -> (r: Self)
        ensures
            r.children@.len() == 0,
            r.cache is None,
    {
        SlicedIteration { children: Vec::new(), cache: None, params: PhantomData }
    }

    /// Adds a child with its declared size, invalidating the cached
    /// distribution.
    pub fn add(self, size: IterationSize, iteration: I) -> (r: Self)
        ensures
            r.children@ == self.children@.push((size, iteration)),
            r.cache is None,
    {
        let mut children = self.children;
        children.push((size, iteration));
        SlicedIteration { children, cache: None, params: PhantomData }
    }

    /// Removes the child at the given position, invalidating the cached
    /// distribution.
    pub fn remove(self, index: usize) -> (r: Self)
        requires
            index < self.children@.len(),
        ensures
            r.children@ == self.children@.remove(index as int),
            r.cache is None,
    {
        let mut children = self.children;
        children.remove(index);
        SlicedIteration { children, cache: None, params: PhantomData }
    }

    /// Removes every child, invalidating the cached distribution.
    pub fn clear(self) -> (r: Self)
        ensures
            r.children@.len() == 0,
            r.cache is None,
    {
        SlicedIteration { children: Vec::new(), cache: None, params: PhantomData }
    }

    /// Replaces the whole child list, invalidating the cached distribution.
    pub fn set(&mut self, slices: Vec<(IterationSize, I)>)
        ensures
            final(self).children == slices,
            final(self).cache is None,
    {
        self.children = slices;
        self.cache = None;
    }

    /// Distributes `total` over the children's declared sizes, or returns
    /// the cached counts from an earlier call unchanged.  A fresh
    /// distribution fails exactly when the fixed sizes together exceed
    /// `total`, and is cached.
    pub fn distribute(&mut self, total: usize) -> (r: Result<Vec<usize>, Error>)
        ensures
            final(self).children == old(self).children,
            old(self).infeasible(total as int) ==> r == Err::<Vec<usize>, Error>(Error::Infeasible)
                && *final(self) == *old(self),
            !old(self).infeasible(total as int) ==> {
                &&& r matches Ok(v) && v@ == old(self).counts_for(total as int)
                &&& final(self).cache matches Some(c) && c@ == old(self).counts_for(total as int)
                &&& (old(self).cache is Some ==> *final(self) == *old(self))
            },
    {
        let ghost szs = self.spec_sizes();
        match &self.cache {
            Some(sizes) => {
                let r = sizes.clone();
                proof {
                    assert(r@ =~= old(self).counts_for(total as int));
                }
                Ok(r)
            },
            None => {
                let n = self.children.len();
                // First pass: the fixed sum, the weight sum, and the last
                // proportional entry.
                let mut fixed: usize = 0;
                let mut weights: u128 = 0;
                let mut last_prop: Option<usize> = None;
                let mut i: usize = 0;
                while i < n
                    invariant
                        n == self.children@.len(),
                        szs == self.spec_sizes(),
                        szs.len() == n,
                        *self == *old(self),
                        self.cache is None,
                        i <= n,
                        fixed == fixed_before(szs, i as int),
                        weights == weight_before(szs, i as int),
                        weights <= (i as int) * 0xffff_ffff,
                        match last_prop {
                            None => forall|m: int|
                                0 <= m < i ==> !((#[trigger] szs[m]) is Proportional),
                            Some(j) => j < i && szs[j as int] is Proportional && (forall|m: int|
                                j < m < i ==> !((#[trigger] szs[m]) is Proportional)),
                        },
                    decreases n - i,
                {
                    match self.children[i].0 {
                        IterationSize::Count(c) => {
                            fixed = match fixed.checked_add(c) {
                                Some(s) => s,
                                None => {
                                    proof {
                                        assert(szs[i as int] == self.children@[i as int].0);
                                        assert(fixed_before(szs, i as int + 1) == fixed
                                            + count_of(szs[i as int]));
                                        crate::distribution::lemma_fixed_before_mono(
                                            szs,
                                            i as int + 1,
                                            n as int,
                                        );
                                        assert(fixed_sum(szs) > total);
                                    }
                                    return Err(Error::Infeasible);
                                },
                            };
                        },
                        IterationSize::Proportional(w) => {
                            proof {
                                assert((i as int) * 0xffff_ffff + 0xffff_ffff == ((i as int) + 1)
                                    * 0xffff_ffff) by (nonlinear_arith);
                                assert((n as int) * 0xffff_ffff < 0x1_0000_0000_0000_0000_0000_0000)
                                    by (nonlinear_arith)
                                    requires
                                        n <= usize::MAX,
                                {}
                                assert(((i as int) + 1) * 0xffff_ffff <= (n as int) * 0xffff_ffff)
                                    by (nonlinear_arith)
                                    requires
                                        i < n,
                                {}
                            }
                            weights = weights + (w as u128);
                            last_prop = Some(i);
                        },
                    }
                    i += 1;
                }
                if fixed > total {
                    return Err(Error::Infeasible);
                }
                let remaining_space = total - fixed;
                proof {
                    match last_prop {
                        None => crate::distribution::lemma_no_proportional(szs),
                        Some(j) => crate::distribution::lemma_last_proportional_is(
                            szs,
                            j as int,
                        ),
                    }
                }
                // Second pass: assign each entry its count.
                let mut result: Vec<usize> = Vec::new();
                let mut distributed: usize = 0;
                let mut k: usize = 0;
                while k < n
                    invariant
                        n == self.children@.len(),
                        szs == self.spec_sizes(),
                        szs.len() == n,
                        *self == *old(self),
                        self.cache is None,
                        k <= n,
                        fixed == fixed_sum(szs),
                        fixed <= total,
                        remaining_space == remaining(szs, total as int),
                        weights == weight_sum(szs),
                        match last_prop {
                            None => last_proportional(szs) == -1,
                            Some(j) => last_proportional(szs) == j,
                        },
                        result@.len() == k,
                        forall|m: int|
                            0 <= m < k ==> #[trigger] result@[m] == count_at(szs, total as int, m),
                        distributed == shares_before(szs, total as int, k as int),
                    decreases n - k,
                {
                    let ghost gk = k as int;
                    proof {
                        lemma_count_at_bounds(szs, total as int, gk);
                        crate::distribution::lemma_shares_before_le_remaining(
                            szs,
                            total as int,
                            gk + 1,
                        );
                        crate::distribution::lemma_shares_before_le_remaining(
                            szs,
                            total as int,
                            gk,
                        );
                    }
                    let c: usize = match self.children[k].0 {
                        IterationSize::Count(c) => c,
                        IterationSize::Proportional(w) => {
                            let is_last = match last_prop {
                                Some(j) => j == k,
                                None => false,
                            };
                            if is_last {
                                proof {
                                    crate::distribution::lemma_last_proportional_props(szs);
                                    crate::distribution::lemma_shares_before_stable(
                                        szs,
                                        total as int,
                                        gk,
                                        n as int,
                                    );
                                }
                                remaining_space - distributed
                            } else {
                                if weights == 0 {
                                    0
                                } else {
                                    proof {
                                        assert((remaining_space as int) * (w as int)
                                            < 0x1_0000_0000_0000_0000_0000_0000_0000_0000)
                                            by (nonlinear_arith)
                                            requires
                                                remaining_space <= 0xffff_ffff_ffff_ffff,
                                                w <= 0xffff_ffff,
                                        {}
                                    }
                                    let share128 = (remaining_space as u128) * (w as u128)
                                        / weights;
                                    let s = share128 as usize;
                                    distributed = distributed + s;
                                    s
                                }
                            }
                        },
                    };
                    result.push(c);
                    k += 1;
                }
                let stored = result.clone();
                self.cache = Some(stored);
                proof {
                    assert(result@ =~= old(self).counts_for(total as int));
                }
                Ok(result)
            },
        }
    }
}


impl<T, I> SlicedIteration<T, I> where T: Sliced + Clone, I: Iteration<T> {
    /// What every call that distributes a range promises about the
    /// composite's own state: the counts are cached and the declared sizes
    /// are untouched.
    pub open spec fn ranged_call_frame(pre: Self, post: Self, total: int) -> bool {
        &&& post.cache matches Some(c) && c@ == pre.counts_for(total)
        &&& post.children@.len() == pre.children@.len()
        &&& forall|i: int|
            0 <= i < pre.children@.len() ==> (#[trigger] post.children@[i]).0
                == pre.children@[i].0
    }

    /// What every call that leaves the distribution alone promises: cache,
    /// child count and declared sizes are untouched.
    pub open spec fn plain_call_frame(pre: Self, post: Self) -> bool {
        &&& post.cache == pre.cache
        &&& post.children@.len() == pre.children@.len()
        &&& forall|i: int|
            0 <= i < pre.children@.len() ==> (#[trigger] post.children@[i]).0
                == pre.children@[i].0
    }

    /// Builds the per-child parameter clones: child `i` receives the
    /// contiguous sub-range of `counts[i]` indices that starts where child
    /// `i - 1`'s sub-range ends, the first one starting at `start`.  Fails
    /// exactly when the running end would overflow the address space.
    fn build_child_params(params: &T, counts: &Vec<usize>, start: usize) -> (r: Result<
        Vec<T>,
        Error,
    >)
        requires
            start == params.spec_start(),
        ensures
            match r {
                Ok(v) => {
                    &&& params.spec_start() + counts_prefix(counts@, counts@.len() as int)
                        <= usize::MAX
                    &&& v@.len() == counts@.len()
                    &&& forall|k: int|
                        0 <= k < counts@.len() ==> reranged::<T>(
                            *params,
                            #[trigger] v@[k],
                            params.spec_start() + counts_prefix(counts@, k),
                            params.spec_start() + counts_prefix(counts@, k + 1),
                        )
                },
                Err(e) => {
                    &&& e == Error::Overflow
                    &&& params.spec_start() + counts_prefix(counts@, counts@.len() as int)
                        > usize::MAX
                },
            },
    {
        let n = counts.len();
        let mut result: Vec<T> = Vec::new();
        let mut prev: usize = start;
        let mut i: usize = 0;
        while i < n
            invariant
                n == counts@.len(),
                i <= n,
                result@.len() == i,
                start == params.spec_start(),
                prev == params.spec_start() + counts_prefix(counts@, i as int),
                forall|k: int|
                    0 <= k < i ==> reranged::<T>(
                        *params,
                        #[trigger] result@[k],
                        params.spec_start() + counts_prefix(counts@, k),
                        params.spec_start() + counts_prefix(counts@, k + 1),
                    ),
            decreases n - i,
        {
            let c = counts[i];
            proof {
                assert(counts_prefix(counts@, i as int + 1) == counts_prefix(counts@, i as int)
                    + c);
            }
            let end = match prev.checked_add(c) {
                Some(e) => e,
                None => {
                    proof {
                        lemma_counts_prefix_mono(counts@, i as int + 1, n as int);
                    }
                    return Err(Error::Overflow);
                },
            };
            let mut p = params.clone();
            let ghost p0 = p;
            p.set_range(prev..end);
            proof {
                assert(cloned::<T>(*params, p0));
                assert(reranged::<T>(*params, p, prev as int, end as int));
            }
            result.push(p);
            prev = end;
            i += 1;
        }
        Ok(result)
    }
}

impl<T, I> Iteration<T> for SlicedIteration<T, I> where T: Sliced + Clone, I: Iteration<T> {
    open spec fn bind_ens(pre: Self, post: Self, params: T, r: Result<(), Error>) -> bool {
        let total = spec_total::<T>(params);
        let start = params.spec_start();
        let counts = pre.counts_for(total);
        if pre.infeasible(total) {
            r == Err::<(), Error>(Error::Infeasible) && post == pre
        } else {
            &&& Self::ranged_call_frame(pre, post, total)
            &&& (counts.len() == pre.children@.len() ==> (if start + counts_prefix(
                counts,
                counts.len() as int,
            ) > usize::MAX {
                &&& r == Err::<(), Error>(Error::Overflow)
                &&& forall|i: int|
                    0 <= i < pre.children@.len() ==> (#[trigger] post.children@[i]).1
                        == pre.children@[i].1
            } else {
                children_rebound::<T, I>(pre.children@, post.children@, params, start, counts, r)
            }))
        }
    }

    open spec fn evaluate_ens(pre: Self, post: Self, r: Result<(), Error>) -> bool {
        &&& Self::plain_call_frame(pre, post)
        &&& children_evaluated::<T, I>(pre.children@, post.children@, r)
    }

    open spec fn evaluate_async_ens(
        pre: Self,
        post: Self,
        r: Result<Vec<wgpu::CommandBuffer>, Error>,
    ) -> bool {
        &&& Self::plain_call_frame(pre, post)
        &&& children_evaluated_async::<T, I>(pre.children@, post.children@, r)
    }

    open spec fn evaluate_with_params_ens(
        pre: Self,
        post: Self,
        params: T,
        r: Result<(), Error>,
    ) -> bool {
        let total = spec_total::<T>(params);
        let start = params.spec_start();
        let counts = pre.counts_for(total);
        if pre.infeasible(total) {
            r == Err::<(), Error>(Error::Infeasible) && post == pre
        } else {
            &&& Self::ranged_call_frame(pre, post, total)
            &&& (counts.len() == pre.children@.len() ==> (if start + counts_prefix(
                counts,
                counts.len() as int,
            ) > usize::MAX {
                &&& r == Err::<(), Error>(Error::Overflow)
                &&& forall|i: int|
                    0 <= i < pre.children@.len() ==> (#[trigger] post.children@[i]).1
                        == pre.children@[i].1
            } else {
                children_reevaluated::<T, I>(
                    pre.children@,
                    post.children@,
                    params,
                    start,
                    counts,
                    r,
                )
            }))
        }
    }

    open spec fn evaluate_with_params_async_ens(
        pre: Self,
        post: Self,
        params: T,
        r: Result<Vec<wgpu::CommandBuffer>, Error>,
    ) -> bool {
        let total = spec_total::<T>(params);
        let start = params.spec_start();
        let counts = pre.counts_for(total);
        if pre.infeasible(total) {
            r == Err::<Vec<wgpu::CommandBuffer>, Error>(Error::Infeasible) && post == pre
        } else {
            &&& Self::ranged_call_frame(pre, post, total)
            &&& (counts.len() == pre.children@.len() ==> (if start + counts_prefix(
                counts,
                counts.len() as int,
            ) > usize::MAX {
                &&& r == Err::<Vec<wgpu::CommandBuffer>, Error>(Error::Overflow)
                &&& forall|i: int|
                    0 <= i < pre.children@.len() ==> (#[trigger] post.children@[i]).1
                        == pre.children@[i].1
            } else {
                children_reevaluated_async::<T, I>(
                    pre.children@,
                    post.children@,
                    params,
                    start,
                    counts,
                    r,
                )
            }))
        }
    }

    fn bind(&mut self, params: &T) -> (r: Result<(), Error>) {
        let ghost pre = *self;
        let range = params.range();
        let total = if range.end >= range.start {
            range.end - range.start
        } else {
            0
        };
        proof {
            assert(total as int == spec_total::<T>(*params));
        }
        let counts = match self.distribute(total) {
            Ok(c) => c,
            Err(e) => {
                return Err(e);
            },
        };
        if counts.len() != self.children.len() {
            return Ok(());
        }
        let child_params = match Self::build_child_params(params, &counts, range.start) {
            Ok(v) => v,
            Err(e) => {
                return Err(e);
            },
        };
        let n = self.children.len();
        let ghost mid = *self;
        let mut i: usize = 0;
        while i < n
            invariant
                pre == *old(self),
                n == self.children@.len(),
                n == pre.children@.len(),
                counts@.len() == n,
                child_params@.len() == n,
                counts@ == pre.counts_for(spec_total::<T>(*params)),
                !pre.infeasible(spec_total::<T>(*params)),
                params.spec_start() + counts_prefix(counts@, counts@.len() as int) <= usize::MAX,
                i <= n,
                self.cache == mid.cache,
                mid.cache matches Some(c) && c@ == counts@,
                mid.children@ == pre.children@,
                forall|k: int| i <= k < n ==> self.children@[k] == pre.children@[k],
                forall|k: int|
                    0 <= k < i ==> (#[trigger] self.children@[k]).0 == pre.children@[k].0,
                forall|k: int|
                    0 <= k < i ==> #[trigger] child_rebound::<T, I>(
                        pre.children@[k].1,
                        self.children@[k].1,
                        *params,
                        params.spec_start() + counts_prefix(counts@, k),
                        counts@[k] as int,
                        Ok(()),
                    ),
                forall|k: int|
                    0 <= k < n ==> reranged::<T>(
                        *params,
                        #[trigger] child_params@[k],
                        params.spec_start() + counts_prefix(counts@, k),
                        params.spec_start() + counts_prefix(counts@, k + 1),
                    ),
            decreases n - i,
        {
            let ghost pre_child = self.children@[i as int].1;
            let cr = self.children[i].1.bind(&child_params[i]);
            proof {
                assert(counts_prefix(counts@, i as int + 1) == counts_prefix(counts@, i as int)
                    + counts@[i as int]);
            }
            match cr {
                Ok(()) => {
                    proof {
                        assert(cr->Ok_0 == ());
                        assert(cr == Ok::<(), Error>(()));
                        assert(reranged::<T>(
                            *params,
                            child_params@[i as int],
                            params.spec_start() + counts_prefix(counts@, i as int),
                            params.spec_start() + counts_prefix(counts@, i as int) + counts@[i as int],
                        ));
                        assert(I::bind_ens(
                            pre_child,
                            self.children@[i as int].1,
                            child_params@[i as int],
                            Ok(()),
                        ));
                        assert(child_rebound::<T, I>(
                            pre_child,
                            self.children@[i as int].1,
                            *params,
                            params.spec_start() + counts_prefix(counts@, i as int),
                            counts@[i as int] as int,
                            Ok(()),
                        ));
                    }
                    i += 1;
                },
                Err(e) => {
                    proof {
                        assert(reranged::<T>(
                            *params,
                            child_params@[i as int],
                            params.spec_start() + counts_prefix(counts@, i as int),
                            params.spec_start() + counts_prefix(counts@, i as int) + counts@[i as int],
                        ));
                        assert(I::bind_ens(
                            pre.children@[i as int].1,
                            self.children@[i as int].1,
                            child_params@[i as int],
                            Err(e),
                        ));
                        assert(child_rebound::<T, I>(
                            pre.children@[i as int].1,
                            self.children@[i as int].1,
                            *params,
                            params.spec_start() + counts_prefix(counts@, i as int),
                            counts@[i as int] as int,
                            Err(e),
                        ));
                    }
                    return Err(e);
                },
            }
        }
        Ok(())
    }

    fn evaluate(&mut self) -> (r: Result<(), Error>) {
        let ghost pre = *self;
        let n = self.children.len();
        let mut i: usize = 0;
        while i < n
            invariant
                pre == *old(self),
                n == self.children@.len(),
                n == pre.children@.len(),
                i <= n,
                self.cache == pre.cache,
                forall|k: int| i <= k < n ==> self.children@[k] == pre.children@[k],
                forall|k: int|
                    0 <= k < i ==> (#[trigger] self.children@[k]).0 == pre.children@[k].0,
                forall|k: int|
                    0 <= k < i ==> #[trigger] I::evaluate_ens(
                        pre.children@[k].1,
                        self.children@[k].1,
                        Ok(()),
                    ),
            decreases n - i,
        {
            let ghost pre_child = self.children@[i as int].1;
            let cr = self.children[i].1.evaluate();
            match cr {
                Ok(()) => {
                    proof {
                        assert(cr->Ok_0 == ());
                        assert(cr == Ok::<(), Error>(()));
                        assert(I::evaluate_ens(pre_child, self.children@[i as int].1, Ok(())));
                    }
                    i += 1;
                },
                Err(e) => {
                    proof {
                        assert(I::evaluate_ens(pre_child, self.children@[i as int].1, Err(e)));
                        assert(children_evaluated::<T, I>(pre.children@, self.children@, Err(e)));
                    }
                    return Err(e);
                },
            }
        }
        Ok(())
    }

    fn evaluate_async(&mut self) -> (r: Result<Vec<wgpu::CommandBuffer>, Error>) {
        let ghost pre = *self;
        let n = self.children.len();
        let mut result: Vec<wgpu::CommandBuffer> = Vec::new();
        let ghost mut outs: Seq<Vec<wgpu::CommandBuffer>> = Seq::empty();
        let mut i: usize = 0;
        while i < n
            invariant
                pre == *old(self),
                n == self.children@.len(),
                n == pre.children@.len(),
                i <= n,
                self.cache == pre.cache,
                outs.len() == i,
                result@ == flatten_views(outs),
                forall|k: int| i <= k < n ==> self.children@[k] == pre.children@[k],
                forall|k: int|
                    0 <= k < i ==> (#[trigger] self.children@[k]).0 == pre.children@[k].0,
                forall|k: int|
                    0 <= k < i ==> #[trigger] I::evaluate_async_ens(
                        pre.children@[k].1,
                        self.children@[k].1,
                        Ok(outs[k]),
                    ),
            decreases n - i,
        {
            let ghost pre_child = self.children@[i as int].1;
            let cr = self.children[i].1.evaluate_async();
            match cr {
                Ok(mut v) => {
                    let ghost gv = v;
                    let ghost outs0 = outs;
                    result.append(&mut v);
                    proof {
                        outs = outs0.push(gv);
                        assert(outs.drop_last() =~= outs0);
                        assert(result@ == flatten_views(outs));
                    }
                    i += 1;
                },
                Err(e) => {
                    proof {
                        assert forall|k: int| 0 <= k < i implies #[trigger] child_evaluated_async_ok::<
                            T,
                            I,
                        >(pre.children@[k].1, self.children@[k].1) by {
                            assert(I::evaluate_async_ens(
                                pre.children@[k].1,
                                self.children@[k].1,
                                Ok(outs[k]),
                            ));
                        }
                        assert(I::evaluate_async_ens(pre_child, self.children@[i as int].1, Err(e)));
                        assert(children_evaluated_async::<T, I>(pre.children@, self.children@, Err(e)));
                    }
                    return Err(e);
                },
            }
        }
        proof {
            assert(children_evaluated_async::<T, I>(pre.children@, self.children@, Ok(result)));
        }
        Ok(result)
    }

    fn evaluate_with_params(&mut self, params: &T) -> (r: Result<(), Error>) {
        let ghost pre = *self;
        let range = params.range();
        let total = if range.end >= range.start {
            range.end - range.start
        } else {
            0
        };
        proof {
            assert(total as int == spec_total::<T>(*params));
        }
        let counts = match self.distribute(total) {
            Ok(c) => c,
            Err(e) => {
                return Err(e);
            },
        };
        if counts.len() != self.children.len() {
            return Ok(());
        }
        let child_params = match Self::build_child_params(params, &counts, range.start) {
            Ok(v) => v,
            Err(e) => {
                return Err(e);
            },
        };
        let n = self.children.len();
        let ghost mid = *self;
        let mut i: usize = 0;
        while i < n
            invariant
                pre == *old(self),
                n == self.children@.len(),
                n == pre.children@.len(),
                counts@.len() == n,
                child_params@.len() == n,
                counts@ == pre.counts_for(spec_total::<T>(*params)),
                !pre.infeasible(spec_total::<T>(*params)),
                params.spec_start() + counts_prefix(counts@, counts@.len() as int) <= usize::MAX,
                i <= n,
                self.cache == mid.cache,
                mid.cache matches Some(c) && c@ == counts@,
                mid.children@ == pre.children@,
                forall|k: int| i <= k < n ==> self.children@[k] == pre.children@[k],
                forall|k: int|
                    0 <= k < i ==> (#[trigger] self.children@[k]).0 == pre.children@[k].0,
                forall|k: int|
                    0 <= k < i ==> #[trigger] child_reevaluated::<T, I>(
                        pre.children@[k].1,
                        self.children@[k].1,
                        *params,
                        params.spec_start() + counts_prefix(counts@, k),
                        counts@[k] as int,
                        Ok(()),
                    ),
                forall|k: int|
                    0 <= k < n ==> reranged::<T>(
                        *params,
                        #[trigger] child_params@[k],
                        params.spec_start() + counts_prefix(counts@, k),
                        params.spec_start() + counts_prefix(counts@, k + 1),
                    ),
            decreases n - i,
        {
            let ghost pre_child = self.children@[i as int].1;
            let cr = self.children[i].1.evaluate_with_params(&child_params[i]);
            proof {
                assert(counts_prefix(counts@, i as int + 1) == counts_prefix(counts@, i as int)
                    + counts@[i as int]);
            }
            match cr {
                Ok(()) => {
                    proof {
                        assert(cr->Ok_0 == ());
                        assert(cr == Ok::<(), Error>(()));
                        assert(reranged::<T>(
                            *params,
                            child_params@[i as int],
                            params.spec_start() + counts_prefix(counts@, i as int),
                            params.spec_start() + counts_prefix(counts@, i as int) + counts@[i as int],
                        ));
                        assert(I::evaluate_with_params_ens(
                            pre_child,
                            self.children@[i as int].1,
                            child_params@[i as int],
                            Ok(()),
                        ));
                        assert(child_reevaluated::<T, I>(
                            pre_child,
                            self.children@[i as int].1,
                            *params,
                            params.spec_start() + counts_prefix(counts@, i as int),
                            counts@[i as int] as int,
                            Ok(()),
                        ));
                    }
                    i += 1;
                },
                Err(e) => {
                    proof {
                        assert(reranged::<T>(
                            *params,
                            child_params@[i as int],
                            params.spec_start() + counts_prefix(counts@, i as int),
                            params.spec_start() + counts_prefix(counts@, i as int) + counts@[i as int],
                        ));
                        assert(I::evaluate_with_params_ens(
                            pre.children@[i as int].1,
                            self.children@[i as int].1,
                            child_params@[i as int],
                            Err(e),
                        ));
                        assert(child_reevaluated::<T, I>(
                            pre.children@[i as int].1,
                            self.children@[i as int].1,
                            *params,
                            params.spec_start() + counts_prefix(counts@, i as int),
                            counts@[i as int] as int,
                            Err(e),
                        ));
                    }
                    return Err(e);
                },
            }
        }
        Ok(())
    }

    fn evaluate_with_params_async(&mut self, params: &T) -> (r: Result<
        Vec<wgpu::CommandBuffer>,
        Error,
    >) {
        let ghost pre = *self;
        let range = params.range();
        let total = if range.end >= range.start {
            range.end - range.start
        } else {
            0
        };
        proof {
            assert(total as int == spec_total::<T>(*params));
        }
        let counts = match self.distribute(total) {
            Ok(c) => c,
            Err(e) => {
                return Err(e);
            },
        };
        if counts.len() != self.children.len() {
            return Ok(Vec::new());
        }
        let child_params = match Self::build_child_params(params, &counts, range.start) {
            Ok(v) => v,
            Err(e) => {
                return Err(e);
            },
        };
        let n = self.children.len();
        let ghost mid = *self;
        let mut result: Vec<wgpu::CommandBuffer> = Vec::new();
        let ghost mut outs: Seq<Vec<wgpu::CommandBuffer>> = Seq::empty();
        let mut i: usize = 0;
        while i < n
            invariant
                pre == *old(self),
                n == self.children@.len(),
                n == pre.children@.len(),
                counts@.len() == n,
                child_params@.len() == n,
                counts@ == pre.counts_for(spec_total::<T>(*params)),
                !pre.infeasible(spec_total::<T>(*params)),
                params.spec_start() + counts_prefix(counts@, counts@.len() as int) <= usize::MAX,
                i <= n,
                self.cache == mid.cache,
                mid.cache matches Some(c) && c@ == counts@,
                mid.children@ == pre.children@,
                outs.len() == i,
                result@ == flatten_views(outs),
                forall|k: int| i <= k < n ==> self.children@[k] == pre.children@[k],
                forall|k: int|
                    0 <= k < i ==> (#[trigger] self.children@[k]).0 == pre.children@[k].0,
                forall|k: int|
                    0 <= k < i ==> #[trigger] child_reevaluated_async::<T, I>(
                        pre.children@[k].1,
                        self.children@[k].1,
                        *params,
                        params.spec_start() + counts_prefix(counts@, k),
                        counts@[k] as int,
                        Ok(outs[k]),
                    ),
                forall|k: int|
                    0 <= k < n ==> reranged::<T>(
                        *params,
                        #[trigger] child_params@[k],
                        params.spec_start() + counts_prefix(counts@, k),
                        params.spec_start() + counts_prefix(counts@, k + 1),
                    ),
            decreases n - i,
        {
            let ghost pre_child = self.children@[i as int].1;
            let cr = self.children[i].1.evaluate_with_params_async(&child_params[i]);
            proof {
                assert(counts_prefix(counts@, i as int + 1) == counts_prefix(counts@, i as int)
                    + counts@[i as int]);
            }
            match cr {
                Ok(mut v) => {
                    let ghost gv = v;
                    let ghost outs0 = outs;
                    result.append(&mut v);
                    proof {
                        outs = outs0.push(gv);
                        assert(outs.drop_last() =~= outs0);
                        assert(result@ == flatten_views(outs));
                        assert(reranged::<T>(
                            *params,
                            child_params@[i as int],
                            params.spec_start() + counts_prefix(counts@, i as int),
                            params.spec_start() + counts_prefix(counts@, i as int) + counts@[i as int],
                        ));
                        assert(I::evaluate_with_params_async_ens(
                            pre_child,
                            self.children@[i as int].1,
                            child_params@[i as int],
                            Ok(gv),
                        ));
                        assert(child_reevaluated_async::<T, I>(
                            pre_child,
                            self.children@[i as int].1,
                            *params,
                            params.spec_start() + counts_prefix(counts@, i as int),
                            counts@[i as int] as int,
                            Ok(gv),
                        ));
                    }
                    i += 1;
                },
                Err(e) => {
                    proof {
                        assert(reranged::<T>(
                            *params,
                            child_params@[i as int],
                            params.spec_start() + counts_prefix(counts@, i as int),
                            params.spec_start() + counts_prefix(counts@, i as int) + counts@[i as int],
                        ));
                        assert(I::evaluate_with_params_async_ens(
                            pre.children@[i as int].1,
                            self.children@[i as int].1,
                            child_params@[i as int],
                            Err(e),
                        ));
                        assert(child_reevaluated_async::<T, I>(
                            pre.children@[i as int].1,
                            self.children@[i as int].1,
                            *params,
                            params.spec_start() + counts_prefix(counts@, i as int),
                            counts@[i as int] as int,
                            Err(e),
                        ));
                        assert forall|k: int| 0 <= k < i implies #[trigger] child_issued_async::<
                            T,
                            I,
                        >(
                            pre.children@[k].1,
                            self.children@[k].1,
                            *params,
                            params.spec_start() + counts_prefix(counts@, k),
                            counts@[k] as int,
                        ) by {
                            assert(child_reevaluated_async::<T, I>(
                                pre.children@[k].1,
                                self.children@[k].1,
                                *params,
                                params.spec_start() + counts_prefix(counts@, k),
                                counts@[k] as int,
                                Ok(outs[k]),
                            ));
                        }
                    }
                    return Err(e);
                },
            }
        }
        proof {
            assert(children_reevaluated_async::<T, I>(
                pre.children@,
                self.children@,
                *params,
                params.spec_start(),
                counts@,
                Ok(result),
            ));
        }
        Ok(result)
    }
}


/// The running totals and the assigned counts agree entry by entry, so the
/// sum of the counts is the distributed total.
proof fn lemma_counts_prefix_matches(
    sizes: Seq<IterationSize>,
    total: int,
    counts: Seq<usize>,
    k: int,
)
    requires
        is_distribution(sizes, total, counts),
        0 <= k <= counts.len(),
    ensures
        counts_prefix(counts, k) == counts_before(sizes, total, k),
    decreases k,
{
    if k > 0 {
        lemma_counts_prefix_matches(sizes, total, counts, k - 1);
    }
}

/// Range partition: cutting a parent range of `total` indices starting at
/// `start` into consecutive pieces of the distributed counts yields child
/// sub-ranges that are contiguous in child list order — each starts where
/// the one before it ends — and non-overlapping: the pieces start at
/// `start` and their ends never step back.  Together they are exactly the
/// parent range whenever some entry is proportional; with only fixed
/// entries they end at `start` plus the fixed sum, the leftover staying
/// unassigned.
pub proof fn lemma_range_partition(
    sizes: Seq<IterationSize>,
    total: int,
    counts: Seq<usize>,
    start: int,
)
    requires
        is_distribution(sizes, total, counts),
        fixed_sum(sizes) <= total,
    ensures
        counts_prefix(counts, 0) == 0,
        forall|i: int|
            0 <= i < counts.len() ==> #[trigger] counts_prefix(counts, i + 1) == counts_prefix(
                counts,
                i,
            ) + counts[i],
        forall|i: int, j: int|
            0 <= i <= j <= counts.len() ==> counts_prefix(counts, i) <= counts_prefix(counts, j),
        start + counts_prefix(counts, counts.len() as int) == start + if has_proportional(sizes) {
            total
        } else {
            fixed_sum(sizes)
        },
{
    assert forall|i: int, j: int|
        0 <= i <= j <= counts.len() implies counts_prefix(counts, i) <= counts_prefix(
        counts,
        j,
    ) by {
        lemma_counts_prefix_mono(counts, i, j);
    }
    lemma_counts_prefix_matches(sizes, total, counts, counts.len() as int);
    if has_proportional(sizes) {
        lemma_distribution_exact(sizes, total);
    } else {
        crate::distribution::lemma_distribution_all_fixed(sizes, total);
    }
}


/// A freshly computed distribution is exactly the distribution of `total`
/// over the declared sizes: every stored count is the assigned count.
pub proof fn lemma_counts_for_distribution<T, I>(it: SlicedIteration<T, I>, total: int) where
    T: Sliced + Clone,
    I: Iteration<T>,

    requires
        it.cache is None,
        fixed_sum(it.spec_sizes()) <= total,
        0 <= total <= usize::MAX,
    ensures
        is_distribution(it.spec_sizes(), total, it.counts_for(total)),
{
    let szs = it.spec_sizes();
    let counts = it.counts_for(total);
    assert forall|i: int| 0 <= i < szs.len() implies counts[i] == count_at(szs, total, i) by {
        crate::distribution::lemma_fixed_before_mono(szs, 0, szs.len() as int);
        lemma_count_at_bounds(szs, total, i);
    }
}

} // verus!



