use vstd::prelude::*;

use crate::error::Error;
use crate::gpu;
use crate::iteration::{flatten_views, Iteration};
use crate::wgpu_context::WgpuContext;

use core::marker::PhantomData;

verus! {

/// Child `pre` had its deferred work issued successfully with some command
/// buffers, which the surrounding call dropped or submitted itself.
pub open spec fn member_issued_async<T, I: Iteration<T>>(pre: I, post: I) -> bool {
    exists|out: Vec<wgpu::CommandBuffer>| #[trigger] I::evaluate_async_ens(pre, post, Ok(out))
}

/// As `member_issued_async`, for the one-shot form with the shared
/// parameters.
pub open spec fn member_issued_with_params_async<T, I: Iteration<T>>(
    pre: I,
    post: I,
    params: T,
) -> bool {
    exists|out: Vec<wgpu::CommandBuffer>|
        #[trigger] I::evaluate_with_params_async_ens(pre, post, params, Ok(out))
}

/// A composite that runs several iterations over the same data: every
/// child receives the identical parameters, deferred work from all children
/// is collected together, and the synchronous forms submit the collected
/// work and then wait until the device has finished everything submitted;
/// the deferred forms collect without submitting or blocking.
pub struct CombinedIteration<T, I> where T: Clone, I: Iteration<T> {
    /// The children, all bound to the same parameters.
    pub iterations: Vec<I>,
    /// The context whose device the synchronous forms wait on.
    pub context: WgpuContext,
    /// The command buffers the last synchronous call handed to the queue
    /// before its completion wait; empty before any.
    pub submitted: Ghost<Seq<wgpu::CommandBuffer>>,
    /// The parameter type the children work on.
    pub params: PhantomData<T>,
}

impl<T, I> CombinedIteration<T, I> where T: Clone, I: Iteration<T> {
    /// Creates a composite with no children.
    pub fn new(context: &WgpuContext) -> (r: Self)
        ensures
            r.iterations@.len() == 0,
            r.context == *context,
            r.submitted@ == Seq::<wgpu::CommandBuffer>::empty(),
    {
        CombinedIteration {
            iterations: Vec::new(),
            context: context.clone(),
            submitted: Ghost(Seq::empty()),
            params: PhantomData,
        }
    }

    /// Adds a child.
    pub fn add(self, iteration: I) -> (r: Self)
        ensures
            r.iterations@ == self.iterations@.push(iteration),
            r.context == self.context,
            r.submitted == self.submitted,
    {
        let mut iterations = self.iterations;
        iterations.push(iteration);
        CombinedIteration {
            iterations,
            context: self.context,
            submitted: self.submitted,
            params: PhantomData,
        }
    }

    /// Removes the child at the given position.
    pub fn remove(self, index: usize) -> (r: Self)
        requires
            index < self.iterations@.len(),
        ensures
            r.iterations@ == self.iterations@.remove(index as int),
            r.context == self.context,
            r.submitted == self.submitted,
    {
        let mut iterations = self.iterations;
        iterations.remove(index);
        CombinedIteration {
            iterations,
            context: self.context,
            submitted: self.submitted,
            params: PhantomData,
        }
    }

    /// Removes every child.
    pub fn clear(self) -> (r: Self)
        ensures
            r.iterations@.len() == 0,
            r.context == self.context,
            r.submitted == self.submitted,
    {
        CombinedIteration {
            iterations: Vec::new(),
            context: self.context,
            submitted: self.submitted,
            params: PhantomData,
        }
    }

    /// Replaces the whole child list.
    pub fn set(&mut self, iterations: Vec<I>)
        ensures
            final(self).iterations == iterations,
            final(self).context == old(self).context,
            final(self).submitted == old(self).submitted,
    {
        self.iterations = iterations;
    }

    /// What the fan-out of `evaluate_async` promises of the children: on
    /// success every child issued its work and the returned buffers are
    /// theirs concatenated in list order; an error is a child's, with the
    /// earlier children issued and the later ones untouched.
    pub open spec fn fan_out_async(
        pre: Self,
        post: Self,
        r: Result<Vec<wgpu::CommandBuffer>, Error>,
    ) -> bool {
        &&& post.iterations@.len() == pre.iterations@.len()
        &&& match r {
            Ok(v) => exists|outs: Seq<Vec<wgpu::CommandBuffer>>|
                #![trigger flatten_views(outs)]
                {
                    &&& outs.len() == pre.iterations@.len()
                    &&& forall|i: int|
                        0 <= i < pre.iterations@.len() ==> #[trigger] I::evaluate_async_ens(
                            pre.iterations@[i],
                            post.iterations@[i],
                            Ok(outs[i]),
                        )
                    &&& v@ == flatten_views(outs)
                },
            Err(e) => exists|j: int|
                {
                    &&& 0 <= j < pre.iterations@.len()
                    &&& I::evaluate_async_ens(pre.iterations@[j], post.iterations@[j], Err(e))
                    &&& forall|i: int|
                        0 <= i < j ==> #[trigger] member_issued_async::<T, I>(
                            pre.iterations@[i],
                            post.iterations@[i],
                        )
                    &&& forall|i: int|
                        j < i < pre.iterations@.len() ==> (#[trigger] post.iterations@[i])
                            == pre.iterations@[i]
                },
        }
    }

    /// As `fan_out_async`, for the one-shot forms carrying `params`.
    pub open spec fn fan_out_with_params_async(
        pre: Self,
        post: Self,
        params: T,
        r: Result<Vec<wgpu::CommandBuffer>, Error>,
    ) -> bool {
        &&& post.iterations@.len() == pre.iterations@.len()
        &&& match r {
            Ok(v) => exists|outs: Seq<Vec<wgpu::CommandBuffer>>|
                #![trigger flatten_views(outs)]
                {
                    &&& outs.len() == pre.iterations@.len()
                    &&& forall|i: int|
                        0 <= i < pre.iterations@.len()
                            ==> #[trigger] I::evaluate_with_params_async_ens(
                            pre.iterations@[i],
                            post.iterations@[i],
                            params,
                            Ok(outs[i]),
                        )
                    &&& v@ == flatten_views(outs)
                },
            Err(e) => exists|j: int|
                {
                    &&& 0 <= j < pre.iterations@.len()
                    &&& I::evaluate_with_params_async_ens(
                        pre.iterations@[j],
                        post.iterations@[j],
                        params,
                        Err(e),
                    )
                    &&& forall|i: int|
                        0 <= i < j ==> #[trigger] member_issued_with_params_async::<T, I>(
                            pre.iterations@[i],
                            post.iterations@[i],
                            params,
                        )
                    &&& forall|i: int|
                        j < i < pre.iterations@.len() ==> (#[trigger] post.iterations@[i])
                            == pre.iterations@[i]
                },
        }
    }

    /// Issues every child's deferred work in list order and returns the
    /// collected command buffers without submitting them or blocking.
    fn collect_async(&mut self) -> (r: Result<Vec<wgpu::CommandBuffer>, Error>)
        ensures
            final(self).context == old(self).context,
            final(self).submitted == old(self).submitted,
            Self::fan_out_async(*old(self), *final(self), r),
    {
        let ghost pre = *self;
        let n = self.iterations.len();
        let mut result: Vec<wgpu::CommandBuffer> = Vec::new();
        let ghost mut outs: Seq<Vec<wgpu::CommandBuffer>> = Seq::empty();
        let mut i: usize = 0;
        while i < n
            invariant
                pre == *old(self),
                n == self.iterations@.len(),
                n == pre.iterations@.len(),
                i <= n,
                self.context == pre.context,
                self.submitted == pre.submitted,
                outs.len() == i,
                result@ == flatten_views(outs),
                forall|k: int| i <= k < n ==> self.iterations@[k] == pre.iterations@[k],
                forall|k: int|
                    0 <= k < i ==> #[trigger] I::evaluate_async_ens(
                        pre.iterations@[k],
                        self.iterations@[k],
                        Ok(outs[k]),
                    ),
            decreases n - i,
        {
            let ghost pre_child = self.iterations@[i as int];
            let cr = self.iterations[i].evaluate_async();
            match cr {
                Ok(mut v) => {
                    let ghost gv = v;
                    let ghost outs0 = outs;
                    result.append(&mut v);
                    proof {
                        outs = outs0.push(gv);
                        assert(outs.drop_last() =~= outs0);
                        assert(I::evaluate_async_ens(
                            pre_child,
                            self.iterations@[i as int],
                            Ok(gv),
                        ));
                    }
                    i += 1;
                },
                Err(e) => {
                    proof {
                        assert(I::evaluate_async_ens(
                            pre.iterations@[i as int],
                            self.iterations@[i as int],
                            Err(e),
                        ));
                        assert forall|k: int| 0 <= k < i implies #[trigger] member_issued_async::<
                            T,
                            I,
                        >(pre.iterations@[k], self.iterations@[k]) by {
                            assert(I::evaluate_async_ens(
                                pre.iterations@[k],
                                self.iterations@[k],
                                Ok(outs[k]),
                            ));
                        }
                    }
                    return Err(e);
                },
            }
        }
        Ok(result)
    }
}

impl<T, I> Iteration<T> for CombinedIteration<T, I> where T: Clone, I: Iteration<T> {
    open spec fn bind_ens(pre: Self, post: Self, params: T, r: Result<(), Error>) -> bool {
        &&& post.context == pre.context
        &&& post.submitted == pre.submitted
        &&& post.iterations@.len() == pre.iterations@.len()
        &&& match r {
            Ok(_) => forall|i: int|
                0 <= i < pre.iterations@.len() ==> #[trigger] I::bind_ens(
                    pre.iterations@[i],
                    post.iterations@[i],
                    params,
                    Ok(()),
                ),
            Err(e) => exists|j: int|
                {
                    &&& 0 <= j < pre.iterations@.len()
                    &&& I::bind_ens(pre.iterations@[j], post.iterations@[j], params, Err(e))
                    &&& forall|i: int|
                        0 <= i < j ==> #[trigger] I::bind_ens(
                            pre.iterations@[i],
                            post.iterations@[i],
                            params,
                            Ok(()),
                        )
                    &&& forall|i: int|
                        j < i < pre.iterations@.len() ==> (#[trigger] post.iterations@[i])
                            == pre.iterations@[i]
                },
        }
    }

    open spec fn evaluate_ens(pre: Self, post: Self, r: Result<(), Error>) -> bool {
        &&& post.context == pre.context
        &&& match r {
            Ok(_) => exists|v: Vec<wgpu::CommandBuffer>|
                #[trigger] Self::fan_out_async(pre, post, Ok(v)) && post.submitted@ == v@,
            Err(e) => (Self::fan_out_async(pre, post, Err(e)) && post.submitted == pre.submitted)
                || (e == Error::Device && exists|v: Vec<wgpu::CommandBuffer>|
                #[trigger] Self::fan_out_async(pre, post, Ok(v)) && post.submitted@ == v@),
        }
    }

    open spec fn evaluate_async_ens(
        pre: Self,
        post: Self,
        r: Result<Vec<wgpu::CommandBuffer>, Error>,
    ) -> bool {
        &&& post.context == pre.context
        &&& post.submitted == pre.submitted
        &&& Self::fan_out_async(pre, post, r)
    }

    open spec fn evaluate_with_params_ens(
        pre: Self,
        post: Self,
        params: T,
        r: Result<(), Error>,
    ) -> bool {
        &&& post.context == pre.context
        &&& match r {
            Ok(_) => exists|v: Vec<wgpu::CommandBuffer>|
                #[trigger] Self::fan_out_with_params_async(pre, post, params, Ok(v))
                    && post.submitted@ == v@,
            Err(e) => (Self::fan_out_with_params_async(pre, post, params, Err(e))
                && post.submitted == pre.submitted) || (e == Error::Device && exists|
                v: Vec<wgpu::CommandBuffer>,
            |
                #[trigger] Self::fan_out_with_params_async(pre, post, params, Ok(v))
                    && post.submitted@ == v@),
        }
    }

    open spec fn evaluate_with_params_async_ens(
        pre: Self,
        post: Self,
        params: T,
        r: Result<Vec<wgpu::CommandBuffer>, Error>,
    ) -> bool {
        &&& post.context == pre.context
        &&& post.submitted == pre.submitted
        &&& Self::fan_out_with_params_async(pre, post, params, r)
    }

    fn bind(&mut self, params: &T) -> (r: Result<(), Error>) {
        let ghost pre = *self;
        let n = self.iterations.len();
        let mut i: usize = 0;
        while i < n
            invariant
                pre == *old(self),
                n == self.iterations@.len(),
                n == pre.iterations@.len(),
                i <= n,
                self.context == pre.context,
                self.submitted == pre.submitted,
                forall|k: int| i <= k < n ==> self.iterations@[k] == pre.iterations@[k],
                forall|k: int|
                    0 <= k < i ==> #[trigger] I::bind_ens(
                        pre.iterations@[k],
                        self.iterations@[k],
                        *params,
                        Ok(()),
                    ),
            decreases n - i,
        {
            let ghost pre_child = self.iterations@[i as int];
            let cr = self.iterations[i].bind(params);
            match cr {
                Ok(()) => {
                    proof {
                        assert(cr->Ok_0 == ());
                        assert(cr == Ok::<(), Error>(()));
                        assert(I::bind_ens(pre_child, self.iterations@[i as int], *params, Ok(())));
                    }
                    i += 1;
                },
                Err(e) => {
                    return Err(e);
                },
            }
        }
        Ok(())
    }

    fn evaluate(&mut self) -> (r: Result<(), Error>) {
        let cr = self.collect_async();
        match cr {
            Ok(v) => {
                let ghost gv = v;
                gpu::submit_all(&self.context, v);
                self.submitted = Ghost(gv@);
                proof {
                    assert(Self::fan_out_async(*old(self), *self, Ok(gv)));
                }
                if gpu::poll_wait(&self.context) {
                    Ok(())
                } else {
                    Err(Error::Device)
                }
            },
            Err(e) => Err(e),
        }
    }

    fn evaluate_async(&mut self) -> (r: Result<Vec<wgpu::CommandBuffer>, Error>) {
        self.collect_async()
    }

    fn evaluate_with_params(&mut self, params: &T) -> (r: Result<(), Error>) {
        let cr = self.evaluate_with_params_async(params);
        match cr {
            Ok(v) => {
                let ghost gv = v;
                gpu::submit_all(&self.context, v);
                self.submitted = Ghost(gv@);
                proof {
                    assert(Self::fan_out_with_params_async(*old(self), *self, *params, Ok(gv)));
                }
                if gpu::poll_wait(&self.context) {
                    Ok(())
                } else {
                    Err(Error::Device)
                }
            },
            Err(e) => Err(e),
        }
    }

    fn evaluate_with_params_async(&mut self, params: &T) -> (r: Result<
        Vec<wgpu::CommandBuffer>,
        Error,
    >) {
        let ghost pre = *self;
        let n = self.iterations.len();
        let mut result: Vec<wgpu::CommandBuffer> = Vec::new();
        let ghost mut outs: Seq<Vec<wgpu::CommandBuffer>> = Seq::empty();
        let mut i: usize = 0;
        while i < n
            invariant
                pre == *old(self),
                n == self.iterations@.len(),
                n == pre.iterations@.len(),
                i <= n,
                self.context == pre.context,
                self.submitted == pre.submitted,
                outs.len() == i,
                result@ == flatten_views(outs),
                forall|k: int| i <= k < n ==> self.iterations@[k] == pre.iterations@[k],
                forall|k: int|
                    0 <= k < i ==> #[trigger] I::evaluate_with_params_async_ens(
                        pre.iterations@[k],
                        self.iterations@[k],
                        *params,
                        Ok(outs[k]),
                    ),
            decreases n - i,
        {
            let ghost pre_child = self.iterations@[i as int];
            let cr = self.iterations[i].evaluate_with_params_async(params);
            match cr {
                Ok(mut v) => {
                    let ghost gv = v;
                    let ghost outs0 = outs;
                    result.append(&mut v);
                    proof {
                        outs = outs0.push(gv);
                        assert(outs.drop_last() =~= outs0);
                        assert(I::evaluate_with_params_async_ens(
                            pre_child,
                            self.iterations@[i as int],
                            *params,
                            Ok(gv),
                        ));
                    }
                    i += 1;
                },
                Err(e) => {
                    proof {
                        assert(I::evaluate_with_params_async_ens(
                            pre.iterations@[i as int],
                            self.iterations@[i as int],
                            *params,
                            Err(e),
                        ));
                        assert forall|k: int|
                            0 <= k < i implies #[trigger] member_issued_with_params_async::<
                            T,
                            I,
                        >(pre.iterations@[k], self.iterations@[k], *params) by {
                            assert(I::evaluate_with_params_async_ens(
                                pre.iterations@[k],
                                self.iterations@[k],
                                *params,
                                Ok(outs[k]),
                            ));
                        }
                    }
                    return Err(e);
                },
            }
        }
        Ok(result)
    }
}


/// Fan-out completeness: when the parallel composite's synchronous
/// `evaluate` returns success, every child had issued its device work —
/// none was skipped — the collected command buffers were handed to the
/// queue (the `submitted` record carries exactly the returned
/// concatenation), and the device was polled to completion before the call
/// returned.  The completion wait itself is the backend's blocking poll,
/// which this library takes on trust.
pub proof fn lemma_fan_out_complete<T, I>(
    pre: CombinedIteration<T, I>,
    post: CombinedIteration<T, I>,
    r: Result<(), Error>,
) where T: Clone, I: Iteration<T>
    requires
        CombinedIteration::<T, I>::evaluate_ens(pre, post, r),
        r is Ok,
    ensures
        post.iterations@.len() == pre.iterations@.len(),
        forall|i: int|
            0 <= i < pre.iterations@.len() ==> #[trigger] member_issued_async::<T, I>(
                pre.iterations@[i],
                post.iterations@[i],
            ),
        exists|outs: Seq<Vec<wgpu::CommandBuffer>>|
            #![trigger flatten_views(outs)]
            {
                &&& outs.len() == pre.iterations@.len()
                &&& forall|i: int|
                    0 <= i < pre.iterations@.len() ==> #[trigger] I::evaluate_async_ens(
                        pre.iterations@[i],
                        post.iterations@[i],
                        Ok(outs[i]),
                    )
                &&& post.submitted@ == flatten_views(outs)
            },
{
    let v = choose|v: Vec<wgpu::CommandBuffer>|
        #[trigger] CombinedIteration::<T, I>::fan_out_async(pre, post, Ok(v));
    let outs = choose|outs: Seq<Vec<wgpu::CommandBuffer>>|
        #![trigger flatten_views(outs)]
        {
            &&& outs.len() == pre.iterations@.len()
            &&& forall|i: int|
                0 <= i < pre.iterations@.len() ==> #[trigger] I::evaluate_async_ens(
                    pre.iterations@[i],
                    post.iterations@[i],
                    Ok(outs[i]),
                )
            &&& v@ == flatten_views(outs)
        };
    assert forall|i: int|
        0 <= i < pre.iterations@.len() implies #[trigger] member_issued_async::<T, I>(
        pre.iterations@[i],
        post.iterations@[i],
    ) by {
        assert(I::evaluate_async_ens(pre.iterations@[i], post.iterations@[i], Ok(outs[i])));
    }
}

} // verus!

