use vstd::prelude::*;

use crate::error::Error;

verus! {

/// The command buffers of a list of per-child results, concatenated in list
/// order.
pub open spec fn flatten_views(outs: Seq<Vec<wgpu::CommandBuffer>>) -> Seq<wgpu::CommandBuffer>
    decreases outs.len(),
{
    if outs.len() == 0 {
        Seq::empty()
    } else {
        flatten_views(outs.drop_last()) + outs.last()@
    }
}

/// One composable unit of bound or parameterized computation.
///
/// The five operations must behave consistently across every variant, leaf
/// or composite:
/// - `bind` stores parameters for later use;
/// - `evaluate` runs synchronously with the last bound parameters and fails
///   with a state-sequencing error when nothing was bound;
/// - `evaluate_async` issues the same work but returns the not-yet-submitted
///   command buffers instead of blocking, leaving submission to the caller;
/// - `evaluate_with_params` runs synchronously with the given parameters,
///   ignoring bound state;
/// - `evaluate_with_params_async` is its deferred twin.
///
/// Each implementation states what a call does through its five `..._ens`
/// spec functions, which relate the value before the call, the value after
/// it, the parameters and the outcome; the executable methods promise
/// nothing beyond them.
pub trait Iteration<T>: Sized {
    /// What `bind` did: `pre` is the value before the call, `post` after it.
    /// An implementation that does not say what its calls do may leave the
    /// default, which says nothing.
    open spec fn bind_ens(pre: Self, post: Self, params: T, r: Result<(), Error>) -> bool {
        true
    }

    /// What `evaluate` did.
    open spec fn evaluate_ens(pre: Self, post: Self, r: Result<(), Error>) -> bool {
        true
    }

    /// What `evaluate_async` did.
    open spec fn evaluate_async_ens(
        pre: Self,
        post: Self,
        r: Result<Vec<wgpu::CommandBuffer>, Error>,
    ) -> bool {
        true
    }

    /// What `evaluate_with_params` did.
    open spec fn evaluate_with_params_ens(
        pre: Self,
        post: Self,
        params: T,
        r: Result<(), Error>,
    ) -> bool {
        true
    }

    /// What `evaluate_with_params_async` did.
    open spec fn evaluate_with_params_async_ens(
        pre: Self,
        post: Self,
        params: T,
        r: Result<Vec<wgpu::CommandBuffer>, Error>,
    ) -> bool {
        true
    }

    /// Stores the parameters for later `evaluate` calls.
    fn bind(&mut self, params: &T) -> (r: Result<(), Error>)
        ensures
            Self::bind_ens(*old(self), *final(self), *params, r),
    ;

    /// Runs the step with the previously bound parameters and waits for it.
    fn evaluate(&mut self) -> (r: Result<(), Error>)
        ensures
            Self::evaluate_ens(*old(self), *final(self), r),
    ;

    /// Issues the step's device work with the previously bound parameters
    /// and returns the unsubmitted command buffers.
    fn evaluate_async(&mut self) -> (r: Result<Vec<wgpu::CommandBuffer>, Error>)
        ensures
            Self::evaluate_async_ens(*old(self), *final(self), r),
    ;

    /// Runs the step once with the given parameters and waits for it.
    fn evaluate_with_params(&mut self, params: &T) -> (r: Result<(), Error>)
        ensures
            Self::evaluate_with_params_ens(*old(self), *final(self), *params, r),
    ;

    /// Issues the step's device work once with the given parameters and
    /// returns the unsubmitted command buffers.
    fn evaluate_with_params_async(&mut self, params: &T) -> (r: Result<
        Vec<wgpu::CommandBuffer>,
        Error,
    >)
        ensures
            Self::evaluate_with_params_async_ens(*old(self), *final(self), *params, r),
    ;
}

} // verus!
