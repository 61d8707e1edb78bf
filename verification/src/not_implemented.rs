use vstd::prelude::*;

use crate::error::Error;
use crate::iteration::Iteration;

verus! {

/// A placeholder for a pipeline stage that was never configured.  Every
/// operation fails at once with the configured message and changes nothing,
/// so a misconfigured pipeline fails fast and loud instead of silently
/// doing no work.
#[derive(Debug)]
pub struct NotImplementedIteration {
    /// The message every operation fails with.
    pub message: String,
}

impl NotImplementedIteration {
    /// Creates a placeholder that fails with the given message.
    pub fn new(message: &str) -> (r: Self)
        ensures
            r.message@ == message@,
    {
        NotImplementedIteration { message: message.to_string() }
    }

    /// The outcome every operation of this leaf has: the value is untouched
    /// and the result is the configured message, as an error.
    pub open spec fn rejects(pre: Self, post: Self, r: Result<(), Error>) -> bool {
        &&& post == pre
        &&& r matches Err(e)
        &&& e matches Error::NotImplemented(m) && m@ == pre.message@
    }

    /// As `rejects`, for the operations that would return command buffers.
    pub open spec fn rejects_async(
        pre: Self,
        post: Self,
        r: Result<Vec<wgpu::CommandBuffer>, Error>,
    ) -> bool {
        &&& post == pre
        &&& r matches Err(e)
        &&& e matches Error::NotImplemented(m) && m@ == pre.message@
    }
}

impl<T> Iteration<T> for NotImplementedIteration {
    open spec fn bind_ens(pre: Self, post: Self, params: T, r: Result<(), Error>) -> bool {
        Self::rejects(pre, post, r)
    }

    open spec fn evaluate_ens(pre: Self, post: Self, r: Result<(), Error>) -> bool {
        Self::rejects(pre, post, r)
    }

    open spec fn evaluate_async_ens(
        pre: Self,
        post: Self,
        r: Result<Vec<wgpu::CommandBuffer>, Error>,
    ) -> bool {
        Self::rejects_async(pre, post, r)
    }

    open spec fn evaluate_with_params_ens(
        pre: Self,
        post: Self,
        params: T,
        r: Result<(), Error>,
    ) -> bool {
        Self::rejects(pre, post, r)
    }

    open spec fn evaluate_with_params_async_ens(
        pre: Self,
        post: Self,
        params: T,
        r: Result<Vec<wgpu::CommandBuffer>, Error>,
    ) -> bool {
        Self::rejects_async(pre, post, r)
    }

    fn bind(&mut self, params: &T) -> (r: Result<(), Error>) {
        Err(Error::NotImplemented(self.message.clone()))
    }

    fn evaluate(&mut self) -> (r: Result<(), Error>) {
        Err(Error::NotImplemented(self.message.clone()))
    }

    fn evaluate_async(&mut self) -> (r: Result<Vec<wgpu::CommandBuffer>, Error>) {
        Err(Error::NotImplemented(self.message.clone()))
    }

    fn evaluate_with_params(&mut self, params: &T) -> (r: Result<(), Error>) {
        Err(Error::NotImplemented(self.message.clone()))
    }

    fn evaluate_with_params_async(&mut self, params: &T) -> (r: Result<
        Vec<wgpu::CommandBuffer>,
        Error,
    >) {
        Err(Error::NotImplemented(self.message.clone()))
    }
}

} // verus!
