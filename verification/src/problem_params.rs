use vstd::prelude::*;

use core::ops::Range;

use crate::sliced::Sliced;
use crate::storage_buffer::StorageBuffer;
use crate::wgpu_context::WgpuContext;

verus! {

/// The contract between the iteration engine, the problem adapters and any
/// optimization driver: the device context, the buffer of candidate
/// solutions, the buffer the fitness results go to, and the window of
/// solutions to work on.
#[derive(Debug)]
pub struct ProblemParams {
    /// The device context.
    pub context: WgpuContext,
    /// The buffer holding the candidate solutions.
    pub solutions: StorageBuffer,
    /// The buffer the per-candidate results are written to.
    pub results: StorageBuffer,
    /// The first solution of the window to evaluate.
    pub solutions_offset: usize,
    /// The number of solutions in the window.
    pub solutions_count: usize,
    /// The length of one solution vector.
    pub vector_length: usize,
}

impl Clone for ProblemParams {
    /// A clone shares the context and the buffers and copies the window.
    fn clone(&self) -> (r: Self)
        ensures
            r == *self,
    {
        ProblemParams {
            context: self.context.clone(),
            solutions: self.solutions.clone(),
            results: self.results.clone(),
            solutions_offset: self.solutions_offset,
            solutions_count: self.solutions_count,
            vector_length: self.vector_length,
        }
    }
}

impl Sliced for ProblemParams {
    open spec fn spec_start(&self) -> int {
        self.solutions_offset as int
    }

    open spec fn spec_end(&self) -> int {
        self.solutions_offset + self.solutions_count
    }

    open spec fn range_wf(&self) -> bool {
        self.solutions_offset + self.solutions_count <= usize::MAX
    }

    open spec fn same_rest(&self, other: &Self) -> bool {
        &&& other.context == self.context
        &&& other.solutions == self.solutions
        &&& other.results == self.results
        &&& other.vector_length == self.vector_length
    }

    fn range(&self) -> (r: Range<usize>) {
        let end = match self.solutions_offset.checked_add(self.solutions_count) {
            Some(e) => e,
            None => usize::MAX,
        };
        self.solutions_offset..end
    }

    fn set_range(&mut self, range: Range<usize>) {
        self.solutions_offset = range.start;
        self.solutions_count = range.end - range.start;
    }
}

} // verus!
