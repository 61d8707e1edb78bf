use vstd::prelude::*;

use crate::error::Error;
use crate::iteration::Iteration;
use crate::problem_params::ProblemParams;
use crate::shader::Shader;
use crate::size::Size;
use crate::wgpu_context::WgpuContext;

verus! {

/// The device-evaluated problem: a kernel that scores a window of candidate
/// solutions into one result scalar each, entirely on the device.  Binding
/// fixes the buffer list — candidate solutions, results, then the extra
/// parameter buffers — and every evaluation dispatches one workgroup per
/// candidate.
pub struct ShaderProblem {
    /// The bound context and solution count, once `bind` has run.
    pub binding_state: Option<(WgpuContext, usize)>,
    /// The kernel that performs the evaluation.
    pub shader: Shader,
    /// Extra buffers handed to the kernel after the solutions and results.
    pub additional_params: Vec<wgpu::Buffer>,
    /// The buffer list and grid of the last dispatch this problem issued.
    pub last_dispatch: Ghost<Option<(Seq<wgpu::Buffer>, Size)>>,
}

impl ShaderProblem {
    /// Creates an unbound device-evaluated problem.
    pub fn new(shader: Shader, additional_params: Vec<wgpu::Buffer>) -> (r: Self)
        ensures
            r.binding_state is None,
            r.shader == shader,
            r.additional_params == additional_params,
            r.last_dispatch@ is None,
    {
        ShaderProblem { binding_state: None, shader, additional_params, last_dispatch: Ghost(None) }
    }

    /// The ordered buffer list every dispatch of this problem binds, the
    /// binding index of each buffer being its position: the candidate
    /// solutions, the results, then the extra parameter buffers.
    pub open spec fn dispatch_list(self, params: ProblemParams) -> Seq<wgpu::Buffer> {
        seq![params.solutions.spec_buffer(), params.results.spec_buffer()]
            + self.additional_params@
    }

    /// The grid of one dispatch: one workgroup per candidate in the window.
    pub open spec fn dispatch_grid(params: ProblemParams) -> Size {
        Size { width: params.solutions_count, height: 1, depth: 1 }
    }

    /// Builds the dispatch list as a vector of handles.
    fn buffer_list(&self, params: &ProblemParams) -> (r: Vec<wgpu::Buffer>)
        ensures
            r@ == self.dispatch_list(*params),
    {
        let mut buffers: Vec<wgpu::Buffer> = Vec::new();
        buffers.push(params.solutions.raw().clone());
        buffers.push(params.results.raw().clone());
        let n = self.additional_params.len();
        let mut i: usize = 0;
        while i < n
            invariant
                i <= n,
                n == self.additional_params@.len(),
                buffers@ == seq![
                    params.solutions.spec_buffer(),
                    params.results.spec_buffer(),
                ] + self.additional_params@.subrange(0, i as int),
            decreases n - i,
        {
            buffers.push(self.additional_params[i].clone());
            proof {
                assert(self.additional_params@.subrange(0, i as int).push(
                    self.additional_params@[i as int],
                ) =~= self.additional_params@.subrange(0, i as int + 1));
                assert(buffers@ =~= seq![
                    params.solutions.spec_buffer(),
                    params.results.spec_buffer(),
                ] + self.additional_params@.subrange(0, i as int + 1));
            }
            i += 1;
        }
        proof {
            assert(self.additional_params@.subrange(0, n as int) =~= self.additional_params@);
        }
        buffers
    }
}

impl Iteration<ProblemParams> for ShaderProblem {
    open spec fn bind_ens(
        pre: Self,
        post: Self,
        params: ProblemParams,
        r: Result<(), Error>,
    ) -> bool {
        &&& r == Ok::<(), Error>(())
        &&& post.binding_state == Some((params.context, params.solutions_count))
        &&& post.shader.pipeline == pre.shader.pipeline
        &&& post.shader.spec_is_bound()
        &&& post.shader.bound_list@ == Some(pre.dispatch_list(params))
        &&& post.additional_params == pre.additional_params
        &&& post.last_dispatch == pre.last_dispatch
    }

    open spec fn evaluate_ens(pre: Self, post: Self, r: Result<(), Error>) -> bool {
        &&& post.binding_state == pre.binding_state
        &&& post.shader == pre.shader
        &&& post.additional_params == pre.additional_params
        &&& match pre.binding_state {
            None => r == Err::<(), Error>(Error::NotBound) && post == pre,
            Some((_, count)) => {
                &&& r is Ok <==> pre.shader.spec_is_bound()
                &&& r is Err ==> r == Err::<(), Error>(Error::NotBound) && post == pre
                &&& r is Ok ==> post.last_dispatch@ == Some(
                    (
                        pre.shader.bound_list@->Some_0,
                        Size { width: count, height: 1, depth: 1 },
                    ),
                )
            },
        }
    }

    open spec fn evaluate_async_ens(
        pre: Self,
        post: Self,
        r: Result<Vec<wgpu::CommandBuffer>, Error>,
    ) -> bool {
        &&& post.binding_state == pre.binding_state
        &&& post.shader == pre.shader
        &&& post.additional_params == pre.additional_params
        &&& match pre.binding_state {
            None => r == Err::<Vec<wgpu::CommandBuffer>, Error>(Error::NotBound) && post == pre,
            Some((_, count)) => {
                &&& (r matches Ok(v) ==> v@.len() == 1)
                &&& r is Ok <==> pre.shader.spec_is_bound()
                &&& r is Err ==> r == Err::<Vec<wgpu::CommandBuffer>, Error>(Error::NotBound)
                    && post == pre
                &&& r is Ok ==> post.last_dispatch@ == Some(
                    (
                        pre.shader.bound_list@->Some_0,
                        Size { width: count, height: 1, depth: 1 },
                    ),
                )
            },
        }
    }

    open spec fn evaluate_with_params_ens(
        pre: Self,
        post: Self,
        params: ProblemParams,
        r: Result<(), Error>,
    ) -> bool {
        &&& r == Ok::<(), Error>(())
        &&& post.binding_state == pre.binding_state
        &&& post.shader == pre.shader
        &&& post.additional_params == pre.additional_params
        &&& post.last_dispatch@ == Some((pre.dispatch_list(params), Self::dispatch_grid(params)))
    }

    open spec fn evaluate_with_params_async_ens(
        pre: Self,
        post: Self,
        params: ProblemParams,
        r: Result<Vec<wgpu::CommandBuffer>, Error>,
    ) -> bool {
        &&& r matches Ok(v) && v@.len() == 1
        &&& post.binding_state == pre.binding_state
        &&& post.shader == pre.shader
        &&& post.additional_params == pre.additional_params
        &&& post.last_dispatch@ == Some((pre.dispatch_list(params), Self::dispatch_grid(params)))
    }

    /// Fixes the binding: the kernel is bound to the solutions, results and
    /// extra buffers, in that order, and the context and window size are
    /// kept for later `evaluate` calls.
    fn bind(&mut self, params: &ProblemParams) -> (r: Result<(), Error>) {
        let buffers = self.buffer_list(params);
        self.shader.bind(&params.context, &buffers);
        self.binding_state = Some((params.context.clone(), params.solutions_count));
        Ok(())
    }

    /// Dispatches through the persistent binding set with the bound window
    /// size, submitting at once and recording the dispatched list and grid.
    fn evaluate(&mut self) -> (r: Result<(), Error>) {
        let (context, count) = match &self.binding_state {
            None => {
                return Err(Error::NotBound);
            },
            Some((context, count)) => (context.clone(), *count),
        };
        let size = Size { width: count, height: 1, depth: 1 };
        match self.shader.execute(&context, size) {
            Ok(()) => {
                self.last_dispatch = Ghost(Some((self.shader.bound_list@->Some_0, size)));
                Ok(())
            },
            Err(e) => Err(e),
        }
    }

    fn evaluate_async(&mut self) -> (r: Result<Vec<wgpu::CommandBuffer>, Error>) {
        let (context, count) = match &self.binding_state {
            None => {
                return Err(Error::NotBound);
            },
            Some((context, count)) => (context.clone(), *count),
        };
        let size = Size { width: count, height: 1, depth: 1 };
        match self.shader.execute_async(&context, size) {
            Ok(buffer) => {
                self.last_dispatch = Ghost(Some((self.shader.bound_list@->Some_0, size)));
                let mut result: Vec<wgpu::CommandBuffer> = Vec::new();
                result.push(buffer);
                Ok(result)
            },
            Err(e) => Err(e),
        }
    }

    /// Builds the transient binding set over the dispatch list, dispatches
    /// one workgroup per candidate, and records what was handed to the
    /// device; the bound state is left alone.
    fn evaluate_with_params(&mut self, params: &ProblemParams) -> (r: Result<(), Error>) {
        let buffers = self.buffer_list(params);
        let size = Size { width: params.solutions_count, height: 1, depth: 1 };
        self.shader.execute_with_params(&params.context, size, &buffers);
        self.last_dispatch = Ghost(Some((buffers@, size)));
        Ok(())
    }

    fn evaluate_with_params_async(&mut self, params: &ProblemParams) -> (r: Result<
        Vec<wgpu::CommandBuffer>,
        Error,
    >) {
        let buffers = self.buffer_list(params);
        let size = Size { width: params.solutions_count, height: 1, depth: 1 };
        let buffer = self.shader.execute_with_params_async(&params.context, size, &buffers);
        self.last_dispatch = Ghost(Some((buffers@, size)));
        let mut result: Vec<wgpu::CommandBuffer> = Vec::new();
        result.push(buffer);
        Ok(result)
    }
}

} // verus!
