use vstd::prelude::*;

use crate::error::Error;
use crate::gpu;
use crate::size::Size;
use crate::wgpu_context::WgpuContext;

verus! {

/// A compiled compute kernel together with an optional persistent
/// resource-binding set.  Bind a list of buffers once and execute
/// repeatedly, or hand a buffer list to each execution; the `..._async`
/// twins record the dispatch and return the command buffer instead of
/// submitting it.
pub struct Shader {
    /// The compiled compute pipeline.
    pub pipeline: wgpu::ComputePipeline,
    /// The persistent binding set, if one was bound.
    pub bind_group: Option<wgpu::BindGroup>,
    /// The ordered buffer list the persistent set was built from, the
    /// binding index of each buffer being its position in the list.
    pub bound_list: Ghost<Option<Seq<wgpu::Buffer>>>,
}

impl Shader {
    /// Whether a persistent binding set is present.
    pub open spec fn spec_is_bound(self) -> bool {
        self.bind_group is Some
    }

    /// Compiles kernel source into a shader with no binding set.  A source
    /// the backend rejects is fatal; compilation is not recoverable.
    pub fn new(context: &WgpuContext, label: &str, source: &str) -> (r: Self)
        ensures
            !r.spec_is_bound(),
            r.bound_list@ is None,
    {
        let module = gpu::create_shader_module(context, label, source);
        let pipeline = gpu::create_compute_pipeline(context, label, &module);
        Shader { pipeline, bind_group: None, bound_list: Ghost(None) }
    }

    /// Sets the persistent binding set from an ordered buffer list, the
    /// binding index of each buffer being its position in the list.
    pub fn bind(&mut self, context: &WgpuContext, params: &Vec<wgpu::Buffer>)
        ensures
            final(self).pipeline == old(self).pipeline,
            final(self).spec_is_bound(),
            final(self).bound_list@ == Some(params@),
    {
        self.bind_group = Some(gpu::create_bind_group(context, &self.pipeline, params));
        self.bound_list = Ghost(Some(params@));
    }

    /// Removes the persistent binding set.
    pub fn unbind(&mut self)
        ensures
            final(self).pipeline == old(self).pipeline,
            !final(self).spec_is_bound(),
            final(self).bound_list@ is None,
    {
        self.bind_group = None;
        self.bound_list = Ghost(None);
    }

    /// Returns true if a persistent binding set is present.
    pub fn is_bound(&self) -> (r: bool)
        ensures
            r == self.spec_is_bound(),
    {
        matches!(self.bind_group, Some(_))
    }

    /// Dispatches the kernel over the grid using the persistent binding
    /// set, submitting at once.  Fails exactly when nothing is bound.
    pub fn execute(&self, context: &WgpuContext, size: Size) -> (r: Result<(), Error>)
        ensures
            r is Ok <==> self.spec_is_bound(),
            r is Err ==> r == Err::<(), Error>(Error::NotBound),
    {
        match self.execute_async(context, size) {
            Ok(buffer) => {
                gpu::submit_one(context, buffer);
                Ok(())
            },
            Err(e) => Err(e),
        }
    }

    /// Dispatches the kernel over the grid with a one-off binding set built
    /// from the given buffers, submitting at once; the persistent set is
    /// left alone.
    pub fn execute_with_params(
        &self,
        context: &WgpuContext,
        size: Size,
        params: &Vec<wgpu::Buffer>,
    ) {
        let buffer = self.execute_with_params_async(context, size, params);
        gpu::submit_one(context, buffer);
    }

    /// Records a dispatch over the grid using the persistent binding set
    /// and returns the command buffer, leaving submission to the caller.
    /// Fails exactly when nothing is bound.
    pub fn execute_async(&self, context: &WgpuContext, size: Size) -> (r: Result<
        wgpu::CommandBuffer,
        Error,
    >)
        ensures
            r is Ok <==> self.spec_is_bound(),
            r is Err ==> r == Err::<wgpu::CommandBuffer, Error>(Error::NotBound),
    {
        match &self.bind_group {
            Some(bind_group) => Ok(gpu::dispatch(context, &self.pipeline, bind_group, &size)),
            None => Err(Error::NotBound),
        }
    }

    /// Records a dispatch over the grid with a one-off binding set built
    /// from the given buffers and returns the command buffer, leaving
    /// submission to the caller.
    pub fn execute_with_params_async(
        &self,
        context: &WgpuContext,
        size: Size,
        params: &Vec<wgpu::Buffer>,
    ) -> (r: wgpu::CommandBuffer) {
        let bind_group = gpu::create_bind_group(context, &self.pipeline, params);
        gpu::dispatch(context, &self.pipeline, &bind_group, &size)
    }
}

/// A compiled pipeline alone is a shader with no binding set.
impl From<wgpu::ComputePipeline> for Shader {
    fn from(pipeline: wgpu::ComputePipeline) -> (r: Shader) {
        Shader { pipeline, bind_group: None, bound_list: Ghost(None) }
    }
}

impl vstd::std_specs::convert::FromSpecImpl<wgpu::ComputePipeline> for Shader {
    open spec fn obeys_from_spec() -> bool {
        true
    }

    open spec fn from_spec(v: wgpu::ComputePipeline) -> Shader {
        Shader { pipeline: v, bind_group: None, bound_list: Ghost::new(None) }
    }
}

impl Clone for Shader {
    /// A clone shares the pipeline and the binding set.
    fn clone(&self) -> (r: Self)
        ensures
            r == *self,
    {
        Shader {
            pipeline: self.pipeline.clone(),
            bind_group: match &self.bind_group {
                Some(g) => Some(g.clone()),
                None => None,
            },
            bound_list: self.bound_list,
        }
    }
}

} // verus!
