use vstd::prelude::*;

mod combined;
mod compiled;
mod distribution;
mod error;
mod gpu;
mod iteration;
mod iteration_size;
mod not_implemented;
mod optimization_direction;
mod problem_params;
mod readback_buffer;
mod shader;
mod shader_problem;
mod size;
mod sliced;
mod sliced_iteration;
mod storage_buffer;
mod value_buffer;
mod wgpu_context;

pub use combined::CombinedIteration;
pub use compiled::Compiled;
pub use compiled::CompiledIteration;
pub use error::Error;
pub use iteration::Iteration;
pub use iteration_size::IterationSize;
pub use not_implemented::NotImplementedIteration;
pub use optimization_direction::OptimizationDirection;
pub use problem_params::ProblemParams;
pub use readback_buffer::ReadbackBuffer;
pub use shader::Shader;
pub use shader_problem::ShaderProblem;
pub use size::Size;
pub use sliced::Sliced;
pub use sliced_iteration::SlicedIteration;
pub use storage_buffer::StorageBuffer;
pub use value_buffer::ValueBuffer;
pub use wgpu_context::WgpuContext;

verus! {

} // verus!
