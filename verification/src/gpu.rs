use vstd::prelude::*;

use crate::error::Error;
use crate::size::Size;
use crate::wgpu_context::WgpuContext;

verus! {

// Declarations of the backend's handle types.  Each is an opaque,
// reference-counted handle to a device-side object; this library never looks
// inside one, it only carries them between the calls below.

#[verifier::external_type_specification]
#[verifier::external_body]
pub struct ExDevice(wgpu::Device);

#[verifier::external_type_specification]
#[verifier::external_body]
pub struct ExQueue(wgpu::Queue);

#[verifier::external_type_specification]
#[verifier::external_body]
pub struct ExBuffer(wgpu::Buffer);

#[verifier::external_type_specification]
#[verifier::external_body]
pub struct ExCommandBuffer(wgpu::CommandBuffer);

#[verifier::external_type_specification]
#[verifier::external_body]
pub struct ExComputePipeline(wgpu::ComputePipeline);

#[verifier::external_type_specification]
#[verifier::external_body]
pub struct ExBindGroup(wgpu::BindGroup);

#[verifier::external_type_specification]
#[verifier::external_body]
pub struct ExShaderModule(wgpu::ShaderModule);

/// The allocated size, in bytes, of the device buffer behind a handle.  The
/// size is fixed when the buffer is created and never changes afterwards, so
/// it is a function of the handle alone.
pub uninterp spec fn buffer_size(b: wgpu::Buffer) -> u64;

/// The buffer was created with the storage usage set: shader storage, copy
/// source and copy destination.  Usage flags are fixed at creation, so this
/// is a function of the handle alone; only `create_storage_buffer` below
/// establishes it.
pub uninterp spec fn is_storage_buffer(b: wgpu::Buffer) -> bool;

/// The buffer was created with the readback usage set: mappable for host
/// reads and a copy destination.  Fixed at creation; only
/// `create_readback_buffer` below establishes it.
pub uninterp spec fn is_readback_buffer(b: wgpu::Buffer) -> bool;

/// Relies on wgpu::Buffer::size: returns the allocated length in bytes,
/// which was fixed at creation.
pub assume_specification[ wgpu::Buffer::size ](b: &wgpu::Buffer) -> (r: u64)
    ensures
        r == buffer_size(*b),
;

/// Relies on the Clone impl of wgpu::Device: a clone is a new handle to the
/// same device, not a new device.
pub assume_specification[ <wgpu::Device as Clone>::clone ](d: &wgpu::Device) -> (r: wgpu::Device)
    ensures
        r == *d,
;

/// Relies on the Clone impl of wgpu::Queue: a clone is a new handle to the
/// same queue.
pub assume_specification[ <wgpu::Queue as Clone>::clone ](q: &wgpu::Queue) -> (r: wgpu::Queue)
    ensures
        r == *q,
;

/// Relies on the Clone impl of wgpu::Buffer: a clone is a new handle to the
/// same device buffer, of the same allocated size.
pub assume_specification[ <wgpu::Buffer as Clone>::clone ](b: &wgpu::Buffer) -> (r: wgpu::Buffer)
    ensures
        r == *b,
;

/// Relies on the Clone impl of wgpu::ComputePipeline: a clone is a new handle
/// to the same compiled pipeline.
pub assume_specification[ <wgpu::ComputePipeline as Clone>::clone ](
    p: &wgpu::ComputePipeline,
) -> (r: wgpu::ComputePipeline)
    ensures
        r == *p,
;

/// Relies on the Clone impl of wgpu::BindGroup: a clone is a new handle to
/// the same binding set.
pub assume_specification[ <wgpu::BindGroup as Clone>::clone ](g: &wgpu::BindGroup) -> (r:
    wgpu::BindGroup)
    ensures
        r == *g,
;

/// Relies on wgpu::Device::create_buffer: the new buffer has exactly the
/// byte size given in the descriptor.  Usage: device-resident read/write
/// storage, copyable in both directions.
#[verifier::external_body]
pub(crate) fn create_storage_buffer(context: &WgpuContext, size_bytes: u64) -> (r: wgpu::Buffer)
    ensures
        buffer_size(r) == size_bytes,
        is_storage_buffer(r),
{
    context.device.create_buffer(&wgpu::BufferDescriptor {
        label: Some("StorageBuffer"),
        size: size_bytes,
        usage: wgpu::BufferUsages::STORAGE | wgpu::BufferUsages::COPY_DST
            | wgpu::BufferUsages::COPY_SRC,
        mapped_at_creation: false,
    })
}

/// Relies on wgpu::Device::create_buffer: the new buffer has exactly the
/// byte size given in the descriptor.  Usage: mappable for host reads,
/// copy destination.
#[verifier::external_body]
pub(crate) fn create_readback_buffer(context: &WgpuContext, size_bytes: u64) -> (r: wgpu::Buffer)
    ensures
        buffer_size(r) == size_bytes,
        is_readback_buffer(r),
{
    context.device.create_buffer(&wgpu::BufferDescriptor {
        label: Some("ReadbackBuffer"),
        size: size_bytes,
        usage: wgpu::BufferUsages::MAP_READ | wgpu::BufferUsages::COPY_DST,
        mapped_at_creation: false,
    })
}

/// Relies on wgpu::Device::create_buffer: the new buffer has exactly the
/// byte size given in the descriptor.  Usage: a single parameter record,
/// readable as storage or uniform data.
#[verifier::external_body]
pub(crate) fn create_value_buffer(context: &WgpuContext, size_bytes: u64) -> (r: wgpu::Buffer)
    ensures
        buffer_size(r) == size_bytes,
{
    context.device.create_buffer(&wgpu::BufferDescriptor {
        label: Some("ValueBuffer"),
        size: size_bytes,
        usage: wgpu::BufferUsages::STORAGE | wgpu::BufferUsages::UNIFORM
            | wgpu::BufferUsages::COPY_DST,
        mapped_at_creation: false,
    })
}

/// Relies on wgpu::Queue::write_buffer: schedules a write of the given bytes
/// at the given offset.  The call panics if the write would overrun the
/// buffer or break the backend's four-byte alignment, so the precondition
/// keeps both in bounds.
#[verifier::external_body]
pub(crate) fn write_buffer_words(
    context: &WgpuContext,
    buffer: &wgpu::Buffer,
    byte_offset: u64,
    data: &Vec<u32>,
)
    requires
        byte_offset % 4 == 0,
        byte_offset + 4 * data@.len() <= buffer_size(*buffer),
{
    context.queue.write_buffer(buffer, byte_offset, bytemuck::cast_slice(data.as_slice()));
}

/// Relies on wgpu::CommandEncoder::copy_buffer_to_buffer and
/// wgpu::Queue::submit: records a device-to-device copy of `byte_len` bytes
/// from `source` at `src_offset` to the start of `target` and submits it.
/// The backend validates bounds and four-byte alignment, which the offset
/// and length preconditions guarantee; it further requires a copy-capable
/// source, a writable destination, and two distinct buffers, which the
/// usage preconditions guarantee — a storage buffer carries the copy-source
/// usage, a readback buffer is a mappable copy destination, and no buffer
/// is created with both usage sets, so source and target never alias.
#[verifier::external_body]
pub(crate) fn copy_and_submit(
    context: &WgpuContext,
    source: &wgpu::Buffer,
    src_offset: u64,
    target: &wgpu::Buffer,
    byte_len: u64,
)
    requires
        is_storage_buffer(*source),
        is_readback_buffer(*target),
        src_offset % 4 == 0,
        byte_len % 4 == 0,
        src_offset + byte_len <= buffer_size(*source),
        byte_len <= buffer_size(*target),
{
    let mut encoder = context.device.create_command_encoder(&wgpu::CommandEncoderDescriptor {
        label: None,
    });
    encoder.copy_buffer_to_buffer(source, src_offset, target, 0, byte_len);
    context.queue.submit(Some(encoder.finish()));
}

/// Relies on wgpu::BufferSlice::map_async, wgpu::Device::poll and
/// wgpu::BufferView: maps the first `4 * len_words` bytes of the buffer for
/// host reading, blocks until the device signals completion, and returns the
/// mapped bytes as words.  The mapped range has exactly the requested
/// length; a device failure surfaces as an error, never a partial read, and
/// the buffer is unmapped again on every path.  The backend refuses an
/// empty slice outright, so at least one word must be asked for, and only
/// a buffer created with the mappable readback usage may be mapped.
#[verifier::external_body]
pub(crate) fn map_and_read(context: &WgpuContext, buffer: &wgpu::Buffer, len_words: usize) -> (r:
    Result<Vec<u32>, Error>)
    requires
        is_readback_buffer(*buffer),
        1 <= len_words,
        4 * len_words <= buffer_size(*buffer),
    ensures
        r matches Ok(v) ==> v@.len() == len_words,
        r matches Err(e) ==> e == Error::Device,
{
    let slice = buffer.slice(0..4 * len_words as u64);
    let (tx, rx) = std::sync::mpsc::channel();
    slice.map_async(wgpu::MapMode::Read, move |result| { let _ = tx.send(result); });
    let polled = context.device.poll(wgpu::PollType::Wait);
    if polled.is_err() || !matches!(rx.recv(), Ok(Ok(()))) {
        buffer.unmap();
        return Err(Error::Device);
    }
    let data = slice.get_mapped_range();
    let result = bytemuck::cast_slice::<u8, u32>(&data).to_vec();
    drop(data);
    buffer.unmap();
    Ok(result)
}

/// Relies on wgpu::Device::poll with a blocking wait: returns true when the
/// device reports all submitted work complete, false when the poll fails.
#[verifier::external_body]
pub(crate) fn poll_wait(context: &WgpuContext) -> (r: bool) {
    matches!(context.device.poll(wgpu::PollType::Wait), Ok(_))
}

/// Relies on wgpu::Queue::submit: hands one recorded command buffer to the
/// device queue for execution in submission order.
#[verifier::external_body]
pub(crate) fn submit_one(context: &WgpuContext, buffer: wgpu::CommandBuffer) {
    context.queue.submit(Some(buffer));
}

/// Relies on wgpu::Queue::submit: hands a batch of recorded command buffers
/// to the device queue, to execute in the order they stand in the list.
#[verifier::external_body]
pub(crate) fn submit_all(context: &WgpuContext, buffers: Vec<wgpu::CommandBuffer>) {
    context.queue.submit(buffers);
}

/// Relies on wgpu::Device::create_shader_module: compiles kernel source in
/// the backend's shading language.  Compilation failures are fatal in the
/// backend and are not recoverable here.
#[verifier::external_body]
pub(crate) fn create_shader_module(
    context: &WgpuContext,
    label: &str,
    source: &str,
) -> (r: wgpu::ShaderModule) {
    context.device.create_shader_module(wgpu::ShaderModuleDescriptor {
        label: Some(label),
        source: wgpu::ShaderSource::Wgsl(std::borrow::Cow::Owned(source.to_string())),
    })
}

/// Relies on wgpu::Device::create_compute_pipeline: builds a compute
/// pipeline around the module's `main` entry point with an inferred layout.
#[verifier::external_body]
pub(crate) fn create_compute_pipeline(
    context: &WgpuContext,
    label: &str,
    module: &wgpu::ShaderModule,
) -> (r: wgpu::ComputePipeline) {
    context.device.create_compute_pipeline(&wgpu::ComputePipelineDescriptor {
        label: Some(&format!("Compute Pipeline: {label}")),
        layout: None,
        module,
        entry_point: Some("main"),
        compilation_options: wgpu::PipelineCompilationOptions::default(),
        cache: None,
    })
}

/// Relies on wgpu::Device::create_bind_group: binds the listed buffers to a
/// pipeline's first bind group layout, the binding index of each buffer
/// being its position in the list.
#[verifier::external_body]
pub(crate) fn create_bind_group(
    context: &WgpuContext,
    pipeline: &wgpu::ComputePipeline,
    params: &Vec<wgpu::Buffer>,
) -> (r: wgpu::BindGroup) {
    let entries: Vec<wgpu::BindGroupEntry> = params.iter().enumerate().map(
        |(i, buffer): (usize, &wgpu::Buffer)| wgpu::BindGroupEntry {
            binding: i as u32,
            resource: buffer.as_entire_binding(),
        },
    ).collect();
    context.device.create_bind_group(&wgpu::BindGroupDescriptor {
        label: None,
        layout: &pipeline.get_bind_group_layout(0),
        entries: entries.as_slice(),
    })
}

/// Relies on wgpu::CommandEncoder::begin_compute_pass and
/// wgpu::ComputePass::dispatch_workgroups: records one dispatch of the
/// pipeline over the given grid with the given binding set and returns the
/// unsubmitted command buffer.  Grid dimensions are truncated to the
/// backend's 32-bit counts.
#[verifier::external_body]
pub(crate) fn dispatch(
    context: &WgpuContext,
    pipeline: &wgpu::ComputePipeline,
    bind_group: &wgpu::BindGroup,
    size: &Size,
) -> (r: wgpu::CommandBuffer) {
    let mut encoder = context.device.create_command_encoder(
        &wgpu::CommandEncoderDescriptor::default(),
    );
    {
        let mut pass = encoder.begin_compute_pass(&wgpu::ComputePassDescriptor::default());
        pass.set_pipeline(pipeline);
        pass.set_bind_group(0, bind_group, &[]);
        pass.dispatch_workgroups(size.width as u32, size.height as u32, size.depth as u32);
    }
    encoder.finish()
}

} // verus!
