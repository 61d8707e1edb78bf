use vstd::prelude::*;

verus! {

/// The compute backend's device handle together with its command-submission
/// queue.  Both fields are cheap reference-counted handles: cloning the
/// context shares one device, it does not acquire another.
///
/// Acquiring the device itself is asynchronous backend work and lives with
/// the program around this library; the program constructs a context from
/// the handles the backend handed back and passes it by shared reference
/// everywhere.
#[derive(Debug)]
pub struct WgpuContext {
    /// The device handle, used to create buffers and pipelines.
    pub device: wgpu::Device,
    /// The command queue, used to submit work to the device.
    pub queue: wgpu::Queue,
}

impl Clone for WgpuContext {
    /// A clone is a new pair of handles to the same device and queue.
    fn clone(&self) -> (r: Self)
        ensures
            r == *self,
    {
        WgpuContext { device: self.device.clone(), queue: self.queue.clone() }
    }
}

} // verus!
