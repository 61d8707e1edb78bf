use vstd::prelude::*;

use crate::error::Error;
use crate::gpu;
use crate::gpu::{buffer_size, is_readback_buffer};
use crate::size::Size;
use crate::storage_buffer::StorageBuffer;
use crate::wgpu_context::WgpuContext;

verus! {

/// A buffer the host can map and read.  It grows on demand through `scale`
/// and never shrinks; reading copies a window out of a source buffer into
/// this one and blocks until the device has delivered the bytes.
#[derive(Debug)]
pub struct ReadbackBuffer {
    /// The device buffer handle.
    pub buffer: wgpu::Buffer,
    size_bytes: usize,
}

impl ReadbackBuffer {
    /// The tracked byte size agrees with the size the device allocated,
    /// and the handle carries the mappable readback usage its creator set.
    pub closed spec fn wf(self) -> bool {
        &&& self.size_bytes == buffer_size(self.buffer)
        &&& is_readback_buffer(self.buffer)
    }

    /// The buffer's size in bytes.
    pub closed spec fn spec_size(self) -> int {
        self.size_bytes as int
    }

    /// Creates a buffer of `size.len()` words.
    pub fn new(context: &WgpuContext, size: Size) -> (r: Self)
        requires
            4 * size.spec_len() <= usize::MAX,
        ensures
            r.wf(),
            r.spec_size() == 4 * size.spec_len(),
    {
        let len = size.len();
        let buffer = gpu::create_readback_buffer(context, 4 * (len as u64));
        ReadbackBuffer { buffer, size_bytes: 4 * len }
    }

    /// The size of the buffer in bytes.
    pub fn size(&self) -> (r: usize)
        ensures
            r == self.spec_size(),
    {
        self.size_bytes
    }

    /// The size of the buffer in words.
    pub fn len(&self) -> (r: usize)
        ensures
            r == self.spec_size() / 4,
    {
        self.size_bytes / 4
    }

    /// Returns true if the buffer holds no bytes.
    pub fn is_empty(&self) -> (r: bool)
        ensures
            r == (self.spec_size() == 0),
    {
        self.size_bytes == 0
    }

    /// Grows the buffer to hold `size.len()` words if it is smaller than
    /// that, replacing it by a fresh, uninitialized allocation of exactly
    /// the requested size; a request at or below the current capacity
    /// leaves the buffer untouched.  Returns whether a reallocation
    /// happened.
    pub fn scale(&mut self, context: &WgpuContext, size: Size) -> (r: bool)
        requires
            old(self).wf(),
            4 * size.spec_len() <= usize::MAX,
        ensures
            final(self).wf(),
            r == (4 * size.spec_len() > old(self).spec_size()),
            final(self).spec_size() == if r {
                4 * size.spec_len()
            } else {
                old(self).spec_size()
            },
            final(self).spec_size() >= old(self).spec_size(),
    {
        let new_len = size.len();
        let new_size = 4 * new_len;
        if new_size > self.size_bytes {
            self.buffer = gpu::create_readback_buffer(context, 4 * (new_len as u64));
            self.size_bytes = new_size;
            return true;
        }
        false
    }

    /// Copies `len` words out of the storage buffer `source` starting at
    /// word `start`, maps this buffer and returns the copied words.  At
    /// least one word must be asked for — the backend refuses to map an
    /// empty range — and the window must fit in this buffer; the call fails
    /// on byte-arithmetic overflow, on a window reaching past the end of
    /// the source, or on a device failure, and a successful read returns
    /// exactly `len` words.
    pub fn read(
        &self,
        context: &WgpuContext,
        source: &StorageBuffer,
        start: usize,
        len: usize,
    ) -> (r: Result<Vec<u32>, Error>)
        requires
            self.wf(),
            source.wf(),
            1 <= len,
            4 * len <= self.spec_size(),
        ensures
            !(4 * start <= usize::MAX && 4 * len <= usize::MAX) ==> r == Err::<
                Vec<u32>,
                Error,
            >(Error::Overflow),
            4 * start <= usize::MAX && 4 * len <= usize::MAX && 4 * start + 4 * len
                > source.spec_size() ==> r == Err::<Vec<u32>, Error>(Error::OutOfBounds),
            4 * start + 4 * len <= source.spec_size() && 4 * start <= usize::MAX && 4 * len
                <= usize::MAX ==> (r matches Ok(v) && v@.len() == len) || r == Err::<
                Vec<u32>,
                Error,
            >(Error::Device),
    {
        let byte_start = match start.checked_mul(4) {
            Some(n) => n,
            None => {
                return Err(Error::Overflow);
            },
        };
        let byte_len = match len.checked_mul(4) {
            Some(n) => n,
            None => {
                return Err(Error::Overflow);
            },
        };
        let source_size = source.size();
        match byte_start.checked_add(byte_len) {
            Some(end) => {
                if end > source_size {
                    return Err(Error::OutOfBounds);
                }
            },
            None => {
                return Err(Error::OutOfBounds);
            },
        }
        gpu::copy_and_submit(context, source.raw(), byte_start as u64, &self.buffer, byte_len as u64);
        gpu::map_and_read(context, &self.buffer, len)
    }
}

impl Clone for ReadbackBuffer {
    /// A clone is a new handle to the same device buffer.
    fn clone(&self) -> (r: Self)
        ensures
            r == *self,
    {
        ReadbackBuffer { buffer: self.buffer.clone(), size_bytes: self.size_bytes }
    }
}

} // verus!
