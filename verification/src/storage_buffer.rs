use vstd::prelude::*;

use crate::error::Error;
use crate::gpu;
use crate::gpu::{buffer_size, is_storage_buffer};
use crate::size::Size;
use crate::wgpu_context::WgpuContext;

verus! {

/// A device-resident read/write buffer, usable as shader storage and as the
/// source or destination of copies.  Contents live in words of four bytes,
/// the unit every kernel of this library works in; the byte size is fixed at
/// creation.
#[derive(Debug)]
pub struct StorageBuffer {
    /// The device buffer handle.
    pub buffer: wgpu::Buffer,
    size_bytes: usize,
}

impl StorageBuffer {
    /// The tracked byte size agrees with the size the device allocated,
    /// and the handle carries the storage usage its creator set.
    pub closed spec fn wf(self) -> bool {
        &&& self.size_bytes == buffer_size(self.buffer)
        &&& is_storage_buffer(self.buffer)
    }

    /// The buffer's size in bytes.
    pub closed spec fn spec_size(self) -> int {
        self.size_bytes as int
    }


    /// The buffer's device handle.
    pub closed spec fn spec_buffer(self) -> wgpu::Buffer {
        self.buffer
    }

    /// The device buffer handle, for binding to a kernel or copying.
    pub fn raw(&self) -> (r: &wgpu::Buffer)
        ensures
            *r == self.spec_buffer(),
            self.wf() ==> is_storage_buffer(*r) && buffer_size(*r) == self.spec_size(),
    {
        &self.buffer
    }

    /// Creates a buffer of `size.len()` words.
    pub fn new(context: &WgpuContext, size: Size) -> (r: Self)
        requires
            4 * size.spec_len() <= usize::MAX,
        ensures
            r.wf(),
            r.spec_size() == 4 * size.spec_len(),
    {
        let len = size.len();
        let buffer = gpu::create_storage_buffer(context, 4 * (len as u64));
        StorageBuffer { buffer, size_bytes: 4 * len }
    }

    /// Creates a buffer holding exactly the given words, scheduled for
    /// upload and waited on; fails only if the device rejects the wait.
    pub fn init(context: &WgpuContext, data: &Vec<u32>) -> (r: Result<Self, Error>)
        requires
            data@.len() > 0,
            4 * data@.len() <= usize::MAX,
        ensures
            r matches Ok(b) ==> b.wf() && b.spec_size() == 4 * data@.len(),
            r is Err ==> r == Err::<Self, Error>(Error::Device),
    {
        let result = Self::new(
            context,
            Size { width: data.len(), height: 1, depth: 1 },
        );
        proof {
            assert(Size { width: data@.len() as usize, height: 1, depth: 1 }.spec_len()
                == data@.len());
        }
        match result.update_buffer_range(context, data, 0) {
            Ok(()) => Ok(result),
            Err(e) => Err(e),
        }
    }

    /// The size of the buffer in bytes.
    pub fn size(&self) -> (r: usize)
        ensures
            r == self.spec_size(),
    {
        self.size_bytes
    }

    /// The size of the buffer in words.
    pub fn len(&self) -> (r: usize)
        ensures
            r == self.spec_size() / 4,
    {
        self.size_bytes / 4
    }

    /// Returns true if the buffer holds no bytes.
    pub fn is_empty(&self) -> (r: bool)
        ensures
            r == (self.spec_size() == 0),
    {
        self.size_bytes == 0
    }

    /// Whether a write of `len` words at word offset `start` stays inside a
    /// buffer of `size` bytes without overflowing address arithmetic.
    pub open spec fn write_in_bounds(start: int, len: int, size: int) -> bool {
        4 * start <= usize::MAX && 4 * len <= usize::MAX && 4 * start + 4 * len <= size
    }

    /// Schedules a write of `data` starting at word `start` and waits for
    /// the device.  An empty write, an offset whose byte form overflows, or
    /// a write reaching past the end fails without touching the device.
    pub fn update_buffer_range(&self, context: &WgpuContext, data: &Vec<u32>, start: usize) -> (r:
        Result<(), Error>)
        requires
            self.wf(),
        ensures
            data@.len() == 0 ==> r == Err::<(), Error>(Error::EmptyData),
            data@.len() > 0 && !(4 * start <= usize::MAX && 4 * data@.len() <= usize::MAX)
                ==> r == Err::<(), Error>(Error::Overflow),
            data@.len() > 0 && 4 * start <= usize::MAX && 4 * data@.len() <= usize::MAX
                && 4 * start + 4 * data@.len() > self.spec_size()
                ==> r == Err::<(), Error>(Error::OutOfBounds),
            Self::write_in_bounds(start as int, data@.len() as int, self.spec_size())
                && data@.len() > 0
                ==> r == Ok::<(), Error>(()) || r == Err::<(), Error>(Error::Device),
    {
        match self.update_buffer_range_async(context, data, start) {
            Ok(()) => {
                if gpu::poll_wait(context) {
                    Ok(())
                } else {
                    Err(Error::Device)
                }
            },
            Err(e) => Err(e),
        }
    }

    /// Schedules a write of `data` starting at word `start` without waiting.
    /// Succeeds exactly when the data is non-empty, the byte arithmetic does
    /// not overflow, and the write stays inside the buffer.
    pub fn update_buffer_range_async(
        &self,
        context: &WgpuContext,
        data: &Vec<u32>,
        start: usize,
    ) -> (r: Result<(), Error>)
        requires
            self.wf(),
        ensures
            r is Ok <==> data@.len() > 0 && Self::write_in_bounds(
                start as int,
                data@.len() as int,
                self.spec_size(),
            ),
            data@.len() == 0 ==> r == Err::<(), Error>(Error::EmptyData),
            data@.len() > 0 && !(4 * start <= usize::MAX && 4 * data@.len() <= usize::MAX)
                ==> r == Err::<(), Error>(Error::Overflow),
            data@.len() > 0 && 4 * start <= usize::MAX && 4 * data@.len() <= usize::MAX
                && 4 * start + 4 * data@.len() > self.spec_size()
                ==> r == Err::<(), Error>(Error::OutOfBounds),
    {
        if data.len() == 0 {
            return Err(Error::EmptyData);
        }
        let byte_offset = match start.checked_mul(4) {
            Some(n) => n,
            None => {
                return Err(Error::Overflow);
            },
        };
        let byte_size = match data.len().checked_mul(4) {
            Some(n) => n,
            None => {
                return Err(Error::Overflow);
            },
        };
        match byte_offset.checked_add(byte_size) {
            Some(end) => {
                if end > self.size_bytes {
                    return Err(Error::OutOfBounds);
                }
            },
            None => {
                return Err(Error::OutOfBounds);
            },
        }
        gpu::write_buffer_words(context, &self.buffer, byte_offset as u64, data);
        Ok(())
    }
}

impl Clone for StorageBuffer {
    /// A clone is a new handle to the same device buffer.
    fn clone(&self) -> (r: Self)
        ensures
            r == *self,
    {
        StorageBuffer { buffer: self.buffer.clone(), size_bytes: self.size_bytes }
    }
}

} // verus!
