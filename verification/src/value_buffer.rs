use vstd::prelude::*;

use crate::error::Error;
use crate::gpu;
use crate::gpu::buffer_size;
use crate::wgpu_context::WgpuContext;

verus! {

/// A small device buffer holding one fixed-layout parameter record, passed
/// to kernels as storage or uniform data.  Its size is fixed at creation to
/// the record's length in words.
#[derive(Debug)]
pub struct ValueBuffer {
    /// The device buffer handle.
    pub buffer: wgpu::Buffer,
    size_bytes: usize,
}

impl ValueBuffer {
    /// The tracked byte size agrees with the size the device allocated.
    pub closed spec fn wf(self) -> bool {
        self.size_bytes == buffer_size(self.buffer)
    }

    /// The buffer's size in bytes.
    pub closed spec fn spec_size(self) -> int {
        self.size_bytes as int
    }

    /// Creates a buffer sized for a record of `len_words` words, with
    /// uninitialized contents.
    pub fn new(context: &WgpuContext, len_words: usize) -> (r: Self)
        requires
            4 * len_words <= usize::MAX,
        ensures
            r.wf(),
            r.spec_size() == 4 * len_words,
    {
        let buffer = gpu::create_value_buffer(context, 4 * (len_words as u64));
        ValueBuffer { buffer, size_bytes: 4 * len_words }
    }

    /// Creates a buffer holding exactly the given record.
    pub fn init(context: &WgpuContext, value: &Vec<u32>) -> (r: Self)
        requires
            4 * value@.len() <= usize::MAX,
        ensures
            r.wf(),
            r.spec_size() == 4 * value@.len(),
    {
        let result = Self::new(context, value.len());
        let set_result = result.set(context, value);
        proof {
            assert(set_result is Ok);
        }
        result
    }

    /// The size of the buffer in bytes.
    pub fn size(&self) -> (r: usize)
        ensures
            r == self.spec_size(),
    {
        self.size_bytes
    }

    /// Schedules a write of the record into the buffer.  Succeeds exactly
    /// when the record fits.
    pub fn set(&self, context: &WgpuContext, value: &Vec<u32>) -> (r: Result<(), Error>)
        requires
            self.wf(),
        ensures
            r is Ok <==> 4 * value@.len() <= self.spec_size(),
            r is Err ==> r == Err::<(), Error>(Error::OutOfBounds),
    {
        let byte_size = match value.len().checked_mul(4) {
            Some(n) => n,
            None => {
                return Err(Error::OutOfBounds);
            },
        };
        if byte_size > self.size_bytes {
            return Err(Error::OutOfBounds);
        }
        gpu::write_buffer_words(context, &self.buffer, 0, value);
        Ok(())
    }
}

impl Clone for ValueBuffer {
    /// A clone is a new handle to the same device buffer.
    fn clone(&self) -> (r: Self)
        ensures
            r == *self,
    {
        ValueBuffer { buffer: self.buffer.clone(), size_bytes: self.size_bytes }
    }
}

} // verus!
