//! The buffer pool: one allocator and one staging buffer shared by the
//! buffers and textures made from it.

use crate::buffer::{BaseBuffer, StagingBuffer};
use crate::flags::{BUFFER_TRANSFER_SRC, MEMORY_COHERENT, MEMORY_CPU_VISIBLE};
use crate::hal::{default_allocator, AllocatorConfig};
use vstd::prelude::*;

verus! {

/// The size of a pool's staging buffer in bytes.
pub const STAGING_BUF_SIZE: usize = 67108864;

/// What a buffer pool is created with.
#[derive(Clone, Copy, Debug, PartialEq, Eq, Structural)]
pub struct BufferPool {
    pub allocator: AllocatorConfig,
    pub staging_buf: StagingBuffer,
}

impl BufferPool {
    /// A pool with the layer's usual allocator and a staging buffer of
    /// `STAGING_BUF_SIZE` bytes.
    pub fn create() -> (pool: BufferPool)
        ensures
            pool.allocator == default_allocator(),
            pool.staging_buf.base == (BaseBuffer {
                usage: BUFFER_TRANSFER_SRC,
                props: MEMORY_COHERENT | MEMORY_CPU_VISIBLE,
                size_in_bytes: STAGING_BUF_SIZE as u64,
            }),
    {
        BufferPool {
            allocator: AllocatorConfig::standard(),
            staging_buf: StagingBuffer::create(STAGING_BUF_SIZE as u64),
        }
    }

    /// The size in bytes of a buffer that holds `data_len` elements of
    /// `type_size` bytes.
    pub fn create_buffer_data(type_size: usize, data_len: usize) -> (size: u64)
        requires
            type_size * data_len <= usize::MAX,
        ensures
            size == type_size * data_len,
    {
        (type_size * data_len) as u64
    }
}

} // verus!
