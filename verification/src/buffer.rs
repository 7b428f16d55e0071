//! The buffers that the workload needs: how large they are, how they are
//! described to the driver, and how many are asked for.

use vstd::prelude::*;
use crate::vulkan::{
    exclusive_sharing_mode, storage_buffer_usage, transfer_dst_usage, transfer_src_usage,
    SHARING_MODE_EXCLUSIVE, STORAGE_BUFFER_BIT, TRANSFER_DST_BIT, TRANSFER_SRC_BIT,
};

verus! {

/// Side length of an input image, in pixels.
pub const IMG_WIDTH: u64 = 28;

/// Pixels in an input image.
pub const IMG_SIZE: u64 = IMG_WIDTH * IMG_WIDTH;

/// Width of the first hidden layer.
pub const HIDDEN_L1: u64 = 128;

/// Images in one batch.
pub const BATCHES: u64 = 50;

/// Bytes in one element: a 32-bit number.
pub const ELEMENT_SIZE: u64 = 4;

/// Bytes that the first layer's weights take for a whole batch.
pub open spec fn workload_bytes() -> int {
    BATCHES * IMG_WIDTH * IMG_WIDTH * HIDDEN_L1 * ELEMENT_SIZE
}

/// The byte size of one workload buffer.
pub fn buffer_size() -> (size: u64)
    ensures
        size == workload_bytes(),
        size == 20_070_400,
{
    BATCHES * IMG_SIZE * HIDDEN_L1 * ELEMENT_SIZE
}

/// The usage mask of a workload buffer: storage, and both ends of a
/// transfer.
pub open spec fn workload_usage() -> u32 {
    STORAGE_BUFFER_BIT | TRANSFER_SRC_BIT | TRANSFER_DST_BIT
}

/// Where the allocator should look for a buffer's memory.
#[derive(Clone, Copy, Debug, PartialEq, Eq, Structural)]
pub enum MemoryPreference {
    /// Memory on the device itself: fast for the device, possibly out of
    /// the host's reach.
    GpuOnly,
}

/// What is asked of the driver and the allocator for one buffer.
#[derive(Clone, Copy, Debug, PartialEq, Eq, Structural)]
pub struct BufferRequest {
    /// Size in bytes.
    pub size: u64,
    /// Usage mask, as the driver reads it.
    pub usage: u32,
    /// Sharing mode, as the driver reads it.
    pub sharing_mode: i32,
    /// Kind of memory to back the buffer with.
    pub memory: MemoryPreference,
}

impl BufferRequest {
    /// Whether the request describes a workload buffer: storage and both
    /// ends of a transfer, owned by one queue family at a time, in
    /// device-local memory. The size is left open.
    pub open spec fn is_workload_buffer(&self) -> bool {
        &&& self.usage == workload_usage()
        &&& self.sharing_mode == SHARING_MODE_EXCLUSIVE
        &&& self.memory == MemoryPreference::GpuOnly
    }
}

/// Describes a buffer of `size` bytes for the workload: usable as storage
/// and as source and destination of transfers, owned by one queue family at
/// a time, and backed by device-local memory.
pub fn buffer_request(size: u64) -> (request: BufferRequest)
    ensures
        request.size == size,
        request.is_workload_buffer(),
        request.usage == 35,
{
    let usage: u32 = storage_buffer_usage() | transfer_src_usage() | transfer_dst_usage();
    assert(32u32 | 1u32 | 2u32 == 35u32) by (bit_vector);
    BufferRequest {
        size,
        usage,
        sharing_mode: exclusive_sharing_mode(),
        memory: MemoryPreference::GpuOnly,
    }
}

/// The buffer sizes to ask for, in order, for a process that was started
/// with `arg_count` command-line tokens, its own name included.
pub open spec fn planned_sizes(arg_count: usize) -> Seq<u64> {
    if arg_count > 1 {
        seq![workload_bytes() as u64, workload_bytes() as u64]
    } else {
        seq![(2 * workload_bytes()) as u64]
    }
}

/// Plans the allocations: with at least one argument after the program's
/// name, two buffers of the workload's size; with none, one buffer of twice
/// that size.
pub fn allocation_sizes(arg_count: usize) -> (sizes: Vec<u64>)
    ensures
        sizes@ == planned_sizes(arg_count),
        arg_count > 1 ==> sizes@ == seq![20_070_400u64, 20_070_400u64],
        arg_count <= 1 ==> sizes@ == seq![40_140_800u64],
{
    let size: u64 = buffer_size();
    let mut sizes: Vec<u64> = Vec::new();
    if arg_count > 1 {
        sizes.push(size);
        sizes.push(size);
    } else {
        sizes.push(size * 2);
    }
    assert(sizes@ =~= planned_sizes(arg_count));
    sizes
}

} // verus!
