//! The few values and predicates that come from the Vulkan bindings.

use vstd::prelude::*;

verus! {

/// The bit that a queue family sets when it can run compute work.
pub const COMPUTE_BIT: u32 = 2;

/// Whether a queue family's capability mask advertises compute.
pub open spec fn supports_compute(queue_flags: u32) -> bool {
    queue_flags & COMPUTE_BIT == COMPUTE_BIT
}

/// Asks the bindings whether a capability mask contains the compute flag.
///
/// Calls `QueueFlags::from_bits_truncate` and `QueueFlags::contains` with
/// `QueueFlags::COMPUTE`. Truncation drops only bits that name no flag, and
/// `contains` holds when every bit of its argument is set in the mask; the
/// compute flag is the single bit `COMPUTE_BIT`.
#[verifier::external_body]
pub(crate) fn queue_flags_contain_compute(queue_flags: u32) -> (r: bool)
    ensures
        r == supports_compute(queue_flags),
{
    erupt::vk1_0::QueueFlags::from_bits_truncate(queue_flags)
        .contains(erupt::vk1_0::QueueFlags::COMPUTE)
}

/// A version number as the driver reads it: the major part from bit 22
/// up, the minor part from bit 12 up, the patch part below.
pub open spec fn packed_version(major: u32, minor: u32, patch: u32) -> u32 {
    (major << 22) | (minor << 12) | patch
}

/// Packs a version number with the bindings' `make_version`, which shifts
/// the major part left by 22, the minor part by 12, and joins them and the
/// patch part with bitwise or.
#[verifier::external_body]
pub(crate) fn make_version(major: u32, minor: u32, patch: u32) -> (r: u32)
    ensures
        r == packed_version(major, minor, patch),
{
    erupt::vk1_0::make_version(major, minor, patch)
}

/// The usage bit of a buffer that shaders read and write as storage.
pub const STORAGE_BUFFER_BIT: u32 = 32;

/// The usage bit of a buffer that transfers read from.
pub const TRANSFER_SRC_BIT: u32 = 1;

/// The usage bit of a buffer that transfers write to.
pub const TRANSFER_DST_BIT: u32 = 2;

/// The sharing mode under which one queue family at a time owns a buffer.
pub const SHARING_MODE_EXCLUSIVE: i32 = 0;

/// The raw bits of the bindings' `BufferUsageFlags::STORAGE_BUFFER`, read
/// with `bits`: the single bit `STORAGE_BUFFER_BIT`.
#[verifier::external_body]
pub(crate) fn storage_buffer_usage() -> (r: u32)
    ensures
        r == STORAGE_BUFFER_BIT,
{
    erupt::vk1_0::BufferUsageFlags::STORAGE_BUFFER.bits()
}

/// The raw bits of the bindings' `BufferUsageFlags::TRANSFER_SRC`, read
/// with `bits`: the single bit `TRANSFER_SRC_BIT`.
#[verifier::external_body]
pub(crate) fn transfer_src_usage() -> (r: u32)
    ensures
        r == TRANSFER_SRC_BIT,
{
    erupt::vk1_0::BufferUsageFlags::TRANSFER_SRC.bits()
}

/// The raw bits of the bindings' `BufferUsageFlags::TRANSFER_DST`, read
/// with `bits`: the single bit `TRANSFER_DST_BIT`.
#[verifier::external_body]
pub(crate) fn transfer_dst_usage() -> (r: u32)
    ensures
        r == TRANSFER_DST_BIT,
{
    erupt::vk1_0::BufferUsageFlags::TRANSFER_DST.bits()
}

/// The raw value of the bindings' `SharingMode::EXCLUSIVE`, which is
/// `SHARING_MODE_EXCLUSIVE`.
#[verifier::external_body]
pub(crate) fn exclusive_sharing_mode() -> (r: i32)
    ensures
        r == SHARING_MODE_EXCLUSIVE,
{
    erupt::vk1_0::SharingMode::EXCLUSIVE.0
}

} // verus!
