//! What can go wrong while the context is brought up.

use vstd::prelude::*;

verus! {

/// The ways in which bringing up the compute context fails.
#[derive(Clone, Copy, Debug, PartialEq, Eq, Structural)]
pub enum BootstrapError {
    /// The driver's loader could not be opened.
    Loader,
    /// The driver refused to create the instance.
    InstanceCreation,
    /// The driver could not list its physical devices.
    DeviceEnumeration,
    /// No physical device has a queue family that can run compute work.
    NoSuitableDevice,
    /// The driver refused to create the logical device.
    DeviceCreation,
    /// The memory allocator could not be set up.
    AllocatorCreation,
    /// A buffer, or the memory behind it, could not be had.
    Allocation,
    /// The bring-up was handed an event that its stage does not await.
    UnexpectedEvent,
}

impl BootstrapError {
    /// The diagnostic for this failure.
    pub open spec fn spec_message(self) -> Seq<char> {
        match self {
            BootstrapError::Loader => "Failed to load the Vulkan driver"@,
            BootstrapError::InstanceCreation => "Failed to create the instance"@,
            BootstrapError::DeviceEnumeration => "Failed to enumerate physical devices"@,
            BootstrapError::NoSuitableDevice => "No suitable device found"@,
            BootstrapError::DeviceCreation => "Failed to create the logical device"@,
            BootstrapError::AllocatorCreation => "Failed to create the allocator"@,
            BootstrapError::Allocation => "Failed to allocate a buffer"@,
            BootstrapError::UnexpectedEvent => "Unexpected event during bring-up"@,
        }
    }

    /// The diagnostic for this failure.
    pub fn message(self) -> (text: &'static str)
        ensures
            text@ == self.spec_message(),
    {
        match self {
            BootstrapError::Loader => "Failed to load the Vulkan driver",
            BootstrapError::InstanceCreation => "Failed to create the instance",
            BootstrapError::DeviceEnumeration => "Failed to enumerate physical devices",
            BootstrapError::NoSuitableDevice => "No suitable device found",
            BootstrapError::DeviceCreation => "Failed to create the logical device",
            BootstrapError::AllocatorCreation => "Failed to create the allocator",
            BootstrapError::Allocation => "Failed to allocate a buffer",
            BootstrapError::UnexpectedEvent => "Unexpected event during bring-up",
        }
    }
}

} // verus!
