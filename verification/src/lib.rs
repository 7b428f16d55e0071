//! Planning for a GPU compute bootstrap: which device and queue family to
//! use, which layers and extensions to request, which buffers to allocate,
//! and in which order the driver objects are created.
//!
//! The library decides; the program around it talks to the driver.

pub mod bootstrap;
pub mod buffer;
pub mod config;
pub mod error;
pub mod select;
pub mod vulkan;
