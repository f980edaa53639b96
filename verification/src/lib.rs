//! Verified bookkeeping for a small Vulkan renderer: sub-allocation of GPU
//! buffers, the per-frame staging belt, the swapchain image ring, device
//! selection and the shader build tasks.

pub mod allocation;
pub mod suballocator;
pub mod vk_handles;
pub mod staging;
pub mod suballocated_buffer;
pub mod swapchain;
pub mod setup;
pub mod shaders;

use vstd::prelude::*;

verus! {

/// Number of frames that may be recorded while earlier ones are still on the GPU.
pub const FRAMES_IN_FLIGHT: usize = 2;

} // verus!

