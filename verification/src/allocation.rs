//! A GPU buffer together with the memory that backs it.

use vstd::prelude::*;

verus! {

#[verifier::external_type_specification]
#[verifier::external_body]
pub struct ExGpuAllocation(gpu_allocator::vulkan::Allocation);

/// A buffer, its memory, the size of that memory, and its device address
/// when it was created with one.
pub struct AllocatedBuffer {
    buffer: ash::vk::Buffer,
    allocation: gpu_allocator::vulkan::Allocation,
    size: u64,
    device_address: Option<u64>,
}

impl AllocatedBuffer {
    /// The buffer's handle.
    pub closed spec fn handle(&self) -> ash::vk::Buffer {
        self.buffer
    }

    /// The size of the buffer's memory in bytes.
    pub closed spec fn size_bytes(&self) -> u64 {
        self.size
    }

    /// The buffer's memory.
    pub closed spec fn memory(&self) -> gpu_allocator::vulkan::Allocation {
        self.allocation
    }

    /// The buffer's device address, if it has one.
    pub closed spec fn address(&self) -> Option<u64> {
        self.device_address
    }

    /// Assembles a buffer from its handle, its bound memory, the size of
    /// that memory in bytes (what `Allocation::size` reports) and its device
    /// address.
    pub fn new(
        buffer: ash::vk::Buffer,
        allocation: gpu_allocator::vulkan::Allocation,
        size: u64,
        device_address: Option<u64>,
    ) -> (r: Self)
        ensures
            r.handle() == buffer,
            r.memory() == allocation,
            r.size_bytes() == size,
            r.address() == device_address,
    {
        AllocatedBuffer { buffer, allocation, size, device_address }
    }

    /// The size of the buffer's memory in bytes.
    pub fn size(&self) -> (r: u64)
        ensures
            r == self.size_bytes(),
    {
        self.size
    }

    /// The buffer's device address; the buffer must have been created with one.
    pub fn device_address(&self) -> (r: u64)
        requires
            self.address() is Some,
        ensures
            Some(r) == self.address(),
    {
        self.device_address.unwrap()
    }

    /// The buffer's handle.
    pub fn buffer(&self) -> (r: ash::vk::Buffer)
        ensures
            r == self.handle(),
    {
        self.buffer
    }

    /// The memory, for writing through its mapping. Handle, size and device
    /// address stay as they are.
    pub fn allocation_mut(&mut self) -> (r: &mut gpu_allocator::vulkan::Allocation)
        ensures
            *r == old(self).memory(),
            final(self).memory() == *final(r),
            final(self).handle() == old(self).handle(),
            final(self).size_bytes() == old(self).size_bytes(),
            final(self).address() == old(self).address(),
    {
        &mut self.allocation
    }

    /// The memory, for reading through its mapping.
    pub fn allocation(&self) -> (r: &gpu_allocator::vulkan::Allocation)
        ensures
            *r == self.memory(),
    {
        &self.allocation
    }

    /// Takes the buffer apart, so that the handle can be destroyed and the
    /// memory freed.
    pub fn into_parts(self) -> (r: (ash::vk::Buffer, gpu_allocator::vulkan::Allocation))
        ensures
            r.0 == self.handle(),
            r.1 == self.memory(),
    {
        (self.buffer, self.allocation)
    }
}

} // verus!
