use ash::vk::Handle;
use render_vulkan::allocation::AllocatedBuffer;

#[test]
fn parts_of_an_allocated_buffer() {
    let handle = ash::vk::Buffer::from_raw(77);
    let mut buffer = AllocatedBuffer::new(
        handle,
        gpu_allocator::vulkan::Allocation::default(),
        4096,
        Some(0x1000),
    );
    assert_eq!(buffer.buffer(), handle);
    assert_eq!(buffer.size(), 4096);
    assert_eq!(buffer.device_address(), 0x1000);
    assert!(buffer.allocation().is_null());
    assert!(buffer.allocation_mut().is_null());
    let (h, allocation) = buffer.into_parts();
    assert_eq!(h, handle);
    assert!(allocation.is_null());
}
