use ash::vk::Handle;
use render_vulkan::allocation::AllocatedBuffer;
use render_vulkan::staging::{StagingBelt, STAGING_BUFFER_SIZE};
use render_vulkan::FRAMES_IN_FLIGHT;

fn buffer(raw: u64) -> ash::vk::Buffer {
    ash::vk::Buffer::from_raw(raw)
}

fn staging_buffer(raw: u64) -> AllocatedBuffer {
    AllocatedBuffer::new(
        buffer(raw),
        gpu_allocator::vulkan::Allocation::default(),
        STAGING_BUFFER_SIZE,
        None,
    )
}

fn belt() -> StagingBelt {
    StagingBelt::new(vec![staging_buffer(1000), staging_buffer(1001)])
}

#[test]
fn new_belt_is_empty() {
    let belt = belt();
    assert_eq!(belt.current_frame(), 0);
    assert_eq!(belt.available(), STAGING_BUFFER_SIZE);
    assert_eq!(STAGING_BUFFER_SIZE, 8 * 1024 * 1024);
    assert!(belt.copies_to_flush().is_empty());
    assert_eq!(FRAMES_IN_FLIGHT, 2);
}

#[test]
fn writes_are_packed_back_to_back() {
    let mut belt = belt();
    let a = [1u8; 10];
    let b = [2u8; 7];
    let off_a = belt.write_buffer(buffer(11), 100, &a);
    let off_b = belt.write_buffer(buffer(12), 0, &b);
    assert_eq!(off_a, 0);
    assert_eq!(off_b, 10);
    assert_eq!(belt.available(), STAGING_BUFFER_SIZE - 17);
    let copies = belt.copies_to_flush();
    assert_eq!(copies.len(), 2);
    assert_eq!(copies[0].dest, buffer(11));
    assert_eq!(copies[0].dst_offset, 100);
    assert_eq!(copies[0].size, 10);
    assert_eq!(copies[0].src_offset, 0);
    assert_eq!(copies[1].dest, buffer(12));
    assert_eq!(copies[1].dst_offset, 0);
    assert_eq!(copies[1].size, 7);
    assert_eq!(copies[1].src_offset, 10);
    // The copies do not share staging bytes.
    assert!(copies[0].src_offset + copies[0].size <= copies[1].src_offset);
}

#[test]
fn start_frame_switches_and_clears_only_that_frame() {
    let mut belt = belt();
    belt.write_buffer(buffer(1), 0, &[0u8; 5]);
    belt.start_frame(1);
    assert_eq!(belt.current_frame(), 1);
    assert!(belt.copies_to_flush().is_empty());
    assert_eq!(belt.available(), STAGING_BUFFER_SIZE);
    belt.write_buffer(buffer(2), 8, &[0u8; 3]);
    // Frame 0 keeps what it staged until it is started again.
    belt.start_frame(0);
    assert_eq!(belt.current_frame(), 0);
    assert!(belt.copies_to_flush().is_empty());
    assert_eq!(belt.available(), STAGING_BUFFER_SIZE);
}

#[test]
fn empty_write_records_a_zero_sized_copy() {
    let mut belt = belt();
    let off = belt.write_buffer(buffer(3), 4, &[]);
    assert_eq!(off, 0);
    assert_eq!(belt.copies_to_flush().len(), 1);
    assert_eq!(belt.copies_to_flush()[0].size, 0);
    assert_eq!(belt.available(), STAGING_BUFFER_SIZE);
}

#[test]
fn a_write_may_fill_the_buffer_exactly() {
    let mut belt = belt();
    let data = vec![7u8; STAGING_BUFFER_SIZE as usize];
    let off = belt.write_buffer(buffer(4), 0, &data);
    assert_eq!(off, 0);
    assert_eq!(belt.available(), 0);
}

#[test]
fn current_buffer_follows_the_frame() {
    let mut belt = belt();
    assert_eq!(belt.current_buffer().buffer(), buffer(1000));
    belt.start_frame(1);
    assert_eq!(belt.current_buffer().buffer(), buffer(1001));
    let _ = belt.current_memory_mut();
    assert_eq!(belt.current_frame(), 1);
}

#[test]
fn dispose_hands_back_the_buffers_in_frame_order() {
    let belt = belt();
    let buffers = belt.dispose();
    assert_eq!(buffers.len(), 2);
    assert_eq!(buffers[0].buffer(), buffer(1000));
    assert_eq!(buffers[1].buffer(), buffer(1001));
}

#[test]
fn used_is_where_the_next_write_goes() {
    let mut belt = belt();
    assert_eq!(belt.used(), 0);
    belt.write_buffer(buffer(5), 0, &[0u8; 12]);
    assert_eq!(belt.used(), 12);
    let off = belt.write_buffer(buffer(5), 0, &[0u8; 4]);
    assert_eq!(off, 12);
    assert_eq!(belt.used(), 16);
}

#[test]
fn dispose_hands_back_buffers_with_their_sizes() {
    let belt = belt();
    let buffers = belt.dispose();
    assert_eq!(buffers[0].size(), STAGING_BUFFER_SIZE);
    assert_eq!(buffers[1].size(), STAGING_BUFFER_SIZE);
}
