use ash::vk::Handle;
use render_vulkan::allocation::AllocatedBuffer;
use render_vulkan::staging::{StagingBelt, STAGING_BUFFER_SIZE};
use render_vulkan::suballocated_buffer::{SuballocatedBuffer, SUBALLOCATION_UNIT_SIZE};

fn handle() -> ash::vk::Buffer {
    ash::vk::Buffer::from_raw(0xbeef)
}

fn gpu_buffer(size: u64) -> AllocatedBuffer {
    AllocatedBuffer::new(handle(), gpu_allocator::vulkan::Allocation::default(), size, None)
}

fn new_buffer(size: u64) -> SuballocatedBuffer {
    SuballocatedBuffer::new(gpu_buffer(size))
}

fn new_belt() -> StagingBelt {
    let staging = |raw: u64| {
        AllocatedBuffer::new(
            ash::vk::Buffer::from_raw(raw),
            gpu_allocator::vulkan::Allocation::default(),
            STAGING_BUFFER_SIZE,
            None,
        )
    };
    StagingBelt::new(vec![staging(1), staging(2)])
}

#[test]
fn new_buffer_has_nothing_uploaded() {
    let buf = new_buffer(1024);
    assert!(!buf.data_uploaded_this_frame());
    assert_eq!(buf.allocated_buffer().size(), 1024);
    assert_eq!(buf.allocated_buffer().buffer(), handle());
    assert_eq!(SUBALLOCATION_UNIT_SIZE, 32);
    assert!(buf.dispose().is_some());
}

#[test]
fn upload_allocates_whole_units_and_stages_the_copy() {
    let mut buf = new_buffer(1024);
    let mut belt = new_belt();
    let data = [5u8; 40];
    let s = buf.upload_data(&mut belt, &data).unwrap();
    assert_eq!(s.offset, 0);
    assert_eq!(s.size, 40);
    assert!(buf.data_uploaded_this_frame());
    let copies = belt.copies_to_flush();
    assert_eq!(copies.len(), 1);
    assert_eq!(copies[0].dest, handle());
    assert_eq!(copies[0].dst_offset, 0);
    assert_eq!(copies[0].size, 40);
    assert_eq!(copies[0].src_offset, 0);

    // 40 bytes take two units, so the next range starts at byte 64.
    let t = buf.upload_data(&mut belt, &[1u8; 1]).unwrap();
    assert_eq!(t.offset, 64);
    assert_eq!(t.size, 1);
    assert_eq!(belt.copies_to_flush()[1].dst_offset, 64);
    assert_eq!(belt.copies_to_flush()[1].src_offset, 40);
    assert!(s.offset + s.size <= t.offset);

    buf.dispose_suballocation(s);
    buf.dispose_suballocation(t);
    assert!(buf.dispose().is_some());
}

#[test]
fn start_frame_clears_the_upload_flag() {
    let mut buf = new_buffer(256);
    let mut belt = new_belt();
    let s = buf.upload_data(&mut belt, &[0u8; 3]).unwrap();
    assert!(buf.data_uploaded_this_frame());
    buf.start_frame();
    assert!(!buf.data_uploaded_this_frame());
    buf.dispose_suballocation(s);
    assert!(buf.dispose().is_some());
}

#[test]
fn upload_larger_than_the_buffer_finds_no_room() {
    let mut buf = new_buffer(64);
    let mut belt = new_belt();
    assert!(buf.upload_data(&mut belt, &[0u8; 100]).is_none());
    // Nothing was staged or marked.
    assert!(belt.copies_to_flush().is_empty());
    assert_eq!(belt.available(), STAGING_BUFFER_SIZE);
    assert!(!buf.data_uploaded_this_frame());
    assert!(buf.dispose().is_some());
}

#[test]
fn live_suballocation_is_reported_as_a_leak() {
    let mut buf = new_buffer(1024);
    let mut belt = new_belt();
    let _s = buf.upload_data(&mut belt, &[9u8; 33]).unwrap();
    assert!(buf.dispose().is_none());
}

#[test]
fn size_not_a_multiple_of_the_unit_fails_the_leak_check() {
    // 100 bytes give 3 units = 96 bytes, which never match the buffer size.
    let buf = new_buffer(100);
    assert!(buf.dispose().is_none());
}

#[test]
fn freed_space_is_reused() {
    let mut buf = new_buffer(128);
    let mut belt = new_belt();
    let s = buf.upload_data(&mut belt, &[0u8; 128]).unwrap();
    assert_eq!(s.offset, 0);
    assert!(buf.upload_data(&mut belt, &[0u8; 1]).is_none());
    buf.dispose_suballocation(s);
    let t = buf.upload_data(&mut belt, &[0u8; 128]).unwrap();
    assert_eq!(t.offset, 0);
    buf.dispose_suballocation(t);
    assert!(buf.dispose().is_some());
}

#[test]
fn empty_upload_takes_no_units() {
    let mut buf = new_buffer(64);
    let mut belt = new_belt();
    let s = buf.upload_data(&mut belt, &[]).unwrap();
    assert_eq!(s.size, 0);
    assert_eq!(s.offset % 32, 0);
    let t = buf.upload_data(&mut belt, &[1u8; 64]).unwrap();
    assert_eq!(t.offset, 0);
    buf.dispose_suballocation(t);
    buf.dispose_suballocation(s);
    assert!(buf.dispose().is_some());
}

#[test]
fn free_units_must_account_for_the_whole_buffer() {
    let buf = new_buffer(1024);
    assert!(buf.accounts_for_whole_buffer(32));
    assert!(!buf.accounts_for_whole_buffer(31));
    assert!(!buf.accounts_for_whole_buffer(0));
    let odd = new_buffer(100);
    assert!(!odd.accounts_for_whole_buffer(3));
}

#[test]
fn whole_units_of_live_ranges_stay_inside_the_buffer_and_apart() {
    let mut buf = new_buffer(160);
    let mut belt = new_belt();
    let a = buf.upload_data(&mut belt, &[0u8; 33]).unwrap();
    let b = buf.upload_data(&mut belt, &[0u8; 70]).unwrap();
    let round = |s: &render_vulkan::suballocated_buffer::BufferSuballocation| {
        s.offset + 32 * ((s.size + 31) / 32)
    };
    assert!(round(&a) <= 160 && round(&b) <= 160);
    assert!(round(&a) <= b.offset || round(&b) <= a.offset);
    // 33 + 70 bytes take 2 + 3 units: all five units of the buffer.
    assert!(buf.upload_data(&mut belt, &[0u8; 1]).is_none());
    buf.dispose_suballocation(a);
    buf.dispose_suballocation(b);
    assert!(buf.dispose().is_some());
}

#[test]
fn empty_uploads_left_live_pass_the_leak_check() {
    let mut buf = new_buffer(64);
    let mut belt = new_belt();
    let _s = buf.upload_data(&mut belt, &[]).unwrap();
    assert!(buf.dispose().is_some());
}

#[test]
fn dispose_hands_back_the_same_buffer() {
    let buf = new_buffer(256);
    let back = buf.dispose().unwrap();
    assert_eq!(back.buffer(), handle());
    assert_eq!(back.size(), 256);
}
