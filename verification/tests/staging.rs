use gfx_core::context::Core;
use gfx_core::deletion_queue::DeletableResource;
use gfx_core::deletion_queue::DeletionQueue;
use gfx_core::deletion_queue::PendingDeletion;
use gfx_core::staging::StagingBuffer;
use gfx_core::staging::STAGING_BUFFER_SIZE;

#[test]
fn staging_buffer_size_is_one_hundred_mebibytes() {
    assert_eq!(STAGING_BUFFER_SIZE, 100 * 1024 * 1024);
}

#[test]
fn a_fresh_buffer_starts_at_the_base_address() {
    let buffer = StagingBuffer::new(11, 22, 4096, 1 << 20);
    assert_eq!(buffer.write_cursor, 0);
    assert_eq!(buffer.device_address, 4096);
    assert_eq!(buffer.allocation_size, 1 << 20);
    assert_eq!(buffer.last_upload_timeline_value, 0);
}

#[test]
fn write_addresses_increase_and_respect_alignment() {
    let mut buffer = StagingBuffer::new(11, 22, 0, 1 << 20);

    // A 4-byte value, a 16-byte value, another 4-byte value.
    let first = buffer.write(4, 4);
    let second = buffer.write(16, 16);
    let third = buffer.write(4, 4);

    assert_eq!(first, 0);
    assert!(second >= first + 4);
    assert_eq!(second % 16, 0);
    assert_eq!(second, 16);
    assert!(third > second);
    assert_eq!(third % 8, 0);
    assert_eq!(third, 32);
    assert_eq!(buffer.write_cursor, 36);
}

#[test]
fn write_alignment_is_at_least_eight_bytes() {
    let mut buffer = StagingBuffer::new(11, 22, 0, 1 << 20);
    let first = buffer.write(1, 1);
    let second = buffer.write(1, 1);
    assert_eq!(first, 0);
    // Even one-byte values land on the 8-byte grid.
    assert_eq!(second, 8);
}

#[test]
fn addresses_stay_aligned_over_a_nonzero_base() {
    let mut buffer = StagingBuffer::new(11, 22, 256, 1 << 20);
    let first = buffer.write(4, 4);
    let second = buffer.write(16, 16);
    assert_eq!(first, 256);
    assert_eq!(second, 256 + 16);
    assert_eq!(second % 16, 0);
}

#[test]
fn allocate_write_space_rounds_the_cursor_up() {
    let mut buffer = StagingBuffer::new(11, 22, 0, 1024);
    let first = buffer.allocate_write_space(10, 8);
    assert_eq!(first, 0);
    assert_eq!(buffer.write_cursor, 10);
    let second = buffer.allocate_write_space(4, 8);
    assert_eq!(second, 16);
    assert_eq!(buffer.write_cursor, 20);
    let third = buffer.allocate_write_space(4, 1);
    assert_eq!(third, 20);
    assert_eq!(buffer.write_cursor, 24);
}

#[test]
fn writes_past_the_capacity_are_refused_without_effect() {
    let mut buffer = StagingBuffer::new(1, 2, 0, 32);
    assert_eq!(buffer.try_write(16, 8), Some(0));
    assert_eq!(buffer.write_cursor, 16);

    // A reservation that would overflow leaves the buffer untouched.
    assert_eq!(buffer.try_write(32, 8), None);
    assert_eq!(buffer.write_cursor, 16);

    // The remaining room is still usable.
    assert_eq!(buffer.try_write(16, 8), Some(16));
    assert_eq!(buffer.write_cursor, 32);
}

#[test]
fn teardown_releases_the_memory_strictly_after_the_buffer() {
    let mut core = Core::new();
    core.next_timeline_value();
    core.next_timeline_value();
    core.next_timeline_value();

    let mut buffer = StagingBuffer::new(7, 8, 0, 1024);
    buffer.note_upload_submitted(&core);
    assert_eq!(buffer.last_upload_timeline_value, 3);

    let mut queue = DeletionQueue::default();
    buffer.queue_deletion(&mut queue);
    let records = queue.destroy_all_immediate();
    assert_eq!(
        records,
        vec![
            PendingDeletion { timeline_value: 3, resource: DeletableResource::Buffer(8) },
            PendingDeletion { timeline_value: 4, resource: DeletableResource::DeviceMemory(7) },
        ]
    );
}
