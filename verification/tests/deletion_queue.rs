use gfx_core::context::Core;
use gfx_core::deletion_queue::DeletableResource;
use gfx_core::deletion_queue::DeletionQueue;
use gfx_core::deletion_queue::PendingDeletion;

#[test]
fn reap_returns_nothing_while_nothing_completed() {
    let mut queue = DeletionQueue::default();
    queue.queue_deletion_after(DeletableResource::Buffer(1), 5);
    queue.queue_deletion_after(DeletableResource::Image(2), 3);
    let ready = queue.destroy_ready(2);
    assert!(ready.is_empty());
}

#[test]
fn reap_destroys_each_record_exactly_once_and_only_after_completion() {
    let mut queue = DeletionQueue::default();
    queue.queue_deletion_after(DeletableResource::Buffer(1), 5);
    queue.queue_deletion_after(DeletableResource::Image(2), 3);
    queue.queue_deletion_after(DeletableResource::Semaphore(3), 8);

    let first = queue.destroy_ready(5);
    assert_eq!(first.len(), 2);
    assert_eq!(
        first[0],
        PendingDeletion { timeline_value: 3, resource: DeletableResource::Image(2) }
    );
    assert_eq!(
        first[1],
        PendingDeletion { timeline_value: 5, resource: DeletableResource::Buffer(1) }
    );

    // Advancing the clock further never returns what an earlier reap already
    // destroyed.
    let again = queue.destroy_ready(7);
    assert!(again.is_empty());

    let last = queue.destroy_ready(8);
    assert_eq!(last.len(), 1);
    assert_eq!(
        last[0],
        PendingDeletion { timeline_value: 8, resource: DeletableResource::Semaphore(3) }
    );

    let nothing_left = queue.destroy_ready(u64::MAX);
    assert!(nothing_left.is_empty());
}

#[test]
fn reap_orders_ready_records_by_safe_value() {
    let mut queue = DeletionQueue::default();
    queue.queue_deletion_after(DeletableResource::Pipeline(1), 9);
    queue.queue_deletion_after(DeletableResource::Buffer(2), 1);
    queue.queue_deletion_after(DeletableResource::Image(3), 4);
    queue.queue_deletion_after(DeletableResource::Surface(4), 4);
    queue.queue_deletion_after(DeletableResource::Semaphore(5), 2);

    let ready = queue.destroy_ready(9);
    assert_eq!(ready.len(), 5);
    for pair in ready.windows(2) {
        assert!(pair[0].timeline_value <= pair[1].timeline_value);
    }
    assert_eq!(ready[0].timeline_value, 1);
    assert_eq!(ready[4].timeline_value, 9);
}

#[test]
fn drain_all_destroys_everything_once_in_safe_value_order() {
    let mut queue = DeletionQueue::default();
    let enqueued = vec![
        (DeletableResource::DeviceMemory(10), 7u64),
        (DeletableResource::Swapchain(11), 2),
        (DeletableResource::ImageView(12), 9),
        (DeletableResource::Buffer(13), 2),
        (DeletableResource::Image(14), 0),
    ];
    for (resource, value) in enqueued.iter() {
        queue.queue_deletion_after(*resource, *value);
    }

    // The completed value is irrelevant to the shutdown path.
    let records = queue.destroy_all_immediate();
    assert_eq!(records.len(), enqueued.len());
    for pair in records.windows(2) {
        assert!(pair[0].timeline_value <= pair[1].timeline_value);
    }
    for (resource, value) in enqueued.iter() {
        let hits = records
            .iter()
            .filter(|record| record.resource == *resource && record.timeline_value == *value)
            .count();
        assert_eq!(hits, 1);
    }

    assert!(queue.destroy_all_immediate().is_empty());
    assert!(queue.destroy_ready(u64::MAX).is_empty());
}

#[test]
fn queue_deletion_tags_with_the_current_timeline_value() {
    let mut core = Core::new();
    assert_eq!(core.next_timeline_value(), 1);
    assert_eq!(core.next_timeline_value(), 2);
    assert_eq!(core.current_timeline_value(), 2);

    let mut queue = DeletionQueue::default();
    queue.queue_deletion(DeletableResource::Pipeline(9), &core);
    let records = queue.destroy_all_immediate();
    assert_eq!(
        records,
        vec![PendingDeletion { timeline_value: 2, resource: DeletableResource::Pipeline(9) }]
    );
}

#[test]
fn records_with_equal_safe_values_all_come_out_together() {
    let mut queue = DeletionQueue::default();
    queue.queue_deletion_after(DeletableResource::Buffer(1), 4);
    queue.queue_deletion_after(DeletableResource::Buffer(2), 4);
    queue.queue_deletion_after(DeletableResource::Buffer(3), 4);
    let ready = queue.destroy_ready(4);
    assert_eq!(ready.len(), 3);
    let mut handles: Vec<u64> = ready
        .iter()
        .map(|record| match record.resource {
            DeletableResource::Buffer(handle) => handle,
            _ => panic!("unexpected resource kind"),
        })
        .collect();
    handles.sort();
    assert_eq!(handles, vec![1, 2, 3]);
}
