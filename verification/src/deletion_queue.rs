//! Deferred destruction of GPU resources.
//!
//! A resource referenced by in-flight GPU work may only be released once the
//! driver reports that the work signalling its safe-to-destroy timeline value
//! has completed.  The queue records `(resource, safe_value)` pairs and hands
//! back, on each reap, exactly the records whose safe value has been reached,
//! in non-decreasing safe-value order — so a resource that another depends on
//! (and was therefore tagged with a later or equal safe value) is never
//! released first.  The caller performs the native destroy calls on what is
//! returned.

use vstd::multiset::Multiset;
use vstd::prelude::*;
use crate::context::Core;

verus! {

/// A driver-level object awaiting destruction, by kind.  Each variant holds
/// the object's raw handle value; the closed set of kinds is extended by
/// adding a variant, and tells the caller which native destroy call to make.
#[derive(Clone, Copy, Debug, PartialEq, Eq, Structural)]
pub enum DeletableResource {
    DeviceMemory(u64),
    Swapchain(u64),
    Surface(u64),
    Semaphore(u64),
    ImageView(u64),
    Image(u64),
    Buffer(u64),
    Pipeline(u64),
}

/// One queued record: the resource and the timeline value that must have
/// completed before it may be destroyed.
#[derive(Clone, Copy, Debug, PartialEq, Eq, Structural)]
pub struct PendingDeletion {
    pub timeline_value: u64,
    pub resource: DeletableResource,
}

/// A record may be acted on once the driver's completed value has reached
/// its safe value.
pub open spec fn is_ready(record: PendingDeletion, completed_value: u64) -> bool {
    record.timeline_value <= completed_value
}

/// The records of `records` whose safe value has been reached.
pub open spec fn ready_part(records: Multiset<PendingDeletion>, completed_value: u64) -> Multiset<
    PendingDeletion,
> {
    records.filter(|record: PendingDeletion| is_ready(record, completed_value))
}

/// The records of `records` whose safe value has not yet been reached.
pub open spec fn pending_part(records: Multiset<PendingDeletion>, completed_value: u64) -> Multiset<
    PendingDeletion,
> {
    records.filter(|record: PendingDeletion| !is_ready(record, completed_value))
}

/// Non-decreasing safe-value order: the order in which records must be
/// destroyed so that no resource outlives one derived from it.
pub open spec fn sorted_by_safe_value(records: Seq<PendingDeletion>) -> bool {
    forall|i: int, j: int|
        0 <= i < j < records.len() ==> #[trigger] records[i].timeline_value
            <= #[trigger] records[j].timeline_value
}

/// The min-ordered set of (resource, safe-to-destroy-at) pairs.
pub struct DeletionQueue {
    pub pending_deletions: Vec<PendingDeletion>,
}

impl Default for DeletionQueue {
    /// An empty queue.
    fn default() -> (queue: Self)
        ensures
            queue.pending_deletions@.len() == 0,
    {
        DeletionQueue { pending_deletions: Vec::new() }
    }
}

impl DeletionQueue {
    /// Records `resource` as destroyable once `timeline_value` has completed.
    pub fn queue_deletion_after(&mut self, resource: DeletableResource, timeline_value: u64)
        ensures
            final(self).pending_deletions@ == old(self).pending_deletions@.push(
                (PendingDeletion { timeline_value, resource }),
            ),
    {
        self.pending_deletions.push(PendingDeletion { timeline_value, resource });
    }

    /// Records `resource` as destroyable once everything in flight right now
    /// — at most the context's current issued value — has completed.
    pub fn queue_deletion(&mut self, resource: DeletableResource, core: &Core)
        ensures
            final(self).pending_deletions@ == old(self).pending_deletions@.push(
                (PendingDeletion { timeline_value: core.timeline_value, resource }),
            ),
    {
        let timeline_value = core.current_timeline_value();
        self.queue_deletion_after(resource, timeline_value);
    }

    /// Removes and returns every record whose safe value is at or below the
    /// driver's reported `completed_value`, in non-decreasing safe-value
    /// order, for the caller to destroy natively; records not yet safe stay
    /// queued.  Each enqueued record is returned by exactly one reap: the
    /// first whose `completed_value` reaches its safe value.
    pub fn destroy_ready(&mut self, completed_value: u64) -> (ready: Vec<PendingDeletion>)
        ensures
            sorted_by_safe_value(ready@),
            forall|k: int| 0 <= k < ready@.len() ==> is_ready(#[trigger] ready@[k], completed_value),
            forall|k: int|
                0 <= k < final(self).pending_deletions@.len() ==> !is_ready(
                    #[trigger] final(self).pending_deletions@[k],
                    completed_value,
                ),
            sorted_by_safe_value(final(self).pending_deletions@),
            ready@.to_multiset() == ready_part(
                old(self).pending_deletions@.to_multiset(),
                completed_value,
            ),
            final(self).pending_deletions@.to_multiset() == pending_part(
                old(self).pending_deletions@.to_multiset(),
                completed_value,
            ),
    {
        sort_pending(&mut self.pending_deletions);
        let ghost sorted_records = self.pending_deletions@;

        let mut cut: usize = 0;
        while cut < self.pending_deletions.len() && self.pending_deletions[cut].timeline_value
            <= completed_value
            invariant
                cut <= self.pending_deletions@.len(),
                self.pending_deletions@ == sorted_records,
                forall|k: int| 0 <= k < cut ==> is_ready(#[trigger] sorted_records[k], completed_value),
            decreases self.pending_deletions@.len() - cut,
        {
            cut = cut + 1;
        }

        proof {
            assert forall|k: int|
                cut <= k < sorted_records.len() implies !is_ready(
                #[trigger] sorted_records[k],
                completed_value,
            ) by {
                if cut < sorted_records.len() {
                    assert(sorted_records[cut as int].timeline_value
                        <= sorted_records[k].timeline_value);
                }
            }
        }

        let mut ready: Vec<PendingDeletion> = Vec::new();
        let mut idx: usize = 0;
        while idx < cut
            invariant
                cut <= self.pending_deletions@.len(),
                self.pending_deletions@ == sorted_records,
                idx <= cut,
                ready@ == sorted_records.subrange(0, idx as int),
            decreases cut - idx,
        {
            let record = self.pending_deletions[idx];
            ready.push(record);
            proof {
                assert(ready@ =~= sorted_records.subrange(0, idx + 1));
            }
            idx = idx + 1;
        }

        let rest = self.pending_deletions.split_off(cut);
        self.pending_deletions = rest;

        proof {
            assert(ready@ == sorted_records.subrange(0, cut as int));
            assert(self.pending_deletions@ == sorted_records.subrange(
                cut as int,
                sorted_records.len() as int,
            ));
            lemma_partition_multisets(sorted_records, ready@, self.pending_deletions@, completed_value);
        }

        ready
    }

    /// The shutdown path: removes and returns every record, in non-decreasing
    /// safe-value order, without consulting the completed value — the caller
    /// must already have drained the device.  Ordering is still honoured, so
    /// a memory allocation is released only after the objects bound to it.
    pub fn destroy_all_immediate(&mut self) -> (records: Vec<PendingDeletion>)
        ensures
            sorted_by_safe_value(records@),
            records@.to_multiset() == old(self).pending_deletions@.to_multiset(),
            final(self).pending_deletions@.len() == 0,
    {
        sort_pending(&mut self.pending_deletions);
        let ghost sorted_records = self.pending_deletions@;
        let records = self.pending_deletions.split_off(0);
        proof {
            assert(records@ =~= sorted_records);
        }
        records
    }
}

/// Reaping at `first_completed` and then at a later `second_completed`
/// destroys exactly the records a single reap at `second_completed` would
/// have destroyed, each exactly once: what the first reap took is disjoint
/// from what remained for the second.
pub proof fn lemma_reap_exactly_once(
    records: Multiset<PendingDeletion>,
    first_completed: u64,
    second_completed: u64,
)
    requires
        first_completed <= second_completed,
    ensures
        ready_part(records, first_completed).add(
            ready_part(pending_part(records, first_completed), second_completed),
        ) == ready_part(records, second_completed),
{
    broadcast use vstd::multiset::group_multiset_axioms;

    assert(ready_part(records, first_completed).add(
        ready_part(pending_part(records, first_completed), second_completed),
    ) =~= ready_part(records, second_completed));
}

/// A reap at any completed value splits the queue exactly in two: every
/// record is either destroyed now or still pending, never both, never
/// neither.
pub proof fn lemma_ready_pending_partition(records: Multiset<PendingDeletion>, completed_value: u64)
    ensures
        ready_part(records, completed_value).add(pending_part(records, completed_value)) == records,
{
    broadcast use vstd::multiset::group_multiset_axioms;

    assert(ready_part(records, completed_value).add(pending_part(records, completed_value))
        =~= records);
}

/// In-place insertion sort by safe value.  Sorting relates the stored order
/// to the destruction order without adding or dropping a record.
fn sort_pending(records: &mut Vec<PendingDeletion>)
    ensures
        final(records)@.len() == old(records)@.len(),
        final(records)@.to_multiset() == old(records)@.to_multiset(),
        sorted_by_safe_value(final(records)@),
{
    let ghost original = records@;
    if records.len() < 2 {
        return;
    }
    let mut i: usize = 1;
    while i < records.len()
        invariant
            1 <= i <= records@.len(),
            records@.len() == original.len(),
            records@.to_multiset() == original.to_multiset(),
            forall|a: int, b: int|
                0 <= a < b < i ==> #[trigger] records@[a].timeline_value
                    <= #[trigger] records@[b].timeline_value,
        decreases records@.len() - i,
    {
        let mut j: usize = i;
        while j > 0 && records[j - 1].timeline_value > records[j].timeline_value
            invariant
                j <= i < records@.len(),
                records@.len() == original.len(),
                records@.to_multiset() == original.to_multiset(),
                forall|a: int, b: int|
                    0 <= a < b <= i && b != j ==> #[trigger] records@[a].timeline_value
                        <= #[trigger] records@[b].timeline_value,
            decreases j,
        {
            let ghost before = records@;
            let shifted = records[j - 1];
            let inserted = records[j];
            records.set(j - 1, inserted);
            records.set(j, shifted);
            proof {
                lemma_swap_preserves_multiset(before, j - 1 as int, j as int);
                assert(records@ =~= before.update(j - 1 as int, inserted).update(
                    j as int,
                    shifted,
                ));
            }
            j = j - 1;
        }
        i = i + 1;
    }
}

/// Swapping two positions of a sequence leaves its multiset of elements
/// unchanged.
proof fn lemma_swap_preserves_multiset(records: Seq<PendingDeletion>, i: int, j: int)
    requires
        0 <= i < records.len(),
        0 <= j < records.len(),
        i != j,
    ensures
        records.update(i, records[j]).update(j, records[i]).to_multiset() == records.to_multiset(),
{
    broadcast use vstd::seq_lib::group_to_multiset_ensures;
    broadcast use vstd::seq_lib::to_multiset_update;
    broadcast use vstd::multiset::group_multiset_axioms;

    let first = records[i];
    let second = records[j];
    let once = records.update(i, second);
    assert(records.contains(first));
    assert(records.contains(second));
    assert(once.to_multiset() == records.to_multiset().insert(second).remove(first));
    assert(once[j] == second);
    assert(once.update(j, first).to_multiset() == once.to_multiset().insert(first).remove(second));
    assert(records.to_multiset().insert(second).remove(first).insert(first).remove(second)
        =~= records.to_multiset());
}

/// When a sorted run splits into a prefix of ready records and a suffix of
/// not-yet-ready records, the two sides are exactly the ready and pending
/// parts of the whole.
proof fn lemma_partition_multisets(
    records: Seq<PendingDeletion>,
    ready: Seq<PendingDeletion>,
    pending: Seq<PendingDeletion>,
    completed_value: u64,
)
    requires
        ready + pending =~= records,
        forall|k: int| 0 <= k < ready.len() ==> is_ready(#[trigger] ready[k], completed_value),
        forall|k: int| 0 <= k < pending.len() ==> !is_ready(#[trigger] pending[k], completed_value),
    ensures
        ready.to_multiset() == ready_part(records.to_multiset(), completed_value),
        pending.to_multiset() == pending_part(records.to_multiset(), completed_value),
{
    broadcast use vstd::seq_lib::group_to_multiset_ensures;
    broadcast use vstd::multiset::group_multiset_axioms;

    vstd::seq_lib::lemma_multiset_commutative(ready, pending);
    assert(records.to_multiset() == ready.to_multiset().add(pending.to_multiset()));
    assert forall|record: PendingDeletion|
        ready.to_multiset().contains(record) implies is_ready(record, completed_value) by {
        assert(ready.contains(record));
    }
    assert forall|record: PendingDeletion|
        pending.to_multiset().contains(record) implies !is_ready(record, completed_value) by {
        assert(pending.contains(record));
    }
    assert(ready.to_multiset() =~= ready_part(records.to_multiset(), completed_value));
    assert(pending.to_multiset() =~= pending_part(records.to_multiset(), completed_value));
}

} // verus!
