//! The persistently mapped staging buffer.
//!
//! One large host-writable, device-visible linear buffer serves as a bump
//! allocator for per-frame transient uploads.  The cursor only grows; a write
//! that would run past the fixed capacity is a contract violation, excluded
//! here by precondition, so the embedding application must check the bound
//! before copying bytes at the returned offset.  The buffer's memory is
//! released through the deletion queue strictly after the buffer itself,
//! since releasing the memory is what implicitly unmaps it.

use vstd::prelude::*;
use vstd::arithmetic::div_mod::lemma_add_mod_noop;
use vstd::arithmetic::div_mod::lemma_fundamental_div_mod;
use vstd::arithmetic::div_mod::lemma_mod_multiples_basic;
use crate::context::Core;
use crate::deletion_queue::DeletableResource;
use crate::deletion_queue::DeletionQueue;
use crate::deletion_queue::PendingDeletion;

verus! {

/// The fixed capacity of the staging ring: sized generously for small
/// per-frame uploads.
pub const STAGING_BUFFER_SIZE: u64 = 100 << 20;

/// `cursor` rounded up to the next multiple of `alignment`.
pub open spec fn aligned_up(cursor: int, alignment: int) -> int {
    if cursor % alignment == 0 {
        cursor
    } else {
        cursor + alignment - cursor % alignment
    }
}

/// The effective alignment of a write: the type's own alignment, but at
/// least 8 bytes, the granularity at which the GPU reads these uploads.
pub open spec fn effective_alignment(alignment: usize) -> int {
    if alignment < 8 {
        8
    } else {
        alignment as int
    }
}

/// The offset at which the next write of a type with the given alignment
/// would land.
pub open spec fn next_write_offset(buffer: StagingBuffer, alignment: usize) -> int {
    aligned_up(buffer.write_cursor as int, effective_alignment(alignment))
}

/// One persistently mapped, device-visible linear buffer used as a bump
/// allocator.  The host-side mapped pointer stays with the embedding
/// application; the allocation's base is adequately aligned for anything
/// placed in it, so only offsets within the buffer carry an alignment
/// obligation.
pub struct StagingBuffer {
    pub vk_memory: u64,
    pub vk_buffer: u64,
    pub allocation_size: usize,
    pub write_cursor: usize,
    pub device_address: u64,
    pub last_upload_timeline_value: u64,
}

impl StagingBuffer {
    /// The cursor never leaves the buffer, and the device address space
    /// behind it does not wrap.
    pub open spec fn wf(self) -> bool {
        &&& self.write_cursor <= self.allocation_size
        &&& self.device_address + self.allocation_size <= u64::MAX
    }

    /// Adopts a freshly created, bound and mapped buffer: its memory
    /// allocation, its handle, its GPU-visible base address and its
    /// capacity.  The cursor starts at zero and no upload has happened yet.
    pub fn new(
        vk_memory: u64,
        vk_buffer: u64,
        device_address: u64,
        allocation_size: usize,
    ) -> (buffer: StagingBuffer)
        requires
            device_address + allocation_size <= u64::MAX,
        ensures
            buffer == (StagingBuffer {
                vk_memory,
                vk_buffer,
                allocation_size,
                write_cursor: 0,
                device_address,
                last_upload_timeline_value: 0,
            }),
            buffer.wf(),
    {
        StagingBuffer {
            vk_memory,
            vk_buffer,
            allocation_size,
            write_cursor: 0,
            device_address,
            last_upload_timeline_value: 0,
        }
    }

    /// Reserves `size` bytes at the cursor, rounded up to `alignment`, and
    /// returns the offset of the reservation.  The cursor only moves
    /// forward.  A reservation past the fixed capacity is a programming
    /// error and is excluded by precondition rather than reported.
    pub fn allocate_write_space(&mut self, size: usize, alignment: usize) -> (offset: usize)
        requires
            old(self).wf(),
            alignment >= 1,
            aligned_up(old(self).write_cursor as int, alignment as int) + size
                <= old(self).allocation_size,
        ensures
            final(self).wf(),
            offset == aligned_up(old(self).write_cursor as int, alignment as int),
            offset % alignment == 0,
            old(self).write_cursor <= offset,
            final(self).write_cursor == offset + size,
            *final(self) == (StagingBuffer { write_cursor: final(self).write_cursor, ..*old(self) }),
    {
        let remainder = self.write_cursor % alignment;
        let offset = if remainder == 0 {
            self.write_cursor
        } else {
            proof {
                let a = alignment as int;
                let c = self.write_cursor as int;
                lemma_fundamental_div_mod(c, a);
                let q = c / a;
                let r = c % a;
                assert(c + (a - r) == (q + 1) * a) by (nonlinear_arith)
                    requires
                        c == a * q + r,
                ;
                lemma_mod_multiples_basic(q + 1, a);
            }
            self.write_cursor + (alignment - remainder)
        };
        self.write_cursor = offset + size;
        offset
    }

    /// Reserves room for one plain-old-data value of the given size and
    /// alignment (effective alignment at least 8 bytes) and returns the
    /// GPU-visible address at which the embedding application must copy it.
    /// Addresses from consecutive writes are non-overlapping and strictly
    /// increasing for non-empty values.
    pub fn write(&mut self, size: usize, alignment: usize) -> (address: u64)
        requires
            old(self).wf(),
            next_write_offset(*old(self), alignment) + size <= old(self).allocation_size,
        ensures
            final(self).wf(),
            address == old(self).device_address + next_write_offset(*old(self), alignment),
            (address - old(self).device_address) % effective_alignment(alignment) == 0,
            old(self).device_address <= address,
            old(self).device_address + old(self).write_cursor <= address,
            final(self).write_cursor == next_write_offset(*old(self), alignment) + size,
            old(self).device_address as int % effective_alignment(alignment) == 0 ==> address as int
                % effective_alignment(alignment) == 0,
            *final(self) == (StagingBuffer { write_cursor: final(self).write_cursor, ..*old(self) }),
    {
        let effective = if alignment < 8 {
            8
        } else {
            alignment
        };
        let offset = self.allocate_write_space(size, effective);
        proof {
            if self.device_address % (effective as u64) == 0 {
                lemma_add_mod_noop(self.device_address as int, offset as int, effective as int);
            }
        }
        self.device_address + offset as u64
    }

    /// Hands the buffer and its memory to the deletion queue: the buffer at
    /// the last upload's timeline value, the memory one tick later, because
    /// releasing the memory implicitly unmaps it and must strictly follow
    /// the buffer's own destruction point.
    pub fn queue_deletion(&self, deletion_queue: &mut DeletionQueue)
        requires
            self.last_upload_timeline_value < u64::MAX,
        ensures
            final(deletion_queue).pending_deletions@ == old(
                deletion_queue,
            ).pending_deletions@.push(
                (PendingDeletion {
                    timeline_value: self.last_upload_timeline_value,
                    resource: DeletableResource::Buffer(self.vk_buffer),
                }),
            ).push(
                (PendingDeletion {
                    timeline_value: (self.last_upload_timeline_value + 1) as u64,
                    resource: DeletableResource::DeviceMemory(self.vk_memory),
                }),
            ),
    {
        deletion_queue.queue_deletion_after(
            DeletableResource::Buffer(self.vk_buffer),
            self.last_upload_timeline_value,
        );
        deletion_queue.queue_deletion_after(
            DeletableResource::DeviceMemory(self.vk_memory),
            self.last_upload_timeline_value + 1,
        );
    }

    /// Like [`Self::write`], but reports a reservation that would run past
    /// the fixed capacity instead of demanding that callers exclude it: the
    /// buffer is left untouched and `None` comes back exactly then.  The
    /// caller treats that as the fatal contract violation it is.
    pub fn try_write(&mut self, size: usize, alignment: usize) -> (result: Option<u64>)
        requires
            old(self).wf(),
        ensures
            final(self).wf(),
            next_write_offset(*old(self), alignment) + size <= old(self).allocation_size
                <==> result is Some,
            result is None ==> *final(self) == *old(self),
            result matches Some(address) ==> {
                &&& address == old(self).device_address + next_write_offset(*old(self), alignment)
                &&& (address - old(self).device_address) % effective_alignment(alignment) == 0
                &&& old(self).device_address + old(self).write_cursor <= address
                &&& final(self).write_cursor == next_write_offset(*old(self), alignment) + size
                &&& *final(self) == (StagingBuffer {
                    write_cursor: final(self).write_cursor,
                    ..*old(self)
                })
            },
    {
        let effective = if alignment < 8 {
            8
        } else {
            alignment
        };
        let cursor = self.write_cursor;
        let remainder = cursor % effective;
        let padding = if remainder == 0 {
            0
        } else {
            effective - remainder
        };
        if padding > self.allocation_size - cursor {
            return None;
        }
        let offset = cursor + padding;
        if size > self.allocation_size - offset {
            return None;
        }
        Some(self.write(size, alignment))
    }

    /// The state after one write of `size` bytes at the given alignment:
    /// only the cursor moves, to the end of the written bytes.
    pub open spec fn after_write(self, size: usize, alignment: usize) -> StagingBuffer {
        StagingBuffer {
            write_cursor: (next_write_offset(self, alignment) + size) as usize,
            ..self
        }
    }

    /// Records that an upload written through this buffer is covered by the
    /// given submission; teardown then defers the buffer's destruction past
    /// it.
    pub fn note_upload_submitted(&mut self, core: &Core)
        ensures
            *final(self) == (StagingBuffer {
                last_upload_timeline_value: core.timeline_value,
                ..*old(self)
            }),
    {
        self.last_upload_timeline_value = core.current_timeline_value();
    }
}

/// Rounding up to an alignment lands on a multiple of it, never moves
/// backwards, and never skips a whole alignment stride.
pub proof fn lemma_aligned_up(cursor: int, alignment: int)
    requires
        cursor >= 0,
        alignment >= 1,
    ensures
        aligned_up(cursor, alignment) >= cursor,
        aligned_up(cursor, alignment) % alignment == 0,
        aligned_up(cursor, alignment) < cursor + alignment,
{
    lemma_fundamental_div_mod(cursor, alignment);
    let quotient = cursor / alignment;
    let remainder = cursor % alignment;
    if remainder != 0 {
        assert(cursor + (alignment - remainder) == (quotient + 1) * alignment) by (nonlinear_arith)
            requires
                cursor == alignment * quotient + remainder,
        ;
        lemma_mod_multiples_basic(quotient + 1, alignment);
    }
}

/// Addresses handed out by consecutive writes are strictly increasing and
/// correctly aligned: the second write lands at or after the end of the
/// first write's bytes — so strictly after the first write's own address
/// whenever the first write was non-empty — and its offset from the
/// buffer's base is a multiple of its own effective alignment.
pub proof fn lemma_write_addresses_monotonic(
    buffer: StagingBuffer,
    first_size: usize,
    first_alignment: usize,
    second_alignment: usize,
)
    requires
        buffer.wf(),
        next_write_offset(buffer, first_alignment) + first_size <= buffer.allocation_size,
    ensures
        next_write_offset(buffer.after_write(first_size, first_alignment), second_alignment)
            >= next_write_offset(buffer, first_alignment) + first_size,
        first_size > 0 ==> next_write_offset(
            buffer.after_write(first_size, first_alignment),
            second_alignment,
        ) > next_write_offset(buffer, first_alignment),
        next_write_offset(buffer.after_write(first_size, first_alignment), second_alignment)
            % effective_alignment(second_alignment) == 0,
        next_write_offset(buffer, first_alignment) % effective_alignment(first_alignment) == 0,
{
    lemma_aligned_up(buffer.write_cursor as int, effective_alignment(first_alignment));
    let advanced = buffer.after_write(first_size, first_alignment);
    lemma_aligned_up(advanced.write_cursor as int, effective_alignment(second_alignment));
}

} // verus!
