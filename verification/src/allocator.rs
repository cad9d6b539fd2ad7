//! Memory-class selection and budget-guarded allocation requests.
//!
//! The device's memory classes are inspected once, at startup, against what a
//! maximally-capable buffer, sampled image and render-target image would
//! require; the selection is immutable afterwards.  Allocation requests are
//! checked against the heap budget recorded at selection time and fail fast —
//! before any native call — when they exceed it.  The native queries and the
//! native allocation call live with the embedding application, which fills in
//! a [`MemoryProfile`] and carries out the returned [`AllocationRequest`]s.

use vstd::prelude::*;
use crate::error::GfxError;

verus! {

/// One memory class as the driver reports it: the heap it draws from and the
/// property flags the selection cares about.
#[derive(Clone, Copy, Debug, PartialEq, Eq, Structural)]
pub struct MemoryType {
    pub heap_index: u32,
    pub host_visible: bool,
    pub host_coherent: bool,
    pub host_cached: bool,
    pub device_local: bool,
}

/// Everything the selection reads from the driver, gathered once: the memory
/// classes, the current budget of each heap, and — from the synthetic
/// "maximally-capable resource" queries — which classes each resource kind
/// accepts (as an index bitmask) and the alignment each requires.
pub struct MemoryProfile {
    pub memory_types: Vec<MemoryType>,
    pub heap_budgets: Vec<u64>,
    pub buffer_memory_type_bits: u32,
    pub image_memory_type_bits: u32,
    pub rt_memory_type_bits: u32,
    pub buffer_alignment: u64,
    pub image_alignment: u64,
    pub rt_alignment: u64,
}

impl MemoryProfile {
    /// The driver reports at most 32 memory classes (the bitmasks are 32 bits
    /// wide), and every class draws from a reported heap.
    pub open spec fn wf(self) -> bool {
        &&& self.memory_types@.len() <= 32
        &&& forall|k: int|
            0 <= k < self.memory_types@.len() ==> (#[trigger] self.memory_types@[k]).heap_index
                < self.heap_budgets@.len()
    }
}

/// The budget of the heap backing memory class `type_index`.
pub open spec fn heap_budget_of(profile: MemoryProfile, type_index: int) -> u64 {
    profile.heap_budgets@[profile.memory_types@[type_index].heap_index as int]
}

/// Whether the maximally-capable buffer accepts memory class `type_index`.
pub open spec fn allows_buffers(profile: MemoryProfile, type_index: int) -> bool {
    (1u32 << (type_index as u32)) & profile.buffer_memory_type_bits != 0
}

/// Whether the maximally-capable sampled image accepts memory class
/// `type_index`.
pub open spec fn allows_images(profile: MemoryProfile, type_index: int) -> bool {
    (1u32 << (type_index as u32)) & profile.image_memory_type_bits != 0
}

/// Whether the maximally-capable render-target image accepts memory class
/// `type_index`.
pub open spec fn allows_render_targets(profile: MemoryProfile, type_index: int) -> bool {
    (1u32 << (type_index as u32)) & profile.rt_memory_type_bits != 0
}

/// A memory class usable for staging: host-writable, coherent, and accepted
/// by buffers.
pub open spec fn staging_compatible(profile: MemoryProfile, type_index: int) -> bool {
    &&& 0 <= type_index < profile.memory_types@.len()
    &&& profile.memory_types@[type_index].host_visible
    &&& profile.memory_types@[type_index].host_coherent
    &&& allows_buffers(profile, type_index)
}

/// A memory class usable for device-resident data: device-local and accepted
/// by buffers, sampled images and render targets at once.
pub open spec fn device_local_compatible(profile: MemoryProfile, type_index: int) -> bool {
    &&& 0 <= type_index < profile.memory_types@.len()
    &&& profile.memory_types@[type_index].device_local
    &&& allows_buffers(profile, type_index)
    &&& allows_images(profile, type_index)
    &&& allows_render_targets(profile, type_index)
}

/// The preference weight of a staging candidate: its heap budget, nudged up
/// by a constant for non-cached classes (a mild heuristic; saturating so the
/// nudge never wraps).
pub open spec fn staging_preference(profile: MemoryProfile, type_index: int) -> u64 {
    let budget = heap_budget_of(profile, type_index);
    if profile.memory_types@[type_index].host_cached {
        budget
    } else if budget <= u64::MAX - 1000 {
        (budget + 1000) as u64
    } else {
        u64::MAX
    }
}

/// The preference weight of a device-local candidate: its heap budget.
pub open spec fn device_local_preference(profile: MemoryProfile, type_index: int) -> u64 {
    heap_budget_of(profile, type_index)
}

/// The immutable outcome of memory-class selection: one class for staging,
/// one for device-resident data, their heap budgets as recorded at selection
/// time, and the alignment each resource kind requires.
pub struct DeviceAllocator {
    pub staging_memory_type_index: u32,
    pub staging_memory_heap_budget: u64,
    pub device_local_memory_type_index: u32,
    pub device_local_memory_heap_budget: u64,
    pub buffer_alignment: u64,
    pub image_alignment: u64,
    pub rt_alignment: u64,
}

impl DeviceAllocator {
    /// The selection is sound for `profile`: each recorded index names a
    /// compatible class of maximal preference, and each recorded budget is
    /// the one its heap reported.
    pub open spec fn selected_from(self, profile: MemoryProfile) -> bool {
        &&& staging_compatible(profile, self.staging_memory_type_index as int)
        &&& forall|k: int|
            #![trigger staging_compatible(profile, k)]
            #![trigger staging_preference(profile, k)]
            staging_compatible(profile, k) ==> staging_preference(profile, k)
                <= staging_preference(profile, self.staging_memory_type_index as int)
        &&& self.staging_memory_heap_budget == heap_budget_of(
            profile,
            self.staging_memory_type_index as int,
        )
        &&& device_local_compatible(profile, self.device_local_memory_type_index as int)
        &&& forall|k: int|
            #![trigger device_local_compatible(profile, k)]
            #![trigger device_local_preference(profile, k)]
            device_local_compatible(profile, k) ==> device_local_preference(profile, k)
                <= device_local_preference(profile, self.device_local_memory_type_index as int)
        &&& self.device_local_memory_heap_budget == heap_budget_of(
            profile,
            self.device_local_memory_type_index as int,
        )
        &&& self.buffer_alignment == profile.buffer_alignment
        &&& self.image_alignment == profile.image_alignment
        &&& self.rt_alignment == profile.rt_alignment
    }

    /// Selects the staging and device-local memory classes from a profile
    /// gathered once at startup.  Among host-visible, host-coherent classes
    /// compatible with buffers, the one with the largest backing budget wins,
    /// non-cached classes preferred; among device-local classes compatible
    /// with every anticipated resource kind, the largest budget wins.  Fails
    /// when either family of candidates is empty.
    pub fn new(profile: &MemoryProfile) -> (result: Result<DeviceAllocator, GfxError>)
        requires
            profile.wf(),
        ensures
            match result {
                Ok(allocator) => allocator.selected_from(*profile),
                Err(error) => {
                    ||| (error == GfxError::NoStagingMemoryType && forall|k: int|
                        !staging_compatible(*profile, k))
                    ||| (error == GfxError::NoDeviceLocalMemoryType && forall|k: int|
                        !device_local_compatible(*profile, k))
                },
            },
    {
        let staging_memory_type_index = match select_staging_type(profile) {
            Some(type_index) => type_index,
            None => {
                return Err(GfxError::NoStagingMemoryType);
            },
        };
        let device_local_memory_type_index = match select_device_local_type(profile) {
            Some(type_index) => type_index,
            None => {
                return Err(GfxError::NoDeviceLocalMemoryType);
            },
        };

        let staging_heap_index = profile.memory_types[staging_memory_type_index].heap_index;
        let device_heap_index = profile.memory_types[device_local_memory_type_index].heap_index;

        Ok(
            DeviceAllocator {
                staging_memory_type_index: staging_memory_type_index as u32,
                staging_memory_heap_budget: profile.heap_budgets[staging_heap_index as usize],
                device_local_memory_type_index: device_local_memory_type_index as u32,
                device_local_memory_heap_budget: profile.heap_budgets[device_heap_index as usize],
                buffer_alignment: profile.buffer_alignment,
                image_alignment: profile.image_alignment,
                rt_alignment: profile.rt_alignment,
            },
        )
    }

    /// A request against the staging class.  Fails — with no native call to
    /// make — exactly when the request exceeds the budget recorded at
    /// selection time.
    pub fn allocate_staging_memory(&self, size_bytes: u64) -> (result: Result<
        AllocationRequest,
        GfxError,
    >)
        ensures
            size_bytes <= self.staging_memory_heap_budget <==> result is Ok,
            result matches Ok(request) ==> request == (AllocationRequest {
                size_bytes,
                memory_type_index: self.staging_memory_type_index,
            }),
            result is Err ==> result == Err::<AllocationRequest, GfxError>(
                GfxError::StagingHeapTooSmall,
            ),
    {
        if size_bytes > self.staging_memory_heap_budget {
            return Err(GfxError::StagingHeapTooSmall);
        }
        Ok(Self::allocate(size_bytes, self.staging_memory_type_index))
    }

    /// A request against the device-local class, guarded the same way.
    pub fn allocate_device_memory(&self, size_bytes: u64) -> (result: Result<
        AllocationRequest,
        GfxError,
    >)
        ensures
            size_bytes <= self.device_local_memory_heap_budget <==> result is Ok,
            result matches Ok(request) ==> request == (AllocationRequest {
                size_bytes,
                memory_type_index: self.device_local_memory_type_index,
            }),
            result is Err ==> result == Err::<AllocationRequest, GfxError>(
                GfxError::DeviceHeapTooSmall,
            ),
    {
        if size_bytes > self.device_local_memory_heap_budget {
            return Err(GfxError::DeviceHeapTooSmall);
        }
        Ok(Self::allocate(size_bytes, self.device_local_memory_type_index))
    }

    /// The single low-level allocation description every request funnels
    /// through: device-addressable memory of `size_bytes` from the given
    /// class.
    fn allocate(size_bytes: u64, memory_type_index: u32) -> (request: AllocationRequest)
        ensures
            request == (AllocationRequest { size_bytes, memory_type_index }),
    {
        AllocationRequest { size_bytes, memory_type_index }
    }
}

/// A budget-checked allocation for the embedding application to carry out
/// natively, requesting device-addressable memory.
#[derive(Clone, Copy, Debug, PartialEq, Eq, Structural)]
pub struct AllocationRequest {
    pub size_bytes: u64,
    pub memory_type_index: u32,
}

/// The staging candidate of maximal preference, later candidates winning
/// ties; `None` exactly when no class qualifies.
fn select_staging_type(profile: &MemoryProfile) -> (selected: Option<usize>)
    requires
        profile.wf(),
    ensures
        match selected {
            Some(type_index) => staging_compatible(*profile, type_index as int) && forall|k: int|
                #![trigger staging_compatible(*profile, k)]
                #![trigger staging_preference(*profile, k)]
                staging_compatible(*profile, k) ==> staging_preference(*profile, k)
                    <= staging_preference(*profile, type_index as int),
            None => forall|k: int| !staging_compatible(*profile, k),
        },
{
    let mut found = false;
    let mut best_index: usize = 0;
    let mut best_preference: u64 = 0;
    let mut type_index: usize = 0;
    while type_index < profile.memory_types.len()
        invariant
            profile.wf(),
            type_index <= profile.memory_types@.len(),
            found ==> best_index < type_index && staging_compatible(*profile, best_index as int)
                && best_preference == staging_preference(*profile, best_index as int),
            forall|k: int|
                #![trigger staging_compatible(*profile, k)]
                #![trigger staging_preference(*profile, k)]
                0 <= k < type_index && staging_compatible(*profile, k) ==> found
                    && staging_preference(*profile, k) <= best_preference,
        decreases profile.memory_types@.len() - type_index,
    {
        let memory_type = profile.memory_types[type_index];
        let compatible = memory_type.host_visible && memory_type.host_coherent && ((1u32
            << type_index as u32) & profile.buffer_memory_type_bits != 0);
        if compatible {
            let budget = profile.heap_budgets[memory_type.heap_index as usize];
            let preference = if memory_type.host_cached {
                budget
            } else if budget <= u64::MAX - 1000 {
                budget + 1000
            } else {
                u64::MAX
            };
            if !found || preference >= best_preference {
                found = true;
                best_index = type_index;
                best_preference = preference;
            }
        }
        type_index = type_index + 1;
    }
    if found {
        Some(best_index)
    } else {
        None
    }
}

/// The device-local candidate of maximal heap budget, later candidates
/// winning ties; `None` exactly when no class qualifies.
fn select_device_local_type(profile: &MemoryProfile) -> (selected: Option<usize>)
    requires
        profile.wf(),
    ensures
        match selected {
            Some(type_index) => device_local_compatible(*profile, type_index as int) && forall|
                k: int,
            |
                #![trigger device_local_compatible(*profile, k)]
                #![trigger device_local_preference(*profile, k)]
                device_local_compatible(*profile, k) ==> device_local_preference(*profile, k)
                    <= device_local_preference(*profile, type_index as int),
            None => forall|k: int| !device_local_compatible(*profile, k),
        },
{
    let mut found = false;
    let mut best_index: usize = 0;
    let mut best_preference: u64 = 0;
    let mut type_index: usize = 0;
    while type_index < profile.memory_types.len()
        invariant
            profile.wf(),
            type_index <= profile.memory_types@.len(),
            found ==> best_index < type_index && device_local_compatible(
                *profile,
                best_index as int,
            ) && best_preference == device_local_preference(*profile, best_index as int),
            forall|k: int|
                #![trigger device_local_compatible(*profile, k)]
                #![trigger device_local_preference(*profile, k)]
                0 <= k < type_index && device_local_compatible(*profile, k) ==> found
                    && device_local_preference(*profile, k) <= best_preference,
        decreases profile.memory_types@.len() - type_index,
    {
        let memory_type = profile.memory_types[type_index];
        let compatible = memory_type.device_local && ((1u32 << type_index as u32)
            & profile.buffer_memory_type_bits != 0) && ((1u32 << type_index as u32)
            & profile.image_memory_type_bits != 0) && ((1u32 << type_index as u32)
            & profile.rt_memory_type_bits != 0);
        if compatible {
            let preference = profile.heap_budgets[memory_type.heap_index as usize];
            if !found || preference >= best_preference {
                found = true;
                best_index = type_index;
                best_preference = preference;
            }
        }
        type_index = type_index + 1;
    }
    if found {
        Some(best_index)
    } else {
        None
    }
}

} // verus!
