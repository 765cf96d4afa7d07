//! Bringing the layer up: which adapter is used, and how memory is pooled.

use vstd::prelude::*;

verus! {

/// The kind of device behind an adapter.
#[derive(Clone, Copy, Debug, PartialEq, Eq, Structural)]
pub enum DeviceType {
    Other,
    IntegratedGpu,
    DiscreteGpu,
    VirtualGpu,
    Cpu,
}

/// What the queues of one family can do.
#[derive(Clone, Copy, Debug, PartialEq, Eq, Structural)]
pub struct QueueFamily {
    pub graphics: bool,
    pub transfer: bool,
}

/// What is known of an adapter before it is opened.
pub struct Adapter {
    pub device_type: DeviceType,
    pub queue_families: Vec<QueueFamily>,
}

/// How device memory is pooled: the size of an arena, the number of chunks
/// in a block, and the smallest and largest chunk, in bytes.
#[derive(Clone, Copy, Debug, PartialEq, Eq, Structural)]
pub struct AllocatorConfig {
    pub arena_size: u64,
    pub chunks_per_block: usize,
    pub min_chunk_size: u64,
    pub max_chunk_size: u64,
}

/// The choices made when the layer is brought up.
#[derive(Clone, Copy, Debug, PartialEq, Eq, Structural)]
pub struct HALData {
    /// The position of the adapter in the list it was chosen from.
    pub adapter: usize,
    pub allocator: AllocatorConfig,
}

/// Whether a family can both draw and copy.
pub open spec fn family_usable(family: QueueFamily) -> bool {
    family.graphics && family.transfer
}

/// Whether an adapter is a discrete GPU with a family that can draw and copy.
pub open spec fn adapter_usable(adapter: Adapter) -> bool {
    &&& adapter.device_type == DeviceType::DiscreteGpu
    &&& exists|k: int|
        0 <= k < adapter.queue_families@.len() && family_usable(
            #[trigger] adapter.queue_families@[k],
        )
}

/// The pooling every allocator of the layer is made with.
pub open spec fn default_allocator() -> AllocatorConfig {
    AllocatorConfig {
        arena_size: 4096,
        chunks_per_block: 8,
        min_chunk_size: 64,
        max_chunk_size: 134217728,
    }
}

impl QueueFamily {
    /// Whether the family can both draw and copy.
    pub fn usable(&self) -> (r: bool)
        ensures
            r == family_usable(*self),
    {
        self.graphics && self.transfer
    }
}

impl Adapter {
    /// Whether the adapter is a discrete GPU with a queue family that can
    /// both draw and copy.
    pub fn usable(&self) -> (r: bool)
        ensures
            r == adapter_usable(*self),
    {
        let mut found = false;
        let mut i: usize = 0;
        while i < self.queue_families.len()
            invariant
                i <= self.queue_families@.len(),
                found == exists|k: int|
                    0 <= k < i && family_usable(#[trigger] self.queue_families@[k]),
            decreases self.queue_families@.len() - i,
        {
            if self.queue_families[i].usable() {
                found = true;
            }
            i += 1;
        }
        found && self.device_type == DeviceType::DiscreteGpu
    }
}

impl AllocatorConfig {
    /// The pooling every allocator of the layer is made with.
    pub fn standard() -> (config: AllocatorConfig)
        ensures
            config == default_allocator(),
    {
        AllocatorConfig {
            arena_size: 4096,
            chunks_per_block: 8,
            min_chunk_size: 64,
            max_chunk_size: 134217728,
        }
    }
}

impl HALData {
    /// Chooses the first adapter that is a discrete GPU with a queue family
    /// that can both draw and copy. Nothing is chosen where there is none.
    pub fn new_hal(adapters: &[Adapter]) -> (r: Option<HALData>)
        ensures
            match r {
                Some(data) => {
                    &&& data.adapter < adapters@.len()
                    &&& adapter_usable(adapters@[data.adapter as int])
                    &&& forall|k: int| 0 <= k < data.adapter ==> !adapter_usable(adapters@[k])
                    &&& data.allocator == default_allocator()
                },
                None => forall|k: int| 0 <= k < adapters@.len() ==> !adapter_usable(adapters@[k]),
            },
    {
        let mut i: usize = 0;
        while i < adapters.len()
            invariant
                i <= adapters@.len(),
                forall|k: int| 0 <= k < i ==> !adapter_usable(adapters@[k]),
            decreases adapters@.len() - i,
        {
            if adapters[i].usable() {
                return Some(HALData { adapter: i, allocator: AllocatorConfig::standard() });
            }
            i += 1;
        }
        None
    }
}

} // verus!
