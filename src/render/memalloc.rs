use vstd::prelude::*;

pub mod align;
pub mod block;
pub mod pool;
pub mod select;
pub mod sizing;

verus! {

/// Memory property bit: memory local to the device.
pub const DEVICE_LOCAL: u16 = 0x1;

/// Memory property bit: memory that the host can map.
pub const CPU_VISIBLE: u16 = 0x2;

/// Memory property bit: host and device views are coherent without flushes.
pub const COHERENT: u16 = 0x4;

/// Memory property bit: host accesses are cached.
pub const CPU_CACHED: u16 = 0x8;

/// Memory property bit: memory that may be allocated lazily by the device.
pub const LAZILY_ALLOCATED: u16 = 0x10;

/// How many bytes of a heap may be used.
#[derive(Debug, Copy, Clone, PartialEq, Eq, Structural)]
pub enum HeapUsage {
    /// Do not use this heap.
    Forbid,
    /// The whole heap may be used.
    Whole,
    /// The heap may be used up to the given number of bytes.
    Upto(u64),
}

/// Allocation behaviour for one heap of the device.
#[derive(Debug, Copy, Clone, PartialEq, Eq, Structural)]
pub struct HeapOptions {
    /// How many bytes may be used on the heap.
    pub usage: HeapUsage,
    /// Size of one memory block on this heap; 0 selects a size from the heap's size.
    pub block_size: u64,
}

impl Default for HeapOptions {
    fn default() -> (r: Self)
        ensures
            r == (HeapOptions { usage: HeapUsage::Whole, block_size: 0 }),
    {
        HeapOptions { usage: HeapUsage::Whole, block_size: 0 }
    }
}

/// Options for the creation of an allocator.
#[derive(Debug, Clone)]
pub struct AllocatorOptions {
    /// When set, every allocation gets a memory block of its own.
    pub dedicated: bool,
    /// One entry per heap of the device; heaps without an entry use the defaults.
    pub heap_options: Vec<HeapOptions>,
}

impl Default for AllocatorOptions {
    fn default() -> (r: Self)
        ensures
            !r.dedicated,
            r.heap_options@.len() == 0,
    {
        AllocatorOptions { dedicated: false, heap_options: Vec::new() }
    }
}

/// How one allocation obtains its memory.
#[derive(Copy, Clone, Debug, PartialEq, Eq, Structural)]
pub enum AllocControl {
    /// From the heap's pool of blocks. With `no_alloc` set, only existing blocks
    /// are used and the allocation fails with `NoFreeBlock` when none has room.
    Pool { no_alloc: bool },
    /// From a new block sized for this allocation alone.
    Dedicated,
}

impl Default for AllocControl {
    fn default() -> (r: Self)
        ensures
            r == (AllocControl::Pool { no_alloc: false }),
    {
        AllocControl::Pool { no_alloc: false }
    }
}

/// The intended usage of an allocation, which implies property bits.
#[derive(Debug, Copy, Clone, PartialEq, Eq, Structural)]
pub enum MemoryUsage {
    /// Used by the device only: device-local memory is preferred.
    GpuOnly,
    /// Staging memory: host-visible and coherent memory is required.
    CpuOnly,
    /// Written by the host, read by the device: host-visible memory is required
    /// and device-local memory preferred.
    CpuToGpu,
    /// Written by the device, read by the host: host-visible memory is required
    /// and coherent, cached memory preferred.
    GpuToCpu,
}

/// Options for one allocation.
#[derive(Debug, Copy, Clone, PartialEq, Eq, Structural)]
pub struct AllocOptions {
    /// Where the memory comes from.
    pub control: AllocControl,
    /// Intended usage; adds to the preferred and required property bits.
    pub usage: Option<MemoryUsage>,
    /// Property bits that memory types are scored by.
    pub preferred_props: u16,
    /// Property bits that a memory type must have.
    pub required_props: u16,
    /// When not zero, a mask of the memory type indices that may be used.
    pub type_index_mask: u64,
}

impl AllocOptions {
    /// Options for the given usage, with all else at its default.
    pub fn for_usage(usage: MemoryUsage) -> (r: AllocOptions)
        ensures
            r == (AllocOptions {
                control: AllocControl::Pool { no_alloc: false },
                usage: Some(usage),
                preferred_props: 0,
                required_props: 0,
                type_index_mask: 0,
            }),
    {
        AllocOptions {
            control: AllocControl::Pool { no_alloc: false },
            usage: Some(usage),
            preferred_props: 0,
            required_props: 0,
            type_index_mask: 0,
        }
    }

    pub fn with_control(self, control: AllocControl) -> (r: AllocOptions)
        ensures
            r == (AllocOptions { control, ..self }),
    {
        AllocOptions { control, ..self }
    }

    pub fn with_preferred_props(self, props: u16) -> (r: AllocOptions)
        ensures
            r == (AllocOptions { preferred_props: props, ..self }),
    {
        AllocOptions { preferred_props: props, ..self }
    }

    pub fn with_required_props(self, props: u16) -> (r: AllocOptions)
        ensures
            r == (AllocOptions { required_props: props, ..self }),
    {
        AllocOptions { required_props: props, ..self }
    }

    pub fn with_type_index_mask(self, mask: u64) -> (r: AllocOptions)
        ensures
            r == (AllocOptions { type_index_mask: mask, ..self }),
    {
        AllocOptions { type_index_mask: mask, ..self }
    }
}

impl Default for AllocOptions {
    fn default() -> (r: Self)
        ensures
            r == (AllocOptions {
                control: AllocControl::Pool { no_alloc: false },
                usage: None,
                preferred_props: 0,
                required_props: 0,
                type_index_mask: 0,
            }),
    {
        AllocOptions {
            control: AllocControl::Pool { no_alloc: false },
            usage: None,
            preferred_props: 0,
            required_props: 0,
            type_index_mask: 0,
        }
    }
}

/// Why an allocation failed.
#[derive(Debug, Copy, Clone, PartialEq, Eq, Structural)]
pub enum Error {
    /// All compatible heaps are full.
    HeapExhausted,
    /// A pool allocation with `no_alloc` set found no existing block with room.
    NoFreeBlock,
}

/// A memory type of the device: its property bits and the heap it draws from.
#[derive(Debug, Copy, Clone, PartialEq, Eq, Structural)]
pub struct MemoryType {
    pub properties: u16,
    pub heap_index: usize,
}

} // verus!
