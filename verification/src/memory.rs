//! The memory-chunk factory boundary: one contiguous OS-backed region,
//! described by plain values. The OS reservation call itself happens outside
//! the library; the factory here hands its result on unchanged.

use vstd::prelude::*;

verus! {

/// Size of the region the allocator reserves from the OS: 64 MiB.
pub const HEAP_SIZE: usize = 64 * 1024 * 1024;

/// One contiguous region of OS-backed memory, as plain values: the base
/// address the reservation returned (0 when it failed) and its total size.
#[derive(Clone, Copy, PartialEq, Eq, Structural)]
pub struct MemorySlab {
    pub base_address: usize,
    pub total_size: usize,
}

impl MemorySlab {
    /// A slab is usable when the reservation succeeded and the region does
    /// not wrap around the end of the address space.
    pub open spec fn is_usable(&self) -> bool {
        self.base_address != 0 && self.base_address + self.total_size <= usize::MAX
    }
}

/// Hands out the one reserved region. Implementors decide where that region
/// comes from; the coordinator asks for it exactly once, on first use.
pub trait MemoryChunkFactory: Sized {
    /// What `create` returns.
    spec fn create_ens(&self, slab: MemorySlab) -> bool;

    fn create(&self) -> (slab: MemorySlab)
        ensures
            self.create_ens(slab),
    ;
}

/// Factory over a region reserved from the host's virtual-memory facility.
/// The reservation call is made outside the library; its resulting base
/// address and size are handed in here as plain values, and `create` returns
/// them unchanged.
pub struct VirtualMemoryChunkFactory {
    reservation: MemorySlab,
}

impl VirtualMemoryChunkFactory {
    pub closed spec fn spec_reservation(&self) -> MemorySlab {
        self.reservation
    }

    /// `base_address` is the address the OS reservation returned (0 when the
    /// reservation failed); `total_size` is the size that was requested.
    pub fn new(base_address: usize, total_size: usize) -> (r: Self)
        ensures
            r.spec_reservation() == (MemorySlab { base_address, total_size }),
    {
        VirtualMemoryChunkFactory { reservation: MemorySlab { base_address, total_size } }
    }
}

impl MemoryChunkFactory for VirtualMemoryChunkFactory {
    open spec fn create_ens(&self, slab: MemorySlab) -> bool {
        slab == self.spec_reservation()
    }

    fn create(&self) -> (slab: MemorySlab) {
        self.reservation
    }
}

} // verus!
