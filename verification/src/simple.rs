//! The simple arena strategy: a fixed 128 KiB buffer served top-down by a
//! single retreating counter. It is a leaky bootstrap arena: `dealloc` never
//! reclaims, so the outstanding-byte count only grows. A ghost history of
//! every granted `(offset, size)` range carries the proof that live ranges
//! handed to distinct callers are pairwise disjoint.

use vstd::prelude::*;

verus! {

use crate::align::{lemma_round_down, round_down};
use crate::allocator::{AllocRequest, AllocatorStrategy, SwitchableStrategyAllocator};
use crate::memory::{MemorySlab, VirtualMemoryChunkFactory};

/// Total capacity of the arena in bytes: 128 KiB.
pub const ARENA_SIZE: usize = 128 * 1024;

/// Largest alignment the arena serves.
pub const MAX_SUPPORTED_ALIGN: usize = 4096;

/// Every fresh arena byte carries this pattern, so a read of memory nobody
/// initialised is recognisable while debugging.
pub const ARENA_FILL_BYTE: u8 = 0x55;

pub type SimpleAllocator = SwitchableStrategyAllocator<
    SimpleAllocatorStrategy,
    VirtualMemoryChunkFactory,
>;

/// A simple-arena allocator behind the coordinator. `base_address` and
/// `total_size` describe the OS reservation the factory will hand out (the
/// arena itself ignores it: its buffer is its own).
pub fn simple_allocator(base_address: usize, total_size: usize) -> (r: SimpleAllocator)
    ensures
        r.wf(),
        r.spec_strategy().spec_remaining() == ARENA_SIZE,
        r.spec_strategy().spec_history() =~= Seq::<(usize, usize)>::empty(),
        r.spec_strategy().spec_arena().len() == ARENA_SIZE,
        forall|i: int|
            0 <= i < ARENA_SIZE ==> r.spec_strategy().spec_arena()[i] == ARENA_FILL_BYTE,
        r.spec_factory().spec_reservation() == (MemorySlab { base_address, total_size }),
{
    SwitchableStrategyAllocator::new(
        SimpleAllocatorStrategy::new(),
        VirtualMemoryChunkFactory::new(base_address, total_size),
    )
}

/// The arena: a fixed byte buffer and the count of bytes still unassigned at
/// its top. Addresses returned by `allocate` are offsets into the buffer.
pub struct SimpleAllocatorStrategy {
    arena: Vec<u8>,
    remaining: usize,
    history: Ghost<Seq<(usize, usize)>>,
}

impl SimpleAllocatorStrategy {
    /// Bytes still unassigned at the top of the arena.
    pub closed spec fn spec_remaining(&self) -> usize {
        self.remaining
    }

    pub closed spec fn spec_arena(&self) -> Seq<u8> {
        self.arena@
    }

    /// Offset and size of every allocation granted so far, oldest first.
    pub closed spec fn spec_history(&self) -> Seq<(usize, usize)> {
        self.history@
    }

    pub fn new() -> (r: Self)
        ensures
            r.wf(),
            r.spec_remaining() == ARENA_SIZE,
            r.spec_history() =~= Seq::<(usize, usize)>::empty(),
            r.spec_arena().len() == ARENA_SIZE,
            forall|i: int| 0 <= i < ARENA_SIZE ==> r.spec_arena()[i] == ARENA_FILL_BYTE,
    {
        let mut arena: Vec<u8> = Vec::new();
        let mut i: usize = 0;
        while i < ARENA_SIZE
            invariant
                arena@.len() == i,
                i <= ARENA_SIZE,
                forall|j: int| 0 <= j < i ==> arena@[j] == ARENA_FILL_BYTE,
            decreases ARENA_SIZE - i,
        {
            arena.push(ARENA_FILL_BYTE);
            i = i + 1;
        }
        SimpleAllocatorStrategy { arena, remaining: ARENA_SIZE, history: Ghost(Seq::empty()) }
    }

    /// Bytes still unassigned at the top of the arena.
    pub fn remaining(&self) -> (r: usize)
        ensures
            r == self.spec_remaining(),
    {
        self.remaining
    }

    /// Read one byte of the arena buffer.
    pub fn arena_byte(&self, index: usize) -> (r: u8)
        requires
            self.wf(),
            index < ARENA_SIZE,
        ensures
            r == self.spec_arena()[index as int],
    {
        self.arena[index]
    }
}

impl AllocatorStrategy for SimpleAllocatorStrategy {
    open spec fn wf(&self) -> bool {
        &&& self.spec_arena().len() == ARENA_SIZE
        &&& self.spec_remaining() <= ARENA_SIZE
        &&& forall|i: int|
            0 <= i < self.spec_history().len() ==> self.spec_remaining() <= (
            #[trigger] self.spec_history()[i]).0 && self.spec_history()[i].0
                + self.spec_history()[i].1 <= ARENA_SIZE
        &&& forall|i: int, j: int|
            0 <= i < j < self.spec_history().len() ==> (#[trigger] self.spec_history()[j]).0
                + self.spec_history()[j].1 <= (#[trigger] self.spec_history()[i]).0
    }

    /// The arena's buffer is its own, so it is always usable.
    open spec fn spec_initialised(&self) -> bool {
        true
    }

    open spec fn spec_allocated(&self) -> int {
        ARENA_SIZE - self.spec_remaining()
    }

    open spec fn valid_dealloc(ptr: usize, req: AllocRequest) -> bool {
        true
    }

    /// The arena has no heap notion: `init` is a no-op.
    open spec fn init_ens(pre: Self, post: Self, heap_start: usize, heap_size: usize) -> bool {
        post == pre
    }

    open spec fn alloc_ens(pre: Self, post: Self, req: AllocRequest, result: Option<usize>) -> bool {
        if req.align > MAX_SUPPORTED_ALIGN || req.size > pre.spec_remaining() {
            post == pre && result is None
        } else {
            let c = round_down(pre.spec_remaining() - req.size, req.align as int);
            &&& result matches Some(a) && a == c
            &&& post.spec_remaining() == c
            &&& post.spec_arena() == pre.spec_arena()
            &&& post.spec_history() == pre.spec_history().push((c as usize, req.size))
        }
    }

    /// The arena never reclaims: `dealloc` is a no-op.
    open spec fn dealloc_ens(pre: Self, post: Self, ptr: usize, req: AllocRequest) -> bool {
        post == pre
    }

    fn initialised(&self) -> (r: bool) {
        true
    }

    fn allocated(&self) -> (r: usize) {
        ARENA_SIZE - self.remaining
    }

    fn init(&mut self, heap_start: usize, heap_size: usize) {
    }

    fn allocate(&mut self, req: AllocRequest) -> (r: Option<usize>) {
        let size = req.size;
        let align = req.align;
        if align > MAX_SUPPORTED_ALIGN {
            return None;
        }
        if size > self.remaining {
            return None;
        }
        // retreat the top of the arena, then round it down to the alignment
        let shrunk = self.remaining - size;
        proof {
            lemma_round_down(shrunk as int, align as int);
        }
        let candidate = shrunk - shrunk % align;
        self.remaining = candidate;
        self.history = Ghost(self.history@.push((candidate, size)));
        proof {
            assert forall|i: int, j: int|
                0 <= i < j < self.spec_history().len() implies (#[trigger] self.spec_history()[j]).0
                + self.spec_history()[j].1 <= (#[trigger] self.spec_history()[i]).0 by {
                assert(self.spec_history()[i] == old(self).spec_history()[i]);
                if j < self.spec_history().len() - 1 {
                    assert(self.spec_history()[j] == old(self).spec_history()[j]);
                }
            }
        }
        Some(candidate)
    }

    fn dealloc(&mut self, ptr: usize, req: AllocRequest) {
    }
}

/// Live ranges are pairwise disjoint: any two distinct allocations the arena
/// has granted cover non-overlapping `[offset, offset + size)` spans.
pub proof fn lemma_arena_ranges_disjoint(s: &SimpleAllocatorStrategy, i: int, j: int)
    requires
        s.wf(),
        0 <= i < s.spec_history().len(),
        0 <= j < s.spec_history().len(),
        i != j,
    ensures
        s.spec_history()[i].0 + s.spec_history()[i].1 <= s.spec_history()[j].0
            || s.spec_history()[j].0 + s.spec_history()[j].1 <= s.spec_history()[i].0,
{
}

/// The arena's accounting never exceeds its capacity.
pub proof fn lemma_arena_allocated_bounded(s: &SimpleAllocatorStrategy)
    requires
        s.wf(),
    ensures
        0 <= s.spec_allocated() <= ARENA_SIZE,
{
}

/// `allocated()` is non-decreasing across any operation: `allocate` never
/// shrinks it, and a failing `allocate` leaves the whole state unchanged.
pub proof fn lemma_arena_allocated_monotonic(
    pre: SimpleAllocatorStrategy,
    post: SimpleAllocatorStrategy,
    req: AllocRequest,
    result: Option<usize>,
)
    requires
        pre.wf(),
        req.wf(),
        SimpleAllocatorStrategy::alloc_ens(pre, post, req, result),
    ensures
        post.spec_allocated() >= pre.spec_allocated(),
        result is None ==> post == pre,
{
    if !(req.align > MAX_SUPPORTED_ALIGN || req.size > pre.spec_remaining()) {
        lemma_round_down(pre.spec_remaining() - req.size, req.align as int);
    }
}

/// `dealloc` never reduces `allocated()`: it changes nothing at all.
pub proof fn lemma_arena_dealloc_keeps_state(
    pre: SimpleAllocatorStrategy,
    post: SimpleAllocatorStrategy,
    ptr: usize,
    req: AllocRequest,
)
    requires
        SimpleAllocatorStrategy::dealloc_ens(pre, post, ptr, req),
    ensures
        post == pre,
        post.spec_allocated() == pre.spec_allocated(),
{
}

/// When the alignment is supported and the size fits the remaining capacity,
/// `allocate` succeeds, and the granted range is aligned and lies within the
/// formerly unassigned part of the arena.
pub proof fn lemma_arena_alloc_succeeds(
    pre: SimpleAllocatorStrategy,
    post: SimpleAllocatorStrategy,
    req: AllocRequest,
    result: Option<usize>,
)
    requires
        pre.wf(),
        req.wf(),
        req.align <= MAX_SUPPORTED_ALIGN,
        req.size <= pre.spec_remaining(),
        SimpleAllocatorStrategy::alloc_ens(pre, post, req, result),
    ensures
        result matches Some(a) && a as int % req.align as int == 0 && a + req.size
            <= pre.spec_remaining(),
{
    lemma_round_down(pre.spec_remaining() - req.size, req.align as int);
}

} // verus!
