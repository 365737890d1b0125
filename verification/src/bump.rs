//! The bump fallback strategy: monotonic, non-reusing allocation from a heap
//! region bound at `init`. It hands out addresses by advancing a single
//! cursor, reports the cumulative bytes it has granted, and never reclaims;
//! the size-classed strategy consumes it for minting fresh blocks.

use vstd::prelude::*;

verus! {

use crate::align::{lemma_round_up, round_up};
use crate::allocator::{AllocRequest, AllocatorStrategy};

pub struct BumpAllocatorStrategy {
    heap_start: usize,
    heap_end: usize,
    next: usize,
    granted: usize,
    bound: bool,
}

impl BumpAllocatorStrategy {
    pub closed spec fn spec_heap_start(&self) -> usize {
        self.heap_start
    }

    pub closed spec fn spec_heap_end(&self) -> usize {
        self.heap_end
    }

    /// The cursor: the lowest address not yet handed out.
    pub closed spec fn spec_next(&self) -> usize {
        self.next
    }

    /// Cumulative bytes granted since the heap was bound.
    pub closed spec fn spec_granted(&self) -> usize {
        self.granted
    }

    pub closed spec fn spec_bound(&self) -> bool {
        self.bound
    }

    pub fn new() -> (r: Self)
        ensures
            r.wf(),
            !r.spec_initialised(),
            r.spec_allocated() == 0,
            r.spec_heap_start() == 0,
            r.spec_heap_end() == 0,
            r.spec_next() == 0,
    {
        BumpAllocatorStrategy {
            heap_start: 0,
            heap_end: 0,
            next: 0,
            granted: 0,
            bound: false,
        }
    }
}

impl AllocatorStrategy for BumpAllocatorStrategy {
    open spec fn wf(&self) -> bool {
        &&& self.spec_heap_start() <= self.spec_next() <= self.spec_heap_end()
        &&& self.spec_granted() <= self.spec_next() - self.spec_heap_start()
    }

    open spec fn spec_initialised(&self) -> bool {
        self.spec_bound()
    }

    open spec fn spec_allocated(&self) -> int {
        self.spec_granted() as int
    }

    /// Any block a bump `alloc` returned may be handed back (it is ignored).
    open spec fn valid_dealloc(ptr: usize, req: AllocRequest) -> bool {
        true
    }

    open spec fn init_ens(pre: Self, post: Self, heap_start: usize, heap_size: usize) -> bool {
        &&& post.spec_heap_start() == heap_start
        &&& post.spec_heap_end() as int == heap_start + heap_size
        &&& post.spec_next() == heap_start
        &&& post.spec_granted() == 0
        &&& post.spec_bound()
    }

    open spec fn alloc_ens(pre: Self, post: Self, req: AllocRequest, result: Option<usize>) -> bool {
        if !pre.spec_initialised() {
            post == pre && result is None
        } else {
            let aligned = round_up(pre.spec_next() as int, req.align as int);
            if aligned + req.size <= pre.spec_heap_end() {
                &&& result matches Some(a) && a == aligned
                &&& post.spec_next() as int == aligned + req.size
                &&& post.spec_granted() as int == pre.spec_granted() + req.size
                &&& post.spec_heap_start() == pre.spec_heap_start()
                &&& post.spec_heap_end() == pre.spec_heap_end()
                &&& post.spec_bound() == pre.spec_bound()
            } else {
                post == pre && result is None
            }
        }
    }

    /// The bump strategy never reuses freed space: `dealloc` is a no-op.
    open spec fn dealloc_ens(pre: Self, post: Self, ptr: usize, req: AllocRequest) -> bool {
        post == pre
    }

    fn initialised(&self) -> (r: bool) {
        self.bound
    }

    fn allocated(&self) -> (r: usize) {
        self.granted
    }

    fn init(&mut self, heap_start: usize, heap_size: usize) {
        self.heap_start = heap_start;
        self.heap_end = heap_start + heap_size;
        self.next = heap_start;
        self.granted = 0;
        self.bound = true;
    }

    fn allocate(&mut self, req: AllocRequest) -> (r: Option<usize>) {
        if !self.bound {
            return None;
        }
        let size = req.size;
        let align = req.align;
        proof {
            lemma_round_up(self.next as int, align as int);
        }
        // round the cursor up to the next alignment boundary
        let rem = self.next % align;
        let pad = if rem == 0 {
            0
        } else {
            align - rem
        };
        if pad > usize::MAX - self.next {
            return None;
        }
        let aligned = self.next + pad;
        if aligned > self.heap_end {
            return None;
        }
        if size > self.heap_end - aligned {
            return None;
        }
        self.next = aligned + size;
        self.granted = self.granted + size;
        Some(aligned)
    }

    fn dealloc(&mut self, ptr: usize, req: AllocRequest) {
    }
}

} // verus!
