//! The fixed-size-block strategy: requests are bucketed into a fixed
//! ascending table of block-size classes, each with its own stack of
//! previously freed, same-class block addresses; fresh blocks are minted by a
//! wrapped fallback strategy. A freed block is parked in its class's stack
//! (never returned to the fallback) and reused for the next same-class
//! request. Requests larger than the largest class bypass this layer
//! entirely and go to the fallback unchanged.

use vstd::prelude::*;

verus! {

use vstd::arithmetic::power2::is_pow2;
use crate::align::{lemma_divides_trans, lemma_pow2_divides};
use crate::allocator::{AllocRequest, AllocatorStrategy, SwitchableStrategyAllocator};
use crate::bump::BumpAllocatorStrategy;
use crate::memory::{MemorySlab, VirtualMemoryChunkFactory};

/// Number of configured block-size classes.
pub const BLOCK_CLASS_COUNT: usize = 9;

/// The block-size classes, ascending. Each block's alignment equals its
/// size, so a class address is always naturally aligned to the class size.
pub open spec fn spec_block_sizes() -> Seq<usize> {
    seq![8usize, 16usize, 32usize, 64usize, 128usize, 256usize, 512usize, 1024usize, 2048usize]
}

/// The size of one block-size class.
pub fn block_size_of(index: usize) -> (r: usize)
    requires
        index < BLOCK_CLASS_COUNT,
    ensures
        r == spec_block_sizes()[index as int],
{
    if index == 0 {
        8
    } else if index == 1 {
        16
    } else if index == 2 {
        32
    } else if index == 3 {
        64
    } else if index == 4 {
        128
    } else if index == 5 {
        256
    } else if index == 6 {
        512
    } else if index == 7 {
        1024
    } else {
        2048
    }
}

/// The class a request falls in: the first class whose size is at least the
/// required block size, or nothing when even the largest class is too small.
pub open spec fn spec_class_for(req: AllocRequest) -> Option<int> {
    let required = req.spec_required_block_size();
    if required <= 8 {
        Some(0int)
    } else if required <= 16 {
        Some(1int)
    } else if required <= 32 {
        Some(2int)
    } else if required <= 64 {
        Some(3int)
    } else if required <= 128 {
        Some(4int)
    } else if required <= 256 {
        Some(5int)
    } else if required <= 512 {
        Some(6int)
    } else if required <= 1024 {
        Some(7int)
    } else if required <= 2048 {
        Some(8int)
    } else {
        None
    }
}

/// The chosen class is the smallest configured class that fits the request's
/// required block size; when no class fits, the required size exceeds the
/// largest class.
pub proof fn lemma_class_is_smallest_fit(req: AllocRequest)
    ensures
        match spec_class_for(req) {
            Some(i) => 0 <= i < BLOCK_CLASS_COUNT && spec_block_sizes()[i]
                >= req.spec_required_block_size() && (forall|j: int|
                0 <= j < i ==> spec_block_sizes()[j] < req.spec_required_block_size()),
            None => forall|j: int|
                0 <= j < BLOCK_CLASS_COUNT ==> spec_block_sizes()[j]
                    < req.spec_required_block_size(),
        },
{
    assert(spec_block_sizes()[0] == 8);
    assert(spec_block_sizes()[1] == 16);
    assert(spec_block_sizes()[2] == 32);
    assert(spec_block_sizes()[3] == 64);
    assert(spec_block_sizes()[4] == 128);
    assert(spec_block_sizes()[5] == 256);
    assert(spec_block_sizes()[6] == 512);
    assert(spec_block_sizes()[7] == 1024);
    assert(spec_block_sizes()[8] == 2048);
}

/// Every class size is a power of two between 8 and 2048.
pub proof fn lemma_block_sizes_pow2()
    ensures
        forall|i: int|
            0 <= i < BLOCK_CLASS_COUNT ==> is_pow2((#[trigger] spec_block_sizes()[i]) as int) && 8
                <= spec_block_sizes()[i] <= 2048,
{
    reveal_with_fuel(is_pow2, 13);
    assert(spec_block_sizes()[0] == 8 && is_pow2(8));
    assert(spec_block_sizes()[1] == 16 && is_pow2(16));
    assert(spec_block_sizes()[2] == 32 && is_pow2(32));
    assert(spec_block_sizes()[3] == 64 && is_pow2(64));
    assert(spec_block_sizes()[4] == 128 && is_pow2(128));
    assert(spec_block_sizes()[5] == 256 && is_pow2(256));
    assert(spec_block_sizes()[6] == 512 && is_pow2(512));
    assert(spec_block_sizes()[7] == 1024 && is_pow2(1024));
    assert(spec_block_sizes()[8] == 2048 && is_pow2(2048));
}

/// Index of the first class large enough for the request, or `None` when the
/// request exceeds the largest class and bypasses the class layer.
pub fn page_block_index(req: &AllocRequest) -> (r: Option<usize>)
    ensures
        match r {
            Some(i) => spec_class_for(*req) == Some(i as int),
            None => spec_class_for(*req) is None,
        },
{
    proof {
        lemma_class_is_smallest_fit(*req);
    }
    let required = req.required_block_size();
    let mut i: usize = 0;
    while i < BLOCK_CLASS_COUNT
        invariant
            i <= BLOCK_CLASS_COUNT,
            required as int == req.spec_required_block_size(),
            forall|j: int| 0 <= j < i ==> spec_block_sizes()[j] < required,
        decreases BLOCK_CLASS_COUNT - i,
    {
        if block_size_of(i) >= required {
            proof {
                lemma_class_is_smallest_fit(*req);
                if spec_class_for(*req) is Some {
                    let k = spec_class_for(*req).unwrap();
                    if k < i {
                        assert(spec_block_sizes()[k] < required);
                    }
                    if k > i {
                        assert(spec_block_sizes()[i as int] < required);
                    }
                } else {
                    assert(spec_block_sizes()[i as int] < required);
                }
            }
            return Some(i);
        }
        i = i + 1;
    }
    None
}

/// The request for one fresh block of a class: size and alignment both equal
/// to the class size.
pub open spec fn spec_block_request(i: int) -> AllocRequest {
    AllocRequest { size: spec_block_sizes()[i], align: spec_block_sizes()[i] }
}

pub type FixedSizeBlockAllocator = SwitchableStrategyAllocator<
    FixedSizeBlockAllocatorStrategy<BumpAllocatorStrategy>,
    VirtualMemoryChunkFactory,
>;

/// A fixed-size-block allocator over a bump fallback, behind the
/// coordinator. `base_address` and `total_size` describe the OS reservation
/// the factory will hand out on first use.
pub fn fixed_size_block_allocator(base_address: usize, total_size: usize) -> (r:
    FixedSizeBlockAllocator)
    ensures
        r.wf(),
        !r.spec_strategy().spec_initialised(),
        r.spec_strategy().spec_allocated() == 0,
        forall|i: int|
            0 <= i < BLOCK_CLASS_COUNT ==> (#[trigger] r.spec_strategy().spec_free_lists()[i]).len()
                == 0,
        r.spec_factory().spec_reservation() == (MemorySlab { base_address, total_size }),
{
    SwitchableStrategyAllocator::new(
        FixedSizeBlockAllocatorStrategy::new(BumpAllocatorStrategy::new()),
        VirtualMemoryChunkFactory::new(base_address, total_size),
    )
}

/// The size-classed strategy: one stack of freed block addresses per class
/// (the parked blocks of that class), plus the wrapped fallback used to mint
/// fresh blocks.
pub struct FixedSizeBlockAllocatorStrategy<FA: AllocatorStrategy> {
    page_blocks: Vec<Vec<usize>>,
    fallback_allocator: FA,
}

impl<FA: AllocatorStrategy> FixedSizeBlockAllocatorStrategy<FA> {
    /// The freed, not yet reused block addresses of each class, in stack
    /// order: the last element is reused first.
    pub closed spec fn spec_free_lists(&self) -> Seq<Seq<usize>> {
        self.page_blocks@.map_values(|v: Vec<usize>| v@)
    }

    pub closed spec fn spec_fallback(&self) -> FA {
        self.fallback_allocator
    }

    pub fn new(fallback_allocator: FA) -> (r: Self)
        requires
            fallback_allocator.wf(),
        ensures
            r.wf(),
            r.spec_fallback() == fallback_allocator,
            forall|i: int|
                0 <= i < BLOCK_CLASS_COUNT ==> (#[trigger] r.spec_free_lists()[i]).len() == 0,
    {
        let mut page_blocks: Vec<Vec<usize>> = Vec::new();
        let mut i: usize = 0;
        while i < BLOCK_CLASS_COUNT
            invariant
                page_blocks@.len() == i,
                i <= BLOCK_CLASS_COUNT,
                forall|j: int| 0 <= j < i ==> (#[trigger] page_blocks@[j])@.len() == 0,
            decreases BLOCK_CLASS_COUNT - i,
        {
            page_blocks.push(Vec::new());
            i = i + 1;
        }
        let r = FixedSizeBlockAllocatorStrategy { page_blocks, fallback_allocator };
        proof {
            assert(forall|i: int|
                0 <= i < BLOCK_CLASS_COUNT ==> (#[trigger] r.spec_free_lists()[i]).len() == 0);
        }
        r
    }

    /// Number of parked blocks in one class's free list.
    pub fn free_list_len(&self, class: usize) -> (r: usize)
        requires
            self.wf(),
            class < BLOCK_CLASS_COUNT,
        ensures
            r == self.spec_free_lists()[class as int].len(),
    {
        self.page_blocks[class].len()
    }
}

impl<FA: AllocatorStrategy> AllocatorStrategy for FixedSizeBlockAllocatorStrategy<FA> {
    open spec fn wf(&self) -> bool {
        &&& self.spec_free_lists().len() == BLOCK_CLASS_COUNT
        &&& self.spec_fallback().wf()
        &&& forall|i: int, j: int|
            0 <= i < BLOCK_CLASS_COUNT && 0 <= j < self.spec_free_lists()[i].len() ==> (
            #[trigger] self.spec_free_lists()[i][j]) as int % spec_block_sizes()[i] as int == 0
    }

    open spec fn spec_initialised(&self) -> bool {
        self.spec_fallback().spec_initialised()
    }

    /// Accounting delegates entirely to the fallback: bytes parked in free
    /// lists are not subtracted, and reuse from a free list adds nothing.
    open spec fn spec_allocated(&self) -> int {
        self.spec_fallback().spec_allocated()
    }

    /// A block of a qualifying class is naturally aligned to its class size;
    /// anything past the largest class was the fallback's allocation.
    open spec fn valid_dealloc(ptr: usize, req: AllocRequest) -> bool {
        match spec_class_for(req) {
            Some(i) => ptr as int % spec_block_sizes()[i] as int == 0,
            None => FA::valid_dealloc(ptr, req),
        }
    }

    open spec fn init_ens(pre: Self, post: Self, heap_start: usize, heap_size: usize) -> bool {
        &&& post.spec_free_lists() == pre.spec_free_lists()
        &&& FA::init_ens(pre.spec_fallback(), post.spec_fallback(), heap_start, heap_size)
    }

    open spec fn alloc_ens(pre: Self, post: Self, req: AllocRequest, result: Option<usize>) -> bool {
        match spec_class_for(req) {
            Some(i) => if pre.spec_free_lists()[i].len() > 0 {
                // reuse: pop the class's most recently parked block
                &&& result matches Some(a) && a == pre.spec_free_lists()[i].last()
                &&& post.spec_free_lists() == pre.spec_free_lists().update(
                    i,
                    pre.spec_free_lists()[i].drop_last(),
                )
                &&& post.spec_fallback() == pre.spec_fallback()
            } else {
                // mint: one fresh block of exactly the class size
                &&& post.spec_free_lists() == pre.spec_free_lists()
                &&& FA::alloc_ens(
                    pre.spec_fallback(),
                    post.spec_fallback(),
                    spec_block_request(i),
                    result,
                )
            },
            None => {
                // forwarded verbatim to the fallback; no free list is touched
                &&& post.spec_free_lists() == pre.spec_free_lists()
                &&& FA::alloc_ens(pre.spec_fallback(), post.spec_fallback(), req, result)
            },
        }
    }

    open spec fn dealloc_ens(pre: Self, post: Self, ptr: usize, req: AllocRequest) -> bool {
        match spec_class_for(req) {
            Some(i) => {
                // the freed block is parked on its class's stack
                &&& post.spec_free_lists() == pre.spec_free_lists().update(
                    i,
                    pre.spec_free_lists()[i].push(ptr),
                )
                &&& post.spec_fallback() == pre.spec_fallback()
            },
            None => {
                // forwarded verbatim to the fallback; no free list is touched
                &&& post.spec_free_lists() == pre.spec_free_lists()
                &&& FA::dealloc_ens(pre.spec_fallback(), post.spec_fallback(), ptr, req)
            },
        }
    }

    fn initialised(&self) -> (r: bool) {
        self.fallback_allocator.initialised()
    }

    fn allocated(&self) -> (r: usize) {
        self.fallback_allocator.allocated()
    }

    fn init(&mut self, heap_start: usize, heap_size: usize) {
        self.fallback_allocator.init(heap_start, heap_size);
    }

    fn allocate(&mut self, req: AllocRequest) -> (r: Option<usize>) {
        proof {
            lemma_class_is_smallest_fit(req);
            lemma_block_sizes_pow2();
        }
        match page_block_index(&req) {
            Some(index) => {
                let ghost i = index as int;
                let list = &mut self.page_blocks[index];
                let head = list.pop();
                match head {
                    Some(addr) => {
                        proof {
                            assert(self.spec_free_lists() =~= old(self).spec_free_lists().update(
                                i,
                                old(self).spec_free_lists()[i].drop_last(),
                            ));
                            assert(addr == old(self).spec_free_lists()[i].last());
                            lemma_class_alignment_carries::<FA>(addr, req, i);
                        }
                        Some(addr)
                    },
                    None => {
                        proof {
                            assert(self.spec_free_lists() =~= old(self).spec_free_lists());
                        }
                        let bs = block_size_of(index);
                        let block_req = AllocRequest { size: bs, align: bs };
                        let r = self.fallback_allocator.allocate(block_req);
                        proof {
                            if let Some(a) = r {
                                lemma_class_alignment_carries::<FA>(a, req, i);
                            }
                        }
                        r
                    },
                }
            },
            None => self.fallback_allocator.allocate(req),
        }
    }

    fn dealloc(&mut self, ptr: usize, req: AllocRequest) {
        proof {
            lemma_class_is_smallest_fit(req);
        }
        match page_block_index(&req) {
            Some(index) => {
                let ghost i = index as int;
                proof {
                    // structural precondition on the class table: every class
                    // is large enough, in both size and alignment, to host
                    // one freed-block record (one address of 8 bytes)
                    lemma_block_sizes_pow2();
                    assert(8 <= spec_block_sizes()[i]);
                }
                let list = &mut self.page_blocks[index];
                list.push(ptr);
                proof {
                    assert(self.spec_free_lists() =~= old(self).spec_free_lists().update(
                        i,
                        old(self).spec_free_lists()[i].push(ptr),
                    ));
                }
            },
            None => {
                self.fallback_allocator.dealloc(ptr, req);
            },
        }
    }
}

/// An address aligned to a class's size is aligned to the alignment of any
/// request that falls in that class.
proof fn lemma_class_alignment_carries<FA: AllocatorStrategy>(
    addr: usize,
    req: AllocRequest,
    i: int,
)
    requires
        req.wf(),
        spec_class_for(req) == Some(i),
        addr as int % spec_block_sizes()[i] as int == 0,
    ensures
        addr as int % req.align as int == 0,
        FixedSizeBlockAllocatorStrategy::<FA>::valid_dealloc(addr, req),
{
    lemma_class_is_smallest_fit(req);
    lemma_block_sizes_pow2();
    let bs = spec_block_sizes()[i] as int;
    assert(req.align as int <= req.spec_required_block_size());
    lemma_pow2_divides(req.align as int, bs);
    lemma_divides_trans(addr as int, bs, req.align as int);
}

/// The strategy's accounting always equals its fallback's: it neither
/// subtracts bytes parked in free lists nor adds anything for blocks served
/// from free-list reuse.
pub proof fn lemma_allocated_delegates<FA: AllocatorStrategy>(
    s: &FixedSizeBlockAllocatorStrategy<FA>,
)
    ensures
        s.spec_allocated() == s.spec_fallback().spec_allocated(),
{
}

/// A dealloc of a qualifying class, immediately followed by an allocation
/// that falls in the same class, returns the exact same address out of the
/// free list, without invoking the fallback.
pub proof fn lemma_round_trip_reuse<FA: AllocatorStrategy>(
    s0: FixedSizeBlockAllocatorStrategy<FA>,
    s1: FixedSizeBlockAllocatorStrategy<FA>,
    s2: FixedSizeBlockAllocatorStrategy<FA>,
    ptr: usize,
    req: AllocRequest,
    req2: AllocRequest,
    result: Option<usize>,
)
    requires
        s0.wf(),
        spec_class_for(req) matches Some(i) && spec_class_for(req2) == Some(i),
        FixedSizeBlockAllocatorStrategy::<FA>::dealloc_ens(s0, s1, ptr, req),
        FixedSizeBlockAllocatorStrategy::<FA>::alloc_ens(s1, s2, req2, result),
    ensures
        result == Some(ptr),
        s2.spec_fallback() == s1.spec_fallback(),
        s2.spec_free_lists() =~= s0.spec_free_lists(),
{
    let i = spec_class_for(req).unwrap();
    lemma_class_is_smallest_fit(req);
    assert(s1.spec_free_lists()[i].last() == ptr);
    assert(s1.spec_free_lists()[i].drop_last() =~= s0.spec_free_lists()[i]);
}

/// Any number of dealloc / alloc-from-free-list cycles leaves the fallback,
/// and with it `allocated()`, untouched: one step of either kind keeps the
/// accounting exactly.
pub proof fn lemma_recycling_keeps_accounting<FA: AllocatorStrategy>(
    pre: FixedSizeBlockAllocatorStrategy<FA>,
    post: FixedSizeBlockAllocatorStrategy<FA>,
    ptr: usize,
    req: AllocRequest,
    req2: AllocRequest,
    result: Option<usize>,
)
    ensures
        spec_class_for(req) is Some && FixedSizeBlockAllocatorStrategy::<FA>::dealloc_ens(
            pre,
            post,
            ptr,
            req,
        ) ==> post.spec_allocated() == pre.spec_allocated(),
        (spec_class_for(req2) matches Some(i) && pre.spec_free_lists()[i].len() > 0
            && FixedSizeBlockAllocatorStrategy::<FA>::alloc_ens(pre, post, req2, result))
            ==> post.spec_allocated() == pre.spec_allocated(),
{
}

} // verus!
