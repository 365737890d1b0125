//! The allocation-strategy interface and the switchable coordinator that
//! lazily binds one strategy to one factory-provided memory region.

use vstd::prelude::*;

verus! {

use vstd::arithmetic::power2::is_pow2;
use crate::memory::{MemoryChunkFactory, MemorySlab};

/// One allocation request: a byte count and a required alignment.
#[derive(Clone, Copy, PartialEq, Eq, Structural)]
pub struct AllocRequest {
    pub size: usize,
    pub align: usize,
}

impl AllocRequest {
    /// The caller boundary guarantees a nonzero power-of-two alignment.
    pub open spec fn wf(&self) -> bool {
        self.align >= 1 && is_pow2(self.align as int)
    }

    /// The block size a request needs: the larger of its size and its
    /// alignment.
    pub open spec fn spec_required_block_size(&self) -> int {
        if self.size >= self.align {
            self.size as int
        } else {
            self.align as int
        }
    }

    pub fn required_block_size(&self) -> (r: usize)
        ensures
            r as int == self.spec_required_block_size(),
    {
        if self.size >= self.align {
            self.size
        } else {
            self.align
        }
    }
}

/// The polymorphic contract every concrete allocation strategy satisfies:
/// initialization state, bytes-allocated accounting, heap binding,
/// allocation, and deallocation. Each implementor pins its exact behaviour
/// down in the `*_ens` transition relations.
pub trait AllocatorStrategy: Sized {
    /// Internal invariant of the strategy's state.
    spec fn wf(&self) -> bool;

    /// Whether the strategy has a usable backing region.
    spec fn spec_initialised(&self) -> bool;

    /// Bytes the strategy's own accounting considers outstanding.
    spec fn spec_allocated(&self) -> int;

    /// The pointer/request pairs for which `dealloc` is defined: exactly
    /// those that a matching `alloc` of this strategy can have returned.
    spec fn valid_dealloc(ptr: usize, req: AllocRequest) -> bool;

    /// Exact transition relation of `init`.
    spec fn init_ens(pre: Self, post: Self, heap_start: usize, heap_size: usize) -> bool;

    /// Exact transition relation of `alloc`.
    spec fn alloc_ens(pre: Self, post: Self, req: AllocRequest, result: Option<usize>) -> bool;

    /// Exact transition relation of `dealloc`.
    spec fn dealloc_ens(pre: Self, post: Self, ptr: usize, req: AllocRequest) -> bool;

    fn initialised(&self) -> (r: bool)
        requires
            self.wf(),
        ensures
            r == self.spec_initialised(),
    ;

    fn allocated(&self) -> (r: usize)
        requires
            self.wf(),
        ensures
            r as int == self.spec_allocated(),
    ;

    /// Binds the strategy to the memory region starting at `heap_start` of
    /// `heap_size` bytes. Strategies with no heap notion accept this as a
    /// no-op.
    fn init(&mut self, heap_start: usize, heap_size: usize)
        requires
            old(self).wf(),
            heap_start + heap_size <= usize::MAX,
        ensures
            final(self).wf(),
            final(self).spec_initialised(),
            Self::init_ens(*old(self), *final(self), heap_start, heap_size),
    ;

    /// Serves the request or signals failure; never partially serves.
    /// Every address handed out is aligned as requested and may later be
    /// given back through `dealloc` with the same request.
    fn allocate(&mut self, req: AllocRequest) -> (r: Option<usize>)
        requires
            old(self).wf(),
            req.wf(),
        ensures
            final(self).wf(),
            final(self).spec_initialised() == old(self).spec_initialised(),
            (r matches Some(a) ==> a as int % req.align as int == 0 && Self::valid_dealloc(
                a,
                req,
            )),
            Self::alloc_ens(*old(self), *final(self), req, r),
    ;

    /// Takes back a block previously returned by `alloc` for an identical
    /// request; behaviour for other pointer/request pairs is left undefined,
    /// which `valid_dealloc` rules out.
    fn dealloc(&mut self, ptr: usize, req: AllocRequest)
        requires
            old(self).wf(),
            req.wf(),
            Self::valid_dealloc(ptr, req),
        ensures
            final(self).wf(),
            final(self).spec_initialised() == old(self).spec_initialised(),
            Self::dealloc_ens(*old(self), *final(self), ptr, req),
    ;
}

/// Owns one strategy and one factory, and on the first `alloc` or `dealloc`
/// observed while the strategy reports uninitialised, pulls the one memory
/// slab from the factory and binds the strategy to it. A reservation the OS
/// refused (base address 0) or a region that would wrap the address space is
/// surfaced as an initialization failure: the strategy is left untouched and
/// `alloc` fails. Exclusive access is expressed through `&mut self`; a caller
/// that shares the allocator between threads must wrap it in a mutual
/// exclusion boundary of its own.
pub struct SwitchableStrategyAllocator<S: AllocatorStrategy, F: MemoryChunkFactory> {
    strategy: S,
    factory: F,
}

impl<S: AllocatorStrategy, F: MemoryChunkFactory> SwitchableStrategyAllocator<S, F> {
    pub closed spec fn spec_strategy(&self) -> S {
        self.strategy
    }

    pub closed spec fn spec_factory(&self) -> F {
        self.factory
    }

    pub open spec fn wf(&self) -> bool {
        self.spec_strategy().wf()
    }

    pub fn new(strategy: S, factory: F) -> (r: Self)
        requires
            strategy.wf(),
        ensures
            r.wf(),
            r.spec_strategy() == strategy,
            r.spec_factory() == factory,
    {
        SwitchableStrategyAllocator { strategy, factory }
    }

    pub fn initialised(&self) -> (r: bool)
        requires
            self.wf(),
        ensures
            r == self.spec_strategy().spec_initialised(),
    {
        self.strategy.initialised()
    }

    /// Pass-through introspection of the active strategy's accounting.
    pub fn allocated(&self) -> (r: usize)
        requires
            self.wf(),
        ensures
            r as int == self.spec_strategy().spec_allocated(),
    {
        self.strategy.allocated()
    }

    /// Binds the strategy to the factory's slab if that has not happened
    /// yet; returns whether the strategy is initialised afterwards.
    fn ensure_initialised(&mut self) -> (ok: bool)
        requires
            old(self).wf(),
        ensures
            final(self).wf(),
            final(self).spec_factory() == old(self).spec_factory(),
            ok == final(self).spec_strategy().spec_initialised(),
            !ok ==> final(self).spec_strategy() == old(self).spec_strategy(),
            (forall|slab: MemorySlab| #[trigger]
                old(self).spec_factory().create_ens(slab) ==> slab.is_usable()) ==> ok,
            old(self).spec_strategy().spec_initialised() ==>
                final(self).spec_strategy() == old(self).spec_strategy(),
            (!old(self).spec_strategy().spec_initialised() && ok) ==> exists|slab: MemorySlab|
                old(self).spec_factory().create_ens(slab) && slab.is_usable()
                    && #[trigger] S::init_ens(
                    old(self).spec_strategy(),
                    final(self).spec_strategy(),
                    slab.base_address,
                    slab.total_size,
                ),
    {
        if self.strategy.initialised() {
            return true;
        }
        let slab = self.factory.create();
        if slab.base_address == 0 {
            // the OS refused the reservation
            proof {
                assert(self.spec_factory().create_ens(slab) && !slab.is_usable());
            }
            return false;
        }
        if slab.total_size > usize::MAX - slab.base_address {
            // the region would wrap the address space
            proof {
                assert(self.spec_factory().create_ens(slab) && !slab.is_usable());
            }
            return false;
        }
        self.strategy.init(slab.base_address, slab.total_size);
        proof {
            assert(self.spec_factory().create_ens(slab) && slab.is_usable() && S::init_ens(
                old(self).spec_strategy(),
                self.spec_strategy(),
                slab.base_address,
                slab.total_size,
            ));
        }
        true
    }

    /// Serves the request through the wrapped strategy, binding the backing
    /// region first if needed. Fails without touching the strategy when the
    /// factory's reservation is unusable.
    pub fn allocate(&mut self, req: AllocRequest) -> (r: Option<usize>)
        requires
            old(self).wf(),
            req.wf(),
        ensures
            final(self).wf(),
            final(self).spec_factory() == old(self).spec_factory(),
            (r matches Some(a) ==> a as int % req.align as int == 0 && S::valid_dealloc(a, req)),
            !final(self).spec_strategy().spec_initialised() ==> r is None
                && final(self).spec_strategy() == old(self).spec_strategy(),
            (forall|slab: MemorySlab| #[trigger]
                old(self).spec_factory().create_ens(slab) ==> slab.is_usable())
                ==> final(self).spec_strategy().spec_initialised(),
            old(self).spec_strategy().spec_initialised() ==> S::alloc_ens(
                old(self).spec_strategy(),
                final(self).spec_strategy(),
                req,
                r,
            ),
            (!old(self).spec_strategy().spec_initialised()
                && final(self).spec_strategy().spec_initialised())
                ==> exists|slab: MemorySlab, mid: S|
                old(self).spec_factory().create_ens(slab) && slab.is_usable()
                    && #[trigger] S::init_ens(
                    old(self).spec_strategy(),
                    mid,
                    slab.base_address,
                    slab.total_size,
                ) && S::alloc_ens(mid, final(self).spec_strategy(), req, r),
    {
        if !self.ensure_initialised() {
            return None;
        }
        let ghost mid = self.strategy;
        let r = self.strategy.allocate(req);
        proof {
            if !old(self).spec_strategy().spec_initialised() {
                let slab = choose|slab: MemorySlab|
                    old(self).spec_factory().create_ens(slab) && slab.is_usable()
                        && #[trigger] S::init_ens(
                        old(self).spec_strategy(),
                        mid,
                        slab.base_address,
                        slab.total_size,
                    );
                assert(old(self).spec_factory().create_ens(slab) && slab.is_usable()
                    && S::init_ens(
                    old(self).spec_strategy(),
                    mid,
                    slab.base_address,
                    slab.total_size,
                ) && S::alloc_ens(mid, self.spec_strategy(), req, r));
            }
        }
        r
    }

    /// Hands the block back to the wrapped strategy, binding the backing
    /// region first if needed. When the factory's reservation is unusable
    /// the strategy is left untouched.
    pub fn dealloc(&mut self, ptr: usize, req: AllocRequest)
        requires
            old(self).wf(),
            req.wf(),
            S::valid_dealloc(ptr, req),
        ensures
            final(self).wf(),
            final(self).spec_factory() == old(self).spec_factory(),
            !final(self).spec_strategy().spec_initialised() ==>
                final(self).spec_strategy() == old(self).spec_strategy(),
            (forall|slab: MemorySlab| #[trigger]
                old(self).spec_factory().create_ens(slab) ==> slab.is_usable())
                ==> final(self).spec_strategy().spec_initialised(),
            old(self).spec_strategy().spec_initialised() ==> S::dealloc_ens(
                old(self).spec_strategy(),
                final(self).spec_strategy(),
                ptr,
                req,
            ),
            (!old(self).spec_strategy().spec_initialised()
                && final(self).spec_strategy().spec_initialised())
                ==> exists|slab: MemorySlab, mid: S|
                old(self).spec_factory().create_ens(slab) && slab.is_usable()
                    && #[trigger] S::init_ens(
                    old(self).spec_strategy(),
                    mid,
                    slab.base_address,
                    slab.total_size,
                ) && S::dealloc_ens(mid, final(self).spec_strategy(), ptr, req),
    {
        if !self.ensure_initialised() {
            return ;
        }
        let ghost mid = self.strategy;
        self.strategy.dealloc(ptr, req);
        proof {
            if !old(self).spec_strategy().spec_initialised() {
                let slab = choose|slab: MemorySlab|
                    old(self).spec_factory().create_ens(slab) && slab.is_usable()
                        && #[trigger] S::init_ens(
                        old(self).spec_strategy(),
                        mid,
                        slab.base_address,
                        slab.total_size,
                    );
                assert(old(self).spec_factory().create_ens(slab) && slab.is_usable()
                    && S::init_ens(
                    old(self).spec_strategy(),
                    mid,
                    slab.base_address,
                    slab.total_size,
                ) && S::dealloc_ens(mid, self.spec_strategy(), ptr, req));
            }
        }
    }
}

} // verus!
