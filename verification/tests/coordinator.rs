use allocators::allocator::{AllocRequest, AllocatorStrategy, SwitchableStrategyAllocator};
use allocators::bump::BumpAllocatorStrategy;
use allocators::dynamic::fixed_size_block_allocator;
use allocators::memory::{MemoryChunkFactory, MemorySlab, VirtualMemoryChunkFactory, HEAP_SIZE};

fn req(size: usize, align: usize) -> AllocRequest {
    AllocRequest { size, align }
}

#[test]
fn factory_hands_the_reservation_on_unchanged() {
    let f = VirtualMemoryChunkFactory::new(1 << 30, HEAP_SIZE);
    let slab: MemorySlab = f.create();
    assert_eq!(slab.base_address, 1 << 30);
    assert_eq!(slab.total_size, HEAP_SIZE);
}

#[test]
fn first_use_binds_the_strategy_lazily() {
    let mut a = fixed_size_block_allocator(1 << 30, HEAP_SIZE);
    assert!(!a.initialised());
    assert_eq!(a.allocated(), 0);

    let addr = a.allocate(req(16, 8)).expect("the heap has room");
    assert!(a.initialised());
    // the first minted block sits at the start of the reserved region
    assert_eq!(addr, 1 << 30);
    assert_eq!(a.allocated(), 16);
}

#[test]
fn failed_reservation_is_an_initialization_failure() {
    // base address 0 is the reservation-failed sentinel
    let mut a = fixed_size_block_allocator(0, HEAP_SIZE);
    assert_eq!(a.allocate(req(16, 8)), None);
    assert!(!a.initialised());
    assert_eq!(a.allocated(), 0);
}

#[test]
fn wrapping_reservation_is_an_initialization_failure() {
    let mut a = fixed_size_block_allocator(usize::MAX - 1024, HEAP_SIZE);
    assert_eq!(a.allocate(req(16, 8)), None);
    assert!(!a.initialised());
}

#[test]
fn dealloc_also_triggers_lazy_binding() {
    let mut a = fixed_size_block_allocator(1 << 30, HEAP_SIZE);
    assert!(!a.initialised());
    a.dealloc(4096, req(16, 8));
    assert!(a.initialised());
    // the parked block is reused before the fallback is asked
    assert_eq!(a.allocate(req(16, 8)), Some(4096));
}

#[test]
fn round_trip_through_the_coordinator() {
    let mut a = fixed_size_block_allocator(1 << 30, HEAP_SIZE);
    let addr = a.allocate(req(64, 64)).expect("the heap has room");
    assert_eq!(addr % 64, 0);
    a.dealloc(addr, req(64, 64));
    assert_eq!(a.allocate(req(64, 64)), Some(addr));
    assert_eq!(a.allocated(), 64);
}

#[test]
fn coordinator_over_a_plain_bump_strategy() {
    let mut a = SwitchableStrategyAllocator::new(
        BumpAllocatorStrategy::new(),
        VirtualMemoryChunkFactory::new(1000, 100000),
    );
    // bump: cursor starts at the heap base and is rounded up per request
    assert_eq!(a.allocate(req(8, 16)), Some(1008));
    assert_eq!(a.allocate(req(5, 1)), Some(1016));
    assert_eq!(a.allocated(), 13);
    // dealloc reclaims nothing
    a.dealloc(1008, req(8, 16));
    assert_eq!(a.allocated(), 13);
    // exhaustion fails the whole request and changes nothing
    assert_eq!(a.allocate(req(1 << 20, 1)), None);
    assert_eq!(a.allocated(), 13);
}
