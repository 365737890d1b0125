use allocators::allocator::{AllocRequest, AllocatorStrategy};
use allocators::bump::BumpAllocatorStrategy;
use allocators::dynamic::{
    block_size_of, page_block_index, FixedSizeBlockAllocatorStrategy, BLOCK_CLASS_COUNT,
};

fn req(size: usize, align: usize) -> AllocRequest {
    AllocRequest { size, align }
}

const HEAP_BASE: usize = 4096;
const HEAP_LEN: usize = 1 << 20;

fn strategy() -> FixedSizeBlockAllocatorStrategy<BumpAllocatorStrategy> {
    let mut fallback = BumpAllocatorStrategy::new();
    fallback.init(HEAP_BASE, HEAP_LEN);
    FixedSizeBlockAllocatorStrategy::new(fallback)
}

#[test]
fn block_size_table_is_ascending_powers_of_two() {
    let mut previous = 4;
    for i in 0..BLOCK_CLASS_COUNT {
        let size = block_size_of(i);
        assert_eq!(size, previous * 2);
        assert!(size.is_power_of_two());
        previous = size;
    }
}

#[test]
fn class_selection_is_smallest_fit() {
    // the class covers max(size, align)
    assert_eq!(page_block_index(&req(1, 1)), Some(0));
    assert_eq!(page_block_index(&req(8, 8)), Some(0));
    assert_eq!(page_block_index(&req(9, 1)), Some(1));
    assert_eq!(page_block_index(&req(16, 8)), Some(1));
    assert_eq!(page_block_index(&req(100, 128)), Some(4));
    assert_eq!(page_block_index(&req(2048, 1)), Some(8));
    assert_eq!(page_block_index(&req(2049, 1)), None);
    assert_eq!(page_block_index(&req(1, 4096)), None);
}

#[test]
fn fresh_block_then_reuse_returns_identical_address() {
    let mut s = strategy();
    // empty free lists: the 16-byte class block is minted by the fallback
    let first = s.allocate(req(16, 8)).expect("fallback has room");
    assert_eq!(first % 16, 0);
    assert_eq!(s.free_list_len(1), 0);

    s.dealloc(first, req(16, 8));
    assert_eq!(s.free_list_len(1), 1);

    // the parked block is reused: the identical address comes back
    let second = s.allocate(req(16, 8)).expect("free list is non-empty");
    assert_eq!(second, first);
    assert_eq!(s.free_list_len(1), 0);
}

#[test]
fn oversized_requests_bypass_the_class_layer() {
    let mut s = strategy();
    // 4096 exceeds the largest class (2048): forwarded verbatim
    let addr = s.allocate(req(4096, 1)).expect("fallback has room");
    assert_eq!(s.allocated(), 4096);
    s.dealloc(addr, req(4096, 1));
    // the corresponding dealloc is forwarded too and touches no free list
    for class in 0..BLOCK_CLASS_COUNT {
        assert_eq!(s.free_list_len(class), 0);
    }
    // the bump fallback reclaims nothing
    assert_eq!(s.allocated(), 4096);
}

#[test]
fn accounting_delegates_to_the_fallback() {
    let mut s = strategy();
    assert_eq!(s.allocated(), 0);
    let a = s.allocate(req(16, 8)).unwrap();
    assert_eq!(s.allocated(), 16);
    // any number of dealloc / reuse cycles leaves the count untouched
    for _ in 0..10 {
        s.dealloc(a, req(16, 8));
        assert_eq!(s.allocated(), 16);
        assert_eq!(s.allocate(req(16, 8)), Some(a));
        assert_eq!(s.allocated(), 16);
    }
    // a second live block of the class needs a fresh mint
    let b = s.allocate(req(16, 8)).unwrap();
    assert_ne!(b, a);
    assert_eq!(s.allocated(), 32);
}

#[test]
fn minted_blocks_are_naturally_aligned_to_their_class() {
    let mut s = strategy();
    for &(size, align, class_size) in
        &[(1usize, 1usize, 8usize), (10, 1, 16), (100, 4, 128), (2000, 8, 2048)]
    {
        let addr = s.allocate(req(size, align)).expect("fallback has room");
        assert_eq!(addr % class_size, 0);
        assert_eq!(addr % align, 0);
    }
}

#[test]
fn reuse_serves_same_class_smaller_request() {
    let mut s = strategy();
    let a = s.allocate(req(16, 8)).unwrap();
    s.dealloc(a, req(16, 8));
    // 9 bytes at alignment 1 falls in the same 16-byte class
    assert_eq!(s.allocate(req(9, 1)), Some(a));
}

#[test]
fn uninitialised_fallback_fails_class_mints() {
    let mut s = FixedSizeBlockAllocatorStrategy::new(BumpAllocatorStrategy::new());
    assert!(!s.initialised());
    assert_eq!(s.allocate(req(16, 8)), None);
    // but a parked block can still be reused without any fallback
    s.dealloc(32, req(16, 8));
    assert_eq!(s.allocate(req(16, 8)), Some(32));
}
