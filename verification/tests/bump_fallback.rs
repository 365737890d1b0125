use allocators::allocator::{AllocRequest, AllocatorStrategy};
use allocators::bump::BumpAllocatorStrategy;

fn req(size: usize, align: usize) -> AllocRequest {
    AllocRequest { size, align }
}

#[test]
fn unbound_bump_serves_nothing() {
    let mut s = BumpAllocatorStrategy::new();
    assert!(!s.initialised());
    assert_eq!(s.allocated(), 0);
    assert_eq!(s.allocate(req(1, 1)), None);
    assert_eq!(s.allocated(), 0);
}

#[test]
fn init_binds_the_region_and_resets_the_count() {
    let mut s = BumpAllocatorStrategy::new();
    s.init(2048, 4096);
    assert!(s.initialised());
    assert_eq!(s.allocated(), 0);
    assert_eq!(s.allocate(req(100, 1)), Some(2048));
    assert_eq!(s.allocated(), 100);
}

#[test]
fn cursor_advances_monotonically_with_alignment_padding() {
    let mut s = BumpAllocatorStrategy::new();
    s.init(1000, 10000);
    // 1000 rounded up to a multiple of 16 is 1008
    assert_eq!(s.allocate(req(8, 16)), Some(1008));
    // the cursor sits at 1016, already aligned for the next request
    assert_eq!(s.allocate(req(5, 1)), Some(1016));
    // 1021 rounded up to a multiple of 256 is 1024
    assert_eq!(s.allocate(req(10, 256)), Some(1024));
    assert_eq!(s.allocated(), 8 + 5 + 10);
}

#[test]
fn freed_space_is_never_reused() {
    let mut s = BumpAllocatorStrategy::new();
    s.init(0, 1024);
    let a = s.allocate(req(64, 8)).unwrap();
    s.dealloc(a, req(64, 8));
    assert_eq!(s.allocated(), 64);
    // the next allocation comes from fresh space above the freed block
    let b = s.allocate(req(64, 8)).unwrap();
    assert_ne!(a, b);
    assert_eq!(s.allocated(), 128);
}

#[test]
fn exhaustion_fails_the_whole_request() {
    let mut s = BumpAllocatorStrategy::new();
    s.init(4096, 128);
    assert_eq!(s.allocate(req(129, 1)), None);
    assert_eq!(s.allocated(), 0);
    assert_eq!(s.allocate(req(128, 1)), Some(4096));
    // full to the brim: nothing further fits
    assert_eq!(s.allocate(req(1, 1)), None);
    assert_eq!(s.allocated(), 128);
}
