use allocators::allocator::{AllocRequest, AllocatorStrategy};
use allocators::simple::{
    simple_allocator, SimpleAllocatorStrategy, ARENA_FILL_BYTE, ARENA_SIZE, MAX_SUPPORTED_ALIGN,
};

fn req(size: usize, align: usize) -> AllocRequest {
    AllocRequest { size, align }
}

#[test]
fn arena_starts_full_and_sentinel_filled() {
    let s = SimpleAllocatorStrategy::new();
    assert_eq!(s.remaining(), ARENA_SIZE);
    assert_eq!(s.allocated(), 0);
    assert!(s.initialised());
    assert_eq!(s.arena_byte(0), ARENA_FILL_BYTE);
    assert_eq!(s.arena_byte(ARENA_SIZE / 2), ARENA_FILL_BYTE);
    assert_eq!(s.arena_byte(ARENA_SIZE - 1), ARENA_FILL_BYTE);
}

#[test]
fn alloc_returns_aligned_addresses() {
    let mut s = SimpleAllocatorStrategy::new();
    for &align in &[1usize, 2, 4, 8, 64, 512, MAX_SUPPORTED_ALIGN] {
        let r = s.allocate(req(10, align));
        let addr = r.expect("arena has room for these small requests");
        assert_eq!(addr % align, 0);
    }
}

#[test]
fn alloc_exact_offset_of_first_request() {
    let mut s = SimpleAllocatorStrategy::new();
    // 131072 - 100 = 130972, rounded down to a multiple of 8 is 130968
    assert_eq!(s.allocate(req(100, 8)), Some(130968));
    assert_eq!(s.remaining(), 130968);
    assert_eq!(s.allocated(), ARENA_SIZE - 130968);
}

#[test]
fn arena_scenario_large_then_too_large() {
    let mut s = SimpleAllocatorStrategy::new();
    assert!(s.allocate(req(100000, 8)).is_some());
    let allocated_before = s.allocated();
    // remaining is now below 40000, so this request must fail whole
    assert_eq!(s.allocate(req(40000, 8)), None);
    assert_eq!(s.allocated(), allocated_before);
}

#[test]
fn alloc_rejects_unsupported_alignment() {
    let mut s = SimpleAllocatorStrategy::new();
    assert_eq!(s.allocate(req(8, 2 * MAX_SUPPORTED_ALIGN)), None);
    assert_eq!(s.allocated(), 0);
    assert_eq!(s.remaining(), ARENA_SIZE);
}

#[test]
fn allocated_is_monotonic_and_dealloc_reclaims_nothing() {
    let mut s = SimpleAllocatorStrategy::new();
    let mut last = s.allocated();
    let mut granted: Vec<(usize, usize)> = Vec::new();
    for i in 0..32 {
        let size = 17 * i + 1;
        let r = s.allocate(req(size, 8));
        if let Some(addr) = r {
            granted.push((addr, size));
        }
        assert!(s.allocated() >= last);
        last = s.allocated();
        if let Some(&(addr, size)) = granted.last() {
            s.dealloc(addr, req(size, 8));
            // the leaky bootstrap arena never reclaims
            assert_eq!(s.allocated(), last);
        }
    }
}

#[test]
fn granted_ranges_are_pairwise_disjoint() {
    let mut s = SimpleAllocatorStrategy::new();
    let mut ranges: Vec<(usize, usize)> = Vec::new();
    for i in 0..64 {
        let size = 100 + 31 * i;
        let align = 1usize << (i % 7);
        if let Some(addr) = s.allocate(req(size, align)) {
            ranges.push((addr, size));
        }
    }
    assert!(s.allocated() <= ARENA_SIZE);
    assert!(ranges.len() > 2);
    for (i, &(a, sa)) in ranges.iter().enumerate() {
        assert!(a + sa <= ARENA_SIZE);
        for &(b, sb) in ranges.iter().skip(i + 1) {
            assert!(a + sa <= b || b + sb <= a, "ranges overlap");
        }
    }
}

#[test]
fn arena_behind_coordinator_ignores_the_reservation() {
    // the arena brings its own buffer, so even a failed reservation (base 0)
    // does not stop it
    let mut a = simple_allocator(0, 0);
    assert!(a.initialised());
    assert_eq!(a.allocate(req(100, 8)), Some(130968));
    assert_eq!(a.allocated(), ARENA_SIZE - 130968);
}
