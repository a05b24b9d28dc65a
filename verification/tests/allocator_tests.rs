use salmiak::memory::allocator::{
    align_down, align_up, create_child_allocator, Allocator, BumpAllocator, OriginAllocator,
};

#[test]
fn align_up_values() {
    assert_eq!(align_up(0, 4096), 0);
    assert_eq!(align_up(1, 4096), 4096);
    assert_eq!(align_up(4096, 4096), 4096);
    assert_eq!(align_up(4097, 4096), 8192);
}

#[test]
fn align_down_values() {
    assert_eq!(align_down(0, 4096), 0);
    assert_eq!(align_down(1, 4096), 0);
    assert_eq!(align_down(4096, 4096), 4096);
    assert_eq!(align_down(8191, 4096), 4096);
}

#[test]
fn align_round_trip() {
    // align_up of an already rounded-down address changes nothing, the
    // rounded-up address is at least the given address and less than one
    // alignment above it.
    for &x in &[0usize, 1, 7, 4095, 4096, 4097, 123_456] {
        let down = align_down(x, 4096);
        assert_eq!(align_up(down, 4096), down);
        assert!(align_up(x, 4096) >= x);
        assert!(align_up(x, 4096) - x < 4096);
    }
}

#[test]
fn bump_allocation_ordering() {
    // Heap [0x1000, 0x2000): three allocations land at 0x1000, 0x1010 and
    // 0x1040, and the cursor ends at 0x10C0.
    let mut heap = BumpAllocator::new(0x1000, 0x1000);
    assert_eq!(heap.allocate(16, 16), 0x1000);
    assert_eq!(heap.allocate(1, 1), 0x1010);
    assert_eq!(heap.allocate(128, 64), 0x1040);
    assert_eq!(heap.next, 0x10C0);
}

#[test]
fn bump_allocation_exhaustion() {
    // Heap [0x1000, 0x1010): a 32-byte request returns the null sentinel
    // and does not advance the cursor.
    let mut heap = BumpAllocator::new(0x1000, 0x10);
    assert_eq!(heap.allocate(32, 1), 0);
    assert_eq!(heap.next, 0x1000);
    // What fits is still served afterwards.
    assert_eq!(heap.allocate(16, 1), 0x1000);
    assert_eq!(heap.next, 0x1010);
}

#[test]
fn bump_allocations_stay_in_bounds() {
    let mut heap = BumpAllocator::new(0x2000, 0x100);
    let mut last = 0usize;
    for &(size, align) in &[(1usize, 1usize), (3, 4), (60, 32), (9, 2)] {
        let a = heap.allocate(size, align);
        assert!(a != 0);
        assert_eq!(a % align, 0);
        assert!(a >= 0x2000 && a + size <= 0x2100);
        assert!(a >= last);
        last = a + size;
    }
}

#[test]
fn empty_allocator_serves_nothing() {
    let mut empty = BumpAllocator::empty();
    assert_eq!(empty.allocate(1, 1), 0);
}

#[test]
fn origin_allocator_lifecycle() {
    // Pre-init the global heap is empty; after initialize it serves from
    // the given region.
    let mut origin = OriginAllocator::new();
    assert_eq!(origin.allocate(8, 8), 0);
    origin.initialize(0x8000, 0x1000);
    assert_eq!(origin.allocate(8, 8), 0x8000);
    origin.dealloc(0x8000, 8, 8);
    // Deallocation is a no-op: the cursor does not move back.
    assert_eq!(origin.allocate(8, 8), 0x8008);
}

#[test]
fn child_allocator_carving() {
    let mut parent = BumpAllocator::new(0x4000, 0x4000);
    let child: Option<BumpAllocator> = create_child_allocator(&mut parent, 0x100);
    let mut child = child.unwrap();
    // The child owns exactly the slice the parent served, at 16-byte
    // alignment.
    assert_eq!(child.heap_start, 0x4000);
    assert_eq!(child.heap_end, 0x4100);
    assert_eq!(parent.next, 0x4100);
    let a = child.allocate(4, 4);
    assert_eq!(a, 0x4000);
    // The child cannot serve past its slice.
    assert_eq!(child.allocate(0x100, 1), 0);
}
