use opsys::allocator::{AllocError, Allocator};
use opsys::block::HEADER_SIZE;

// Bunch of different heaps as the tests run concurrently
const HEAP_SIZE: usize = 1000;

// Alloc tests

#[test]
fn alloc_0() {
    let mut allocator = Allocator::new(0, HEAP_SIZE);

    let result = allocator.allocate(26, 0);
    assert!(result.is_ok());
}

#[test]
fn alloc_1() {
    let mut allocator = Allocator::new(0, HEAP_SIZE);

    // Allocate the entire heap
    for _ in 0..10 {
        let size = 100 - HEADER_SIZE;
        let result = allocator.allocate(size, 0);
        assert!(result.is_ok());
    }
}

#[test]
fn returns_err_on_oom_01() {
    let mut allocator = Allocator::new(0, HEAP_SIZE);

    let result = allocator.allocate(HEAP_SIZE + 1, 0);
    assert!(result.is_err());
}

#[test]
fn returns_err_on_oom_02() {
    let mut allocator = Allocator::new(0, HEAP_SIZE);

    // Allocate the entire heap
    for _ in 0..10 {
        let size = 100 - HEADER_SIZE;
        let result = allocator.allocate(size, 0);
        assert!(result.is_ok());
    }

    // And OOM it...
    let result = allocator.allocate(1, 0);
    assert!(result.is_err());
}

// Dealloc tests

#[test]
fn dealloc_0() {
    let size = 100 - HEADER_SIZE;
    let mut allocator = Allocator::new(0, HEAP_SIZE);

    // Allocate some memory
    let p1 = allocator.allocate(size, 0);

    // Deallocate it...
    allocator.dealloc(p1.unwrap(), size, 0);
}

#[test]
fn dealloc_1() {
    let size = 500 - HEADER_SIZE;
    let mut allocator = Allocator::new(0, HEAP_SIZE);

    // Allocate the entire heap in two allocs
    let p1 = allocator.allocate(size, 0);
    assert!(p1.is_ok());

    let p2 = allocator.allocate(size, 0);
    assert!(p2.is_ok());

    // Deallocate the first
    allocator.dealloc(p1.unwrap(), size, 0);

    // Try to reallocate the same memory freed from p1
    let p3 = allocator.allocate(size, 0);
    assert!(p3.is_ok());
}

// The freed address itself is what a same-size allocation gets back.
#[test]
fn refill_returns_freed_address() {
    let size = 500 - HEADER_SIZE;
    let mut allocator = Allocator::new(0, HEAP_SIZE);

    let p1 = allocator.allocate(size, 0).unwrap();
    let p2 = allocator.allocate(size, 0).unwrap();
    assert_ne!(p1, p2);

    allocator.dealloc(p1, size, 0);

    let p3 = allocator.allocate(size, 0).unwrap();
    assert_eq!(p3, p1);
}

// The out-of-memory boundary: one byte more than the heap always fails, the
// largest servable request succeeds exactly once.
#[test]
fn oom_boundary() {
    let mut allocator = Allocator::new(0, HEAP_SIZE);
    assert_eq!(
        allocator.allocate(HEAP_SIZE + 1, 0),
        Err(AllocError::OutOfMemory)
    );

    let whole = HEAP_SIZE - HEADER_SIZE;
    assert_eq!(allocator.allocate(whole, 0), Ok(HEADER_SIZE));
    assert_eq!(allocator.allocate(whole, 0), Err(AllocError::OutOfMemory));
}

// An allocator that was never given a heap refuses to serve.
#[test]
fn uninitialized_allocator_fails_fast() {
    let mut allocator = Allocator::empty();
    assert_eq!(
        allocator.allocate(10, 0),
        Err(AllocError::UninitializedAllocator)
    );
}

// First-fit reuse of an exact hole on a heap with one allocation.
#[test]
fn free_then_reuse_same_address() {
    let size = 84;
    let mut allocator = Allocator::new(0, HEAP_SIZE);

    let a = allocator.allocate(size, 0).unwrap();
    allocator.dealloc(a, size, 0);
    let b = allocator.allocate(size, 0).unwrap();
    assert_eq!(a, b);
}

// Split bookkeeping: the served block and the carved remainder add back up
// to the block that was split, and the remainder starts at the payload end.
#[test]
fn split_sizes_add_up() {
    let mut allocator = Allocator::new(0, HEAP_SIZE);
    let before = allocator.blocks[0].size;

    let p = allocator.allocate(100, 0).unwrap();
    assert_eq!(p, HEADER_SIZE);
    assert_eq!(allocator.blocks.len(), 2);
    assert_eq!(allocator.blocks[0].size, 100);
    assert!(allocator.blocks[1].free);
    assert_eq!(
        allocator.blocks[0].size + HEADER_SIZE + allocator.blocks[1].size,
        before
    );
}

// Live allocations never overlap: each payload ends before the next header.
#[test]
fn allocations_do_not_overlap() {
    let mut allocator = Allocator::new(0, HEAP_SIZE);
    let p1 = allocator.allocate(100, 0).unwrap();
    let p2 = allocator.allocate(200, 0).unwrap();
    let p3 = allocator.allocate(50, 0).unwrap();
    assert!(p1 + 100 + HEADER_SIZE <= p2);
    assert!(p2 + 200 + HEADER_SIZE <= p3);
    assert!(p3 + 50 <= HEAP_SIZE);
}

// Coalescing: two adjacent freed blocks merge and serve their combined
// span, in either order of freeing.
#[test]
fn coalescing_merges_neighbours() {
    let size = 100;
    let both = 2 * size + HEADER_SIZE;

    let mut allocator = Allocator::new(0, HEAP_SIZE);
    let a = allocator.allocate(size, 0).unwrap();
    let b = allocator.allocate(size, 0).unwrap();
    allocator.dealloc(a, size, 0);
    allocator.dealloc(b, size, 0);
    let big = allocator.allocate(both, 0);
    assert_eq!(big, Ok(a));

    let mut allocator = Allocator::new(0, HEAP_SIZE);
    let a = allocator.allocate(size, 0).unwrap();
    let b = allocator.allocate(size, 0).unwrap();
    allocator.dealloc(b, size, 0);
    allocator.dealloc(a, size, 0);
    let big = allocator.allocate(both, 0);
    assert_eq!(big, Ok(a));
}

// A remainder below the minimum block size is not split off: the whole
// block is consumed and the hole keeps its full size for reuse.
#[test]
fn small_remainder_is_not_split() {
    let mut allocator = Allocator::new(0, HEAP_SIZE);
    // 984 usable bytes; asking for 940 leaves 44 < MIN_BLOCK_SIZE.
    let p = allocator.allocate(940, 0).unwrap();
    assert_eq!(allocator.blocks.len(), 1);
    assert_eq!(allocator.blocks[0].size, 984);
    assert_eq!(allocator.allocate(1, 0), Err(AllocError::OutOfMemory));

    // Freeing it gives the whole heap back.
    allocator.dealloc(p, 984, 0);
    assert!(allocator.allocate(984, 0).is_ok());
}

// A heap of a thousand bytes serves exactly ten hundred-byte slots.
#[test]
fn heap_fills_exactly() {
    let mut allocator = Allocator::new(0, HEAP_SIZE);
    let mut last = 0;
    for i in 0..10 {
        let p = allocator.allocate(100 - HEADER_SIZE, 0).unwrap();
        assert_eq!(p, i * 100 + HEADER_SIZE);
        last = p;
    }
    assert_eq!(last, 916);
    assert_eq!(allocator.allocate(1, 0), Err(AllocError::OutOfMemory));
}
