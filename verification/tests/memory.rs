use opsys::bump;
use opsys::bump::{align_down, align_up, is_power_of_two};
use opsys::memory_manager::MemoryManager;
use opsys::page::{Frame, Page, PAGE_SIZE};
use opsys::stack_allocator::{Stack, StackAllocator, DEFAULT_STACK_SIZE_PAGES};

#[test]
fn page_containing_address() {
    let page = Page::containing_address(5 * PAGE_SIZE + 7);
    assert_eq!(page.number, 5);
    assert_eq!(page.start_address(), 5 * PAGE_SIZE);
    assert_eq!(page.next_page().number, 6);
}

#[test]
fn page_table_indices() {
    let page = Page::containing_address(0);
    assert_eq!(page.p4_index(), 0);
    assert_eq!(page.p3_index(), 0);
    assert_eq!(page.p2_index(), 0);
    assert_eq!(page.p1_index(), 0);

    let page = Page { number: (3 << 27) | (5 << 18) | (7 << 9) | 11 };
    assert_eq!(page.p4_index(), 3);
    assert_eq!(page.p3_index(), 5);
    assert_eq!(page.p2_index(), 7);
    assert_eq!(page.p1_index(), 11);
}

#[test]
fn frame_containing_address() {
    let frame = Frame::containing_address(2 * PAGE_SIZE + 100);
    assert_eq!(frame.number, 2);
    assert_eq!(frame.start_address(), 2 * PAGE_SIZE);
}

#[test]
fn stack_top_is_below_start() {
    let stack = Stack { start_address: 3 * PAGE_SIZE, size: 2 * PAGE_SIZE };
    assert_eq!(stack.top(), PAGE_SIZE);
}

// A fresh stack skips a guard page and carves two mapped pages.
#[test]
fn stack_allocator_carves_after_guard_page() {
    let mut allocator = StackAllocator::new(Page { number: 1 });

    let first = allocator.allocate();
    assert_eq!(first.start_address, 2 * PAGE_SIZE);
    assert_eq!(first.size, DEFAULT_STACK_SIZE_PAGES as usize * PAGE_SIZE);
    assert_eq!(allocator.next_page.number, 4);

    // The next stack sits past a fresh guard page.
    let second = allocator.allocate();
    assert_eq!(second.start_address, 5 * PAGE_SIZE);
    assert_eq!(allocator.allocated.len(), 2);
}

// A freed stack is recycled instead of mapping fresh pages.
#[test]
fn stack_allocator_recycles_freed_stacks() {
    let mut allocator = StackAllocator::new(Page { number: 1 });
    let first = allocator.allocate();
    let _second = allocator.allocate();

    allocator.deallocate(&first);
    assert_eq!(allocator.allocated.len(), 1);
    assert_eq!(allocator.free.len(), 1);

    let pages_before = allocator.next_page;
    let recycled = allocator.allocate();
    assert_eq!(recycled.start_address, first.start_address);
    assert_eq!(recycled.size, first.size);
    assert_eq!(allocator.next_page, pages_before);
    assert_eq!(allocator.free.len(), 0);
}

#[test]
fn memory_manager_hands_out_stacks() {
    let mut mm = MemoryManager::new(StackAllocator::new(Page { number: 1 }));
    let stack = mm.allocate_stack();
    assert_eq!(stack.size, 2 * PAGE_SIZE);
    mm.deallocate_stack(&stack);
    assert_eq!(mm.stack_allocator.free.len(), 1);
}

#[test]
fn power_of_two_check() {
    assert!(is_power_of_two(1));
    assert!(is_power_of_two(2));
    assert!(is_power_of_two(4096));
    assert!(!is_power_of_two(0));
    assert!(!is_power_of_two(3));
    assert!(!is_power_of_two(4097));
}

#[test]
fn align_down_rounds_to_multiple() {
    assert_eq!(align_down(13, 4), 12);
    assert_eq!(align_down(16, 4), 16);
    assert_eq!(align_down(13, 0), 13);
    assert_eq!(align_down(0xfff, 0x1000), 0);
}

#[test]
fn align_up_rounds_to_multiple() {
    assert_eq!(align_up(13, 4), 16);
    assert_eq!(align_up(16, 4), 16);
    assert_eq!(align_up(1, 0x1000), 0x1000);
}

// The bump allocator hands out aligned, disjoint, increasing regions and
// refuses once the buffer is spent.
#[test]
fn bump_allocator_bumps() {
    let mut allocator = bump::Allocator::new(0x1000, 0x100);
    assert_eq!(allocator.allocate(0x10, 1), Some(0x1000));
    assert_eq!(allocator.allocate(0x10, 0x20), Some(0x1020));
    assert_eq!(allocator.next, 0x1030);
    assert_eq!(allocator.allocate(0x100, 1), None);
    assert_eq!(allocator.allocate(0xd0, 1), Some(0x1030));
}
