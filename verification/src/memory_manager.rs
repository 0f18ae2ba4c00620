use vstd::prelude::*;

use crate::stack_allocator::{find_stack, Stack, StackAllocator};

verus! {

/// Manager object for the kernel memory the scheduler draws on.
///
/// The frame allocator and the active page table of the paging collaborator
/// sit outside this model; the manager owns the stack allocator and hands
/// its stacks out.
pub struct MemoryManager {
    /// Allocator of kernel stacks.
    pub stack_allocator: StackAllocator,
}

impl MemoryManager {
    /// Constructs a new `MemoryManager` over a stack allocator.
    pub fn new(stack_allocator: StackAllocator) -> (r: MemoryManager)
        ensures
            r.stack_allocator == stack_allocator,
    {
        MemoryManager { stack_allocator }
    }

    /// Allocate a new kernel stack.
    ///
    /// Any stack allocated by the memory manager must be returned when no
    /// longer in use, or the region stays reserved.
    pub fn allocate_stack(&mut self) -> (r: Stack)
        requires
            old(self).stack_allocator.wf(),
            old(self).stack_allocator.can_carve(),
        ensures
            final(self).stack_allocator.wf(),
            r.size <= r.start_address,
            StackAllocator::allocate_rel(
                old(self).stack_allocator,
                final(self).stack_allocator,
                r,
            ),
    {
        self.stack_allocator.allocate()
    }

    /// Deallocate a kernel stack: it must have come from this manager and
    /// still be allocated; it becomes available for the next allocation.
    pub fn deallocate_stack(&mut self, stack: &Stack)
        requires
            old(self).stack_allocator.wf(),
            find_stack(old(self).stack_allocator.allocated@, *stack) is Some,
        ensures
            final(self).stack_allocator.wf(),
            StackAllocator::deallocate_rel(
                old(self).stack_allocator,
                final(self).stack_allocator,
                *stack,
            ),
    {
        self.stack_allocator.deallocate(stack)
    }
}

} // verus!
