use vstd::prelude::*;

use crate::page::{Page, PAGE_SIZE};

verus! {

/// Pages mapped for each freshly carved kernel stack.
pub const DEFAULT_STACK_SIZE_PAGES: u8 = 2;

/// A memory region allocated for use as a kernel stack.
#[derive(Clone, Copy, Debug, PartialEq, Eq, Structural)]
pub struct Stack {
    /// Starting address of the stack region.
    pub start_address: usize,
    /// Size of the stack in bytes.
    pub size: usize,
}

impl Stack {
    /// Return the address at the top of the `Stack`.
    pub fn top(&self) -> (r: usize)
        requires
            self.size <= self.start_address,
        ensures
            r == self.start_address - self.size,
    {
        self.start_address - self.size
    }
}

/// Two stacks describe the same region: same start address and size.
pub open spec fn stack_matches(s: Stack, target: Stack) -> bool {
    s.start_address == target.start_address && s.size == target.size
}

/// Index of the first stack in `s` matching `target`'s start address and
/// size, if any.
pub open spec fn find_stack(s: Seq<Stack>, target: Stack) -> Option<int>
    decreases s.len(),
{
    if s.len() == 0 {
        None
    } else if stack_matches(s[0], target) {
        Some(0int)
    } else {
        match find_stack(s.drop_first(), target) {
            None => None,
            Some(i) => Some(i + 1),
        }
    }
}

/// `find_stack` returns the least matching index, and `None` exactly when no
/// stack matches.
pub proof fn lemma_find_stack(s: Seq<Stack>, target: Stack)
    ensures
        match find_stack(s, target) {
            None => forall|j: int| 0 <= j < s.len() ==> !stack_matches(s[j], target),
            Some(i) => 0 <= i < s.len() && stack_matches(s[i], target) && forall|j: int|
                0 <= j < i ==> !stack_matches(s[j], target),
        },
    decreases s.len(),
{
    if s.len() > 0 && !stack_matches(s[0], target) {
        lemma_find_stack(s.drop_first(), target);
        match find_stack(s.drop_first(), target) {
            None => {
                assert forall|j: int| 0 <= j < s.len() implies !stack_matches(s[j], target) by {
                    if j > 0 {
                        assert(!stack_matches(s.drop_first()[j - 1], target));
                        assert(s.drop_first()[j - 1] == s[j]);
                    }
                }
            },
            Some(i) => {
                assert(s.drop_first()[i] == s[i + 1]);
                assert forall|j: int| 0 <= j < i + 1 implies !stack_matches(s[j], target) by {
                    if j > 0 {
                        assert(!stack_matches(s.drop_first()[j - 1], target));
                        assert(s.drop_first()[j - 1] == s[j]);
                    }
                }
            },
        }
    }
}

/// Allocator of `Stack` objects.
///
/// The `StackAllocator` manages allocated stacks, maintaining an internal
/// list of both free and allocated stacks.  When allocating a `Stack`, if no
/// free stack is available, a guard page is skipped (left unmapped, so a
/// stack overflow faults instead of corrupting memory) and
/// `DEFAULT_STACK_SIZE_PAGES` fresh pages are carved for the new stack; the
/// paging collaborator maps them.  Freed stacks are recycled, never unmapped.
pub struct StackAllocator {
    /// Stacks handed out and not yet freed.
    pub allocated: Vec<Stack>,
    /// Stacks returned and ready for reuse.
    pub free: Vec<Stack>,
    /// The next page to carve stacks from.
    pub next_page: Page,
}

impl StackAllocator {
    /// Every stack the allocator tracks lies below its start address, so its
    /// top can be computed without wrapping.
    pub open spec fn wf(self) -> bool {
        &&& forall|i: int|
            0 <= i < self.allocated@.len() ==> (#[trigger] self.allocated@[i]).size
                <= self.allocated@[i].start_address
        &&& forall|i: int|
            0 <= i < self.free@.len() ==> (#[trigger] self.free@[i]).size
                <= self.free@[i].start_address
    }

    /// Fresh pages can still be carved: the page counter is past the zero
    /// page and three more pages fit in the address space.
    pub open spec fn can_carve(self) -> bool {
        &&& self.next_page.number >= 1
        &&& (self.next_page.number + 3) * PAGE_SIZE <= usize::MAX
    }

    /// What `allocate` does: a free stack is recycled from the back of the
    /// free list, or — when none is left — a guard page is skipped and a
    /// fresh two-page stack is carved; either way the stack joins the
    /// allocated list.
    pub open spec fn allocate_rel(pre: StackAllocator, post: StackAllocator, r: Stack) -> bool {
        if pre.free@.len() > 0 {
            &&& r == pre.free@.last()
            &&& post.free@ == pre.free@.drop_last()
            &&& post.allocated@ == pre.allocated@.push(r)
            &&& post.next_page == pre.next_page
        } else {
            &&& r == (Stack {
                start_address: ((pre.next_page.number + 1) * PAGE_SIZE) as usize,
                size: (DEFAULT_STACK_SIZE_PAGES as usize * PAGE_SIZE) as usize,
            })
            &&& post.free@ == pre.free@
            &&& post.allocated@ == pre.allocated@.push(r)
            &&& post.next_page.number == pre.next_page.number + 3
        }
    }

    /// What `deallocate` does: the first allocated entry matching the stack
    /// leaves the allocated list (the list's last entry takes its slot) and
    /// joins the free list.
    pub open spec fn deallocate_rel(pre: StackAllocator, post: StackAllocator, stack: Stack) -> bool {
        match find_stack(pre.allocated@, stack) {
            None => false,
            Some(i) => {
                &&& post.allocated@ == pre.allocated@.update(i, pre.allocated@.last()).drop_last()
                &&& post.free@ == pre.free@.push(pre.allocated@[i])
                &&& post.next_page == pre.next_page
            },
        }
    }

    /// Constructs a `StackAllocator` with empty allocated and free lists,
    /// carving stacks from `starting_page` on.
    pub fn new(starting_page: Page) -> (r: StackAllocator)
        ensures
            r.wf(),
            r.allocated@.len() == 0,
            r.free@.len() == 0,
            r.next_page == starting_page,
    {
        StackAllocator { allocated: Vec::new(), free: Vec::new(), next_page: starting_page }
    }

    /// Allocates a `Stack`: recycles a free one when available, otherwise
    /// skips a guard page and carves `DEFAULT_STACK_SIZE_PAGES` fresh pages.
    pub fn allocate(&mut self) -> (r: Stack)
        requires
            old(self).wf(),
            old(self).can_carve(),
        ensures
            final(self).wf(),
            r.size <= r.start_address,
            StackAllocator::allocate_rel(*old(self), *final(self), r),
    {
        // If we have a free stack just return that.
        if self.free.len() > 0 {
            let stack = self.free.pop().unwrap();
            self.allocated.push(stack);
            return stack;
        }
        // Skip a guard page, then carve the stack pages.
        let next_page = self.next_page.next_page();
        self.next_page = next_page;
        let start = self.allocate_pages(DEFAULT_STACK_SIZE_PAGES);
        let size = (DEFAULT_STACK_SIZE_PAGES as usize) * PAGE_SIZE;
        let stack = Stack { start_address: start, size };
        self.allocated.push(stack);
        stack
    }

    /// Deallocates a kernel `Stack`: the stack must be on the allocated
    /// list, found by its start address and size; it moves to the free list
    /// for reuse.
    pub fn deallocate(&mut self, stack: &Stack)
        requires
            old(self).wf(),
            find_stack(old(self).allocated@, *stack) is Some,
        ensures
            final(self).wf(),
            StackAllocator::deallocate_rel(*old(self), *final(self), *stack),
    {
        proof {
            lemma_find_stack(self.allocated@, *stack);
        }
        let ghost gi: int = find_stack(self.allocated@, *stack)->Some_0;
        let n = self.allocated.len();
        let mut i: usize = 0;
        while i < n
            invariant
                0 <= i <= gi < n,
                n == self.allocated@.len(),
                self.allocated@ == old(self).allocated@,
                self.free@ == old(self).free@,
                self.next_page == old(self).next_page,
                self.wf(),
                gi == find_stack(self.allocated@, *stack)->Some_0,
                find_stack(self.allocated@, *stack) is Some,
            decreases n - i,
        {
            proof {
                lemma_find_stack(self.allocated@, *stack);
            }
            let s = self.allocated[i];
            if s.start_address == stack.start_address && s.size == stack.size {
                let freed_stack = self.allocated.swap_remove(i);
                self.free.push(freed_stack);
                return ;
            }
            i = i + 1;
        }
        proof {
            assert(false);
        }
    }

    /// Carve `num` fresh pages, returning the first one's start address.
    fn allocate_pages(&mut self, num: u8) -> (start: usize)
        requires
            old(self).wf(),
            num != 0,
            (old(self).next_page.number + num) * PAGE_SIZE <= usize::MAX,
        ensures
            final(self).wf(),
            final(self).allocated@ == old(self).allocated@,
            final(self).free@ == old(self).free@,
            final(self).next_page.number == old(self).next_page.number + num,
            start == old(self).next_page.number * PAGE_SIZE,
    {
        let start = self.allocate_page();
        let mut k: u8 = 1;
        while k < num
            invariant
                1 <= k <= num,
                self.wf(),
                self.allocated@ == old(self).allocated@,
                self.free@ == old(self).free@,
                self.next_page.number == old(self).next_page.number + k,
                (old(self).next_page.number + num) * PAGE_SIZE <= usize::MAX,
                start == old(self).next_page.number * PAGE_SIZE,
            decreases num - k,
        {
            self.allocate_page();
            k = k + 1;
        }
        start
    }

    /// Carve one fresh page, returning its start address.  The paging
    /// collaborator maps the page writable.
    fn allocate_page(&mut self) -> (start: usize)
        requires
            old(self).wf(),
            (old(self).next_page.number + 1) * PAGE_SIZE <= usize::MAX,
        ensures
            final(self).wf(),
            final(self).allocated@ == old(self).allocated@,
            final(self).free@ == old(self).free@,
            final(self).next_page.number == old(self).next_page.number + 1,
            start == old(self).next_page.number * PAGE_SIZE,
    {
        let next_page = self.next_page.next_page();
        let page = self.next_page;
        self.next_page = next_page;
        page.start_address()
    }
}

} // verus!
