use vstd::prelude::*;

verus! {

/// Size of one page (and of one physical frame) in bytes.
pub const PAGE_SIZE: usize = 4096;

/// A virtual page, identified by its index in the virtual address space.
#[derive(Clone, Copy, Debug, PartialEq, Eq, Structural)]
pub struct Page {
    /// Index of the page: its start address divided by `PAGE_SIZE`.
    pub number: usize,
}

impl Page {
    /// The page holding virtual address `address`.
    ///
    /// The address must be canonical: in the low or the high half of the
    /// 64-bit virtual address space.
    pub fn containing_address(address: usize) -> (r: Page)
        requires
            address < 0x0000_8000_0000_0000 || address >= 0xffff_8000_0000_0000,
        ensures
            r.number == address / PAGE_SIZE,
    {
        Page { number: address / PAGE_SIZE }
    }

    /// First address of the page.
    pub fn start_address(&self) -> (r: usize)
        requires
            self.number * PAGE_SIZE <= usize::MAX,
        ensures
            r == self.number * PAGE_SIZE,
    {
        self.number * PAGE_SIZE
    }

    /// The page right after this one.
    pub fn next_page(&self) -> (r: Page)
        requires
            self.number < usize::MAX,
        ensures
            r.number == self.number + 1,
    {
        Page { number: self.number + 1 }
    }

    /// Index of the page's entry in the level-4 page table.
    pub fn p4_index(&self) -> (r: usize)
        ensures
            r == (self.number >> 27) & 0o777,
    {
        (self.number >> 27) & 0o777
    }

    /// Index of the page's entry in the level-3 page table.
    pub fn p3_index(&self) -> (r: usize)
        ensures
            r == (self.number >> 18) & 0o777,
    {
        (self.number >> 18) & 0o777
    }

    /// Index of the page's entry in the level-2 page table.
    pub fn p2_index(&self) -> (r: usize)
        ensures
            r == (self.number >> 9) & 0o777,
    {
        (self.number >> 9) & 0o777
    }

    /// Index of the page's entry in the level-1 page table.
    pub fn p1_index(&self) -> (r: usize)
        ensures
            r == self.number & 0o777,
    {
        self.number & 0o777
    }
}

/// A frame of physical memory, identified by its index.
#[derive(Clone, Copy, Debug, PartialEq, Eq, Structural)]
pub struct Frame {
    /// Index of the frame: its start address divided by `PAGE_SIZE`.
    pub number: usize,
}

impl Frame {
    /// The frame holding physical address `address`.
    pub fn containing_address(address: usize) -> (r: Frame)
        ensures
            r.number == address / PAGE_SIZE,
    {
        Frame { number: address / PAGE_SIZE }
    }

    /// First address of the frame.
    pub fn start_address(&self) -> (r: usize)
        requires
            self.number * PAGE_SIZE <= usize::MAX,
        ensures
            r == self.number * PAGE_SIZE,
    {
        self.number * PAGE_SIZE
    }

    /// Every frame from `start` to `end`, both included, in order.
    pub fn range_inclusive(start: Frame, end: Frame) -> (r: Vec<Frame>)
        ensures
            start.number > end.number ==> r@.len() == 0,
            start.number <= end.number ==> r@.len() == end.number - start.number + 1,
            forall|k: int| 0 <= k < r@.len() ==> r@[k].number == start.number + k,
    {
        let mut frames: Vec<Frame> = Vec::new();
        if start.number > end.number {
            return frames;
        }
        let mut n = start.number;
        loop
            invariant_except_break
                start.number <= n <= end.number,
                frames@.len() == n - start.number,
                forall|k: int| 0 <= k < frames@.len() ==> frames@[k].number == start.number + k,
            ensures
                frames@.len() == end.number - start.number + 1,
                forall|k: int| 0 <= k < frames@.len() ==> frames@[k].number == start.number + k,
            decreases end.number - n,
        {
            frames.push(Frame { number: n });
            if n == end.number {
                break ;
            }
            n = n + 1;
        }
        frames
    }
}

/// Source of physical frames, implemented by the paging collaborator that
/// owns the machine's memory map.
pub trait FrameAllocator {
    /// Hand out an unused frame, if one is left.
    fn allocate_frame(&mut self) -> Option<Frame>;

    /// Take back a frame that is no longer in use.
    fn deallocate_frame(&mut self, frame: Frame);
}

} // verus!
