use vstd::prelude::*;

verus! {

/// Number of bytes a block header occupies inside the heap buffer.
///
/// A block's payload starts exactly `HEADER_SIZE` bytes after the block's own
/// start address, and the following block starts `HEADER_SIZE + size` bytes
/// after it.
pub const HEADER_SIZE: usize = 16;

/// One node of the allocator's block chain.
///
/// The allocator manages its heap as a contiguous chain of blocks, each made
/// of a header followed by `size` payload bytes.  The chain is kept in address
/// order, so a block's start address is the sum of the extents of all blocks
/// before it.  The linkage of the chain is the order of the allocator's block
/// list itself; a block only records its payload size and whether it is free.
#[derive(Clone, Copy, Debug, PartialEq, Eq, Structural)]
pub struct Block {
    /// Payload byte count, excluding the header.
    pub size: usize,
    /// Whether the payload is available for allocation.
    pub free: bool,
}

impl Block {
    /// Bytes this block occupies inside the heap: header plus payload.
    pub open spec fn units(self) -> int {
        HEADER_SIZE + self.size
    }
}

} // verus!
