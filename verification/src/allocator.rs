use vstd::prelude::*;

use crate::block::{Block, HEADER_SIZE};

verus! {

/// The minimum allowed block size: when an allocation leaves a remainder
/// smaller than this, the whole block is consumed instead of being split.
pub const MIN_BLOCK_SIZE: usize = 50;

/// Errors reported by the block allocator.
#[derive(Clone, Copy, Debug, PartialEq, Eq, Structural)]
pub enum AllocError {
    /// The chain was exhausted without finding a free block that fits.
    OutOfMemory,
    /// The allocator was asked for memory before `init` gave it a heap.
    UninitializedAllocator,
}

/// Byte offset of block `i`'s header from the start of the heap: the sum of
/// the extents (header plus payload) of the blocks before it.
pub open spec fn chain_offset(s: Seq<Block>, i: int) -> int
    decreases i,
{
    if i <= 0 {
        0
    } else {
        chain_offset(s, i - 1) + s[i - 1].units()
    }
}

/// Total number of heap bytes covered by the chain, headers included.
pub open spec fn chain_size(s: Seq<Block>) -> int {
    chain_offset(s, s.len() as int)
}

/// Offsets grow along the chain: a whole block fits between the offsets of
/// consecutive positions.
pub proof fn lemma_chain_offset_monotone(s: Seq<Block>, i: int, j: int)
    requires
        0 <= i <= j,
    ensures
        chain_offset(s, i) <= chain_offset(s, j),
        i < j && i < s.len() ==> chain_offset(s, i) + s[i].units() <= chain_offset(s, j),
    decreases j - i,
{
    if i < j {
        lemma_chain_offset_monotone(s, i + 1, j);
    }
}

/// How offsets change when block `i` is replaced.
pub proof fn lemma_chain_offset_update(s: Seq<Block>, i: int, b: Block, k: int)
    requires
        0 <= i < s.len(),
        0 <= k <= s.len(),
    ensures
        k <= i ==> chain_offset(s.update(i, b), k) == chain_offset(s, k),
        k > i ==> chain_offset(s.update(i, b), k) == chain_offset(s, k) - s[i].units()
            + b.units(),
    decreases k,
{
    if k > 0 {
        lemma_chain_offset_update(s, i, b, k - 1);
    }
}

/// How offsets change when a block is inserted at position `i`.
pub proof fn lemma_chain_offset_insert(s: Seq<Block>, i: int, b: Block, k: int)
    requires
        0 <= i <= s.len(),
        0 <= k <= s.len() + 1,
    ensures
        k <= i ==> chain_offset(s.insert(i, b), k) == chain_offset(s, k),
        k > i ==> chain_offset(s.insert(i, b), k) == chain_offset(s, k - 1) + b.units(),
    decreases k,
{
    if k > 0 {
        lemma_chain_offset_insert(s, i, b, k - 1);
    }
}

/// How offsets change when block `i` is removed.
pub proof fn lemma_chain_offset_remove(s: Seq<Block>, i: int, k: int)
    requires
        0 <= i < s.len(),
        0 <= k <= s.len() - 1,
    ensures
        k <= i ==> chain_offset(s.remove(i), k) == chain_offset(s, k),
        k > i ==> chain_offset(s.remove(i), k) == chain_offset(s, k + 1) - s[i].units(),
    decreases k,
{
    if k > 0 {
        lemma_chain_offset_remove(s, i, k - 1);
        assert(chain_offset(s.remove(i), k) == chain_offset(s.remove(i), k - 1)
            + s.remove(i)[k - 1].units());
        if k > i {
            assert(chain_offset(s, k + 1) == chain_offset(s, k) + s[k].units());
            assert(chain_offset(s, k) == chain_offset(s, k - 1) + s[k - 1].units());
            assert(s.remove(i)[k - 1] == s[k]);
        }
    }
}

/// Whether `b` can serve an allocation request of `size` bytes.
pub open spec fn fits(b: Block, size: usize) -> bool {
    b.free && b.size >= size
}

/// Index of the first free block of at least `size` payload bytes, if any:
/// the first-fit search policy.
pub open spec fn first_fit(s: Seq<Block>, size: usize) -> Option<int>
    decreases s.len(),
{
    if s.len() == 0 {
        None
    } else if fits(s[0], size) {
        Some(0int)
    } else {
        match first_fit(s.drop_first(), size) {
            None => None,
            Some(i) => Some(i + 1),
        }
    }
}

/// `first_fit` returns the least index of a fitting block, and `None` exactly
/// when no block fits.
pub proof fn lemma_first_fit(s: Seq<Block>, size: usize)
    ensures
        match first_fit(s, size) {
            None => forall|j: int| 0 <= j < s.len() ==> !fits(s[j], size),
            Some(i) => 0 <= i < s.len() && fits(s[i], size) && forall|j: int|
                0 <= j < i ==> !fits(s[j], size),
        },
    decreases s.len(),
{
    if s.len() > 0 && !fits(s[0], size) {
        lemma_first_fit(s.drop_first(), size);
        match first_fit(s.drop_first(), size) {
            None => {
                assert forall|j: int| 0 <= j < s.len() implies !fits(s[j], size) by {
                    if j > 0 {
                        assert(!fits(s.drop_first()[j - 1], size));
                        assert(s.drop_first()[j - 1] == s[j]);
                    }
                }
            },
            Some(i) => {
                assert(s.drop_first()[i] == s[i + 1]);
                assert forall|j: int| 0 <= j < i + 1 implies !fits(s[j], size) by {
                    if j > 0 {
                        assert(!fits(s.drop_first()[j - 1], size));
                        assert(s.drop_first()[j - 1] == s[j]);
                    }
                }
            },
        }
    }
}

/// Eager coalescing keeps free blocks apart: no two neighbours are both free.
pub open spec fn no_adjacent_free(s: Seq<Block>) -> bool {
    forall|i: int| 0 <= i < s.len() - 1 && (#[trigger] s[i]).free ==> !s[i + 1].free
}

/// Whether serving `size` bytes from `b` leaves a remainder worth splitting
/// off as a new free block.
pub open spec fn splits(b: Block, size: usize) -> bool {
    b.size - size >= MIN_BLOCK_SIZE
}

/// The chain after `size` bytes are served from block `i`: the block is
/// marked used, and shrunk to exactly `size` bytes when the remainder is
/// split off into a new free block spliced in right after it.
pub open spec fn alloc_blocks(s: Seq<Block>, i: int, size: usize) -> Seq<Block> {
    if splits(s[i], size) {
        s.update(i, Block { size, free: false }).insert(
            i + 1,
            Block { size: (s[i].size - size - HEADER_SIZE) as usize, free: true },
        )
    } else {
        s.update(i, Block { size: s[i].size, free: false })
    }
}

/// The chain after an allocation request of `size` bytes: unchanged when no
/// free block fits.
pub open spec fn alloc_chain_result(s: Seq<Block>, size: usize) -> Seq<Block> {
    match first_fit(s, size) {
        None => s,
        Some(i) => alloc_blocks(s, i, size),
    }
}

/// What an allocation request of `size` bytes returns: the payload address
/// of the first fitting free block, `OutOfMemory` when the chain is exhausted
/// without a fit, and a fail-fast error on an uninitialized allocator.
pub open spec fn alloc_result(heap_start: usize, s: Seq<Block>, size: usize) -> Result<
    usize,
    AllocError,
> {
    if s.len() == 0 {
        Err(AllocError::UninitializedAllocator)
    } else {
        match first_fit(s, size) {
            None => Err(AllocError::OutOfMemory),
            Some(i) => Ok((heap_start + chain_offset(s, i) + HEADER_SIZE) as usize),
        }
    }
}

/// Serving an allocation from a fitting block keeps the chain covering the
/// same bytes, keeps free blocks apart, and does not move the blocks before
/// the served one.
proof fn lemma_alloc_blocks(s: Seq<Block>, i: int, size: usize)
    requires
        0 <= i < s.len(),
        fits(s[i], size),
        no_adjacent_free(s),
    ensures
        chain_size(alloc_blocks(s, i, size)) == chain_size(s),
        no_adjacent_free(alloc_blocks(s, i, size)),
        chain_offset(alloc_blocks(s, i, size), i) == chain_offset(s, i),
        alloc_blocks(s, i, size)[i].free == false,
        alloc_blocks(s, i, size)[i].size >= size,
        splits(s[i], size) ==> alloc_blocks(s, i, size)[i].size == size
            && chain_offset(alloc_blocks(s, i, size), i + 1) == chain_offset(s, i) + HEADER_SIZE
            + size,
{
    let n = s.len() as int;
    if splits(s[i], size) {
        let used = Block { size, free: false };
        let rem = Block { size: (s[i].size - size - HEADER_SIZE) as usize, free: true };
        assert(0 <= s[i].size - size - HEADER_SIZE <= usize::MAX);
        let s1 = s.update(i, used);
        let s2 = s1.insert(i + 1, rem);
        lemma_chain_offset_update(s, i, used, n);
        lemma_chain_offset_update(s, i, used, i);
        lemma_chain_offset_update(s, i, used, i + 1);
        lemma_chain_offset_insert(s1, i + 1, rem, n + 1);
        lemma_chain_offset_insert(s1, i + 1, rem, i);
        lemma_chain_offset_insert(s1, i + 1, rem, i + 1);
        s1.insert_ensures(i + 1, rem);
        assert(chain_offset(s1, i + 1) == chain_offset(s1, i) + s1[i].units());
        assert(chain_size(s2) == chain_size(s));
        assert forall|j: int|
            0 <= j < s2.len() - 1 && (#[trigger] s2[j]).free implies !s2[j + 1].free by {
            if j < i {
                assert(s2[j] == s[j]);
                assert(s2[j + 1] == if j + 1 == i { used } else { s[j + 1] });
            } else if j == i {
            } else if j == i + 1 {
                assert(s2[j + 1] == s[i + 1]);
                assert(s[i].free);
            } else {
                assert(s2[j] == s[j - 1]);
                assert(s2[j + 1] == s[j]);
            }
        }
    } else {
        let used = Block { size: s[i].size, free: false };
        let s1 = s.update(i, used);
        lemma_chain_offset_update(s, i, used, n);
        lemma_chain_offset_update(s, i, used, i);
        assert forall|j: int|
            0 <= j < s1.len() - 1 && (#[trigger] s1[j]).free implies !s1[j + 1].free by {
            if j != i && j + 1 != i {
                assert(s1[j] == s[j]);
                assert(s1[j + 1] == s[j + 1]);
            } else if j + 1 == i {
                assert(s1[j] == s[j]);
            }
        }
    }
}

/// Blocks `i` and `i + 1` fused into one: the left block absorbs the right
/// one's header and payload.
pub open spec fn merge_at(s: Seq<Block>, i: int) -> Seq<Block> {
    s.update(
        i,
        Block { size: (s[i].size + HEADER_SIZE + s[i + 1].size) as usize, free: s[i].free },
    ).remove(i + 1)
}

/// The chain after block `i` is freed: the block is marked free and then
/// fused with each free neighbour (eager coalescing).
pub open spec fn dealloc_blocks(s: Seq<Block>, i: int) -> Seq<Block> {
    let f = s.update(i, Block { size: s[i].size, free: true });
    let g = if i + 1 < f.len() && f[i + 1].free {
        merge_at(f, i)
    } else {
        f
    };
    if 0 < i && g[i - 1].free {
        merge_at(g, i - 1)
    } else {
        g
    }
}

/// What `merge_at` does to the chain: one block fewer, covering the same
/// bytes, with everything around the fused pair unmoved.
proof fn lemma_merge_at(s: Seq<Block>, i: int)
    requires
        0 <= i < s.len() - 1,
        chain_size(s) <= usize::MAX,
    ensures
        merge_at(s, i).len() == s.len() - 1,
        chain_size(merge_at(s, i)) == chain_size(s),
        forall|j: int| 0 <= j < i ==> merge_at(s, i)[j] == s[j],
        merge_at(s, i)[i].free == s[i].free,
        merge_at(s, i)[i].size == s[i].size + HEADER_SIZE + s[i + 1].size,
        forall|j: int| i < j < s.len() - 1 ==> merge_at(s, i)[j] == s[j + 1],
{
    let n = s.len() as int;
    lemma_chain_offset_monotone(s, 0, i);
    lemma_chain_offset_monotone(s, i, i + 1);
    lemma_chain_offset_monotone(s, i + 1, n);
    assert(chain_offset(s, i + 1) == chain_offset(s, i) + s[i].units());
    assert(s[i].units() + s[i + 1].units() <= chain_size(s));
    let b = Block { size: (s[i].size + HEADER_SIZE + s[i + 1].size) as usize, free: s[i].free };
    let u = s.update(i, b);
    lemma_chain_offset_update(s, i, b, n);
    lemma_chain_offset_remove(u, i + 1, n - 1);
    assert(u[i + 1] == s[i + 1]);
}

/// Freeing a used block keeps the chain covering the same bytes and keeps
/// free blocks apart.
proof fn lemma_dealloc_blocks(s: Seq<Block>, i: int)
    requires
        0 <= i < s.len(),
        !s[i].free,
        no_adjacent_free(s),
        chain_size(s) <= usize::MAX,
    ensures
        chain_size(dealloc_blocks(s, i)) == chain_size(s),
        no_adjacent_free(dealloc_blocks(s, i)),
{
    let n = s.len() as int;
    let f = s.update(i, Block { size: s[i].size, free: true });
    lemma_chain_offset_update(s, i, Block { size: s[i].size, free: true }, n);
    assert(chain_size(f) == chain_size(s));
    let right = i + 1 < n && f[i + 1].free;
    let g = if right {
        merge_at(f, i)
    } else {
        f
    };
    if right {
        lemma_merge_at(f, i);
    }
    assert(chain_size(g) == chain_size(s));
    let left = 0 < i && g[i - 1].free;
    let r = if left {
        merge_at(g, i - 1)
    } else {
        g
    };
    if left {
        lemma_merge_at(g, i - 1);
    }
    assert(chain_size(r) == chain_size(s));
    assert(r == dealloc_blocks(s, i));
    // Free blocks stay apart: every pair of neighbours in the result maps
    // back to blocks of `s` around the freed position.
    assert forall|j: int| 0 <= j < r.len() - 1 && (#[trigger] r[j]).free implies !r[j + 1].free by {
        if left && right {
            // r = [s[0 .. i-1], fused, s[i+2 ..]] with the fused block at i-1
            if j < i - 2 {
                assert(r[j] == s[j] && r[j + 1] == s[j + 1]);
            } else if j == i - 2 {
                assert(r[j] == s[j]);
                assert(s[i - 1].free ==> !s[i - 2].free);
            } else if j == i - 1 {
                assert(r[j + 1] == s[i + 2]);
                assert(s[i + 1].free ==> !s[i + 2].free);
            } else {
                assert(r[j] == s[j + 2] && r[j + 1] == s[j + 3]);
            }
        } else if right {
            // r = [s[0 .. i-1], fused, s[i+2 ..]] with the fused block at i
            if j < i - 1 {
                assert(r[j] == s[j] && r[j + 1] == s[j + 1]);
            } else if j == i - 1 {
                assert(r[j] == s[j]);
                assert(!r[j].free);
            } else if j == i {
                assert(r[j + 1] == s[i + 2]);
                assert(s[i + 1].free ==> !s[i + 2].free);
            } else {
                assert(r[j] == s[j + 1] && r[j + 1] == s[j + 2]);
            }
        } else if left {
            // r = [s[0 .. i-2], fused, s[i+1 ..]] with the fused block at i-1
            if j < i - 2 {
                assert(r[j] == s[j] && r[j + 1] == s[j + 1]);
            } else if j == i - 2 {
                assert(r[j] == s[j]);
                assert(s[i - 1].free ==> !s[i - 2].free);
            } else if j == i - 1 {
                assert(r[j + 1] == f[i + 1]);
                assert(f[i + 1] == s[i + 1]);
            } else {
                assert(r[j] == s[j + 1] && r[j + 1] == s[j + 2]);
            }
        } else {
            // r = f: only the freed block changed
            if j == i - 1 {
                assert(r[j] == s[j]);
                assert(!r[j].free);
            } else if j == i {
                assert(r[j + 1] == s[i + 1]);
                assert(!s[i + 1].free);
            } else {
                assert(r[j] == s[j] && r[j + 1] == s[j + 1]);
            }
        }
    }
}

/// A first/next-fit block allocator over a contiguous heap buffer.
///
/// The heap is modelled as a chain of blocks in address order; block `i`
/// starts at `heap_start + chain_offset(blocks@, i)` and its payload
/// `HEADER_SIZE` bytes later.  An allocator with an empty chain is
/// uninitialized and refuses to allocate.
pub struct Allocator {
    /// Address of the first byte of the heap buffer.
    pub heap_start: usize,
    /// The chain of blocks, in address order.  Empty until `init`.
    pub blocks: Vec<Block>,
}

impl Allocator {
    /// An allocator that has been given a heap.
    pub open spec fn is_initialized(self) -> bool {
        self.blocks@.len() > 0
    }

    /// Number of heap bytes covered by the chain, headers included.
    pub open spec fn heap_size(self) -> int {
        chain_size(self.blocks@)
    }

    /// Address of block `i`'s payload.
    pub open spec fn payload_addr(self, i: int) -> int {
        self.heap_start + chain_offset(self.blocks@, i) + HEADER_SIZE
    }

    /// Well-formedness: the chain stays inside the address space, and eager
    /// coalescing keeps free blocks apart — no two neighbours are both free.
    pub open spec fn wf(self) -> bool {
        &&& self.heap_start + chain_size(self.blocks@) <= usize::MAX
        &&& forall|i: int|
            0 <= i < self.blocks@.len() - 1 && (#[trigger] self.blocks@[i]).free
                ==> !self.blocks@[i + 1].free
    }

    /// Create an empty `Allocator`.
    ///
    /// An empty allocator owns no heap and must not be used for allocation
    /// before `init`.
    pub fn empty() -> (r: Allocator)
        ensures
            !r.is_initialized(),
            r.wf(),
            r.heap_start == 0,
            r.blocks@.len() == 0,
    {
        Allocator { heap_start: 0, blocks: Vec::new() }
    }

    /// Create an `Allocator` for the memory buffer at address `heap_start`
    /// of `size` bytes.
    pub fn new(heap_start: usize, size: usize) -> (r: Allocator)
        requires
            size > HEADER_SIZE,
            heap_start + size <= usize::MAX,
        ensures
            r.wf(),
            r.is_initialized(),
            r.heap_start == heap_start,
            r.blocks@ =~= seq![(Block { size: (size - HEADER_SIZE) as usize, free: true })],
            r.heap_size() == size,
    {
        let mut allocator = Allocator::empty();
        allocator.init(heap_start, size);
        allocator
    }

    /// Initialize an `Allocator` with the memory buffer at address
    /// `heap_start` of `size` bytes: the whole buffer becomes one free block.
    pub fn init(&mut self, heap_start: usize, size: usize)
        requires
            size > HEADER_SIZE,
            heap_start + size <= usize::MAX,
        ensures
            final(self).wf(),
            final(self).is_initialized(),
            final(self).heap_start == heap_start,
            final(self).blocks@ =~= seq![
                (Block { size: (size - HEADER_SIZE) as usize, free: true }),
            ],
            final(self).heap_size() == size,
    {
        let mut blocks: Vec<Block> = Vec::new();
        blocks.push(Block { size: size - HEADER_SIZE, free: true });
        self.heap_start = heap_start;
        self.blocks = blocks;
        proof {
            assert(chain_offset(self.blocks@, 1) == chain_offset(self.blocks@, 0)
                + self.blocks@[0].units());
        }
    }

    /// Walk the chain for the first free block of `size` or more payload
    /// bytes.  Returns its index and its header's byte offset into the heap.
    fn next_fit(&self, size: usize) -> (r: Option<(usize, usize)>)
        requires
            self.wf(),
        ensures
            match r {
                None => first_fit(self.blocks@, size) is None,
                Some((i, off)) => first_fit(self.blocks@, size) == Some(i as int) && i
                    < self.blocks@.len() && off == chain_offset(self.blocks@, i as int),
            },
    {
        let n = self.blocks.len();
        let mut i: usize = 0;
        let mut offset: usize = 0;
        while i < n
            invariant
                i <= n,
                n == self.blocks@.len(),
                self.wf(),
                offset == chain_offset(self.blocks@, i as int),
                forall|j: int| 0 <= j < i ==> !fits(self.blocks@[j], size),
            decreases n - i,
        {
            let b = self.blocks[i];
            if b.free && b.size >= size {
                proof {
                    lemma_first_fit(self.blocks@, size);
                }
                return Some((i, offset));
            }
            proof {
                assert(chain_offset(self.blocks@, i + 1) == chain_offset(self.blocks@, i as int)
                    + self.blocks@[i as int].units());
                lemma_chain_offset_monotone(self.blocks@, i + 1, n as int);
            }
            offset = offset + HEADER_SIZE + b.size;
            i = i + 1;
        }
        proof {
            lemma_first_fit(self.blocks@, size);
        }
        None
    }

    /// Allocate `size` bytes from the heap: first-fit search, splitting the
    /// found block when the remainder is at least `MIN_BLOCK_SIZE` bytes.
    ///
    /// Returns the address of the served payload, `OutOfMemory` when no free
    /// block fits, and `UninitializedAllocator` before `init`.  Alignment is
    /// accepted for interface compatibility but not acted on: the caller gets
    /// the block's natural payload address.
    pub fn allocate(&mut self, size: usize, _align: usize) -> (r: Result<usize, AllocError>)
        requires
            old(self).wf(),
        ensures
            final(self).wf(),
            final(self).heap_start == old(self).heap_start,
            final(self).heap_size() == old(self).heap_size(),
            r == alloc_result(old(self).heap_start, old(self).blocks@, size),
            final(self).blocks@ == alloc_chain_result(old(self).blocks@, size),
            // Fit correctness: the served block is marked used, holds at
            // least `size` payload bytes, and lies inside the heap.
            first_fit(old(self).blocks@, size) matches Some(i) ==> {
                &&& r == Ok::<usize, AllocError>((old(self).payload_addr(i)) as usize)
                &&& !final(self).blocks@[i].free
                &&& final(self).blocks@[i].size >= size
                &&& final(self).payload_addr(i) == old(self).payload_addr(i)
                &&& old(self).payload_addr(i) + size <= old(self).heap_start + old(
                    self,
                ).heap_size()
            },
            // Split invariant: the two parts add back up to the block that
            // was split, and the new block starts at the served payload's
            // end.
            first_fit(old(self).blocks@, size) matches Some(i) ==> (splits(
                old(self).blocks@[i],
                size,
            ) ==> {
                &&& final(self).blocks@[i].size + HEADER_SIZE + final(self).blocks@[i + 1].size
                    == old(self).blocks@[i].size
                &&& final(self).heap_start + chain_offset(final(self).blocks@, i + 1) == old(
                    self,
                ).payload_addr(i) + size
            }),
    {
        if self.blocks.len() == 0 {
            return Err(AllocError::UninitializedAllocator);
        }
        let found = self.next_fit(size);
        let (i, offset) = match found {
            Some(pair) => pair,
            None => {
                return Err(AllocError::OutOfMemory);
            },
        };
        proof {
            lemma_first_fit(self.blocks@, size);
            lemma_alloc_blocks(self.blocks@, i as int, size);
            lemma_chain_offset_monotone(self.blocks@, i as int + 1, self.blocks@.len() as int);
            assert(chain_offset(self.blocks@, i as int + 1) == chain_offset(
                self.blocks@,
                i as int,
            ) + self.blocks@[i as int].units());
        }
        let bsize = self.blocks[i].size;
        if bsize - size >= MIN_BLOCK_SIZE {
            self.blocks[i] = Block { size, free: false };
            let remainder = bsize - size - HEADER_SIZE;
            self.blocks.insert(i + 1, Block { size: remainder, free: true });
        } else {
            self.blocks[i] = Block { size: bsize, free: false };
        }
        Ok(self.heap_start + offset + HEADER_SIZE)
    }

    /// A live allocation: block `i` is used, records exactly `size` payload
    /// bytes, and its payload starts at address `ptr`.
    pub open spec fn valid_dealloc(self, ptr: usize, size: usize, i: int) -> bool {
        &&& 0 <= i < self.blocks@.len()
        &&& !self.blocks@[i].free
        &&& self.blocks@[i].size == size
        &&& self.payload_addr(i) == ptr
    }

    /// Distinct blocks have distinct payload addresses.
    pub proof fn lemma_payload_addr_injective(self, i: int, j: int)
        requires
            0 <= i < j < self.blocks@.len(),
        ensures
            self.payload_addr(i) < self.payload_addr(j),
    {
        lemma_chain_offset_monotone(self.blocks@, i, j);
    }

    /// Find the block whose payload starts at `ptr`, checking that it is
    /// used and that the caller-supplied size matches the block's record.
    /// Returns its index and its header's byte offset into the heap.
    fn find_block(&self, ptr: usize, size: usize) -> (r: (usize, usize))
        requires
            self.wf(),
            exists|i: int| self.valid_dealloc(ptr, size, i),
        ensures
            self.valid_dealloc(ptr, size, r.0 as int),
            r.1 == chain_offset(self.blocks@, r.0 as int),
    {
        let ghost gi: int = choose|k: int| self.valid_dealloc(ptr, size, k);
        let n = self.blocks.len();
        let mut i: usize = 0;
        let mut offset: usize = 0;
        while i < n
            invariant
                0 <= i <= gi < n,
                n == self.blocks@.len(),
                self.wf(),
                self.valid_dealloc(ptr, size, gi),
                offset == chain_offset(self.blocks@, i as int),
            decreases n - i,
        {
            proof {
                assert(chain_offset(self.blocks@, i + 1) == chain_offset(self.blocks@, i as int)
                    + self.blocks@[i as int].units());
                lemma_chain_offset_monotone(self.blocks@, i + 1, n as int);
            }
            let b = self.blocks[i];
            let addr = self.heap_start + offset + HEADER_SIZE;
            if addr == ptr && !b.free && b.size == size {
                proof {
                    if i < gi {
                        self.lemma_payload_addr_injective(i as int, gi);
                    }
                }
                return (i, offset);
            }
            proof {
                if i as int == gi {
                    assert(false);
                }
            }
            offset = offset + HEADER_SIZE + b.size;
            i = i + 1;
        }
        proof {
            assert(false);
        }
        (0, 0)
    }

    /// Free the allocation whose payload starts at `ptr`.
    ///
    /// The block's header is located by its fixed offset before `ptr`; the
    /// caller-supplied `size` must match the block's record.  The block is
    /// marked free and immediately fused with each free neighbour, so
    /// fragmentation does not accumulate.
    pub fn dealloc(&mut self, ptr: usize, size: usize, _align: usize)
        requires
            old(self).wf(),
            exists|i: int| old(self).valid_dealloc(ptr, size, i),
        ensures
            final(self).wf(),
            final(self).heap_start == old(self).heap_start,
            final(self).heap_size() == old(self).heap_size(),
            forall|i: int|
                old(self).valid_dealloc(ptr, size, i) ==> final(self).blocks@ == dealloc_blocks(
                    old(self).blocks@,
                    i,
                ),
    {
        let (i, _offset) = self.find_block(ptr, size);
        let ghost s0 = self.blocks@;
        proof {
            lemma_dealloc_blocks(s0, i as int);
        }
        let bsize = self.blocks[i].size;
        self.blocks[i] = Block { size: bsize, free: true };
        let ghost f = self.blocks@;
        proof {
            lemma_chain_offset_update(s0, i as int, Block { size: bsize, free: true },
                s0.len() as int);
            assert(chain_size(f) == chain_size(s0));
        }
        // Absorb a free right neighbour.
        let n = self.blocks.len();
        if i + 1 < n && self.blocks[i + 1].free {
            proof {
                lemma_chain_offset_monotone(f, 0, i as int);
                assert(chain_offset(f, i as int + 1) == chain_offset(f, i as int)
                    + f[i as int].units());
                assert(chain_offset(f, i as int + 2) == chain_offset(f, i as int + 1)
                    + f[i as int + 1].units());
                lemma_chain_offset_monotone(f, i as int + 2, f.len() as int);
                lemma_merge_at(f, i as int);
            }
            let nsize = self.blocks[i + 1].size;
            self.blocks[i] = Block { size: bsize + HEADER_SIZE + nsize, free: true };
            self.blocks.remove(i + 1);
        }
        let ghost g = self.blocks@;
        proof {
            assert(chain_size(g) == chain_size(s0));
        }
        // Absorb a free left neighbour.
        if i > 0 && self.blocks[i - 1].free {
            proof {
                lemma_chain_offset_monotone(g, 0, i as int - 1);
                assert(chain_offset(g, i as int) == chain_offset(g, i as int - 1)
                    + g[i as int - 1].units());
                assert(chain_offset(g, i as int + 1) == chain_offset(g, i as int)
                    + g[i as int].units());
                lemma_chain_offset_monotone(g, i as int + 1, g.len() as int);
                lemma_merge_at(g, i as int - 1);
            }
            let psize = self.blocks[i - 1].size;
            let csize = self.blocks[i].size;
            self.blocks[i - 1] = Block { size: psize + HEADER_SIZE + csize, free: true };
            self.blocks.remove(i);
        }
        proof {
            assert(self.blocks@ == dealloc_blocks(s0, i as int));
            forall_dealloc_unique(old(self), ptr, size, i as int);
        }
    }
}

/// Fit correctness: in a well-formed allocator the payload regions of two
/// distinct blocks never overlap — each ends (header included) before the
/// next begins — and every region lies entirely within the heap buffer.
/// Together with `allocate`'s postcondition (the served block is used and
/// holds at least the requested bytes) this means every address handed out
/// names memory that no other live allocation touches.
pub proof fn lemma_payload_regions_disjoint(a: Allocator, i: int, j: int)
    requires
        a.wf(),
        0 <= i < j < a.blocks@.len(),
    ensures
        a.heap_start + HEADER_SIZE <= a.payload_addr(i),
        a.payload_addr(i) + a.blocks@[i].size + HEADER_SIZE <= a.payload_addr(j),
        a.payload_addr(j) + a.blocks@[j].size <= a.heap_start + a.heap_size(),
{
    lemma_chain_offset_monotone(a.blocks@, 0, i);
    lemma_chain_offset_monotone(a.blocks@, i, j);
    lemma_chain_offset_monotone(a.blocks@, j, a.blocks@.len() as int);
}

/// The chain of a freshly initialized allocator over a `heap_size`-byte
/// buffer: one free block covering everything past the header.
pub open spec fn fresh_chain(heap_size: usize) -> Seq<Block> {
    seq![(Block { size: (heap_size - HEADER_SIZE) as usize, free: true })]
}

/// Out-of-memory boundary: on a freshly initialized allocator over a
/// `heap_size`-byte buffer, asking for more than the buffer holds always
/// fails with `OutOfMemory`, while asking for everything the buffer can
/// serve (`heap_size` minus one header) succeeds exactly once — the same
/// request fails with `OutOfMemory` immediately after.
pub proof fn lemma_oom_boundary(heap_start: usize, heap_size: usize)
    requires
        HEADER_SIZE < heap_size < usize::MAX,
        heap_start + heap_size <= usize::MAX,
    ensures
        alloc_result(heap_start, fresh_chain(heap_size), (heap_size + 1) as usize) == Err::<
            usize,
            AllocError,
        >(AllocError::OutOfMemory),
        alloc_result(heap_start, fresh_chain(heap_size), (heap_size - HEADER_SIZE) as usize)
            == Ok::<usize, AllocError>((heap_start + HEADER_SIZE) as usize),
        alloc_result(
            heap_start,
            alloc_chain_result(fresh_chain(heap_size), (heap_size - HEADER_SIZE) as usize),
            (heap_size - HEADER_SIZE) as usize,
        ) == Err::<usize, AllocError>(AllocError::OutOfMemory),
{
    reveal_with_fuel(first_fit, 3);
    reveal_with_fuel(chain_offset, 2);
    let s = fresh_chain(heap_size);
    let whole = (heap_size - HEADER_SIZE) as usize;
    let over = (heap_size + 1) as usize;
    assert(!fits(s[0], over));
    assert(first_fit(s, over) is None);
    assert(fits(s[0], whole));
    assert(first_fit(s, whole) == Some(0int));
    assert(!splits(s[0], whole));
    let s1 = alloc_chain_result(s, whole);
    assert(s1 =~= seq![(Block { size: whole, free: false })]);
    assert(!fits(s1[0], whole));
    assert(first_fit(s1, whole) is None);
}

/// Free and reuse: on a heap whose only allocation was `size` bytes, freeing
/// it and allocating `size` again returns the same address — the first-fit
/// search reuses the hole, which coalescing has restored to the fresh chain.
/// This holds for every servable `size`; the block freed is the chain's
/// first, whose recorded payload is exactly `size` whenever the allocation
/// split off a remainder or fit exactly, and the whole buffer otherwise
/// (`dealloc` asks callers for the recorded size, per the size check the
/// deallocation contract makes).
pub proof fn lemma_free_reuse(heap_start: usize, heap_size: usize, size: usize)
    requires
        HEADER_SIZE < heap_size,
        heap_start + heap_size <= usize::MAX,
        size <= heap_size - HEADER_SIZE,
    ensures
        alloc_result(heap_start, fresh_chain(heap_size), size) == Ok::<usize, AllocError>(
            (heap_start + HEADER_SIZE) as usize,
        ),
        dealloc_blocks(alloc_chain_result(fresh_chain(heap_size), size), 0) =~= fresh_chain(
            heap_size,
        ),
        alloc_result(
            heap_start,
            dealloc_blocks(alloc_chain_result(fresh_chain(heap_size), size), 0),
            size,
        ) == alloc_result(heap_start, fresh_chain(heap_size), size),
{
    reveal_with_fuel(first_fit, 3);
    reveal_with_fuel(chain_offset, 3);
    let s = fresh_chain(heap_size);
    assert(fits(s[0], size));
    assert(first_fit(s, size) == Some(0int));
    let s1 = alloc_chain_result(s, size);
    if splits(s[0], size) {
        let rem = (s[0].size - size - HEADER_SIZE) as usize;
        assert(s1 =~= seq![
            (Block { size, free: false }),
            (Block { size: rem, free: true }),
        ]);
        let f = s1.update(0, Block { size, free: true });
        assert(f[1].free);
        assert(dealloc_blocks(s1, 0) == merge_at(f, 0));
        assert(merge_at(f, 0) =~= fresh_chain(heap_size));
    } else {
        assert(s1 =~= seq![(Block { size: s[0].size, free: false })]);
        let f = s1.update(0, Block { size: s1[0].size, free: true });
        assert(dealloc_blocks(s1, 0) == f);
        assert(f =~= fresh_chain(heap_size));
    }
}

/// Coalescing: allocate two adjacent blocks of equal size, free both in
/// either order, and a request for their combined span (both payloads plus
/// the header between them) succeeds from the merged region — fragmentation
/// does not accumulate under alternating allocation and freeing of
/// same-sized objects.  The margin premise is what makes the scenario
/// possible at all: it leaves each of the two allocations a remainder of at
/// least `MIN_BLOCK_SIZE`, so both split and A and B come out adjacent with
/// exactly `size` payload bytes each.
pub proof fn lemma_coalescing(heap_start: usize, heap_size: usize, size: usize)
    requires
        heap_start + heap_size <= usize::MAX,
        heap_size - (2 * size + 3 * HEADER_SIZE) >= MIN_BLOCK_SIZE,
    ensures
        ({
            let s = fresh_chain(heap_size);
            let s1 = alloc_chain_result(s, size);
            let s2 = alloc_chain_result(s1, size);
            let both = (2 * size + HEADER_SIZE) as usize;
            &&& alloc_result(heap_start, s, size) is Ok
            &&& alloc_result(heap_start, s1, size) is Ok
            &&& alloc_result(heap_start, dealloc_blocks(dealloc_blocks(s2, 0), 1), both) is Ok
            &&& alloc_result(heap_start, dealloc_blocks(dealloc_blocks(s2, 1), 0), both) is Ok
        }),
{
    reveal_with_fuel(first_fit, 4);
    reveal_with_fuel(chain_offset, 4);
    let s = fresh_chain(heap_size);
    let both = (2 * size + HEADER_SIZE) as usize;
    let w = (heap_size - HEADER_SIZE) as usize;
    // First allocation: the fresh block splits, leaving A used at index 0.
    assert(fits(s[0], size));
    assert(first_fit(s, size) == Some(0int));
    assert(splits(s[0], size));
    let rem1 = (w - size - HEADER_SIZE) as usize;
    let s1 = alloc_chain_result(s, size);
    assert(s1 =~= seq![
        (Block { size, free: false }),
        (Block { size: rem1, free: true }),
    ]);
    // Second allocation: first fit skips A, splits the remainder; B sits at
    // index 1, right next to A.
    assert(!fits(s1[0], size));
    assert(fits(s1[1], size));
    assert(first_fit(s1, size) == Some(1int));
    assert(splits(s1[1], size));
    let rem2 = (rem1 - size - HEADER_SIZE) as usize;
    let s2 = alloc_chain_result(s1, size);
    assert(s2 =~= seq![
        (Block { size, free: false }),
        (Block { size, free: false }),
        (Block { size: rem2, free: true }),
    ]);
    // Free A first, then B: freeing B fuses it with the free tail and then
    // with A, restoring the fresh chain.
    let fa = s2.update(0, Block { size, free: true });
    assert(!fa[1].free);
    assert(dealloc_blocks(s2, 0) == fa);
    let fab = fa.update(1, Block { size, free: true });
    assert(fab[2].free);
    let gab = merge_at(fab, 1);
    assert(gab =~= seq![
        (Block { size, free: true }),
        (Block { size: (size + HEADER_SIZE + rem2) as usize, free: true }),
    ]);
    assert(gab[0].free);
    let hab = merge_at(gab, 0);
    assert(dealloc_blocks(fa, 1) == hab);
    assert(hab =~= fresh_chain(heap_size));
    assert(fits(hab[0], both));
    assert(first_fit(hab, both) == Some(0int));
    // Free B first, then A: freeing B fuses it with the free tail; freeing A
    // fuses A with that block, restoring the fresh chain.
    let fb = s2.update(1, Block { size, free: true });
    assert(fb[2].free);
    let gb = merge_at(fb, 1);
    assert(gb =~= seq![
        (Block { size, free: false }),
        (Block { size: (size + HEADER_SIZE + rem2) as usize, free: true }),
    ]);
    assert(dealloc_blocks(s2, 1) == gb);
    let fba = gb.update(0, Block { size, free: true });
    assert(fba[1].free);
    let gba = merge_at(fba, 0);
    assert(dealloc_blocks(gb, 0) == gba);
    assert(gba =~= fresh_chain(heap_size));
    assert(fits(gba[0], both));
    assert(first_fit(gba, both) == Some(0int));
}

/// Only one block can satisfy `valid_dealloc` for a given pointer.
proof fn forall_dealloc_unique(a: &Allocator, ptr: usize, size: usize, i: int)
    requires
        a.valid_dealloc(ptr, size, i),
    ensures
        forall|j: int| a.valid_dealloc(ptr, size, j) ==> j == i,
{
    assert forall|j: int| a.valid_dealloc(ptr, size, j) implies j == i by {
        if j < i {
            a.lemma_payload_addr_injective(j, i);
        } else if j > i {
            a.lemma_payload_addr_injective(i, j);
        }
    }
}

} // verus!
