use vstd::prelude::*;

use vstd::arithmetic::div_mod::{lemma_fundamental_div_mod, lemma_mod_multiples_basic};
use vstd::arithmetic::power2::{
    lemma2_to64, lemma_pow2_pos, lemma_pow2_strictly_increases, lemma_pow2_unfold, pow2,
};
use vstd::bits::{lemma_usize_low_bits_mask_is_mod, low_bits_mask};
use vstd::layout::unsigned_int_max_values;

verus! {

/// A power of two that fits the machine word.
pub open spec fn power_of_two(n: usize) -> bool {
    exists|k: nat| k < usize::BITS && n == pow2(k)
}

/// The greatest multiple of `align` that is at most `addr`, for a power of
/// two `align`; an `align` of zero leaves the address untouched.
pub open spec fn spec_align_down(addr: usize, align: usize) -> usize {
    if align == 0 {
        addr
    } else {
        addr & !((align - 1) as usize)
    }
}

/// The least multiple of `align` that is at least `addr`, for a power of two
/// `align`.
pub open spec fn spec_align_up(addr: usize, align: usize) -> usize {
    spec_align_down((addr + align - 1) as usize, align)
}

/// Whether `n` is a power of two.
pub fn is_power_of_two(n: usize) -> (r: bool)
    ensures
        r == power_of_two(n),
{
    if n == 0 {
        proof {
            assert forall|k: nat| k < usize::BITS implies 0usize != pow2(k) by {
                lemma_pow2_pos(k);
            }
        }
        return false;
    }
    let mut p: usize = 1;
    let ghost mut j: nat = 0;
    proof {
        lemma2_to64();
        unsigned_int_max_values();
    }
    while p < n
        invariant
            n > 0,
            p >= 1,
            j < usize::BITS,
            p == pow2(j),
            (usize::MAX as nat) == pow2(usize::BITS as nat) - 1,
            forall|k: nat| k < j ==> n != pow2(k),
        decreases usize::BITS - j,
    {
        if p > usize::MAX / 2 {
            proof {
                assert forall|k: nat| k < usize::BITS implies n != pow2(k) by {
                    if k == j {
                        assert(p < n);
                    } else if k > j {
                        lemma_pow2_unfold(j + 1);
                        if k > j + 1 {
                            lemma_pow2_strictly_increases(j + 1, k);
                        }
                        assert(2 * p > usize::MAX);
                    }
                }
            }
            return false;
        }
        proof {
            lemma_pow2_unfold(j + 1);
            assert(2 * p <= usize::MAX);
            if j + 1 >= usize::BITS {
                if j + 1 > usize::BITS {
                    lemma_pow2_strictly_increases(usize::BITS as nat, j + 1);
                }
                assert(false);
            }
            j = j + 1;
        }
        p = p * 2;
    }
    proof {
        if p == n {
            assert(n == pow2(j) && j < usize::BITS);
        } else {
            assert forall|k: nat| k < usize::BITS implies n != pow2(k) by {
                if k > j {
                    lemma_pow2_strictly_increases(j, k);
                } else if k == j {
                    assert(p > n);
                }
            }
        }
    }
    p == n
}

/// Clearing the low bits under a power-of-two mask rounds down to a multiple
/// of the alignment, by less than the alignment.
proof fn lemma_align_down_bits(addr: usize, align: usize)
    requires
        power_of_two(align),
    ensures
        spec_align_down(addr, align) <= addr,
        spec_align_down(addr, align) % align == 0,
        addr - spec_align_down(addr, align) < align,
{
    let k = choose|k: nat| k < usize::BITS && align == pow2(k);
    lemma_pow2_pos(k);
    let m = (align - 1) as usize;
    assert(m == low_bits_mask(k)) by {
        assert(low_bits_mask(k) == (pow2(k) - 1) as nat);
    }
    lemma_usize_low_bits_mask_is_mod(addr, k);
    assert(addr & m == addr % align);
    assert(addr == (addr & m) + (addr & !m) && (addr & m) <= m) by (bit_vector);
    lemma_fundamental_div_mod(addr as int, align as int);
    assert(addr == align * (addr as int / align as int) + addr as int % align as int);
    assert((addr & !m) as int == align * (addr as int / align as int));
    lemma_mod_multiples_basic(addr as int / align as int, align as int);
    assert(((addr as int / align as int) * align as int) % align as int == 0);
    assert(spec_align_down(addr, align) == addr & !m);
    assert((addr & !m) % align == 0);
}

/// Align downwards. Returns the greatest x with alignment `align` so that
/// x <= addr. The alignment must be a power of 2 (or zero, which leaves the
/// address untouched).
pub fn align_down(addr: usize, align: usize) -> (r: usize)
    requires
        align == 0 || power_of_two(align),
    ensures
        r == spec_align_down(addr, align),
        r <= addr,
        power_of_two(align) ==> r % align == 0 && addr - r < align,
{
    if is_power_of_two(align) {
        proof {
            lemma_align_down_bits(addr, align);
        }
        addr & !(align - 1)
    } else if align == 0 {
        addr
    } else {
        proof {
            assert(false);
        }
        addr
    }
}

/// Align upwards. Returns the smallest x with alignment `align` so that
/// x >= addr. The alignment must be a power of 2.
pub fn align_up(addr: usize, align: usize) -> (r: usize)
    requires
        power_of_two(align),
        addr + align <= usize::MAX,
    ensures
        r == spec_align_up(addr, align),
        r >= addr,
        r % align == 0,
        r - addr < align,
{
    proof {
        let k = choose|k: nat| k < usize::BITS && align == pow2(k);
        lemma_pow2_pos(k);
    }
    align_down(addr + align - 1, align)
}

/// A bump allocator: hands out addresses from a flat buffer front to back
/// and never reclaims them.
pub struct Allocator {
    /// Address of the first byte of the heap buffer.
    pub heap_start: usize,
    /// Size of the heap buffer in bytes.
    pub heap_size: usize,
    /// Address of the first byte not yet handed out.
    pub next: usize,
}

impl Allocator {
    /// The bump pointer stays inside the buffer, and the buffer inside the
    /// address space.
    pub open spec fn wf(self) -> bool {
        &&& self.heap_start + self.heap_size <= usize::MAX
        &&& self.heap_start <= self.next <= self.heap_start + self.heap_size
    }

    /// Create a bump allocator over the buffer at `heap_start` of
    /// `heap_size` bytes.
    pub fn new(heap_start: usize, heap_size: usize) -> (r: Allocator)
        requires
            heap_start + heap_size <= usize::MAX,
        ensures
            r.wf(),
            r.heap_start == heap_start,
            r.heap_size == heap_size,
            r.next == heap_start,
    {
        Allocator { heap_start, heap_size, next: heap_start }
    }

    /// Serve `size` bytes at the next `align`-aligned address, if the buffer
    /// still holds them; `None` once the buffer is exhausted.
    pub fn allocate(&mut self, size: usize, align: usize) -> (r: Option<usize>)
        requires
            old(self).wf(),
            power_of_two(align),
            old(self).next + align <= usize::MAX,
            spec_align_up(old(self).next, align) + size <= usize::MAX,
        ensures
            final(self).wf(),
            final(self).heap_start == old(self).heap_start,
            final(self).heap_size == old(self).heap_size,
            ({
                let start = spec_align_up(old(self).next, align);
                if start + size <= old(self).heap_start + old(self).heap_size {
                    &&& r == Some(start)
                    &&& start % align == 0
                    &&& old(self).next <= start
                    &&& final(self).next == start + size
                } else {
                    &&& r == None::<usize>
                    &&& final(self).next == old(self).next
                }
            }),
    {
        let alloc_start = align_up(self.next, align);
        let alloc_end = alloc_start + size;

        if alloc_end <= self.heap_start + self.heap_size {
            self.next = alloc_end;
            Some(alloc_start)
        } else {
            None
        }
    }
}

} // verus!
