//! Alignment arithmetic and the monotonic bump allocator that serves as the
//! kernel heap, together with the sub-allocator factory that carves child
//! regions out of a parent.

use vstd::arithmetic::div_mod::{
    lemma_add_mod_noop, lemma_fundamental_div_mod, lemma_mod_add_multiples_vanish, lemma_mod_bound,
    lemma_mod_multiples_basic, lemma_small_mod,
};
use vstd::arithmetic::mul::lemma_mul_is_commutative;
use vstd::arithmetic::power2::{lemma2_to64, lemma_pow2_pos, pow2};
use vstd::bits::{lemma_usize_low_bits_mask_is_mod, low_bits_mask};
use vstd::prelude::*;

verus! {

/// The alignment arguments the helpers accept: a power of two (in particular
/// not zero).
pub open spec fn is_power_of_two(align: usize) -> bool {
    exists|n: nat| n < usize::BITS && align == pow2(n)
}

/// The alignments this kernel actually requests are powers of two.
pub proof fn lemma_common_powers_of_two()
    ensures
        is_power_of_two(1),
        is_power_of_two(2),
        is_power_of_two(4),
        is_power_of_two(8),
        is_power_of_two(16),
        is_power_of_two(64),
        is_power_of_two(4096),
        is_power_of_two(0x10_0000),
{
    lemma2_to64();
    assert(1 == pow2(0));
    assert(2 == pow2(1));
    assert(4 == pow2(2));
    assert(8 == pow2(3));
    assert(16 == pow2(4));
    assert(64 == pow2(6));
    assert(4096 == pow2(12));
    assert(0x10_0000 == pow2(20));
}

/// The greatest multiple of `align` that is at most `addr`.
pub open spec fn spec_align_down(addr: int, align: int) -> int {
    addr - addr % align
}

/// The least multiple of `align` that is at least `addr`.
pub open spec fn spec_align_up(addr: int, align: int) -> int {
    spec_align_down(addr + align - 1, align)
}

/// Rounding down lands on a multiple of `align`, at or below `addr` and less
/// than `align` away from it.
pub proof fn lemma_align_down_properties(addr: int, align: int)
    requires
        align >= 1,
    ensures
        spec_align_down(addr, align) % align == 0,
        spec_align_down(addr, align) <= addr,
        addr - spec_align_down(addr, align) < align,
{
    lemma_mod_bound(addr, align);
    lemma_fundamental_div_mod(addr, align);
    lemma_mod_multiples_basic(addr / align, align);
    lemma_mul_is_commutative(addr / align, align);
    assert(spec_align_down(addr, align) == (addr / align) * align);
}

/// Rounding up lands on a multiple of `align`, at or above `addr` and less
/// than `align` beyond it.
pub proof fn lemma_align_up_properties(addr: int, align: int)
    requires
        align >= 1,
    ensures
        spec_align_up(addr, align) % align == 0,
        spec_align_up(addr, align) >= addr,
        spec_align_up(addr, align) - addr < align,
{
    lemma_align_down_properties(addr + align - 1, align);
}

/// Rounding up an already rounded-down address changes nothing:
/// `align_up(align_down(x, k), k) == align_down(x, k)`.
pub proof fn lemma_align_up_of_align_down(addr: int, align: int)
    requires
        align >= 1,
    ensures
        spec_align_up(spec_align_down(addr, align), align) == spec_align_down(addr, align),
{
    let d = spec_align_down(addr, align);
    lemma_align_down_properties(addr, align);
    lemma_add_mod_noop(d, align - 1, align);
    lemma_small_mod((align - 1) as nat, align as nat);
    assert((d + align - 1) % align == align - 1);
}

/// An address that is a multiple of `align` is unmoved by rounding in either
/// direction.
pub proof fn lemma_align_of_multiple(addr: int, align: int)
    requires
        align >= 1,
        addr % align == 0,
    ensures
        spec_align_down(addr, align) == addr,
        spec_align_up(addr, align) == addr,
{
    lemma_add_mod_noop(addr, align - 1, align);
    lemma_small_mod((align - 1) as nat, align as nat);
    assert((addr + align - 1) % align == align - 1);
}

/// Align `addr` downwards: the greatest multiple of `align` at most `addr`.
#[verifier::rlimit(100)]
pub fn align_down(addr: usize, align: usize) -> (r: usize)
    requires
        is_power_of_two(align),
    ensures
        r == spec_align_down(addr as int, align as int),
{
    proof {
        let n = choose|n: nat| n < usize::BITS && align == pow2(n);
        lemma_pow2_pos(n);
        lemma_usize_low_bits_mask_is_mod(addr, n);
        assert((align - 1) as usize == low_bits_mask(n) as usize);
        assert(addr & !((align - 1) as usize) == addr - (addr & ((align - 1) as usize)))
            by (bit_vector);
    }
    addr & !(align - 1)
}

/// Align `addr` upwards: the least multiple of `align` at least `addr`.
/// The sum `addr + align - 1` must fit in `usize`.
pub fn align_up(addr: usize, align: usize) -> (r: usize)
    requires
        is_power_of_two(align),
        addr + align - 1 <= usize::MAX,
    ensures
        r == spec_align_up(addr as int, align as int),
{
    proof {
        let n = choose|n: nat| n < usize::BITS && align == pow2(n);
        lemma_pow2_pos(n);
    }
    align_down(addr + (align - 1), align)
}

/// How rounding up relates to the remainder of the address: unmoved when
/// already aligned, otherwise moved forward by the missing distance.
pub proof fn lemma_align_up_unfold(addr: int, align: int)
    requires
        align >= 1,
    ensures
        addr % align == 0 ==> spec_align_up(addr, align) == addr,
        addr % align != 0 ==> spec_align_up(addr, align) == addr + align - addr % align,
{
    lemma_mod_bound(addr, align);
    let rem = addr % align;
    if rem == 0 {
        lemma_align_of_multiple(addr, align);
    } else {
        lemma_add_mod_noop(addr, align - 1, align);
        lemma_small_mod((align - 1) as nat, align as nat);
        lemma_mod_add_multiples_vanish(rem - 1, align);
        lemma_small_mod((rem - 1) as nat, align as nat);
        assert((addr + align - 1) % align == rem - 1);
    }
}

/// An allocation of `size` bytes at alignment `align` fits the remaining
/// heap when the rounded-up cursor plus the size stays below the end.
pub open spec fn alloc_fits(next: int, heap_end: int, size: int, align: int) -> bool {
    spec_align_up(next, align) + size <= heap_end
}

/// The address a bump allocation returns: the rounded-up cursor on success,
/// the null sentinel `0` when the request does not fit.
pub open spec fn bump_alloc_addr(next: int, heap_end: int, size: int, align: int) -> int {
    if alloc_fits(next, heap_end, size, align) {
        spec_align_up(next, align)
    } else {
        0
    }
}

/// The cursor after a bump allocation: advanced past the returned block on
/// success, unchanged on failure.
pub open spec fn bump_alloc_next(next: int, heap_end: int, size: int, align: int) -> int {
    if alloc_fits(next, heap_end, size, align) {
        spec_align_up(next, align) + size
    } else {
        next
    }
}

/// What every bump allocation guarantees: a fitting request is served at the
/// rounded-up cursor — aligned, inside `[heap_start, heap_end]`, at or past
/// every earlier block — and the cursor moves monotonically; a request that
/// does not fit returns the null sentinel and moves nothing. A request with
/// alignment 1 fits whenever `size` bytes remain, and a served address is
/// non-null whenever the heap starts above address zero.
pub proof fn lemma_bump_alloc_properties(
    next: int,
    heap_start: int,
    heap_end: int,
    size: int,
    align: int,
)
    requires
        0 <= heap_start <= next <= heap_end,
        align >= 1,
        size >= 0,
    ensures
        ({
            let a = bump_alloc_addr(next, heap_end, size, align);
            let moved = bump_alloc_next(next, heap_end, size, align);
            let fits = alloc_fits(next, heap_end, size, align);
            &&& fits ==> a == spec_align_up(next, align) && a % align == 0 && next <= a && a
                + size <= heap_end && moved == a + size
            &&& !fits ==> a == 0 && moved == next
            &&& next <= moved <= heap_end
            &&& fits && heap_start >= 1 ==> a != 0
            &&& align == 1 && next + size <= heap_end ==> fits
        }),
{
    lemma_align_up_properties(next, align);
    if align == 1 {
        lemma_small_mod(0, 1);
        lemma_align_up_unfold(next, 1);
        assert(next % 1 == 0) by {
            lemma_mod_bound(next, 1);
        }
    }
}

/// Consecutive bump allocations never overlap: when two requests in a row
/// are served, the second block starts at or past the end of the first,
/// and each is aligned and inside the heap. Longer allocation sequences
/// chain the same step.
pub proof fn lemma_bump_alloc_sequence(
    next: int,
    heap_start: int,
    heap_end: int,
    size1: int,
    align1: int,
    size2: int,
    align2: int,
)
    requires
        0 <= heap_start <= next <= heap_end,
        align1 >= 1,
        align2 >= 1,
        size1 >= 0,
        size2 >= 0,
    ensures
        ({
            let a1 = bump_alloc_addr(next, heap_end, size1, align1);
            let next1 = bump_alloc_next(next, heap_end, size1, align1);
            let a2 = bump_alloc_addr(next1, heap_end, size2, align2);
            let fits1 = alloc_fits(next, heap_end, size1, align1);
            let fits2 = alloc_fits(next1, heap_end, size2, align2);
            &&& fits1 && fits2 ==> a1 + size1 <= a2
            &&& fits1 ==> a1 % align1 == 0 && heap_start <= a1 && a1 + size1 <= heap_end
            &&& fits2 ==> a2 % align2 == 0 && heap_start <= a2 && a2 + size2 <= heap_end
        }),
{
    lemma_bump_alloc_properties(next, heap_start, heap_end, size1, align1);
    let next1 = bump_alloc_next(next, heap_end, size1, align1);
    lemma_bump_alloc_properties(next1, heap_start, heap_end, size2, align2);
}

/// The capability every allocator of this kernel offers: construction over a
/// region, allocation of `size` bytes at a power-of-two alignment (null
/// sentinel `0` on failure), and deallocation (which bump allocators ignore).
pub trait Allocator: Sized {
    /// The allocator's internal invariant.
    spec fn wf(&self) -> bool;

    /// First address of the region the allocator manages.
    spec fn region_start(&self) -> int;

    /// First address past the region the allocator manages.
    spec fn region_end(&self) -> int;

    fn new(start: usize, size: usize) -> (r: Self)
        requires
            start + size <= usize::MAX,
        ensures
            r.wf(),
            r.region_start() == start,
            r.region_end() == start + size,
    ;

    fn allocate(&mut self, size: usize, align: usize) -> (r: usize)
        requires
            old(self).wf(),
            is_power_of_two(align),
        ensures
            final(self).wf(),
            final(self).region_start() == old(self).region_start(),
            final(self).region_end() == old(self).region_end(),
            r != 0 ==> (r as int) % (align as int) == 0 && old(self).region_start() <= r && r + size
                <= old(self).region_end() && old(self).region_end() <= usize::MAX,
    ;

    fn dealloc(&mut self, ptr: usize, size: usize, align: usize)
        requires
            old(self).wf(),
        ensures
            final(self).wf(),
            final(self).region_start() == old(self).region_start(),
            final(self).region_end() == old(self).region_end(),
    ;
}

/// A simple allocator that hands out memory linearly and ignores freed
/// memory. The cursor `next` only ever moves forward.
#[derive(Debug)]
pub struct BumpAllocator {
    pub heap_start: usize,
    pub heap_end: usize,
    pub next: usize,
}

impl BumpAllocator {
    /// The allocator every request fails on: an empty region at address zero.
    pub fn empty() -> (r: Self)
        ensures
            r.wf(),
            r.heap_start == 0,
            r.heap_end == 0,
            r.next == 0,
    {
        BumpAllocator { heap_start: 0, heap_end: 0, next: 0 }
    }
}

impl Allocator for BumpAllocator {
    open spec fn wf(&self) -> bool {
        self.heap_start <= self.next <= self.heap_end
    }

    open spec fn region_start(&self) -> int {
        self.heap_start as int
    }

    open spec fn region_end(&self) -> int {
        self.heap_end as int
    }

    fn new(heap_start: usize, size: usize) -> (r: Self)
        ensures
            r.heap_start == heap_start,
            r.heap_end == heap_start + size,
            r.next == heap_start,
    {
        BumpAllocator { heap_start, heap_end: heap_start + size, next: heap_start }
    }

    fn allocate(&mut self, size: usize, align: usize) -> (r: usize)
        ensures
            final(self).heap_start == old(self).heap_start,
            final(self).heap_end == old(self).heap_end,
            r == bump_alloc_addr(
                old(self).next as int,
                old(self).heap_end as int,
                size as int,
                align as int,
            ),
            final(self).next == bump_alloc_next(
                old(self).next as int,
                old(self).heap_end as int,
                size as int,
                align as int,
            ),
    {
        proof {
            let n = choose|n: nat| n < usize::BITS && align == pow2(n);
            lemma_pow2_pos(n);
            lemma_mod_bound(old(self).next as int, align as int);
            lemma_align_up_unfold(old(self).next as int, align as int);
            lemma_align_up_properties(old(self).next as int, align as int);
        }
        let rem = self.next % align;
        let pad = if rem == 0 {
            0
        } else {
            align - rem
        };
        if pad > self.heap_end - self.next {
            return 0;
        }
        let alloc_start = self.next + pad;
        if size > self.heap_end - alloc_start {
            return 0;
        }
        self.next = alloc_start + size;
        alloc_start
    }

    fn dealloc(&mut self, ptr: usize, size: usize, align: usize)
        ensures
            *final(self) == *old(self),
    {
    }
}

/// The process-wide heap: a bump allocator behind the global allocation
/// entry points, empty until `initialize` hands it the heap region.
#[derive(Debug)]
pub struct OriginAllocator {
    pub inner: BumpAllocator,
}

impl OriginAllocator {
    pub fn new() -> (r: Self)
        ensures
            r.inner.wf(),
            r.inner.heap_start == 0,
            r.inner.heap_end == 0,
            r.inner.next == 0,
    {
        OriginAllocator { inner: BumpAllocator::empty() }
    }

    pub fn initialize(&mut self, start: usize, size: usize)
        requires
            start + size <= usize::MAX,
        ensures
            final(self).inner.heap_start == start,
            final(self).inner.heap_end == start + size,
            final(self).inner.next == start,
    {
        self.inner = BumpAllocator::new(start, size);
    }

    pub fn allocate(&mut self, size: usize, align: usize) -> (r: usize)
        requires
            old(self).inner.wf(),
            is_power_of_two(align),
        ensures
            final(self).inner.heap_start == old(self).inner.heap_start,
            final(self).inner.heap_end == old(self).inner.heap_end,
            r == bump_alloc_addr(
                old(self).inner.next as int,
                old(self).inner.heap_end as int,
                size as int,
                align as int,
            ),
            final(self).inner.next == bump_alloc_next(
                old(self).inner.next as int,
                old(self).inner.heap_end as int,
                size as int,
                align as int,
            ),
    {
        self.inner.allocate(size, align)
    }

    pub fn dealloc(&mut self, ptr: usize, size: usize, align: usize)
        requires
            old(self).inner.wf(),
        ensures
            *final(self) == *old(self),
    {
        self.inner.dealloc(ptr, size, align)
    }
}

/// Carve a child allocator out of `parent`: request `size` bytes at 16-byte
/// alignment and construct the child over exactly that subregion,
/// `[start, start + size)`. `None` when the parent cannot serve the request.
pub fn create_child_allocator<T: Allocator, P: Allocator>(parent: &mut P, size: usize) -> (t: Option<
    T,
>)
    requires
        old(parent).wf(),
    ensures
        final(parent).wf(),
        final(parent).region_start() == old(parent).region_start(),
        final(parent).region_end() == old(parent).region_end(),
        t matches Some(c) ==> c.wf() && old(parent).region_start() <= c.region_start()
            && c.region_end() == c.region_start() + size && c.region_end()
            <= old(parent).region_end(),
{
    proof {
        lemma_common_powers_of_two();
    }
    let mem = parent.allocate(size, 16);
    if mem == 0 {
        return None;
    }
    Some(T::new(mem, size))
}

} // verus!
