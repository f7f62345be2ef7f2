//! The bump arena kernel arguments are allocated from.
use vstd::prelude::*;
use crate::error::Error;

verus! {

/// Allocations from the arena are aligned to at least this many bytes, so that
/// argument blocks of different dispatches never share a cacheline.
pub const ARGS_ALIGN: usize = 128;

/// `x` is a power of two.
pub open spec fn is_pow2(x: int) -> bool
    decreases x,
{
    if x <= 0 {
        false
    } else if x == 1 {
        true
    } else {
        x % 2 == 0 && is_pow2(x / 2)
    }
}

/// The bytes needed to move `addr` up to the next multiple of `align`.
pub open spec fn padding_for(addr: int, align: int) -> int {
    (align - (addr - 1) % align) - 1
}

/// The largest `isize`, the bound on a layout's size.
pub open spec fn isize_max() -> int {
    isize::MAX as int
}

/// The layout a kernel argument block is allocated with: the type's alignment
/// raised to at least `ARGS_ALIGN`.
pub open spec fn args_align(align: int) -> int {
    if align < ARGS_ALIGN { ARGS_ALIGN as int } else { align }
}

/// Where the next allocation of `size` bytes aligned to `align` would start, given the
/// arena's fill mark and end, or `None` when it does not fit.
pub open spec fn bump_alloc(allocated: int, end: int, size: int, align: int) -> Option<int> {
    let pad = padding_for(allocated, args_align(align));
    if size > isize_max() - (args_align(align) - 1) {
        None
    } else if allocated + size + pad > end {
        None
    } else {
        Some(allocated + pad)
    }
}

/// A bump arena for kernel arguments: `[base, base + size)` with everything below
/// `allocated` handed out. Allocation never frees; `wash` resets the whole arena.
pub struct ArgsPool {
    base: usize,
    size: usize,
    allocated: usize,
}

impl ArgsPool {
    /// The arena's invariant: a nonzero base, and the fill mark within the arena.
    pub open spec fn wf(&self) -> bool {
        &&& 1 <= self.base_spec()
        &&& self.end_spec() <= usize::MAX
        &&& self.base_spec() <= self.allocated_spec() <= self.end_spec()
    }

    /// The arena's first address.
    pub closed spec fn base_spec(&self) -> int { self.base as int }
    /// One past the arena's last address.
    pub closed spec fn end_spec(&self) -> int { self.base + self.size }
    /// The fill mark: the next free address.
    pub closed spec fn allocated_spec(&self) -> int { self.allocated as int }

    /// An arena over `[base, base + size)` with nothing allocated.
    pub fn from_arena(base: usize, size: usize) -> (r: ArgsPool)
        requires 1 <= base, base + size <= usize::MAX,
        ensures
            r.wf(),
            r.base_spec() == base,
            r.end_spec() == base + size,
            r.allocated_spec() == base,
    {
        ArgsPool { base, size, allocated: base }
    }

    /// The arena's size in bytes.
    pub fn size(&self) -> (r: usize)
        requires self.wf(),
        ensures r == self.end_spec() - self.base_spec(),
    {
        self.size
    }

    /// The arena's first address.
    pub fn start_byte(&self) -> (r: usize)
        ensures r == self.base_spec(),
    {
        self.base
    }

    /// One past the arena's last address.
    pub fn end_byte(&self) -> (r: usize)
        requires self.wf(),
        ensures r == self.end_spec(),
    {
        self.base + self.size
    }

    /// Allocate one argument block of `size` bytes whose type is aligned to `align`
    /// (a power of two). The block's address is aligned to `max(align, ARGS_ALIGN)`.
    /// Returns `None`, leaving the arena as it was, when the raised alignment makes the
    /// layout invalid or the arena has no room.
    pub fn alloc_block(&mut self, size: usize, align: usize) -> (r: Option<usize>)
        requires
            old(self).wf(),
            is_pow2(align as int),
            old(self).end_spec() + size + args_align(align as int) <= usize::MAX,
        ensures
            final(self).wf(),
            final(self).base_spec() == old(self).base_spec(),
            final(self).end_spec() == old(self).end_spec(),
            r == match bump_alloc(old(self).allocated_spec(), old(self).end_spec(), size as int, align as int) {
                Some(p) => Some(p as usize),
                None => None::<usize>,
            },
            r matches Some(p) ==> {
                &&& p as int % args_align(align as int) == 0
                &&& old(self).allocated_spec() <= p
                &&& p + size <= old(self).end_spec()
                &&& final(self).allocated_spec() == p + size
            },
            r is None ==> final(self).allocated_spec() == old(self).allocated_spec(),
            forall|at: int| #![trigger at % args_align(align as int)]
                at % args_align(align as int) == 0
                && old(self).allocated_spec() <= at < old(self).allocated_spec() + args_align(align as int)
                ==> ((r is Some <==> (at + size <= old(self).end_spec()
                        && size + args_align(align as int) - 1 <= isize_max()))
                    && (r is Some ==> r == Some(at as usize))),
    {
        proof {
            assert forall|at: int| #![trigger at % args_align(align as int)]
                at % args_align(align as int) == 0
                && old(self).allocated_spec() <= at < old(self).allocated_spec() + args_align(align as int)
                implies (bump_alloc(old(self).allocated_spec(), old(self).end_spec(), size as int, align as int) is Some
                    <==> (at + size <= old(self).end_spec() && size + args_align(align as int) - 1 <= isize_max()))
                    && (bump_alloc(old(self).allocated_spec(), old(self).end_spec(), size as int, align as int) is Some
                        ==> bump_alloc(old(self).allocated_spec(), old(self).end_spec(), size as int, align as int) == Some(at)) by {
                law_alloc_fits(old(self).allocated_spec(), old(self).end_spec(), size as int, align as int, at);
            }
        }
        let a: usize = if align < ARGS_ALIGN { ARGS_ALIGN } else { align };
        if (size as u128) + (a as u128) - 1 > (isize::MAX as u128) {
            return None;
        }
        let start = self.allocated;
        let padding = alignment_padding(start, a);
        let alloc_size = size + padding;
        if start + alloc_size > self.base + self.size {
            return None;
        }
        self.allocated = start + alloc_size;
        Some(start + padding)
    }

    /// Reset the fill mark to the arena's base. Taking `&mut self` ensures no
    /// dispatch still uses an earlier block.
    pub fn wash(&mut self)
        requires old(self).wf(),
        ensures
            final(self).wf(),
            final(self).base_spec() == old(self).base_spec(),
            final(self).end_spec() == old(self).end_spec(),
            final(self).allocated_spec() == old(self).base_spec(),
    {
        self.allocated = self.base;
    }
}

/// The padding that moves `addr` (nonzero) up to a multiple of `align`.
pub fn alignment_padding(addr: usize, align: usize) -> (r: usize)
    requires addr >= 1, align >= 1,
    ensures
        r == padding_for(addr as int, align as int),
        0 <= r < align,
        (addr + r) % (align as int) == 0,
{
    proof { lemma_padding(addr as int, align as int); }
    (align - (addr - 1) % align) - 1
}

proof fn lemma_padding(addr: int, align: int)
    requires addr >= 1, align >= 1,
    ensures
        0 <= padding_for(addr, align) < align,
        (addr + padding_for(addr, align)) % align == 0,
{
    let m = (addr - 1) % align;
    let q = (addr - 1) / align;
    assert(addr - 1 == q * align + m && 0 <= m < align) by (nonlinear_arith)
        requires align >= 1, m == (addr - 1) % align, q == (addr - 1) / align;
    assert(addr + (align - m - 1) == (q + 1) * align) by (nonlinear_arith)
        requires addr - 1 == q * align + m;
    assert(((q + 1) * align) % align == 0) by (nonlinear_arith) requires align >= 1;
}

/// Two multiples of `m` closer than `m` are equal.
proof fn lemma_multiples_in_window(a: int, b: int, m: int)
    requires m >= 1, a % m == 0, b % m == 0, a <= b < a + m,
    ensures a == b,
{
    let qa = a / m;
    let qb = b / m;
    assert(a == qa * m) by (nonlinear_arith) requires m >= 1, a % m == 0, qa == a / m;
    assert(b == qb * m) by (nonlinear_arith) requires m >= 1, b % m == 0, qb == b / m;
    assert(qa <= qb) by (nonlinear_arith) requires a == qa * m, b == qb * m, a <= b, m >= 1;
    assert(qb < qa + 1) by (nonlinear_arith) requires a == qa * m, b == qb * m, b < a + m, m >= 1;
}

/// Law: an argument block goes at the first address at or after the fill mark
/// that is aligned to `max(align, ARGS_ALIGN)`, and the allocation succeeds exactly
/// when the block, placed there, ends at or before the arena's end (the arena can
/// be filled to its last byte) and its layout is valid.
pub proof fn law_alloc_fits(allocated: int, end: int, size: int, align: int, at: int)
    requires
        allocated >= 1, align >= 1, size >= 0,
        at % args_align(align) == 0,
        allocated <= at < allocated + args_align(align),
    ensures
        bump_alloc(allocated, end, size, align) is Some <==>
            (at + size <= end && size + args_align(align) - 1 <= isize_max()),
        bump_alloc(allocated, end, size, align) is Some ==> bump_alloc(allocated, end, size, align) == Some(at),
{
    let a = args_align(align);
    lemma_padding(allocated, a);
    let p = allocated + padding_for(allocated, a);
    if p <= at {
        lemma_multiples_in_window(p, at, a);
    } else {
        lemma_multiples_in_window(at, p, a);
    }
}

/// Law: two successive allocations from the same arena do not overlap: the second
/// starts no earlier than the first ends.
pub proof fn law_allocations_disjoint(allocated: int, end: int, s1: int, a1: int, s2: int, a2: int)
    requires
        allocated >= 1, a1 >= 1, a2 >= 1, s1 >= 0, s2 >= 0,
        bump_alloc(allocated, end, s1, a1) is Some,
        bump_alloc(bump_alloc(allocated, end, s1, a1)->Some_0 + s1, end, s2, a2) is Some,
    ensures
        bump_alloc(allocated, end, s1, a1)->Some_0 + s1
            <= bump_alloc(bump_alloc(allocated, end, s1, a1)->Some_0 + s1, end, s2, a2)->Some_0,
        bump_alloc(bump_alloc(allocated, end, s1, a1)->Some_0 + s1, end, s2, a2)->Some_0 + s2 <= end,
{
    lemma_padding(allocated, args_align(a1));
    let p1 = bump_alloc(allocated, end, s1, a1)->Some_0;
    lemma_padding(p1 + s1, args_align(a2));
}

/// The blocks handed out since the fill mark was last at `marks[0]` (the base, after
/// construction or `wash`): block `k` (start, size) starts at or after fill mark `k`,
/// and fill mark `k + 1` is where it ends, as `alloc_block` promises.
pub open spec fn alloc_chain(marks: Seq<int>, blocks: Seq<(int, int)>) -> bool {
    &&& marks.len() == blocks.len() + 1
    &&& forall|k: int| 0 <= k < blocks.len() ==> {
        &&& marks[k] <= (#[trigger] blocks[k]).0
        &&& blocks[k].1 >= 0
        &&& marks[k + 1] == blocks[k].0 + blocks[k].1
    }
}

/// Fill marks only grow along a chain of allocations.
proof fn lemma_chain_marks_grow(marks: Seq<int>, blocks: Seq<(int, int)>, j: int, k: int)
    requires alloc_chain(marks, blocks), 0 <= j <= k < marks.len(),
    ensures marks[j] <= marks[k],
    decreases k - j,
{
    if j < k {
        lemma_chain_marks_grow(marks, blocks, j, k - 1);
        assert(marks[k - 1] <= blocks[k - 1].0);
    }
}

/// Law: every block handed out since the arena was created or last washed lies
/// below the current fill mark, and ends no later than any block handed out after
/// it starts: no two of them overlap.
pub proof fn law_blocks_since_wash_disjoint(marks: Seq<int>, blocks: Seq<(int, int)>)
    requires alloc_chain(marks, blocks),
    ensures
        forall|k: int| 0 <= k < blocks.len() ==> marks[0] <= (#[trigger] blocks[k]).0
            && blocks[k].0 + blocks[k].1 <= marks.last(),
        forall|j: int, k: int| 0 <= j < k < blocks.len() ==>
            (#[trigger] blocks[j]).0 + blocks[j].1 <= (#[trigger] blocks[k]).0,
{
    assert forall|k: int| 0 <= k < blocks.len() implies marks[0] <= (#[trigger] blocks[k]).0
        && blocks[k].0 + blocks[k].1 <= marks.last() by {
        lemma_chain_marks_grow(marks, blocks, 0, k);
        lemma_chain_marks_grow(marks, blocks, k + 1, marks.len() - 1);
    }
    assert forall|j: int, k: int| 0 <= j < k < blocks.len() implies
        (#[trigger] blocks[j]).0 + blocks[j].1 <= (#[trigger] blocks[k]).0 by {
        lemma_chain_marks_grow(marks, blocks, j + 1, k);
    }
}

/// Law: a washed arena hands out the same first block as a fresh arena over the
/// same bytes: both start from the base.
pub proof fn law_wash_restarts(fresh: ArgsPool, washed: ArgsPool, size: int, align: int)
    requires
        fresh.base_spec() == washed.base_spec(),
        fresh.end_spec() == washed.end_spec(),
        fresh.allocated_spec() == fresh.base_spec(),
        washed.allocated_spec() == washed.base_spec(),
    ensures
        bump_alloc(washed.allocated_spec(), washed.end_spec(), size, align)
            == bump_alloc(fresh.allocated_spec(), fresh.end_spec(), size, align),
{
}

/// The size of an arena for `count` argument blocks of a type with layout
/// `(size, align)`, on a region whose allocations are aligned to `pool_alignment`
/// and at least `pool_min_alloc` bytes: `Alloc` when the region's alignment is too
/// weak, `Overflow` when `count` blocks do not fit in a layout.
pub open spec fn args_pool_bytes_spec(size: int, align: int, count: int, pool_alignment: int,
    pool_min_alloc: int) -> Result<usize, Error>
{
    let padded = ((size + align - 1) / align) * align;
    if pool_alignment < align {
        Err(Error::Alloc)
    } else if padded * count > isize_max() - (align - 1) {
        Err(Error::Overflow)
    } else if padded * count < pool_min_alloc {
        Ok(pool_min_alloc as usize)
    } else {
        Ok((padded * count) as usize)
    }
}

/// The number of bytes to reserve for an arena holding `count` argument blocks.
pub fn args_pool_bytes(size: usize, align: usize, count: usize, pool_alignment: usize,
    pool_min_alloc: usize) -> (r: Result<usize, Error>)
    requires
        is_pow2(align as int),
        size + align - 1 <= isize_max(),
    ensures r == args_pool_bytes_spec(size as int, align as int, count as int,
        pool_alignment as int, pool_min_alloc as int),
{
    if pool_alignment < align {
        return Err(Error::Alloc);
    }
    proof {
        lemma_pow2_pos(align as int);
        let q = (size + align - 1) / (align as int);
        assert(0 <= q * align <= size + align - 1) by (nonlinear_arith)
            requires align >= 1, size >= 0, q == (size + align - 1) / (align as int);
    }
    let padded = ((size + align - 1) / align) * align;
    let total = match padded.checked_mul(count) {
        Some(t) => t,
        None => {
            proof {
                assert(padded * count > isize_max() - (align - 1)) by (nonlinear_arith)
                    requires padded * count > usize::MAX, align <= isize_max() + 1,
                        isize_max() < usize::MAX;
            }
            return Err(Error::Overflow);
        },
    };
    if total > (isize::MAX as usize) - (align - 1) {
        return Err(Error::Overflow);
    }
    if total < pool_min_alloc { Ok(pool_min_alloc) } else { Ok(total) }
}

/// The size of an arena asked for by its byte count: at least the region's
/// minimum allocation.
pub fn arena_bytes(bytes: usize, pool_min_alloc: usize) -> (r: usize)
    ensures r == if bytes < pool_min_alloc { pool_min_alloc } else { bytes },
{
    if bytes < pool_min_alloc { pool_min_alloc } else { bytes }
}

proof fn lemma_pow2_pos(x: int)
    requires is_pow2(x),
    ensures x >= 1,
    decreases x,
{
}

} // verus!
