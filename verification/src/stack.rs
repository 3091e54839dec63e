use crate::block::MemBlock;
use crate::traits::Allocator;
use crate::utility::align_pad;
use crate::utility::negative_rem_euclid;
use crate::AllocError;
use crate::AllocResult;
use vstd::prelude::*;

verus! {

/// A bump-pointer arena over a fixed region of the model address space:
/// a base address, a fixed size, and a monotonically increasing cursor
/// (a byte offset from the region's start, initially zero).
///
/// `allocate` places each block at the smallest aligned offset at or past
/// the cursor — alignment measured against the absolute address, since the
/// region need not start at an aligned address — and fails, leaving the
/// cursor untouched, when the region or the size arithmetic is exhausted.
/// `owns` is a pure range test on the region.  `deallocate` reclaims only
/// the most recently allocated, still-live block (last in, first out);
/// returning any other owned block is legal but silently ineffective.
pub struct StackAllocator {
    base: usize,
    size: usize,
    index: usize,
}

impl StackAllocator {
    /// The absolute address at which the backing region starts.
    pub closed spec fn region_base(&self) -> int {
        self.base as int
    }

    /// The size of the backing region in bytes.
    pub closed spec fn region_size(&self) -> int {
        self.size as int
    }

    /// The current cursor: the byte offset from the region's start below
    /// which everything is handed out.
    pub closed spec fn cursor(&self) -> int {
        self.index as int
    }

    /// The smallest offset at or past the cursor whose absolute address is
    /// a multiple of `elem_align`.
    pub open spec fn aligned_cursor(&self, elem_align: int) -> int {
        self.cursor() + align_pad(self.region_base() + self.cursor(), elem_align)
    }

    /// Whether a request for `count` elements of `elem_size` bytes, aligned
    /// to `elem_align`, fits into what is left of the region.
    pub open spec fn spec_fits(&self, count: int, elem_size: int, elem_align: int) -> bool {
        self.aligned_cursor(elem_align) + count * elem_size <= self.region_size()
    }

    /// Designate `[base, base + size)` as the backing region of a fresh
    /// arena with its cursor at the start.
    pub fn new(base: usize, size: usize) -> (r: Self)
        requires
            base + size <= usize::MAX,
        ensures
            r.wf(),
            r.region_base() == base,
            r.region_size() == size,
            r.cursor() == 0,
    {
        StackAllocator { base, size, index: 0 }
    }

    /// The size of the backing region in bytes.
    pub fn size(&self) -> (r: usize)
        ensures
            r as int == self.region_size(),
    {
        self.size
    }
}

impl Allocator for StackAllocator {
    open spec fn wf(&self) -> bool {
        &&& 0 <= self.cursor() <= self.region_size()
        &&& self.region_base() + self.region_size() <= usize::MAX
    }

    /// A range test only: a forged block whose address happens to fall
    /// inside the region passes it — the accepted limitation of arena-style
    /// ownership checks.
    open spec fn spec_owns(&self, block: MemBlock) -> bool {
        self.region_base() <= block.addr < self.region_base() + self.region_size()
    }

    open spec fn owns_answerable(&self) -> bool {
        true
    }

    /// The request succeeds exactly when it fits; then the block starts at
    /// the aligned cursor's absolute address and the cursor moves past it.
    /// A request that does not fit fails and moves nothing.
    open spec fn alloc_spec(
        &self,
        post: Self,
        count: usize,
        elem_size: usize,
        elem_align: usize,
        r: AllocResult<MemBlock>,
    ) -> bool {
        if self.spec_fits(count as int, elem_size as int, elem_align as int) {
            match r {
                Ok(b) => {
                    &&& b.addr == self.region_base() + self.aligned_cursor(elem_align as int)
                    &&& b.count == count
                    &&& post.region_base() == self.region_base()
                    &&& post.region_size() == self.region_size()
                    &&& post.cursor() == self.aligned_cursor(elem_align as int) + count * elem_size
                },
                Err(_) => false,
            }
        } else {
            r is Err && post == *self
        }
    }

    open spec fn dealloc_pre(&self, block: MemBlock, elem_size: usize) -> bool {
        &&& self.region_base() <= block.addr
        &&& block.end(elem_size) <= self.region_base() + self.region_size()
    }

    open spec fn accepts_back(&self) -> bool {
        true
    }

    /// Last in, first out: a block ending exactly at the cursor rolls the
    /// cursor back over itself; any other block is left in place and the
    /// arena is unchanged.
    open spec fn dealloc_spec(&self, post: Self, block: MemBlock, elem_size: usize) -> bool {
        if block.end(elem_size) == self.region_base() + self.cursor() {
            &&& post.region_base() == self.region_base()
            &&& post.region_size() == self.region_size()
            &&& post.cursor() == self.cursor() - block.byte_size(elem_size)
        } else {
            post == *self
        }
    }

    fn allocate(&mut self, count: usize, elem_size: usize, elem_align: usize) -> (r: AllocResult<
        MemBlock,
    >) {
        let pad = negative_rem_euclid(self.base + self.index, elem_align);
        let aligned = match self.index.checked_add(pad) {
            Some(a) => a,
            None => {
                return Err(AllocError);
            },
        };
        let bytes = match count.checked_mul(elem_size) {
            Some(b) => b,
            None => {
                return Err(AllocError);
            },
        };
        let new_index = match aligned.checked_add(bytes) {
            Some(n) => n,
            None => {
                return Err(AllocError);
            },
        };
        if new_index <= self.size {
            let addr = self.base + aligned;
            self.index = new_index;
            Ok(MemBlock { addr, count })
        } else {
            Err(AllocError)
        }
    }

    fn owns(&self, block: MemBlock) -> (r: bool) {
        self.base <= block.addr && block.addr < self.base + self.size
    }

    fn deallocate(&mut self, block: MemBlock, elem_size: usize) {
        let bytes = block.count * elem_size;
        let end = block.addr + bytes;
        if end == self.base + self.index {
            self.index = self.index - bytes;
        }
    }
}

/// A request that fits into what is left of the region succeeds, and the
/// cursor moves exactly past the new block; a request that does not fit
/// fails and moves nothing.  Hence a sequence of `allocate` calls succeeds
/// as long as the cumulative aligned size stays within the region's
/// capacity, and the call that would exceed it leaves the cursor
/// untouched.
pub proof fn lemma_stack_allocate_within_capacity(
    pre: StackAllocator,
    post: StackAllocator,
    count: usize,
    elem_size: usize,
    elem_align: usize,
    r: AllocResult<MemBlock>,
)
    requires
        pre.alloc_spec(post, count, elem_size, elem_align, r),
    ensures
        pre.spec_fits(count as int, elem_size as int, elem_align as int) <==> r is Ok,
        r is Ok ==> post.cursor() == pre.aligned_cursor(elem_align as int) + count * elem_size,
        r is Ok ==> post.cursor() <= pre.region_size(),
        r is Err ==> post == pre,
{
}

/// The cursor after an arena with region base `base` and cursor `cursor`
/// has served every request of `reqs` — each request a (count, element
/// size, element alignment) triple: the running cumulative aligned size.
pub open spec fn cursor_after(base: int, cursor: int, reqs: Seq<(usize, usize, usize)>) -> int
    decreases reqs.len(),
{
    if reqs.len() == 0 {
        cursor
    } else {
        let prev = cursor_after(base, cursor, reqs.drop_last());
        let r = reqs.last();
        prev + align_pad(base + prev, r.2 as int) + r.0 * r.1
    }
}

/// A chain of `allocate` calls: `states[i]` answers request `reqs[i]`
/// with `results[i]`, moving to `states[i + 1]`.
pub open spec fn stack_chain(
    states: Seq<StackAllocator>,
    reqs: Seq<(usize, usize, usize)>,
    results: Seq<AllocResult<MemBlock>>,
) -> bool {
    &&& states.len() == reqs.len() + 1
    &&& results.len() == reqs.len()
    &&& forall|i: int|
        0 <= i < reqs.len() ==> #[trigger] states[i].alloc_spec(
            states[i + 1],
            reqs[i].0,
            reqs[i].1,
            reqs[i].2,
            results[i],
        )
}

/// Whether the cumulative aligned size stays within the region's capacity
/// through the first `n` requests.
pub open spec fn prefix_fits(
    s: StackAllocator,
    reqs: Seq<(usize, usize, usize)>,
    n: int,
) -> bool {
    forall|j: int|
        0 < j <= n ==> #[trigger] cursor_after(s.region_base(), s.cursor(), reqs.take(j))
            <= s.region_size()
}

/// While the cumulative aligned size stays within capacity, a chain of
/// `allocate` calls leaves the region untouched and the cursor at exactly
/// that cumulative size.
proof fn lemma_stack_chain_state(
    states: Seq<StackAllocator>,
    reqs: Seq<(usize, usize, usize)>,
    results: Seq<AllocResult<MemBlock>>,
    n: int,
)
    requires
        stack_chain(states, reqs, results),
        0 <= n <= reqs.len(),
        prefix_fits(states[0], reqs, n),
    ensures
        states[n].region_base() == states[0].region_base(),
        states[n].region_size() == states[0].region_size(),
        states[n].cursor() == cursor_after(states[0].region_base(), states[0].cursor(), reqs.take(n)),
    decreases n,
{
    if n == 0 {
        assert(reqs.take(0).len() == 0);
    } else {
        lemma_stack_chain_state(states, reqs, results, n - 1);
        let i = n - 1;
        let r = reqs[i];
        assert(states[i].alloc_spec(states[i + 1], reqs[i].0, reqs[i].1, reqs[i].2, results[i]));
        assert(reqs.take(n).drop_last() =~= reqs.take(n - 1));
        assert(reqs.take(n).last() == r);
        assert(cursor_after(states[0].region_base(), states[0].cursor(), reqs.take(n))
            <= states[0].region_size());
        assert(states[n - 1].spec_fits(r.0 as int, r.1 as int, r.2 as int));
    }
}

/// For any arena of byte capacity C: a chain of `allocate` calls succeeds
/// as long as the cumulative aligned size does not exceed C, and the call
/// that would first exceed C fails without mutating the cursor.
pub proof fn lemma_stack_chain_within_capacity(
    states: Seq<StackAllocator>,
    reqs: Seq<(usize, usize, usize)>,
    results: Seq<AllocResult<MemBlock>>,
    n: int,
)
    requires
        stack_chain(states, reqs, results),
        0 <= n < reqs.len(),
        prefix_fits(states[0], reqs, n),
    ensures
        cursor_after(states[0].region_base(), states[0].cursor(), reqs.take(n + 1)) <= states[0].region_size()
            ==> results[n] is Ok && states[n + 1].cursor() == cursor_after(
            states[0].region_base(),
            states[0].cursor(),
            reqs.take(n + 1),
        ),
        cursor_after(states[0].region_base(), states[0].cursor(), reqs.take(n + 1)) > states[0].region_size()
            ==> results[n] is Err && states[n + 1] == states[n],
{
    lemma_stack_chain_state(states, reqs, results, n);
    let r = reqs[n];
    assert(states[n].alloc_spec(states[n + 1], reqs[n].0, reqs[n].1, reqs[n].2, results[n]));
    assert(reqs.take(n + 1).drop_last() =~= reqs.take(n));
    assert(reqs.take(n + 1).last() == r);
}

/// Last in, first out, the reclaiming half: allocate `a`, then `b`, return
/// `b`, and the next request — no larger in bytes than `b` and with an
/// alignment `b`'s address already satisfies — is served at exactly `b`'s
/// address, inside `b`'s old range.
pub proof fn lemma_lifo_reuse(
    s0: StackAllocator,
    s1: StackAllocator,
    s2: StackAllocator,
    s3: StackAllocator,
    s4: StackAllocator,
    a: MemBlock,
    b: MemBlock,
    c: MemBlock,
    count_a: usize,
    size_a: usize,
    align_a: usize,
    count_b: usize,
    size_b: usize,
    align_b: usize,
    count_c: usize,
    size_c: usize,
    align_c: usize,
)
    requires
        s0.alloc_spec(s1, count_a, size_a, align_a, Ok(a)),
        s1.alloc_spec(s2, count_b, size_b, align_b, Ok(b)),
        s2.dealloc_spec(s3, b, size_b),
        s3.alloc_spec(s4, count_c, size_c, align_c, Ok(c)),
        count_c * size_c <= count_b * size_b,
        b.addr as int % align_c as int == 0,
        align_c > 0,
    ensures
        c.addr == b.addr,
        c.end(size_c) <= b.end(size_b),
        s4.cursor() <= s2.cursor(),
{
    vstd::arithmetic::div_mod::lemma_mod_self_0(align_c as int);
    assert(b.end(size_b) == s1.region_base() + s2.cursor());
    assert(s3.cursor() == b.addr - s1.region_base());
    assert(align_pad(b.addr as int, align_c as int) == 0);
}

/// Last in, first out, the refusing half: while a later, non-empty block
/// `b` is live, returning the earlier block `a` is legal but moves
/// nothing — the arena is left exactly as it was.
pub proof fn lemma_lifo_non_tail_dealloc(
    s0: StackAllocator,
    s1: StackAllocator,
    s2: StackAllocator,
    s3: StackAllocator,
    a: MemBlock,
    b: MemBlock,
    count_a: usize,
    size_a: usize,
    align_a: usize,
    count_b: usize,
    size_b: usize,
    align_b: usize,
)
    requires
        align_a > 0,
        align_b > 0,
        s0.alloc_spec(s1, count_a, size_a, align_a, Ok(a)),
        s1.alloc_spec(s2, count_b, size_b, align_b, Ok(b)),
        count_b * size_b > 0,
        s2.dealloc_spec(s3, a, size_a),
    ensures
        s3 == s2,
{
    crate::utility::lemma_align_pad(s0.region_base() + s0.cursor(), align_a as int);
    crate::utility::lemma_align_pad(s1.region_base() + s1.cursor(), align_b as int);
    assert(a.end(size_a) == s1.region_base() + s1.cursor());
    assert(s2.cursor() > s1.cursor());
}

/// Every non-empty block the arena hands out lies inside its region, so
/// the arena claims it.
pub proof fn lemma_stack_owns_produced(
    pre: StackAllocator,
    post: StackAllocator,
    count: usize,
    elem_size: usize,
    elem_align: usize,
    b: MemBlock,
)
    requires
        elem_align > 0,
        count * elem_size > 0,
        pre.alloc_spec(post, count, elem_size, elem_align, Ok(b)),
    ensures
        pre.spec_owns(b),
        post.spec_owns(b),
{
    crate::utility::lemma_align_pad(pre.region_base() + pre.cursor(), elem_align as int);
}

/// A block whose address lies outside the arena's region — in particular
/// any block produced by an allocator over a distinct address range — is
/// never claimed by the arena.
pub proof fn lemma_stack_owns_foreign(s: StackAllocator, b: MemBlock)
    requires
        b.addr < s.region_base() || b.addr >= s.region_base() + s.region_size(),
    ensures
        !s.spec_owns(b),
{
}

} // verus!
