use crate::block::MemBlock;
use crate::traits::Allocator;
use crate::AllocError;
use crate::AllocResult;
use vstd::prelude::*;

verus! {

/// Whether `n` is a power of two.
pub open spec fn is_pow2(n: int) -> bool
    decreases n,
{
    if n <= 0 {
        false
    } else if n == 1 {
        true
    } else {
        n % 2 == 0 && is_pow2(n / 2)
    }
}

/// The capacity one growth step reaches from capacity `n`: one element
/// from empty, else twice the current count.
pub open spec fn grown_capacity(n: int) -> int {
    if n == 0 {
        1
    } else {
        2 * n
    }
}

/// A growable buffer: a block of uninitialized element slots together with
/// the allocator the slots come from.  Only capacity is tracked — the
/// buffer has no logical length.
///
/// The capacity follows the power-of-two growth sequence 0, 1, 2, 4, …;
/// each growth step allocates the doubled block first and only then
/// releases the one it replaces, and a failed step leaves the buffer — and
/// its allocator — exactly as they were.
pub struct RawVec<A> {
    block: MemBlock,
    alloc: A,
    size: usize,
    align: usize,
}

impl<A: Allocator> RawVec<A> {
    /// The block currently backing the buffer.
    pub closed spec fn mem_block(&self) -> MemBlock {
        self.block
    }

    /// The allocator the buffer draws from.
    pub closed spec fn allocator(&self) -> A {
        self.alloc
    }

    /// The element size the buffer allocates with.
    pub closed spec fn elem_size(&self) -> usize {
        self.size
    }

    /// The element alignment the buffer allocates with.
    pub closed spec fn elem_align(&self) -> usize {
        self.align
    }

    /// The current capacity, in elements.
    pub open spec fn capacity(&self) -> int {
        self.mem_block().count as int
    }

    pub open spec fn wf(&self) -> bool {
        &&& self.allocator().wf()
        &&& self.allocator().accepts_back()
        &&& self.elem_size() > 0
        &&& self.elem_align() > 0
        &&& self.capacity() == 0 || is_pow2(self.capacity())
        &&& self.capacity() <= isize::MAX
        &&& self.capacity() > 0 ==> self.allocator().dealloc_pre(
            self.mem_block(),
            self.elem_size(),
        )
    }

    /// An empty buffer over `alloc` for elements of the given size and
    /// alignment.  Nothing is allocated; the initial block is a dangling
    /// description with count zero.  Zero-sized elements are not
    /// supported.
    pub fn new_in(alloc: A, elem_size: usize, elem_align: usize) -> (r: Self)
        requires
            alloc.wf(),
            alloc.accepts_back(),
            elem_size > 0,
            elem_align > 0,
        ensures
            r.wf(),
            r.capacity() == 0,
            r.allocator() == alloc,
            r.elem_size() == elem_size,
            r.elem_align() == elem_align,
    {
        RawVec { block: MemBlock { addr: elem_align, count: 0 }, alloc, size: elem_size, align: elem_align }
    }

    /// The current capacity, in elements.
    pub fn len(&self) -> (r: usize)
        ensures
            r as int == self.capacity(),
    {
        self.block.count
    }

    /// Whether the buffer holds no live block yet.
    pub fn is_empty(&self) -> (r: bool)
        ensures
            r == (self.capacity() == 0),
    {
        self.block.count == 0
    }

    /// One growth step: allocate a block for the doubled capacity (one
    /// element, from empty), then release the block it replaces.  On
    /// failure — the doubled count not representable, or the allocator
    /// exhausted — the buffer and its allocator are left fully intact.
    pub fn grow(&mut self) -> (r: AllocResult<()>)
        requires
            old(self).wf(),
        ensures
            final(self).wf(),
            final(self).elem_size() == old(self).elem_size(),
            final(self).elem_align() == old(self).elem_align(),
            r is Ok ==> final(self).capacity() == grown_capacity(old(self).capacity()),
            r is Err ==> *final(self) == *old(self),
            r is Err ==> grown_capacity(old(self).capacity()) > isize::MAX || old(
                self,
            ).allocator().alloc_spec(
                old(self).allocator(),
                grown_capacity(old(self).capacity()) as usize,
                old(self).elem_size(),
                old(self).elem_align(),
                Err(AllocError),
            ),
            r is Ok ==> exists|mid: A|
                {
                    &&& #[trigger] old(self).allocator().alloc_spec(
                        mid,
                        final(self).mem_block().count,
                        old(self).elem_size(),
                        old(self).elem_align(),
                        Ok(final(self).mem_block()),
                    )
                    &&& if old(self).capacity() > 0 {
                        mid.dealloc_spec(
                            final(self).allocator(),
                            old(self).mem_block(),
                            old(self).elem_size(),
                        )
                    } else {
                        final(self).allocator() == mid
                    }
                },
    {
        let len = self.block.count;
        let new_len: usize = if len == 0 {
            1
        } else {
            2 * len
        };
        if new_len > isize::MAX as usize {
            return Err(AllocError);
        }
        match self.alloc.allocate(new_len, self.size, self.align) {
            Ok(new_block) => {
                // The real buffer would copy its contents into the new
                // block here, before the old one is released; the model
                // tracks capacity only.
                let ghost mid = self.alloc;
                if self.block.count > 0 {
                    self.alloc.deallocate(self.block, self.size);
                }
                self.block = new_block;
                proof {
                    assert(is_pow2(new_len as int));
                    vstd::arithmetic::mul::lemma_mul_strictly_positive(
                        new_len as int,
                        self.size as int,
                    );
                    assert(old(self).allocator().alloc_spec(
                        mid,
                        new_len,
                        old(self).elem_size(),
                        old(self).elem_align(),
                        Ok(new_block),
                    ));
                }
                Ok(())
            },
            Err(e) => Err(e),
        }
    }

    /// Tear the buffer down: return its block to the allocator — if one
    /// was ever allocated — and hand the allocator back.
    pub fn free(self) -> (a: A)
        requires
            self.wf(),
        ensures
            a.wf(),
            self.capacity() > 0 ==> self.allocator().dealloc_spec(
                a,
                self.mem_block(),
                self.elem_size(),
            ),
            self.capacity() == 0 ==> a == self.allocator(),
    {
        let RawVec { block, mut alloc, size, align: _ } = self;
        if block.count > 0 {
            alloc.deallocate(block, size);
        }
        alloc
    }
}

} // verus!
