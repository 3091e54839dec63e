use crate::block::MemBlock;
use crate::traits::Allocator;
use crate::AllocError;
use crate::AllocResult;
use vstd::prelude::*;

verus! {

/// An allocator that always fails: `allocate` returns an error for every
/// request, `owns` claims nothing, and `deallocate` must never be called,
/// because no freeable memory is ever issued.  It serves as the safe
/// terminal link of a fallback chain and as a placeholder where an
/// allocator slot is structurally required but never expected to be
/// exercised.
pub struct NullAllocator;

impl Allocator for NullAllocator {
    open spec fn wf(&self) -> bool {
        true
    }

    open spec fn spec_owns(&self, block: MemBlock) -> bool {
        false
    }

    open spec fn owns_answerable(&self) -> bool {
        true
    }

    open spec fn alloc_spec(
        &self,
        post: Self,
        count: usize,
        elem_size: usize,
        elem_align: usize,
        r: AllocResult<MemBlock>,
    ) -> bool {
        r is Err
    }

    open spec fn dealloc_pre(&self, block: MemBlock, elem_size: usize) -> bool {
        false
    }

    open spec fn accepts_back(&self) -> bool {
        true
    }

    open spec fn dealloc_spec(&self, post: Self, block: MemBlock, elem_size: usize) -> bool {
        true
    }

    fn allocate(&mut self, count: usize, elem_size: usize, elem_align: usize) -> (r: AllocResult<
        MemBlock,
    >) {
        Err(AllocError)
    }

    fn owns(&self, block: MemBlock) -> (r: bool) {
        false
    }

    /// Never issues freeable memory, so this must never be called; the
    /// precondition is unsatisfiable, and a caller outside the verified
    /// boundary that violates it fails loudly.
    fn deallocate(&mut self, block: MemBlock, elem_size: usize) {
        vstd::pervasive::unreached()
    }
}

/// Every `allocate` call on the null allocator fails, whatever the
/// requested count — zero and one included — and leaves the allocator
/// unchanged.
pub proof fn lemma_null_allocate_always_fails(
    pre: NullAllocator,
    post: NullAllocator,
    count: usize,
    elem_size: usize,
    elem_align: usize,
    r: AllocResult<MemBlock>,
)
    requires
        pre.alloc_spec(post, count, elem_size, elem_align, r),
    ensures
        r is Err,
{
}

/// The null allocator owns no block at all.
pub proof fn lemma_null_owns_nothing(a: NullAllocator, block: MemBlock)
    ensures
        !a.spec_owns(block),
{
}

} // verus!
