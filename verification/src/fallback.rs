use crate::block::MemBlock;
use crate::traits::Allocator;
use crate::AllocError;
use crate::AllocResult;
use vstd::prelude::*;

verus! {

/// Composes two allocators: every request is tried on the primary first
/// and handed to the fallback only when the primary fails.  `owns` claims a
/// block when either part claims it, and `deallocate` routes each block to
/// whichever part owns it, primary first.
///
/// The two parts share no state and are address-disjoint under correct
/// use; chains can be nested arbitrarily and are usually terminated by a
/// [`crate::NullAllocator`].
pub struct FallbackAllocator<A, B> {
    /// Tried first on every request.
    pub primary: A,
    /// Takes over when the primary fails.
    pub fallback: B,
}

impl<A: Allocator, B: Allocator> Allocator for FallbackAllocator<A, B> {
    open spec fn wf(&self) -> bool {
        &&& self.primary.wf()
        &&& self.fallback.wf()
        &&& forall|b: MemBlock|
            !(#[trigger] self.primary.spec_owns(b) && self.fallback.spec_owns(b))
    }

    open spec fn spec_owns(&self, block: MemBlock) -> bool {
        self.primary.spec_owns(block) || self.fallback.spec_owns(block)
    }

    open spec fn owns_answerable(&self) -> bool {
        self.primary.owns_answerable() && self.fallback.owns_answerable()
    }

    /// Either the primary served the request, or the primary failed —
    /// leaving itself unchanged — and the result is whatever the fallback
    /// then made of the same request.
    open spec fn alloc_spec(
        &self,
        post: Self,
        count: usize,
        elem_size: usize,
        elem_align: usize,
        r: AllocResult<MemBlock>,
    ) -> bool {
        ||| (self.primary.alloc_spec(post.primary, count, elem_size, elem_align, r) && r is Ok
            && post.fallback == self.fallback)
        ||| (self.primary.alloc_spec(self.primary, count, elem_size, elem_align, Err(AllocError))
            && post.primary == self.primary && self.fallback.alloc_spec(
            post.fallback,
            count,
            elem_size,
            elem_align,
            r,
        ))
    }

    /// Routing happens through the primary's ownership test, so that test
    /// must be answerable, and the part that owns the block must accept it;
    /// a block neither part owns is routed to the fallback and must meet
    /// the fallback's own precondition.
    open spec fn dealloc_pre(&self, block: MemBlock, elem_size: usize) -> bool {
        &&& self.primary.owns_answerable()
        &&& if self.primary.spec_owns(block) {
            self.primary.dealloc_pre(block, elem_size)
        } else {
            self.fallback.dealloc_pre(block, elem_size)
        }
    }

    open spec fn accepts_back(&self) -> bool {
        &&& self.owns_answerable()
        &&& self.primary.accepts_back()
        &&& self.fallback.accepts_back()
    }

    open spec fn dealloc_spec(&self, post: Self, block: MemBlock, elem_size: usize) -> bool {
        if self.primary.spec_owns(block) {
            self.primary.dealloc_spec(post.primary, block, elem_size) && post.fallback
                == self.fallback
        } else {
            self.fallback.dealloc_spec(post.fallback, block, elem_size) && post.primary
                == self.primary
        }
    }

    fn allocate(&mut self, count: usize, elem_size: usize, elem_align: usize) -> (r: AllocResult<
        MemBlock,
    >) {
        match self.primary.allocate(count, elem_size, elem_align) {
            Ok(b) => Ok(b),
            Err(e) => {
                proof {
                    // The error type has one value, so the primary's
                    // failure is the failure the composed relation names.
                    assert(e == AllocError);
                }
                self.fallback.allocate(count, elem_size, elem_align)
            },
        }
    }

    fn owns(&self, block: MemBlock) -> (r: bool) {
        self.primary.owns(block) || self.fallback.owns(block)
    }

    fn deallocate(&mut self, block: MemBlock, elem_size: usize) {
        if self.primary.owns(block) {
            self.primary.deallocate(block, elem_size);
        } else {
            self.fallback.deallocate(block, elem_size);
        }
    }
}

/// The composed `allocate` succeeds exactly when the primary serves the
/// request, or the primary fails — unchanged — and the fallback then
/// serves it; it fails only when both fail, and the failure that surfaces
/// is the fallback's.
pub proof fn lemma_fallback_allocate_iff<A: Allocator, B: Allocator>(
    pre: FallbackAllocator<A, B>,
    post: FallbackAllocator<A, B>,
    count: usize,
    elem_size: usize,
    elem_align: usize,
    r: AllocResult<MemBlock>,
)
    requires
        pre.alloc_spec(post, count, elem_size, elem_align, r),
    ensures
        r is Ok <==> {
            ||| (pre.primary.alloc_spec(post.primary, count, elem_size, elem_align, r)
                && r is Ok)
            ||| (pre.primary.alloc_spec(
                pre.primary,
                count,
                elem_size,
                elem_align,
                Err(AllocError),
            ) && pre.fallback.alloc_spec(post.fallback, count, elem_size, elem_align, r)
                && r is Ok)
        },
        r is Err ==> pre.primary.alloc_spec(
            pre.primary,
            count,
            elem_size,
            elem_align,
            Err(AllocError),
        ) && pre.fallback.alloc_spec(post.fallback, count, elem_size, elem_align, r),
{
}

} // verus!
