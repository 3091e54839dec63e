use crate::block::MemBlock;
use crate::AllocResult;
use vstd::prelude::*;

verus! {

/// The allocator capability contract, in its exclusive-access form: a type
/// that can hand out and reclaim memory regions through `allocate`, `owns`
/// and `deallocate`, with exclusive (mutable) access to its own state.
///
/// Each implementor supplies the specification of its behaviour through the
/// spec functions of the trait:
/// - `wf` is the implementor's internal invariant, established at
///   construction and preserved by every operation;
/// - `spec_owns` says which blocks the allocator considers part of memory it
///   could have produced;
/// - `owns_answerable` says whether the ownership question can be asked at
///   all (the system allocator must fail loudly on it, so there it is
///   false);
/// - `alloc_spec` and `dealloc_spec` pin down, per implementor, how one
///   `allocate` or `deallocate` call relates the state before the call, the
///   state after it, and the call's arguments and result;
/// - `dealloc_pre` is the caller-enforced precondition of `deallocate`:
///   only blocks this allocator could have produced, measured with the
///   element size they were allocated with, may be handed back.
pub trait Allocator: Sized {
    /// The implementor's internal invariant.
    spec fn wf(&self) -> bool;

    /// Does this allocator consider `block`'s address part of memory it
    /// could have produced?
    spec fn spec_owns(&self, block: MemBlock) -> bool;

    /// Whether `owns` may be called at all.
    spec fn owns_answerable(&self) -> bool;

    /// How one `allocate` call relates the state before (`self`), the state
    /// after (`post`), the request, and the result.
    spec fn alloc_spec(
        &self,
        post: Self,
        count: usize,
        elem_size: usize,
        elem_align: usize,
        r: AllocResult<MemBlock>,
    ) -> bool;

    /// The caller-enforced precondition of `deallocate`.
    spec fn dealloc_pre(&self, block: MemBlock, elem_size: usize) -> bool;

    /// Whether every non-empty block this allocator hands out meets its own
    /// `dealloc_pre`, so a caller may hand such a block straight back.
    /// False for a composite that routes `deallocate` through an ownership
    /// test one of its parts cannot answer.
    spec fn accepts_back(&self) -> bool;

    /// How one `deallocate` call relates the state before (`self`), the
    /// state after (`post`), and the returned block.
    spec fn dealloc_spec(&self, post: Self, block: MemBlock, elem_size: usize) -> bool;

    /// Request a region for `count` elements of size `elem_size` and
    /// alignment `elem_align`.  On success the block describes `count`
    /// freshly available elements, correctly aligned; on failure the
    /// allocator is unchanged — never partial success.
    fn allocate(&mut self, count: usize, elem_size: usize, elem_align: usize) -> (r: AllocResult<
        MemBlock,
    >)
        requires
            old(self).wf(),
            elem_align > 0,
        ensures
            final(self).wf(),
            old(self).alloc_spec(*final(self), count, elem_size, elem_align, r),
            r is Err ==> *final(self) == *old(self),
            r matches Ok(b) ==> b.count == count && b.addr as int % elem_align as int == 0,
            r matches Ok(b) ==> (count * elem_size > 0 && final(self).owns_answerable()
                ==> final(self).spec_owns(b)),
            r matches Ok(b) ==> (count * elem_size > 0 && final(self).accepts_back()
                ==> final(self).dealloc_pre(b, elem_size)),
            final(self).owns_answerable() == old(self).owns_answerable(),
            final(self).accepts_back() == old(self).accepts_back(),
            forall|b: MemBlock| #[trigger]
                final(self).spec_owns(b) == old(self).spec_owns(b),
            forall|b: MemBlock, es: usize| #[trigger]
                final(self).dealloc_pre(b, es) == old(self).dealloc_pre(b, es),
    ;

    /// Pure ownership test; must not mutate state.
    fn owns(&self, block: MemBlock) -> (r: bool)
        requires
            self.wf(),
            self.owns_answerable(),
        ensures
            r == self.spec_owns(block),
    ;

    /// Return a block to the allocator.  The caller must present a block
    /// this allocator could have produced, with the element size it was
    /// allocated with.
    fn deallocate(&mut self, block: MemBlock, elem_size: usize)
        requires
            old(self).wf(),
            old(self).dealloc_pre(block, elem_size),
        ensures
            final(self).wf(),
            old(self).dealloc_spec(*final(self), block, elem_size),
            final(self).owns_answerable() == old(self).owns_answerable(),
            final(self).accepts_back() == old(self).accepts_back(),
            forall|b: MemBlock| #[trigger]
                final(self).spec_owns(b) == old(self).spec_owns(b),
            forall|b: MemBlock, es: usize| #[trigger]
                final(self).dealloc_pre(b, es) == old(self).dealloc_pre(b, es),
    ;
}

/// The allocator capability contract in its shared-access form, for
/// allocator instances reachable from several independent call sites at
/// once (typically one mutable-form allocator wrapped behind a
/// mutual-exclusion lock).
///
/// Mutation behind a shared reference needs a lock, which stands outside
/// the verified boundary; implementors of this trait therefore live with
/// the unverified plumbing around the library, and the contract states only
/// what holds of every outcome of each single call.
pub trait StaticAllocator: Sized {
    /// Request a region for `count` elements of size `elem_size` and
    /// alignment `elem_align`.
    fn allocate(&self, count: usize, elem_size: usize, elem_align: usize) -> (r: AllocResult<
        MemBlock,
    >)
        requires
            elem_align > 0,
        ensures
            r matches Ok(b) ==> b.count == count && b.addr as int % elem_align as int == 0,
    ;

    /// Pure ownership test; must not mutate observable state.
    fn owns(&self, block: MemBlock) -> bool;

    /// Return a block to the allocator.  The caller must present a block
    /// this allocator produced, with the element size it was allocated
    /// with.
    fn deallocate(&self, block: MemBlock, elem_size: usize);
}

} // verus!
