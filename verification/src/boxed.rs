use crate::block::MemBlock;
use crate::traits::Allocator;
use crate::AllocResult;
use vstd::prelude::*;

verus! {

/// An owning smart pointer built on the allocator capability: it holds one
/// value together with the one-element block that was allocated for it and
/// the element size the block was allocated with.
///
/// The allocator is not stored; it is the caller's capability, handed in
/// exclusively for each call, so several boxes can live off one arena.
/// Construction propagates allocation failure as "no value constructed",
/// and `free` returns the block to the allocator and hands the value back.
pub struct Box<T> {
    value: T,
    block: MemBlock,
    size: usize,
}

impl<T> Box<T> {
    /// The held value.
    pub closed spec fn inner(&self) -> T {
        self.value
    }

    /// The one-element block allocated for the value.
    pub closed spec fn mem_block(&self) -> MemBlock {
        self.block
    }

    /// The element size the block was allocated with.
    pub closed spec fn elem_size(&self) -> usize {
        self.size
    }

    pub open spec fn wf(&self) -> bool {
        self.mem_block().count == 1
    }

    /// Allocate one element of the given size and alignment from `alloc`
    /// and move `value` in.  On failure no value is constructed, the
    /// failure is handed on, and the allocator is unchanged.
    pub fn new_in<A: Allocator>(value: T, alloc: &mut A, elem_size: usize, elem_align: usize) -> (r:
        AllocResult<Self>)
        requires
            old(alloc).wf(),
            elem_align > 0,
        ensures
            final(alloc).wf(),
            final(alloc).owns_answerable() == old(alloc).owns_answerable(),
            match r {
                Ok(bx) => {
                    &&& bx.wf()
                    &&& bx.inner() == value
                    &&& bx.elem_size() == elem_size
                    &&& old(alloc).alloc_spec(
                        *final(alloc),
                        1,
                        elem_size,
                        elem_align,
                        Ok(bx.mem_block()),
                    )
                    &&& bx.mem_block().addr as int % elem_align as int == 0
                    &&& (elem_size > 0 && final(alloc).owns_answerable()
                        ==> final(alloc).spec_owns(bx.mem_block()))
                },
                Err(e) => {
                    &&& *final(alloc) == *old(alloc)
                    &&& old(alloc).alloc_spec(*old(alloc), 1, elem_size, elem_align, Err(e))
                },
            },
    {
        match alloc.allocate(1, elem_size, elem_align) {
            Ok(block) => Ok(Box { value, block, size: elem_size }),
            Err(e) => Err(e),
        }
    }

    /// Shared access to the held value.
    pub fn get(&self) -> (r: &T)
        ensures
            *r == self.inner(),
    {
        &self.value
    }

    /// Tear the box down: return its block to `alloc` and hand the held
    /// value back to the caller.
    pub fn free<A: Allocator>(self, alloc: &mut A) -> (value: T)
        requires
            old(alloc).wf(),
            old(alloc).dealloc_pre(self.mem_block(), self.elem_size()),
        ensures
            final(alloc).wf(),
            old(alloc).dealloc_spec(*final(alloc), self.mem_block(), self.elem_size()),
            value == self.inner(),
    {
        let Box { value, block, size } = self;
        alloc.deallocate(block, size);
        value
    }
}

} // verus!
