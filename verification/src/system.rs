use crate::block::MemBlock;
use crate::traits::Allocator;
use crate::AllocError;
use crate::AllocResult;
use vstd::prelude::*;

verus! {

/// Stands for the process's general-purpose heap.  The heap's addresses
/// are opaque — heap allocations are not distinguishable by address range —
/// so the contract pins down only what can be pinned: a request succeeds
/// exactly when its byte size is representable (at most `isize::MAX`, the
/// bound every Rust allocation obeys), the returned block has the requested
/// count and alignment, and `deallocate` accepts every block back.
/// Backing-store exhaustion is not modelled.
///
/// `owns` cannot be answered precisely and must never be asked: any
/// composite that places a system allocator in a non-terminal position
/// cannot rely on ownership-based routing.
pub struct SystemAllocator;

impl Allocator for SystemAllocator {
    open spec fn wf(&self) -> bool {
        true
    }

    /// Never queried: `owns_answerable` is false.
    open spec fn spec_owns(&self, block: MemBlock) -> bool {
        false
    }

    open spec fn owns_answerable(&self) -> bool {
        false
    }

    open spec fn alloc_spec(
        &self,
        post: Self,
        count: usize,
        elem_size: usize,
        elem_align: usize,
        r: AllocResult<MemBlock>,
    ) -> bool {
        &&& r is Ok <==> count * elem_size <= isize::MAX
        &&& r matches Ok(b) ==> b.count == count && b.addr as int % elem_align as int == 0
    }

    open spec fn dealloc_pre(&self, block: MemBlock, elem_size: usize) -> bool {
        true
    }

    open spec fn accepts_back(&self) -> bool {
        true
    }

    open spec fn dealloc_spec(&self, post: Self, block: MemBlock, elem_size: usize) -> bool {
        true
    }

    fn allocate(&mut self, count: usize, elem_size: usize, elem_align: usize) -> (r: AllocResult<
        MemBlock,
    >) {
        proof {
            vstd::arithmetic::div_mod::lemma_mod_self_0(elem_align as int);
        }
        match count.checked_mul(elem_size) {
            Some(bytes) if bytes <= isize::MAX as usize => Ok(
                MemBlock { addr: elem_align, count },
            ),
            _ => Err(AllocError),
        }
    }

    /// Heap allocations are not distinguishable by address range, so the
    /// question must never be asked; the precondition is unsatisfiable,
    /// and a caller outside the verified boundary that violates it fails
    /// loudly.
    fn owns(&self, block: MemBlock) -> (r: bool) {
        vstd::pervasive::unreached()
    }

    fn deallocate(&mut self, block: MemBlock, elem_size: usize) {
    }
}

} // verus!
