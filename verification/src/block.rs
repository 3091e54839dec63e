use vstd::prelude::*;

verus! {

/// A non-owning description of a typed, contiguous memory region: a base
/// address in the model address space and a count of elements.
///
/// The element type's size and alignment are known at each call site and
/// passed alongside the block; they are not stored.  A `MemBlock` is a plain
/// value: copyable, compared by address and count, and carrying no right to
/// use the region it describes.
#[derive(Clone, Copy, Debug, PartialEq, Eq, Structural)]
pub struct MemBlock {
    /// Base address of the region.
    pub addr: usize,
    /// Number of elements the region holds.
    pub count: usize,
}

impl MemBlock {
    /// The address one past the region, for elements of `elem_size` bytes.
    pub open spec fn end(self, elem_size: usize) -> int {
        self.addr + self.count * elem_size
    }

    /// The region's size in bytes, for elements of `elem_size` bytes.
    pub open spec fn byte_size(self, elem_size: usize) -> int {
        self.count * elem_size
    }
}

} // verus!
