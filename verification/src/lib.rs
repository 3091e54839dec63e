//! A minimal, composable memory-allocation framework, modelled over an
//! abstract address space.
//!
//! The heart of the library is the [`Allocator`] capability contract —
//! `allocate`, `owns`, `deallocate` — together with a bump-pointer arena
//! ([`StackAllocator`]), a composing [`FallbackAllocator`], a
//! [`NullAllocator`] that always fails, and a [`SystemAllocator`] standing
//! for the process heap.  On top of the contract sit two consumers: an
//! owning smart pointer ([`Box`]) and a growable buffer ([`RawVec`]).
//!
//! A memory region is described, never dereferenced: a [`MemBlock`]
//! carries an address and an element count, and every allocator keeps its
//! books in plain integers.  That makes the address and alignment
//! arithmetic, the ownership range checks, the overflow-safe size
//! computations and the last-in-first-out reclamation fully checkable,
//! and the proof functions exported here state those laws once and for
//! all.

use vstd::prelude::*;

mod block;
mod boxed;
mod fallback;
mod null;
mod rawvec;
mod stack;
mod system;
mod traits;
mod utility;

pub use block::MemBlock;
pub use boxed::Box;
pub use fallback::lemma_fallback_allocate_iff;
pub use fallback::FallbackAllocator;
pub use null::lemma_null_allocate_always_fails;
pub use null::lemma_null_owns_nothing;
pub use null::NullAllocator;
pub use rawvec::grown_capacity;
pub use rawvec::is_pow2;
pub use rawvec::RawVec;
pub use stack::cursor_after;
pub use stack::lemma_lifo_non_tail_dealloc;
pub use stack::lemma_lifo_reuse;
pub use stack::lemma_stack_allocate_within_capacity;
pub use stack::lemma_stack_chain_within_capacity;
pub use stack::lemma_stack_owns_foreign;
pub use stack::lemma_stack_owns_produced;
pub use stack::prefix_fits;
pub use stack::stack_chain;
pub use stack::StackAllocator;
pub use system::SystemAllocator;
pub use traits::Allocator;
pub use traits::StaticAllocator;
pub use utility::align_pad;
pub use utility::lemma_align_pad;
pub use utility::negative_rem_euclid;

verus! {

/// The failure signal of every allocation operation: capacity exhausted,
/// arithmetic overflow in a size computation, or backing-store exhaustion.
/// Always recoverable; no operation aborts on it.
#[derive(Clone, Copy, Debug, PartialEq, Eq, Structural)]
pub struct AllocError;

/// The result of an allocation operation.
pub type AllocResult<T = ()> = Result<T, AllocError>;

} // verus!
