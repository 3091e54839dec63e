use vstd::arithmetic::div_mod::lemma_add_mod_noop;
use vstd::arithmetic::div_mod::lemma_mod_bound;
use vstd::arithmetic::div_mod::lemma_mod_self_0;
use vstd::arithmetic::div_mod::lemma_small_mod;
use vstd::prelude::*;

verus! {

/// The padding that takes `addr` up to the next multiple of `align`,
/// written with the Euclidean (always non-negative) remainder convention.
pub open spec fn align_pad(addr: int, align: int) -> int
    recommends
        align > 0,
{
    (align - addr % align) % align
}

/// The padding is below `align`, and adding it to `addr` lands on a
/// multiple of `align`.
pub proof fn lemma_align_pad(addr: int, align: int)
    requires
        0 <= addr,
        0 < align,
    ensures
        0 <= align_pad(addr, align) < align,
        (addr + align_pad(addr, align)) % align == 0,
{
    let m = addr % align;
    lemma_mod_bound(addr, align);
    lemma_mod_self_0(align);
    if m == 0 {
        assert(align_pad(addr, align) == 0);
    } else {
        lemma_small_mod((align - m) as nat, align as nat);
        assert(align_pad(addr, align) == align - m);
        lemma_add_mod_noop(addr, align - m, align);
        assert((addr + (align - m)) % align == (m + (align - m) % align) % align);
        assert((addr + align_pad(addr, align)) % align == 0);
    }
}

/// Calculates `(-lhs) % rhs` using Euclidean modulo: the number of padding
/// bytes that take the address `lhs` up to the next multiple of `rhs`.
pub fn negative_rem_euclid(lhs: usize, rhs: usize) -> (r: usize)
    requires
        rhs > 0,
    ensures
        r as int == align_pad(lhs as int, rhs as int),
        r < rhs,
        (lhs + r) % (rhs as int) == 0,
{
    proof {
        lemma_align_pad(lhs as int, rhs as int);
    }
    (rhs - lhs % rhs) % rhs
}

} // verus!
