//! Width-independent model of alignment arithmetic, over mathematical
//! integers.
//!
//! The executable functions of this crate, one family per unsigned integer
//! width, all state their contracts in terms of these spec functions, and the
//! public lemmas here are the width-independent laws of the operations:
//! rounding down (up) yields the unique greatest (least) aligned value on the
//! respective side of the address, both roundings are idempotent, and the
//! aligned values are exactly their fixed points.

use vstd::prelude::*;
use vstd::arithmetic::div_mod::{
    lemma_fundamental_div_mod,
    lemma_fundamental_div_mod_converse,
    lemma_mod_add_multiples_vanish,
    lemma_mod_bound,
    lemma_mod_multiples_basic,
    lemma_small_mod,
    lemma_sub_mod_noop,
    lemma_div_is_ordered,
};
use vstd::arithmetic::mul::{
    lemma_mul_inequality,
    lemma_mul_is_commutative,
    lemma_mul_is_distributive_add,
    lemma_mul_basics,
};

verus! {

/// An address is aligned when it is an exact multiple of the alignment.
pub open spec fn is_aligned_int(addr: int, align: int) -> bool {
    addr % align == 0
}

/// The greatest multiple of `align` that is at most `addr`.
pub open spec fn align_down_int(addr: int, align: int) -> int {
    addr - addr % align
}

/// The least multiple of `align` that is at least `addr`: rounding the
/// address one short of the next boundary down lands on that boundary
/// exactly when `addr` is not already aligned.
pub open spec fn align_up_int(addr: int, align: int) -> int {
    align_down_int(addr + align - 1, align)
}

/// Rounding down yields an aligned value no greater than the address, and
/// misses it by less than one alignment.
pub proof fn lemma_align_down_bounds(addr: int, align: int)
    requires
        align > 0,
        addr >= 0,
    ensures
        is_aligned_int(align_down_int(addr, align), align),
        0 <= align_down_int(addr, align) <= addr,
        addr - align_down_int(addr, align) < align,
{
    lemma_fundamental_div_mod(addr, align);
    lemma_mod_bound(addr, align);
    lemma_mod_multiples_basic(addr / align, align);
    lemma_mul_is_commutative(addr / align, align);
    assert(align_down_int(addr, align) == (addr / align) * align);
}

/// Rounding down is exact: no aligned value lies strictly between the result
/// and the address, so the result is the greatest aligned value at most the
/// address.
pub proof fn lemma_align_down_is_greatest(addr: int, align: int)
    requires
        align > 0,
        addr >= 0,
    ensures
        is_aligned_int(align_down_int(addr, align), align),
        align_down_int(addr, align) <= addr,
        forall|y: int|
            is_aligned_int(y, align) && 0 <= y <= addr ==> y <= align_down_int(addr, align),
{
    lemma_align_down_bounds(addr, align);
    assert forall|y: int|
        is_aligned_int(y, align) && 0 <= y <= addr implies y <= align_down_int(
        addr,
        align,
    ) by {
        lemma_fundamental_div_mod(y, align);
        lemma_fundamental_div_mod(addr, align);
        lemma_div_is_ordered(y, addr, align);
        lemma_mul_inequality(y / align, addr / align, align);
    }
}

/// Rounding up leaves an aligned address in place; an unaligned one moves to
/// the boundary one whole alignment above the rounded-down address.
pub proof fn lemma_align_up_cases(addr: int, align: int)
    requires
        align > 0,
        addr >= 0,
    ensures
        is_aligned_int(addr, align) ==> align_up_int(addr, align) == addr,
        !is_aligned_int(addr, align) ==> align_up_int(addr, align) == align_down_int(addr, align)
            + align,
{
    let q = addr / align;
    let r = addr % align;
    lemma_fundamental_div_mod(addr, align);
    lemma_mod_bound(addr, align);
    lemma_mul_is_commutative(align, q);
    if r == 0 {
        assert(addr + align - 1 == q * align + (align - 1));
        lemma_fundamental_div_mod_converse(addr + align - 1, align, q, align - 1);
    } else {
        lemma_mul_is_distributive_add(align, q, 1);
        lemma_mul_basics(align);
        lemma_mul_is_commutative(align, q + 1);
        assert(addr + align - 1 == (q + 1) * align + (r - 1));
        lemma_fundamental_div_mod_converse(addr + align - 1, align, q + 1, r - 1);
    }
}

/// Rounding up yields an aligned value no less than the address, and
/// overshoots it by less than one alignment.
pub proof fn lemma_align_up_bounds(addr: int, align: int)
    requires
        align > 0,
        addr >= 0,
    ensures
        is_aligned_int(align_up_int(addr, align), align),
        addr <= align_up_int(addr, align),
        align_up_int(addr, align) - addr < align,
{
    lemma_align_down_bounds(addr, align);
    lemma_align_up_cases(addr, align);
    lemma_mod_add_multiples_vanish(align_down_int(addr, align), align);
}

/// Rounding up is exact: the result is the least aligned value at least the
/// address.
pub proof fn lemma_align_up_is_least(addr: int, align: int)
    requires
        align > 0,
        addr >= 0,
    ensures
        is_aligned_int(align_up_int(addr, align), align),
        addr <= align_up_int(addr, align),
        forall|y: int|
            is_aligned_int(y, align) && y >= addr ==> y >= align_up_int(addr, align),
{
    lemma_align_down_bounds(addr, align);
    lemma_align_up_cases(addr, align);
    lemma_mod_add_multiples_vanish(align_down_int(addr, align), align);
    let down = align_down_int(addr, align);
    assert forall|y: int|
        is_aligned_int(y, align) && y >= addr implies y >= align_up_int(addr, align) by {
        if !is_aligned_int(addr, align) {
            lemma_sub_mod_noop(y, down, align);
            lemma_small_mod(0, align as nat);
            assert((y - down) % align == 0);
            if y - down < align {
                lemma_small_mod((y - down) as nat, align as nat);
            }
        }
    }
}

/// Rounding down twice is the same as rounding down once.
pub proof fn lemma_align_down_idempotent(addr: int, align: int)
    requires
        align > 0,
        addr >= 0,
    ensures
        align_down_int(align_down_int(addr, align), align) == align_down_int(addr, align),
{
    lemma_align_down_bounds(addr, align);
}

/// Rounding up twice is the same as rounding up once.
pub proof fn lemma_align_up_idempotent(addr: int, align: int)
    requires
        align > 0,
        addr >= 0,
    ensures
        align_up_int(align_up_int(addr, align), align) == align_up_int(addr, align),
{
    lemma_align_up_bounds(addr, align);
    lemma_align_up_cases(align_up_int(addr, align), align);
}

/// The aligned addresses are exactly the fixed points of both roundings.
pub proof fn lemma_aligned_fixed_points(addr: int, align: int)
    requires
        align > 0,
        addr >= 0,
    ensures
        is_aligned_int(addr, align) <==> align_down_int(addr, align) == addr,
        is_aligned_int(addr, align) <==> align_up_int(addr, align) == addr,
{
    lemma_align_down_bounds(addr, align);
    lemma_align_up_cases(addr, align);
}

/// Zero is aligned to every alignment, and alignment one keeps every address
/// in place, rounding in either direction.
pub proof fn lemma_align_trivial(addr: int, align: int)
    requires
        align > 0,
        addr >= 0,
    ensures
        is_aligned_int(0, align),
        align_down_int(addr, 1) == addr,
        align_up_int(addr, 1) == addr,
{
    lemma_small_mod(0, align as nat);
    lemma_mod_multiples_basic(addr, 1);
    lemma_mul_basics(addr);
}

} // verus!
