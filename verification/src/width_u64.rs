//! Alignment operations at the 64-bit width.

use vstd::prelude::*;
use vstd::arithmetic::power2::is_pow2;
use crate::mask::{lemma_u128_bit_test_is_pow2, lemma_u128_mod_is_mask};
use crate::math::{align_down_int, align_up_int, is_aligned_int};
use crate::math::{lemma_align_down_bounds, lemma_align_up_cases};

verus! {

/// The valid alignments: nonzero values with a single bit set.
pub open spec fn spec_u64_is_power_of_two(align: u64) -> bool {
    align != 0 && align & ((align - 1) as u64) == 0
}

/// Whether `align` is a valid alignment, that is, a power of two.
#[verifier::when_used_as_spec(spec_u64_is_power_of_two)]
pub fn u64_is_power_of_two(align: u64) -> (b: bool)
    ensures
        b == spec_u64_is_power_of_two(align),
{
    align != 0 && align & (align - 1) == 0
}

/// The validity predicate accepts exactly the powers of two.
pub proof fn lemma_u64_power_of_two_iff(align: u64)
    ensures
        spec_u64_is_power_of_two(align) <==> is_pow2(align as int),
{
    assert((align != 0 && align & ((align - 1) as u64) == 0) <==> ((align as u128) != 0
        && (align as u128) & (((align as u128) - 1) as u128) == 0)) by (bit_vector);
    lemma_u128_bit_test_is_pow2(align as u128);
}

/// For a power-of-two alignment: clearing the low bits of the address rounds
/// it down to the enclosing boundary, the low bits are clear exactly on the
/// aligned addresses, and setting the low bits stops one short of the next
/// boundary. The remainder view of the mask comes from the shared lemma at
/// the widest width, through zero extension.
proof fn lemma_u64_mask_facts(addr: u64, align: u64)
    requires
        align != 0,
        align & ((align - 1) as u64) == 0,
    ensures
        addr & !((align - 1) as u64) == addr - addr % align,
        (addr & ((align - 1) as u64) == 0) == (addr % align == 0),
        addr | ((align - 1) as u64) == addr - addr % align + align - 1,
{
    assert((align as u128) != 0 && (align as u128) & (((align as u128) - 1) as u128) == 0
        && (addr as u128) & (((align as u128) - 1) as u128) == ((addr & ((align
        - 1) as u64)) as u128)) by (bit_vector)
        requires
            align != 0,
            align & ((align - 1) as u64) == 0,
    ;
    lemma_u128_mod_is_mask(addr as u128, align as u128);
    assert(addr & !((align - 1) as u64) == addr - (addr & ((align - 1) as u64)))
        by (bit_vector);
    assert(addr | ((align - 1) as u64) == addr + ((align - 1) as u64) - (addr & ((align
        - 1) as u64))) by (bit_vector);
}

/// Align the address downwards: the greatest multiple of `align` that is at
/// most `addr`.
pub fn u64_align_down(addr: u64, align: u64) -> (r: u64)
    requires
        u64_is_power_of_two(align),
    ensures
        r == align_down_int(addr as int, align as int),
{
    proof {
        lemma_u64_mask_facts(addr, align);
    }
    addr & !(align - 1)
}

/// Align the address upwards if the result is representable: the smallest
/// multiple of `align` that is at least `addr`, or `None` when every such
/// multiple overflows the width.
pub fn u64_checked_align_up(addr: u64, align: u64) -> (r: Option<u64>)
    requires
        u64_is_power_of_two(align),
    ensures
        r matches Some(v) ==> v == align_up_int(addr as int, align as int),
        r is Some <==> align_up_int(addr as int, align as int) <= u64::MAX,
{
    proof {
        lemma_u64_mask_facts(addr, align);
        lemma_align_down_bounds(addr as int, align as int);
        lemma_align_up_cases(addr as int, align as int);
    }
    let mask = align - 1;
    if addr & mask == 0 {
        Some(addr)
    } else {
        (addr | mask).checked_add(1)
    }
}

/// Align the address upwards: the smallest multiple of `align` that is at
/// least `addr`. The caller must rule out overflow beforehand.
pub fn u64_align_up(addr: u64, align: u64) -> (r: u64)
    requires
        u64_is_power_of_two(align),
        align_up_int(addr as int, align as int) <= u64::MAX,
    ensures
        r == align_up_int(addr as int, align as int),
{
    u64_checked_align_up(addr, align).unwrap()
}

/// Whether the address is a multiple of `align`.
pub fn u64_is_aligned_to(addr: u64, align: u64) -> (r: bool)
    requires
        u64_is_power_of_two(align),
    ensures
        r == is_aligned_int(addr as int, align as int),
{
    u64_align_down(addr, align) == addr
}

} // verus!
