//! The bitmask form of reduction modulo a power of two.
//!
//! The executable operations clear, set, and test the low bits of an address
//! under the mask `align - 1`; their contracts speak of remainders. The
//! lemma here ties the two together: for a power-of-two alignment, the low
//! bits of an address are exactly its remainder modulo the alignment. It is
//! proved once, at the widest supported width, by induction on the
//! alignment, halving it each step; the narrower widths embed into this one
//! by zero extension.

use vstd::prelude::*;
use vstd::arithmetic::div_mod::lemma_mod_breakdown;
use vstd::arithmetic::power2::is_pow2;

verus! {

/// The bit test behind the validity predicates agrees with the mathematical
/// notion of a power of two: a nonzero value whose predecessor shares no bit
/// with it is exactly a power of two. Again proved at the widest width, by
/// halving.
pub(crate) proof fn lemma_u128_bit_test_is_pow2(a: u128)
    ensures
        (a != 0 && a & ((a - 1) as u128) == 0) <==> is_pow2(a as int),
    decreases a,
{
    reveal(is_pow2);
    if a == 1 {
        assert(1u128 & 0u128 == 0) by (bit_vector);
    } else if a >= 2 {
        // The test passes at `a` exactly when `a` is even and the test
        // passes at its half; the recursive definition unwinds the same way.
        assert((a != 0 && a & ((a - 1) as u128) == 0) <==> (a % 2 == 0 && a / 2 != 0 && (a
            / 2) & ((a / 2 - 1) as u128) == 0)) by (bit_vector)
            requires
                a >= 2,
        ;
        lemma_u128_bit_test_is_pow2(a / 2);
    }
}

/// For a nonzero `align` with a single bit set, `addr % align` is the low
/// bits of `addr` under the mask `align - 1`.
pub(crate) proof fn lemma_u128_mod_is_mask(addr: u128, align: u128)
    requires
        align != 0,
        align & ((align - 1) as u128) == 0,
    ensures
        addr % align == addr & ((align - 1) as u128),
    decreases align,
{
    if align == 1 {
        assert(addr % 1 == 0 && addr & 0 == 0) by (bit_vector);
    } else {
        let half: u128 = align / 2;
        // Halving a power of two above one gives the next power of two down.
        assert(half != 0 && half & ((half - 1) as u128) == 0 && align == 2 * half
            && half < align) by (bit_vector)
            requires
                align != 0,
                align != 1,
                align & ((align - 1) as u128) == 0,
                half == align / 2,
        ;
        lemma_u128_mod_is_mask(addr / 2, half);
        lemma_mod_breakdown(addr as int, 2, half as int);
        // The mask splits the same way as the remainder: low bit apart, it
        // is the halved mask applied to the halved address.
        assert(addr & ((align - 1) as u128) == 2 * ((addr / 2) & ((half - 1) as u128)) + addr
            % 2) by (bit_vector)
            requires
                align != 0,
                align != 1,
                align & ((align - 1) as u128) == 0,
                half == align / 2,
        ;
    }
}

} // verus!
