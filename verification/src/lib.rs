//! Alignment arithmetic for unsigned integer addresses.
//!
//! Every operation takes an address and a power-of-two alignment of the same
//! width and either rounds the address down to the nearest multiple of the
//! alignment, rounds it up (with overflow reported explicitly through the
//! checked variant), or tests whether it is already such a multiple.
//!
//! The operations come in two surfaces that agree on every input: free
//! functions per unsigned width (`u8` through `u128` and `usize`), and the
//! [`Align`] capability for code that is generic over the width. All
//! contracts are stated against one integer-level model of the three
//! operations, and the lemmas exported beside it prove the laws of that
//! model: the rounded values are the extreme aligned values on their side of
//! the address, rounding twice changes nothing more, and the aligned
//! addresses are exactly the fixed points of both roundings.

mod capability;
mod mask;
mod math;
mod width_u128;
mod width_u16;
mod width_u32;
mod width_u64;
mod width_u8;
mod width_usize;

pub use capability::Align;
pub use math::{
    align_down_int, align_up_int, is_aligned_int, lemma_align_down_bounds,
    lemma_align_down_idempotent, lemma_align_down_is_greatest, lemma_align_trivial,
    lemma_align_up_bounds, lemma_align_up_cases, lemma_align_up_idempotent,
    lemma_align_up_is_least, lemma_aligned_fixed_points,
};
pub use width_u8::{
    u8_align_down, u8_align_up, u8_checked_align_up, u8_is_aligned_to, u8_is_power_of_two,
    spec_u8_is_power_of_two, lemma_u8_power_of_two_iff,
};
pub use width_u16::{
    u16_align_down, u16_align_up, u16_checked_align_up, u16_is_aligned_to, u16_is_power_of_two,
    spec_u16_is_power_of_two, lemma_u16_power_of_two_iff,
};
pub use width_u32::{
    u32_align_down, u32_align_up, u32_checked_align_up, u32_is_aligned_to, u32_is_power_of_two,
    spec_u32_is_power_of_two, lemma_u32_power_of_two_iff,
};
pub use width_u64::{
    u64_align_down, u64_align_up, u64_checked_align_up, u64_is_aligned_to, u64_is_power_of_two,
    spec_u64_is_power_of_two, lemma_u64_power_of_two_iff,
};
pub use width_u128::{
    u128_align_down, u128_align_up, u128_checked_align_up, u128_is_aligned_to,
    u128_is_power_of_two, spec_u128_is_power_of_two, lemma_u128_power_of_two_iff,
};
pub use width_usize::{
    usize_align_down, usize_align_up, usize_checked_align_up, usize_is_aligned_to,
    usize_is_power_of_two, spec_usize_is_power_of_two, lemma_usize_power_of_two_iff,
};
