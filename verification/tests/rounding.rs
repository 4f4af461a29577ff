//! Per-width rounding behaviour on concrete addresses, including the top of
//! each width's range.

use align_address::{
    u128_align_up, u16_align_up, u32_align_up, u64_align_up, u8_align_up, usize_align_up,
};
use align_address::{
    u128_checked_align_up, u16_checked_align_up, u32_checked_align_up, u64_checked_align_up,
    u8_checked_align_up, usize_checked_align_up,
};
use align_address::{u8_align_down, u8_is_aligned_to};

#[test]
fn test_u8_align_up() {
    // align 1
    assert_eq!(u8_align_up(0, 1), 0);
    assert_eq!(u8_align_up(123, 1), 123);
    assert_eq!(u8_align_up(u8::MAX, 1), u8::MAX);
    // align 2
    assert_eq!(u8_align_up(0, 2), 0);
    assert_eq!(u8_align_up(123, 2), 124);
    assert_eq!(u8_align_up(u8::MAX - 1, 2), u8::MAX - 1);
    // address 0
    assert_eq!(u8_align_up(0, 128), 0);
    assert_eq!(u8_align_up(0, 1), 0);
    assert_eq!(u8_align_up(0, 2), 0);
    assert_eq!(u8_align_up(0, u8::MAX & 1 << (u8::BITS - 1)), 0);
}

#[test]
fn test_u16_align_up() {
    assert_eq!(u16_align_up(0, 1), 0);
    assert_eq!(u16_align_up(123, 1), 123);
    assert_eq!(u16_align_up(u16::MAX, 1), u16::MAX);
    assert_eq!(u16_align_up(0, 2), 0);
    assert_eq!(u16_align_up(123, 2), 124);
    assert_eq!(u16_align_up(u16::MAX - 1, 2), u16::MAX - 1);
    assert_eq!(u16_align_up(0, 128), 0);
    assert_eq!(u16_align_up(0, u16::MAX & 1 << (u16::BITS - 1)), 0);
}

#[test]
fn test_u32_align_up() {
    assert_eq!(u32_align_up(0, 1), 0);
    assert_eq!(u32_align_up(123, 1), 123);
    assert_eq!(u32_align_up(u32::MAX, 1), u32::MAX);
    assert_eq!(u32_align_up(0, 2), 0);
    assert_eq!(u32_align_up(123, 2), 124);
    assert_eq!(u32_align_up(u32::MAX - 1, 2), u32::MAX - 1);
    assert_eq!(u32_align_up(0, 128), 0);
    assert_eq!(u32_align_up(0, u32::MAX & 1 << (u32::BITS - 1)), 0);
}

#[test]
fn test_u64_align_up() {
    assert_eq!(u64_align_up(0, 1), 0);
    assert_eq!(u64_align_up(123, 1), 123);
    assert_eq!(u64_align_up(u64::MAX, 1), u64::MAX);
    assert_eq!(u64_align_up(0, 2), 0);
    assert_eq!(u64_align_up(123, 2), 124);
    assert_eq!(u64_align_up(u64::MAX - 1, 2), u64::MAX - 1);
    assert_eq!(u64_align_up(0, 128), 0);
    assert_eq!(u64_align_up(0, u64::MAX & 1 << (u64::BITS - 1)), 0);
}

#[test]
fn test_u128_align_up() {
    assert_eq!(u128_align_up(0, 1), 0);
    assert_eq!(u128_align_up(123, 1), 123);
    assert_eq!(u128_align_up(u128::MAX, 1), u128::MAX);
    assert_eq!(u128_align_up(0, 2), 0);
    assert_eq!(u128_align_up(123, 2), 124);
    assert_eq!(u128_align_up(u128::MAX - 1, 2), u128::MAX - 1);
    assert_eq!(u128_align_up(0, 128), 0);
    assert_eq!(u128_align_up(0, u128::MAX & 1 << (u128::BITS - 1)), 0);
}

#[test]
fn test_usize_align_up() {
    assert_eq!(usize_align_up(0, 1), 0);
    assert_eq!(usize_align_up(123, 1), 123);
    assert_eq!(usize_align_up(usize::MAX, 1), usize::MAX);
    assert_eq!(usize_align_up(0, 2), 0);
    assert_eq!(usize_align_up(123, 2), 124);
    assert_eq!(usize_align_up(usize::MAX - 1, 2), usize::MAX - 1);
    assert_eq!(usize_align_up(0, 128), 0);
    assert_eq!(usize_align_up(0, usize::MAX & 1 << (usize::BITS - 1)), 0);
}

#[test]
fn test_u8_concrete_scenarios() {
    assert_eq!(u8_align_up(123, 2), 124);
    assert_eq!(u8_align_down(123, 2), 122);
    assert_eq!(u8_align_up(0, 128), 0);
    assert_eq!(u8_checked_align_up(255, 2), None);
    assert_eq!(u8_checked_align_up(254, 2), Some(254));
    assert!(u8_is_aligned_to(128, 128));
    assert!(!u8_is_aligned_to(129, 128));
}

#[test]
fn test_checked_align_up_at_max() {
    // The all-ones maximum of every width is odd, so rounding it up to an
    // even boundary overflows; alignment one short-circuits and keeps it.
    assert_eq!(u8_checked_align_up(u8::MAX, 2), None);
    assert_eq!(u8_checked_align_up(u8::MAX, 1), Some(u8::MAX));
    assert_eq!(u16_checked_align_up(u16::MAX, 2), None);
    assert_eq!(u16_checked_align_up(u16::MAX, 1), Some(u16::MAX));
    assert_eq!(u32_checked_align_up(u32::MAX, 2), None);
    assert_eq!(u32_checked_align_up(u32::MAX, 1), Some(u32::MAX));
    assert_eq!(u64_checked_align_up(u64::MAX, 2), None);
    assert_eq!(u64_checked_align_up(u64::MAX, 1), Some(u64::MAX));
    assert_eq!(u128_checked_align_up(u128::MAX, 2), None);
    assert_eq!(u128_checked_align_up(u128::MAX, 1), Some(u128::MAX));
    assert_eq!(usize_checked_align_up(usize::MAX, 2), None);
    assert_eq!(usize_checked_align_up(usize::MAX, 1), Some(usize::MAX));
}

#[test]
fn test_checked_align_up_largest_alignment() {
    // With the alignment at the top bit, anything above zero rounds to the
    // single remaining boundary or overflows.
    assert_eq!(u8_checked_align_up(0, 128), Some(0));
    assert_eq!(u8_checked_align_up(1, 128), Some(128));
    assert_eq!(u8_checked_align_up(128, 128), Some(128));
    assert_eq!(u8_checked_align_up(129, 128), None);
}
