//! Concrete instances of the laws that the crate proves in general: the
//! rounded values are the extreme multiples on their side of the address,
//! rounding is idempotent, the aligned addresses are the fixed points, and
//! the two surfaces (free functions and the `Align` capability) agree.

use align_address::Align;
use align_address::{
    u32_align_down, u32_checked_align_up, u32_is_aligned_to, u64_align_down, u64_align_up,
    u64_checked_align_up, u64_is_aligned_to, u64_is_power_of_two, u8_align_down,
    u8_checked_align_up, u8_is_aligned_to,
};

#[test]
fn test_align_down_greatest_multiple() {
    let down = u32_align_down(100, 8);
    assert_eq!(down, 96);
    assert!(down <= 100);
    assert!(down % 8 == 0);
    // nothing between the result and the address is a multiple
    for x in 97..=100u32 {
        assert!(x % 8 != 0);
    }
}

#[test]
fn test_align_up_least_multiple() {
    let up = u32_checked_align_up(100, 8).unwrap();
    assert_eq!(up, 104);
    assert!(up >= 100);
    assert!(up % 8 == 0);
    for x in 100..104u32 {
        assert!(x % 8 != 0);
    }
}

#[test]
fn test_idempotence() {
    let down = u64_align_down(123, 4);
    assert_eq!(u64_align_down(down, 4), down);
    let up = u64_checked_align_up(123, 4).unwrap();
    assert_eq!(u64_checked_align_up(up, 4), Some(up));
    assert_eq!(u64_align_up(up, 4), up);
}

#[test]
fn test_aligned_fixed_points() {
    for x in [0u8, 3, 8, 123, 200, 248, 255] {
        let aligned = u8_is_aligned_to(x, 8);
        assert_eq!(aligned, u8_align_down(x, 8) == x);
        assert_eq!(aligned, u8_checked_align_up(x, 8) == Some(x));
    }
}

#[test]
fn test_zero_aligned_and_identity_alignment() {
    for a in [1u64, 2, 4, 64, 1 << 63] {
        assert!(u64_is_aligned_to(0, a));
    }
    for x in [0u64, 1, 123, u64::MAX] {
        assert_eq!(u64_align_down(x, 1), x);
        assert_eq!(u64_align_up(x, 1), x);
        assert!(u64_is_aligned_to(x, 1));
    }
}

#[test]
fn test_power_of_two_check() {
    for a in [1u64, 2, 4, 8, 1 << 33, 1 << 63] {
        assert!(u64_is_power_of_two(a));
    }
    for a in [0u64, 3, 6, 12, (1 << 33) + 1, u64::MAX] {
        assert!(!u64_is_power_of_two(a));
    }
}

#[test]
fn test_capability_agrees_with_free_functions() {
    for addr in [0u64, 1, 2, 123, 4096, u64::MAX - 2, u64::MAX] {
        for align in [1u64, 2, 64, 4096, 1 << 63] {
            assert_eq!(addr.align_down(align), u64_align_down(addr, align));
            assert_eq!(addr.checked_align_up(align), u64_checked_align_up(addr, align));
            assert_eq!(addr.is_aligned_to(align), u64_is_aligned_to(addr, align));
            if let Some(up) = u64_checked_align_up(addr, align) {
                assert_eq!(addr.align_up(align), up);
            }
        }
    }
}

#[test]
fn test_trait_example() {
    assert_eq!(123_u64.align_up(2), 124);
    assert_eq!(123_u8.align_down(2), 122);
    assert!(124_u16.is_aligned_to(4));
    assert_eq!(250_u8.checked_align_up(16), None);
}
