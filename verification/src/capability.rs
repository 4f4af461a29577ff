//! The width-polymorphic capability: one trait exposing the alignment
//! operations over every supported unsigned integer width, so that
//! width-agnostic code can be written once against it.
//!
//! Each implementation forwards to the free functions of its width, so both
//! surfaces agree on every input.

use vstd::prelude::*;
use crate::math::{align_down_int, align_up_int, is_aligned_int};
use crate::width_u8::{
    u8_align_down, u8_align_up, u8_checked_align_up, u8_is_aligned_to, u8_is_power_of_two,
};
use crate::width_u16::{
    u16_align_down, u16_align_up, u16_checked_align_up, u16_is_aligned_to, u16_is_power_of_two,
};
use crate::width_u32::{
    u32_align_down, u32_align_up, u32_checked_align_up, u32_is_aligned_to, u32_is_power_of_two,
};
use crate::width_u64::{
    u64_align_down, u64_align_up, u64_checked_align_up, u64_is_aligned_to, u64_is_power_of_two,
};
use crate::width_u128::{
    u128_align_down, u128_align_up, u128_checked_align_up, u128_is_aligned_to,
    u128_is_power_of_two,
};
use crate::width_usize::{
    usize_align_down, usize_align_up, usize_checked_align_up, usize_is_aligned_to,
    usize_is_power_of_two,
};

verus! {

/// An address that can be aligned.
///
/// Addresses and alignments share one width; the model of a value is the
/// mathematical integer it denotes, and a valid alignment is a power of two
/// of that width.
pub trait Align: Copy + PartialEq + Sized {
    /// The value as a mathematical integer.
    spec fn as_int(self) -> int;

    /// The greatest integer representable at this width.
    spec fn max_int() -> int;

    /// Whether the value is a valid alignment: a power of two.
    spec fn is_valid_align(self) -> bool;

    /// Every value denotes an integer between zero and the width's maximum,
    /// and a valid alignment is positive.
    proof fn lemma_align_model(self)
        ensures
            0 <= self.as_int() <= Self::max_int(),
            self.is_valid_align() ==> self.as_int() > 0,
    ;

    /// Align the address downwards: the greatest multiple of `align` that is
    /// at most `self`.
    fn align_down(self, align: Self) -> (r: Self)
        requires
            align.is_valid_align(),
        ensures
            r.as_int() == align_down_int(self.as_int(), align.as_int()),
    ;

    /// Align the address upwards if the result is representable: the
    /// smallest multiple of `align` that is at least `self`, or `None` when
    /// every such multiple overflows the width.
    fn checked_align_up(self, align: Self) -> (r: Option<Self>)
        requires
            align.is_valid_align(),
        ensures
            r matches Some(v) ==> v.as_int() == align_up_int(self.as_int(), align.as_int()),
            r is Some <==> align_up_int(self.as_int(), align.as_int()) <= Self::max_int(),
    ;

    /// Align the address upwards: the smallest multiple of `align` that is
    /// at least `self`. The caller must rule out overflow beforehand.
    fn align_up(self, align: Self) -> (r: Self)
        requires
            align.is_valid_align(),
            align_up_int(self.as_int(), align.as_int()) <= Self::max_int(),
        ensures
            r.as_int() == align_up_int(self.as_int(), align.as_int()),
    ;

    /// Whether the address is a multiple of `align`.
    fn is_aligned_to(self, align: Self) -> (r: bool)
        requires
            align.is_valid_align(),
        ensures
            r == is_aligned_int(self.as_int(), align.as_int()),
    ;
}

impl Align for u8 {
    open spec fn as_int(self) -> int {
        self as int
    }

    open spec fn max_int() -> int {
        u8::MAX as int
    }

    open spec fn is_valid_align(self) -> bool {
        u8_is_power_of_two(self)
    }

    proof fn lemma_align_model(self) {
    }

    fn align_down(self, align: Self) -> (r: Self) {
        u8_align_down(self, align)
    }

    fn checked_align_up(self, align: Self) -> (r: Option<Self>) {
        u8_checked_align_up(self, align)
    }

    fn align_up(self, align: Self) -> (r: Self) {
        u8_align_up(self, align)
    }

    fn is_aligned_to(self, align: Self) -> (r: bool) {
        u8_is_aligned_to(self, align)
    }
}

impl Align for u16 {
    open spec fn as_int(self) -> int {
        self as int
    }

    open spec fn max_int() -> int {
        u16::MAX as int
    }

    open spec fn is_valid_align(self) -> bool {
        u16_is_power_of_two(self)
    }

    proof fn lemma_align_model(self) {
    }

    fn align_down(self, align: Self) -> (r: Self) {
        u16_align_down(self, align)
    }

    fn checked_align_up(self, align: Self) -> (r: Option<Self>) {
        u16_checked_align_up(self, align)
    }

    fn align_up(self, align: Self) -> (r: Self) {
        u16_align_up(self, align)
    }

    fn is_aligned_to(self, align: Self) -> (r: bool) {
        u16_is_aligned_to(self, align)
    }
}

impl Align for u32 {
    open spec fn as_int(self) -> int {
        self as int
    }

    open spec fn max_int() -> int {
        u32::MAX as int
    }

    open spec fn is_valid_align(self) -> bool {
        u32_is_power_of_two(self)
    }

    proof fn lemma_align_model(self) {
    }

    fn align_down(self, align: Self) -> (r: Self) {
        u32_align_down(self, align)
    }

    fn checked_align_up(self, align: Self) -> (r: Option<Self>) {
        u32_checked_align_up(self, align)
    }

    fn align_up(self, align: Self) -> (r: Self) {
        u32_align_up(self, align)
    }

    fn is_aligned_to(self, align: Self) -> (r: bool) {
        u32_is_aligned_to(self, align)
    }
}

impl Align for u64 {
    open spec fn as_int(self) -> int {
        self as int
    }

    open spec fn max_int() -> int {
        u64::MAX as int
    }

    open spec fn is_valid_align(self) -> bool {
        u64_is_power_of_two(self)
    }

    proof fn lemma_align_model(self) {
    }

    fn align_down(self, align: Self) -> (r: Self) {
        u64_align_down(self, align)
    }

    fn checked_align_up(self, align: Self) -> (r: Option<Self>) {
        u64_checked_align_up(self, align)
    }

    fn align_up(self, align: Self) -> (r: Self) {
        u64_align_up(self, align)
    }

    fn is_aligned_to(self, align: Self) -> (r: bool) {
        u64_is_aligned_to(self, align)
    }
}

impl Align for u128 {
    open spec fn as_int(self) -> int {
        self as int
    }

    open spec fn max_int() -> int {
        u128::MAX as int
    }

    open spec fn is_valid_align(self) -> bool {
        u128_is_power_of_two(self)
    }

    proof fn lemma_align_model(self) {
    }

    fn align_down(self, align: Self) -> (r: Self) {
        u128_align_down(self, align)
    }

    fn checked_align_up(self, align: Self) -> (r: Option<Self>) {
        u128_checked_align_up(self, align)
    }

    fn align_up(self, align: Self) -> (r: Self) {
        u128_align_up(self, align)
    }

    fn is_aligned_to(self, align: Self) -> (r: bool) {
        u128_is_aligned_to(self, align)
    }
}

impl Align for usize {
    open spec fn as_int(self) -> int {
        self as int
    }

    open spec fn max_int() -> int {
        usize::MAX as int
    }

    open spec fn is_valid_align(self) -> bool {
        usize_is_power_of_two(self)
    }

    proof fn lemma_align_model(self) {
    }

    fn align_down(self, align: Self) -> (r: Self) {
        usize_align_down(self, align)
    }

    fn checked_align_up(self, align: Self) -> (r: Option<Self>) {
        usize_checked_align_up(self, align)
    }

    fn align_up(self, align: Self) -> (r: Self) {
        usize_align_up(self, align)
    }

    fn is_aligned_to(self, align: Self) -> (r: bool) {
        usize_is_aligned_to(self, align)
    }
}

} // verus!
