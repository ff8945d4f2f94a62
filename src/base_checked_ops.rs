//! Checked arithmetic as traits, so that the wrappers can be generic over
//! the integer they hold. Each binary operation is implemented for every
//! primitive integer with a right-hand operand of the same type, and once,
//! generically, with a right-hand operand that is a `Checked` of that type.
use vstd::prelude::*;

use crate::Checked;

verus! {

/// Magnitude of an integer.
pub open spec fn magnitude(a: int) -> int {
    if a < 0 {
        -a
    } else {
        a
    }
}

/// Quotient of `a / b` rounded toward zero, as Rust's integer division computes it.
pub open spec fn trunc_div(a: int, b: int) -> int {
    let q = magnitude(a) / magnitude(b);
    if (a < 0) == (b < 0) {
        q
    } else {
        -q
    }
}

/// Remainder of `a / b` that carries the sign of `a`, as Rust's `%` computes it.
pub open spec fn trunc_rem(a: int, b: int) -> int {
    let r = magnitude(a) % magnitude(b);
    if a < 0 {
        -r
    } else {
        r
    }
}

/// A remainder is smaller in magnitude than its divisor.
proof fn lemma_trunc_rem_smaller(a: int, b: int)
    requires
        b != 0,
    ensures
        magnitude(trunc_rem(a, b)) < magnitude(b),
        a == 0 ==> trunc_rem(a, b) == 0,
{
    vstd::arithmetic::div_mod::lemma_mod_pos_bound(magnitude(a), magnitude(b));
    if a == 0 {
        vstd::arithmetic::div_mod::lemma_small_mod(0, magnitude(b) as nat);
    }
}

/// Addition that reports overflow by returning `None`.
pub trait CheckedAdd<Rhs = Self>: Sized {
    type Output;

    /// The result of the checked addition.
    spec fn spec_checked_add(self, rhs: Rhs) -> Option<Self::Output>;

    fn checked_add(self, rhs: Rhs) -> (r: Option<Self::Output>)
        ensures
            r == self.spec_checked_add(rhs),
    ;
}

/// Subtraction that reports overflow by returning `None`.
pub trait CheckedSub<Rhs = Self>: Sized {
    type Output;

    /// The result of the checked subtraction.
    spec fn spec_checked_sub(self, rhs: Rhs) -> Option<Self::Output>;

    fn checked_sub(self, rhs: Rhs) -> (r: Option<Self::Output>)
        ensures
            r == self.spec_checked_sub(rhs),
    ;
}

/// Multiplication that reports overflow by returning `None`.
pub trait CheckedMul<Rhs = Self>: Sized {
    type Output;

    /// The result of the checked multiplication.
    spec fn spec_checked_mul(self, rhs: Rhs) -> Option<Self::Output>;

    fn checked_mul(self, rhs: Rhs) -> (r: Option<Self::Output>)
        ensures
            r == self.spec_checked_mul(rhs),
    ;
}

/// Division that reports a zero divisor or overflow by returning `None`.
pub trait CheckedDiv<Rhs = Self>: Sized {
    type Output;

    /// The result of the checked division.
    spec fn spec_checked_div(self, rhs: Rhs) -> Option<Self::Output>;

    fn checked_div(self, rhs: Rhs) -> (r: Option<Self::Output>)
        ensures
            r == self.spec_checked_div(rhs),
    ;
}

/// Remainder that reports a zero divisor or overflow by returning `None`.
pub trait CheckedRem<Rhs = Self>: Sized {
    type Output;

    /// The result of the checked remainder.
    spec fn spec_checked_rem(self, rhs: Rhs) -> Option<Self::Output>;

    fn checked_rem(self, rhs: Rhs) -> (r: Option<Self::Output>)
        ensures
            r == self.spec_checked_rem(rhs),
    ;
}

/// Absolute value that reports overflow by returning `None`.
///
/// Reserved for types whose absolute value can overflow; no primitive
/// integer implements it here.
pub trait CheckedAbs: Sized {
    type Output;

    fn checked_abs(self) -> Option<Self>;
}

/// Negation that reports overflow by returning `None`.
pub trait CheckedNeg: Sized {
    type Output;

    /// The result of the checked negation.
    spec fn spec_checked_neg(self) -> Option<Self>;

    fn checked_neg(self) -> (r: Option<Self>)
        ensures
            r == self.spec_checked_neg(),
    ;
}

/// A `Checked` right-hand operand counts as the value it holds.
impl<T: CheckedAdd<T>, D> CheckedAdd<Checked<T, D>> for T {
    type Output = <T as CheckedAdd<T>>::Output;

    open spec fn spec_checked_add(self, rhs: Checked<T, D>) -> Option<Self::Output> {
        self.spec_checked_add(rhs@)
    }

    fn checked_add(self, rhs: Checked<T, D>) -> (r: Option<Self::Output>) {
        self.checked_add(rhs.into_inner())
    }
}

/// A `Checked` right-hand operand counts as the value it holds.
impl<T: CheckedSub<T>, D> CheckedSub<Checked<T, D>> for T {
    type Output = <T as CheckedSub<T>>::Output;

    open spec fn spec_checked_sub(self, rhs: Checked<T, D>) -> Option<Self::Output> {
        self.spec_checked_sub(rhs@)
    }

    fn checked_sub(self, rhs: Checked<T, D>) -> (r: Option<Self::Output>) {
        self.checked_sub(rhs.into_inner())
    }
}

/// A `Checked` right-hand operand counts as the value it holds.
impl<T: CheckedMul<T>, D> CheckedMul<Checked<T, D>> for T {
    type Output = <T as CheckedMul<T>>::Output;

    open spec fn spec_checked_mul(self, rhs: Checked<T, D>) -> Option<Self::Output> {
        self.spec_checked_mul(rhs@)
    }

    fn checked_mul(self, rhs: Checked<T, D>) -> (r: Option<Self::Output>) {
        self.checked_mul(rhs.into_inner())
    }
}

/// A `Checked` right-hand operand counts as the value it holds.
impl<T: CheckedDiv<T>, D> CheckedDiv<Checked<T, D>> for T {
    type Output = <T as CheckedDiv<T>>::Output;

    open spec fn spec_checked_div(self, rhs: Checked<T, D>) -> Option<Self::Output> {
        self.spec_checked_div(rhs@)
    }

    fn checked_div(self, rhs: Checked<T, D>) -> (r: Option<Self::Output>) {
        self.checked_div(rhs.into_inner())
    }
}

/// A `Checked` right-hand operand counts as the value it holds.
impl<T: CheckedRem<T>, D> CheckedRem<Checked<T, D>> for T {
    type Output = <T as CheckedRem<T>>::Output;

    open spec fn spec_checked_rem(self, rhs: Checked<T, D>) -> Option<Self::Output> {
        self.spec_checked_rem(rhs@)
    }

    fn checked_rem(self, rhs: Checked<T, D>) -> (r: Option<Self::Output>) {
        self.checked_rem(rhs.into_inner())
    }
}

// usize

/// Sum of two `usize`s, absent when it leaves the range of `usize`.
impl CheckedAdd for usize {
    type Output = usize;

    open spec fn spec_checked_add(self, rhs: usize) -> Option<usize> {
        if usize::MIN <= self + rhs <= usize::MAX {
            Some((self + rhs) as usize)
        } else {
            None
        }
    }

    fn checked_add(self, rhs: usize) -> (r: Option<usize>) {
        usize::checked_add(self, rhs)
    }
}

/// Difference of two `usize`s, absent when it leaves the range of `usize`.
impl CheckedSub for usize {
    type Output = usize;

    open spec fn spec_checked_sub(self, rhs: usize) -> Option<usize> {
        if usize::MIN <= self - rhs <= usize::MAX {
            Some((self - rhs) as usize)
        } else {
            None
        }
    }

    fn checked_sub(self, rhs: usize) -> (r: Option<usize>) {
        usize::checked_sub(self, rhs)
    }
}

/// Product of two `usize`s, absent when it leaves the range of `usize`.
impl CheckedMul for usize {
    type Output = usize;

    open spec fn spec_checked_mul(self, rhs: usize) -> Option<usize> {
        if usize::MIN <= self * rhs <= usize::MAX {
            Some((self * rhs) as usize)
        } else {
            None
        }
    }

    fn checked_mul(self, rhs: usize) -> (r: Option<usize>) {
        usize::checked_mul(self, rhs)
    }
}

/// Quotient of two `usize`s, absent for a zero divisor.
impl CheckedDiv for usize {
    type Output = usize;

    open spec fn spec_checked_div(self, rhs: usize) -> Option<usize> {
        if rhs == 0 {
            None
        } else {
            Some(self / rhs)
        }
    }

    fn checked_div(self, rhs: usize) -> (r: Option<usize>) {
        usize::checked_div(self, rhs)
    }
}

/// Remainder of two `usize`s, absent for a zero divisor.
impl CheckedRem for usize {
    type Output = usize;

    open spec fn spec_checked_rem(self, rhs: usize) -> Option<usize> {
        if rhs == 0 {
            None
        } else {
            Some(self % rhs)
        }
    }

    fn checked_rem(self, rhs: usize) -> (r: Option<usize>) {
        usize::checked_rem(self, rhs)
    }
}

/// Negation, present only for zero.
impl CheckedNeg for usize {
    type Output = usize;

    open spec fn spec_checked_neg(self) -> Option<usize> {
        if usize::MIN <= -self <= usize::MAX {
            Some((-self) as usize)
        } else {
            None
        }
    }

    fn checked_neg(self) -> (r: Option<usize>) {
        usize::checked_sub(0, self)
    }
}

// isize

/// Sum of two `isize`s, absent when it leaves the range of `isize`.
impl CheckedAdd for isize {
    type Output = isize;

    open spec fn spec_checked_add(self, rhs: isize) -> Option<isize> {
        if isize::MIN <= self + rhs <= isize::MAX {
            Some((self + rhs) as isize)
        } else {
            None
        }
    }

    fn checked_add(self, rhs: isize) -> (r: Option<isize>) {
        isize::checked_add(self, rhs)
    }
}

/// Difference of two `isize`s, absent when it leaves the range of `isize`.
impl CheckedSub for isize {
    type Output = isize;

    open spec fn spec_checked_sub(self, rhs: isize) -> Option<isize> {
        if isize::MIN <= self - rhs <= isize::MAX {
            Some((self - rhs) as isize)
        } else {
            None
        }
    }

    fn checked_sub(self, rhs: isize) -> (r: Option<isize>) {
        isize::checked_sub(self, rhs)
    }
}

/// Product of two `isize`s, absent when it leaves the range of `isize`.
impl CheckedMul for isize {
    type Output = isize;

    open spec fn spec_checked_mul(self, rhs: isize) -> Option<isize> {
        if isize::MIN <= self * rhs <= isize::MAX {
            Some((self * rhs) as isize)
        } else {
            None
        }
    }

    fn checked_mul(self, rhs: isize) -> (r: Option<isize>) {
        isize::checked_mul(self, rhs)
    }
}

/// Quotient rounded toward zero, absent for a zero divisor and for `isize::MIN / -1`.
impl CheckedDiv for isize {
    type Output = isize;

    open spec fn spec_checked_div(self, rhs: isize) -> Option<isize> {
        if rhs == 0 {
            None
        } else if isize::MIN <= trunc_div(self as int, rhs as int) <= isize::MAX {
            Some(trunc_div(self as int, rhs as int) as isize)
        } else {
            None
        }
    }

    fn checked_div(self, rhs: isize) -> (r: Option<isize>) {
        isize::checked_div(self, rhs)
    }
}

/// Remainder with the sign of the dividend, absent for a zero divisor and for `isize::MIN % -1`.
impl CheckedRem for isize {
    type Output = isize;

    open spec fn spec_checked_rem(self, rhs: isize) -> Option<isize> {
        if rhs == 0 || (self == isize::MIN && rhs == -1) {
            None
        } else {
            Some(trunc_rem(self as int, rhs as int) as isize)
        }
    }

    fn checked_rem(self, rhs: isize) -> (r: Option<isize>) {
        proof {
            if rhs != 0 {
                lemma_trunc_rem_smaller(self as int, rhs as int);
            }
        }
        isize::checked_rem(self, rhs)
    }
}

/// Negation, absent for `isize::MIN`.
impl CheckedNeg for isize {
    type Output = isize;

    open spec fn spec_checked_neg(self) -> Option<isize> {
        if isize::MIN <= -self <= isize::MAX {
            Some((-self) as isize)
        } else {
            None
        }
    }

    fn checked_neg(self) -> (r: Option<isize>) {
        isize::checked_sub(0, self)
    }
}

// u8

/// Sum of two `u8`s, absent when it leaves the range of `u8`.
impl CheckedAdd for u8 {
    type Output = u8;

    open spec fn spec_checked_add(self, rhs: u8) -> Option<u8> {
        if u8::MIN <= self + rhs <= u8::MAX {
            Some((self + rhs) as u8)
        } else {
            None
        }
    }

    fn checked_add(self, rhs: u8) -> (r: Option<u8>) {
        u8::checked_add(self, rhs)
    }
}

/// Difference of two `u8`s, absent when it leaves the range of `u8`.
impl CheckedSub for u8 {
    type Output = u8;

    open spec fn spec_checked_sub(self, rhs: u8) -> Option<u8> {
        if u8::MIN <= self - rhs <= u8::MAX {
            Some((self - rhs) as u8)
        } else {
            None
        }
    }

    fn checked_sub(self, rhs: u8) -> (r: Option<u8>) {
        u8::checked_sub(self, rhs)
    }
}

/// Product of two `u8`s, absent when it leaves the range of `u8`.
impl CheckedMul for u8 {
    type Output = u8;

    open spec fn spec_checked_mul(self, rhs: u8) -> Option<u8> {
        if u8::MIN <= self * rhs <= u8::MAX {
            Some((self * rhs) as u8)
        } else {
            None
        }
    }

    fn checked_mul(self, rhs: u8) -> (r: Option<u8>) {
        u8::checked_mul(self, rhs)
    }
}

/// Quotient of two `u8`s, absent for a zero divisor.
impl CheckedDiv for u8 {
    type Output = u8;

    open spec fn spec_checked_div(self, rhs: u8) -> Option<u8> {
        if rhs == 0 {
            None
        } else {
            Some(self / rhs)
        }
    }

    fn checked_div(self, rhs: u8) -> (r: Option<u8>) {
        u8::checked_div(self, rhs)
    }
}

/// Remainder of two `u8`s, absent for a zero divisor.
impl CheckedRem for u8 {
    type Output = u8;

    open spec fn spec_checked_rem(self, rhs: u8) -> Option<u8> {
        if rhs == 0 {
            None
        } else {
            Some(self % rhs)
        }
    }

    fn checked_rem(self, rhs: u8) -> (r: Option<u8>) {
        u8::checked_rem(self, rhs)
    }
}

/// Negation, present only for zero.
impl CheckedNeg for u8 {
    type Output = u8;

    open spec fn spec_checked_neg(self) -> Option<u8> {
        if u8::MIN <= -self <= u8::MAX {
            Some((-self) as u8)
        } else {
            None
        }
    }

    fn checked_neg(self) -> (r: Option<u8>) {
        u8::checked_sub(0, self)
    }
}

// i8

/// Sum of two `i8`s, absent when it leaves the range of `i8`.
impl CheckedAdd for i8 {
    type Output = i8;

    open spec fn spec_checked_add(self, rhs: i8) -> Option<i8> {
        if i8::MIN <= self + rhs <= i8::MAX {
            Some((self + rhs) as i8)
        } else {
            None
        }
    }

    fn checked_add(self, rhs: i8) -> (r: Option<i8>) {
        i8::checked_add(self, rhs)
    }
}

/// Difference of two `i8`s, absent when it leaves the range of `i8`.
impl CheckedSub for i8 {
    type Output = i8;

    open spec fn spec_checked_sub(self, rhs: i8) -> Option<i8> {
        if i8::MIN <= self - rhs <= i8::MAX {
            Some((self - rhs) as i8)
        } else {
            None
        }
    }

    fn checked_sub(self, rhs: i8) -> (r: Option<i8>) {
        i8::checked_sub(self, rhs)
    }
}

/// Product of two `i8`s, absent when it leaves the range of `i8`.
impl CheckedMul for i8 {
    type Output = i8;

    open spec fn spec_checked_mul(self, rhs: i8) -> Option<i8> {
        if i8::MIN <= self * rhs <= i8::MAX {
            Some((self * rhs) as i8)
        } else {
            None
        }
    }

    fn checked_mul(self, rhs: i8) -> (r: Option<i8>) {
        i8::checked_mul(self, rhs)
    }
}

/// Quotient rounded toward zero, absent for a zero divisor and for `i8::MIN / -1`.
impl CheckedDiv for i8 {
    type Output = i8;

    open spec fn spec_checked_div(self, rhs: i8) -> Option<i8> {
        if rhs == 0 {
            None
        } else if i8::MIN <= trunc_div(self as int, rhs as int) <= i8::MAX {
            Some(trunc_div(self as int, rhs as int) as i8)
        } else {
            None
        }
    }

    fn checked_div(self, rhs: i8) -> (r: Option<i8>) {
        i8::checked_div(self, rhs)
    }
}

/// Remainder with the sign of the dividend, absent for a zero divisor and for `i8::MIN % -1`.
impl CheckedRem for i8 {
    type Output = i8;

    open spec fn spec_checked_rem(self, rhs: i8) -> Option<i8> {
        if rhs == 0 || (self == i8::MIN && rhs == -1) {
            None
        } else {
            Some(trunc_rem(self as int, rhs as int) as i8)
        }
    }

    fn checked_rem(self, rhs: i8) -> (r: Option<i8>) {
        proof {
            if rhs != 0 {
                lemma_trunc_rem_smaller(self as int, rhs as int);
            }
        }
        i8::checked_rem(self, rhs)
    }
}

/// Negation, absent for `i8::MIN`.
impl CheckedNeg for i8 {
    type Output = i8;

    open spec fn spec_checked_neg(self) -> Option<i8> {
        if i8::MIN <= -self <= i8::MAX {
            Some((-self) as i8)
        } else {
            None
        }
    }

    fn checked_neg(self) -> (r: Option<i8>) {
        i8::checked_sub(0, self)
    }
}

// u16

/// Sum of two `u16`s, absent when it leaves the range of `u16`.
impl CheckedAdd for u16 {
    type Output = u16;

    open spec fn spec_checked_add(self, rhs: u16) -> Option<u16> {
        if u16::MIN <= self + rhs <= u16::MAX {
            Some((self + rhs) as u16)
        } else {
            None
        }
    }

    fn checked_add(self, rhs: u16) -> (r: Option<u16>) {
        u16::checked_add(self, rhs)
    }
}

/// Difference of two `u16`s, absent when it leaves the range of `u16`.
impl CheckedSub for u16 {
    type Output = u16;

    open spec fn spec_checked_sub(self, rhs: u16) -> Option<u16> {
        if u16::MIN <= self - rhs <= u16::MAX {
            Some((self - rhs) as u16)
        } else {
            None
        }
    }

    fn checked_sub(self, rhs: u16) -> (r: Option<u16>) {
        u16::checked_sub(self, rhs)
    }
}

/// Product of two `u16`s, absent when it leaves the range of `u16`.
impl CheckedMul for u16 {
    type Output = u16;

    open spec fn spec_checked_mul(self, rhs: u16) -> Option<u16> {
        if u16::MIN <= self * rhs <= u16::MAX {
            Some((self * rhs) as u16)
        } else {
            None
        }
    }

    fn checked_mul(self, rhs: u16) -> (r: Option<u16>) {
        u16::checked_mul(self, rhs)
    }
}

/// Quotient of two `u16`s, absent for a zero divisor.
impl CheckedDiv for u16 {
    type Output = u16;

    open spec fn spec_checked_div(self, rhs: u16) -> Option<u16> {
        if rhs == 0 {
            None
        } else {
            Some(self / rhs)
        }
    }

    fn checked_div(self, rhs: u16) -> (r: Option<u16>) {
        u16::checked_div(self, rhs)
    }
}

/// Remainder of two `u16`s, absent for a zero divisor.
impl CheckedRem for u16 {
    type Output = u16;

    open spec fn spec_checked_rem(self, rhs: u16) -> Option<u16> {
        if rhs == 0 {
            None
        } else {
            Some(self % rhs)
        }
    }

    fn checked_rem(self, rhs: u16) -> (r: Option<u16>) {
        u16::checked_rem(self, rhs)
    }
}

/// Negation, present only for zero.
impl CheckedNeg for u16 {
    type Output = u16;

    open spec fn spec_checked_neg(self) -> Option<u16> {
        if u16::MIN <= -self <= u16::MAX {
            Some((-self) as u16)
        } else {
            None
        }
    }

    fn checked_neg(self) -> (r: Option<u16>) {
        u16::checked_sub(0, self)
    }
}

// i16

/// Sum of two `i16`s, absent when it leaves the range of `i16`.
impl CheckedAdd for i16 {
    type Output = i16;

    open spec fn spec_checked_add(self, rhs: i16) -> Option<i16> {
        if i16::MIN <= self + rhs <= i16::MAX {
            Some((self + rhs) as i16)
        } else {
            None
        }
    }

    fn checked_add(self, rhs: i16) -> (r: Option<i16>) {
        i16::checked_add(self, rhs)
    }
}

/// Difference of two `i16`s, absent when it leaves the range of `i16`.
impl CheckedSub for i16 {
    type Output = i16;

    open spec fn spec_checked_sub(self, rhs: i16) -> Option<i16> {
        if i16::MIN <= self - rhs <= i16::MAX {
            Some((self - rhs) as i16)
        } else {
            None
        }
    }

    fn checked_sub(self, rhs: i16) -> (r: Option<i16>) {
        i16::checked_sub(self, rhs)
    }
}

/// Product of two `i16`s, absent when it leaves the range of `i16`.
impl CheckedMul for i16 {
    type Output = i16;

    open spec fn spec_checked_mul(self, rhs: i16) -> Option<i16> {
        if i16::MIN <= self * rhs <= i16::MAX {
            Some((self * rhs) as i16)
        } else {
            None
        }
    }

    fn checked_mul(self, rhs: i16) -> (r: Option<i16>) {
        i16::checked_mul(self, rhs)
    }
}

/// Quotient rounded toward zero, absent for a zero divisor and for `i16::MIN / -1`.
impl CheckedDiv for i16 {
    type Output = i16;

    open spec fn spec_checked_div(self, rhs: i16) -> Option<i16> {
        if rhs == 0 {
            None
        } else if i16::MIN <= trunc_div(self as int, rhs as int) <= i16::MAX {
            Some(trunc_div(self as int, rhs as int) as i16)
        } else {
            None
        }
    }

    fn checked_div(self, rhs: i16) -> (r: Option<i16>) {
        i16::checked_div(self, rhs)
    }
}

/// Remainder with the sign of the dividend, absent for a zero divisor and for `i16::MIN % -1`.
impl CheckedRem for i16 {
    type Output = i16;

    open spec fn spec_checked_rem(self, rhs: i16) -> Option<i16> {
        if rhs == 0 || (self == i16::MIN && rhs == -1) {
            None
        } else {
            Some(trunc_rem(self as int, rhs as int) as i16)
        }
    }

    fn checked_rem(self, rhs: i16) -> (r: Option<i16>) {
        proof {
            if rhs != 0 {
                lemma_trunc_rem_smaller(self as int, rhs as int);
            }
        }
        i16::checked_rem(self, rhs)
    }
}

/// Negation, absent for `i16::MIN`.
impl CheckedNeg for i16 {
    type Output = i16;

    open spec fn spec_checked_neg(self) -> Option<i16> {
        if i16::MIN <= -self <= i16::MAX {
            Some((-self) as i16)
        } else {
            None
        }
    }

    fn checked_neg(self) -> (r: Option<i16>) {
        i16::checked_sub(0, self)
    }
}

// u32

/// Sum of two `u32`s, absent when it leaves the range of `u32`.
impl CheckedAdd for u32 {
    type Output = u32;

    open spec fn spec_checked_add(self, rhs: u32) -> Option<u32> {
        if u32::MIN <= self + rhs <= u32::MAX {
            Some((self + rhs) as u32)
        } else {
            None
        }
    }

    fn checked_add(self, rhs: u32) -> (r: Option<u32>) {
        u32::checked_add(self, rhs)
    }
}

/// Difference of two `u32`s, absent when it leaves the range of `u32`.
impl CheckedSub for u32 {
    type Output = u32;

    open spec fn spec_checked_sub(self, rhs: u32) -> Option<u32> {
        if u32::MIN <= self - rhs <= u32::MAX {
            Some((self - rhs) as u32)
        } else {
            None
        }
    }

    fn checked_sub(self, rhs: u32) -> (r: Option<u32>) {
        u32::checked_sub(self, rhs)
    }
}

/// Product of two `u32`s, absent when it leaves the range of `u32`.
impl CheckedMul for u32 {
    type Output = u32;

    open spec fn spec_checked_mul(self, rhs: u32) -> Option<u32> {
        if u32::MIN <= self * rhs <= u32::MAX {
            Some((self * rhs) as u32)
        } else {
            None
        }
    }

    fn checked_mul(self, rhs: u32) -> (r: Option<u32>) {
        u32::checked_mul(self, rhs)
    }
}

/// Quotient of two `u32`s, absent for a zero divisor.
impl CheckedDiv for u32 {
    type Output = u32;

    open spec fn spec_checked_div(self, rhs: u32) -> Option<u32> {
        if rhs == 0 {
            None
        } else {
            Some(self / rhs)
        }
    }

    fn checked_div(self, rhs: u32) -> (r: Option<u32>) {
        u32::checked_div(self, rhs)
    }
}

/// Remainder of two `u32`s, absent for a zero divisor.
impl CheckedRem for u32 {
    type Output = u32;

    open spec fn spec_checked_rem(self, rhs: u32) -> Option<u32> {
        if rhs == 0 {
            None
        } else {
            Some(self % rhs)
        }
    }

    fn checked_rem(self, rhs: u32) -> (r: Option<u32>) {
        u32::checked_rem(self, rhs)
    }
}

/// Negation, present only for zero.
impl CheckedNeg for u32 {
    type Output = u32;

    open spec fn spec_checked_neg(self) -> Option<u32> {
        if u32::MIN <= -self <= u32::MAX {
            Some((-self) as u32)
        } else {
            None
        }
    }

    fn checked_neg(self) -> (r: Option<u32>) {
        u32::checked_sub(0, self)
    }
}

// i32

/// Sum of two `i32`s, absent when it leaves the range of `i32`.
impl CheckedAdd for i32 {
    type Output = i32;

    open spec fn spec_checked_add(self, rhs: i32) -> Option<i32> {
        if i32::MIN <= self + rhs <= i32::MAX {
            Some((self + rhs) as i32)
        } else {
            None
        }
    }

    fn checked_add(self, rhs: i32) -> (r: Option<i32>) {
        i32::checked_add(self, rhs)
    }
}

/// Difference of two `i32`s, absent when it leaves the range of `i32`.
impl CheckedSub for i32 {
    type Output = i32;

    open spec fn spec_checked_sub(self, rhs: i32) -> Option<i32> {
        if i32::MIN <= self - rhs <= i32::MAX {
            Some((self - rhs) as i32)
        } else {
            None
        }
    }

    fn checked_sub(self, rhs: i32) -> (r: Option<i32>) {
        i32::checked_sub(self, rhs)
    }
}

/// Product of two `i32`s, absent when it leaves the range of `i32`.
impl CheckedMul for i32 {
    type Output = i32;

    open spec fn spec_checked_mul(self, rhs: i32) -> Option<i32> {
        if i32::MIN <= self * rhs <= i32::MAX {
            Some((self * rhs) as i32)
        } else {
            None
        }
    }

    fn checked_mul(self, rhs: i32) -> (r: Option<i32>) {
        i32::checked_mul(self, rhs)
    }
}

/// Quotient rounded toward zero, absent for a zero divisor and for `i32::MIN / -1`.
impl CheckedDiv for i32 {
    type Output = i32;

    open spec fn spec_checked_div(self, rhs: i32) -> Option<i32> {
        if rhs == 0 {
            None
        } else if i32::MIN <= trunc_div(self as int, rhs as int) <= i32::MAX {
            Some(trunc_div(self as int, rhs as int) as i32)
        } else {
            None
        }
    }

    fn checked_div(self, rhs: i32) -> (r: Option<i32>) {
        i32::checked_div(self, rhs)
    }
}

/// Remainder with the sign of the dividend, absent for a zero divisor and for `i32::MIN % -1`.
impl CheckedRem for i32 {
    type Output = i32;

    open spec fn spec_checked_rem(self, rhs: i32) -> Option<i32> {
        if rhs == 0 || (self == i32::MIN && rhs == -1) {
            None
        } else {
            Some(trunc_rem(self as int, rhs as int) as i32)
        }
    }

    fn checked_rem(self, rhs: i32) -> (r: Option<i32>) {
        proof {
            if rhs != 0 {
                lemma_trunc_rem_smaller(self as int, rhs as int);
            }
        }
        i32::checked_rem(self, rhs)
    }
}

/// Negation, absent for `i32::MIN`.
impl CheckedNeg for i32 {
    type Output = i32;

    open spec fn spec_checked_neg(self) -> Option<i32> {
        if i32::MIN <= -self <= i32::MAX {
            Some((-self) as i32)
        } else {
            None
        }
    }

    fn checked_neg(self) -> (r: Option<i32>) {
        i32::checked_sub(0, self)
    }
}

// u64

/// Sum of two `u64`s, absent when it leaves the range of `u64`.
impl CheckedAdd for u64 {
    type Output = u64;

    open spec fn spec_checked_add(self, rhs: u64) -> Option<u64> {
        if u64::MIN <= self + rhs <= u64::MAX {
            Some((self + rhs) as u64)
        } else {
            None
        }
    }

    fn checked_add(self, rhs: u64) -> (r: Option<u64>) {
        u64::checked_add(self, rhs)
    }
}

/// Difference of two `u64`s, absent when it leaves the range of `u64`.
impl CheckedSub for u64 {
    type Output = u64;

    open spec fn spec_checked_sub(self, rhs: u64) -> Option<u64> {
        if u64::MIN <= self - rhs <= u64::MAX {
            Some((self - rhs) as u64)
        } else {
            None
        }
    }

    fn checked_sub(self, rhs: u64) -> (r: Option<u64>) {
        u64::checked_sub(self, rhs)
    }
}

/// Product of two `u64`s, absent when it leaves the range of `u64`.
impl CheckedMul for u64 {
    type Output = u64;

    open spec fn spec_checked_mul(self, rhs: u64) -> Option<u64> {
        if u64::MIN <= self * rhs <= u64::MAX {
            Some((self * rhs) as u64)
        } else {
            None
        }
    }

    fn checked_mul(self, rhs: u64) -> (r: Option<u64>) {
        u64::checked_mul(self, rhs)
    }
}

/// Quotient of two `u64`s, absent for a zero divisor.
impl CheckedDiv for u64 {
    type Output = u64;

    open spec fn spec_checked_div(self, rhs: u64) -> Option<u64> {
        if rhs == 0 {
            None
        } else {
            Some(self / rhs)
        }
    }

    fn checked_div(self, rhs: u64) -> (r: Option<u64>) {
        u64::checked_div(self, rhs)
    }
}

/// Remainder of two `u64`s, absent for a zero divisor.
impl CheckedRem for u64 {
    type Output = u64;

    open spec fn spec_checked_rem(self, rhs: u64) -> Option<u64> {
        if rhs == 0 {
            None
        } else {
            Some(self % rhs)
        }
    }

    fn checked_rem(self, rhs: u64) -> (r: Option<u64>) {
        u64::checked_rem(self, rhs)
    }
}

/// Negation, present only for zero.
impl CheckedNeg for u64 {
    type Output = u64;

    open spec fn spec_checked_neg(self) -> Option<u64> {
        if u64::MIN <= -self <= u64::MAX {
            Some((-self) as u64)
        } else {
            None
        }
    }

    fn checked_neg(self) -> (r: Option<u64>) {
        u64::checked_sub(0, self)
    }
}

// i64

/// Sum of two `i64`s, absent when it leaves the range of `i64`.
impl CheckedAdd for i64 {
    type Output = i64;

    open spec fn spec_checked_add(self, rhs: i64) -> Option<i64> {
        if i64::MIN <= self + rhs <= i64::MAX {
            Some((self + rhs) as i64)
        } else {
            None
        }
    }

    fn checked_add(self, rhs: i64) -> (r: Option<i64>) {
        i64::checked_add(self, rhs)
    }
}

/// Difference of two `i64`s, absent when it leaves the range of `i64`.
impl CheckedSub for i64 {
    type Output = i64;

    open spec fn spec_checked_sub(self, rhs: i64) -> Option<i64> {
        if i64::MIN <= self - rhs <= i64::MAX {
            Some((self - rhs) as i64)
        } else {
            None
        }
    }

    fn checked_sub(self, rhs: i64) -> (r: Option<i64>) {
        i64::checked_sub(self, rhs)
    }
}

/// Product of two `i64`s, absent when it leaves the range of `i64`.
impl CheckedMul for i64 {
    type Output = i64;

    open spec fn spec_checked_mul(self, rhs: i64) -> Option<i64> {
        if i64::MIN <= self * rhs <= i64::MAX {
            Some((self * rhs) as i64)
        } else {
            None
        }
    }

    fn checked_mul(self, rhs: i64) -> (r: Option<i64>) {
        i64::checked_mul(self, rhs)
    }
}

/// Quotient rounded toward zero, absent for a zero divisor and for `i64::MIN / -1`.
impl CheckedDiv for i64 {
    type Output = i64;

    open spec fn spec_checked_div(self, rhs: i64) -> Option<i64> {
        if rhs == 0 {
            None
        } else if i64::MIN <= trunc_div(self as int, rhs as int) <= i64::MAX {
            Some(trunc_div(self as int, rhs as int) as i64)
        } else {
            None
        }
    }

    fn checked_div(self, rhs: i64) -> (r: Option<i64>) {
        i64::checked_div(self, rhs)
    }
}

/// Remainder with the sign of the dividend, absent for a zero divisor and for `i64::MIN % -1`.
impl CheckedRem for i64 {
    type Output = i64;

    open spec fn spec_checked_rem(self, rhs: i64) -> Option<i64> {
        if rhs == 0 || (self == i64::MIN && rhs == -1) {
            None
        } else {
            Some(trunc_rem(self as int, rhs as int) as i64)
        }
    }

    fn checked_rem(self, rhs: i64) -> (r: Option<i64>) {
        proof {
            if rhs != 0 {
                lemma_trunc_rem_smaller(self as int, rhs as int);
            }
        }
        i64::checked_rem(self, rhs)
    }
}

/// Negation, absent for `i64::MIN`.
impl CheckedNeg for i64 {
    type Output = i64;

    open spec fn spec_checked_neg(self) -> Option<i64> {
        if i64::MIN <= -self <= i64::MAX {
            Some((-self) as i64)
        } else {
            None
        }
    }

    fn checked_neg(self) -> (r: Option<i64>) {
        i64::checked_sub(0, self)
    }
}

// u128

/// Sum of two `u128`s, absent when it leaves the range of `u128`.
impl CheckedAdd for u128 {
    type Output = u128;

    open spec fn spec_checked_add(self, rhs: u128) -> Option<u128> {
        if u128::MIN <= self + rhs <= u128::MAX {
            Some((self + rhs) as u128)
        } else {
            None
        }
    }

    fn checked_add(self, rhs: u128) -> (r: Option<u128>) {
        u128::checked_add(self, rhs)
    }
}

/// Difference of two `u128`s, absent when it leaves the range of `u128`.
impl CheckedSub for u128 {
    type Output = u128;

    open spec fn spec_checked_sub(self, rhs: u128) -> Option<u128> {
        if u128::MIN <= self - rhs <= u128::MAX {
            Some((self - rhs) as u128)
        } else {
            None
        }
    }

    fn checked_sub(self, rhs: u128) -> (r: Option<u128>) {
        u128::checked_sub(self, rhs)
    }
}

/// Product of two `u128`s, absent when it leaves the range of `u128`.
impl CheckedMul for u128 {
    type Output = u128;

    open spec fn spec_checked_mul(self, rhs: u128) -> Option<u128> {
        if u128::MIN <= self * rhs <= u128::MAX {
            Some((self * rhs) as u128)
        } else {
            None
        }
    }

    fn checked_mul(self, rhs: u128) -> (r: Option<u128>) {
        u128::checked_mul(self, rhs)
    }
}

/// Quotient of two `u128`s, absent for a zero divisor.
impl CheckedDiv for u128 {
    type Output = u128;

    open spec fn spec_checked_div(self, rhs: u128) -> Option<u128> {
        if rhs == 0 {
            None
        } else {
            Some(self / rhs)
        }
    }

    fn checked_div(self, rhs: u128) -> (r: Option<u128>) {
        u128::checked_div(self, rhs)
    }
}

/// Remainder of two `u128`s, absent for a zero divisor.
impl CheckedRem for u128 {
    type Output = u128;

    open spec fn spec_checked_rem(self, rhs: u128) -> Option<u128> {
        if rhs == 0 {
            None
        } else {
            Some(self % rhs)
        }
    }

    fn checked_rem(self, rhs: u128) -> (r: Option<u128>) {
        u128::checked_rem(self, rhs)
    }
}

/// Negation, present only for zero.
impl CheckedNeg for u128 {
    type Output = u128;

    open spec fn spec_checked_neg(self) -> Option<u128> {
        if u128::MIN <= -self <= u128::MAX {
            Some((-self) as u128)
        } else {
            None
        }
    }

    fn checked_neg(self) -> (r: Option<u128>) {
        u128::checked_sub(0, self)
    }
}

// i128

/// Sum of two `i128`s, absent when it leaves the range of `i128`.
impl CheckedAdd for i128 {
    type Output = i128;

    open spec fn spec_checked_add(self, rhs: i128) -> Option<i128> {
        if i128::MIN <= self + rhs <= i128::MAX {
            Some((self + rhs) as i128)
        } else {
            None
        }
    }

    fn checked_add(self, rhs: i128) -> (r: Option<i128>) {
        i128::checked_add(self, rhs)
    }
}

/// Difference of two `i128`s, absent when it leaves the range of `i128`.
impl CheckedSub for i128 {
    type Output = i128;

    open spec fn spec_checked_sub(self, rhs: i128) -> Option<i128> {
        if i128::MIN <= self - rhs <= i128::MAX {
            Some((self - rhs) as i128)
        } else {
            None
        }
    }

    fn checked_sub(self, rhs: i128) -> (r: Option<i128>) {
        i128::checked_sub(self, rhs)
    }
}

/// Product of two `i128`s, absent when it leaves the range of `i128`.
impl CheckedMul for i128 {
    type Output = i128;

    open spec fn spec_checked_mul(self, rhs: i128) -> Option<i128> {
        if i128::MIN <= self * rhs <= i128::MAX {
            Some((self * rhs) as i128)
        } else {
            None
        }
    }

    fn checked_mul(self, rhs: i128) -> (r: Option<i128>) {
        i128::checked_mul(self, rhs)
    }
}

/// Quotient rounded toward zero, absent for a zero divisor and for `i128::MIN / -1`.
impl CheckedDiv for i128 {
    type Output = i128;

    open spec fn spec_checked_div(self, rhs: i128) -> Option<i128> {
        if rhs == 0 {
            None
        } else if i128::MIN <= trunc_div(self as int, rhs as int) <= i128::MAX {
            Some(trunc_div(self as int, rhs as int) as i128)
        } else {
            None
        }
    }

    fn checked_div(self, rhs: i128) -> (r: Option<i128>) {
        i128::checked_div(self, rhs)
    }
}

/// Remainder with the sign of the dividend, absent for a zero divisor and for `i128::MIN % -1`.
impl CheckedRem for i128 {
    type Output = i128;

    open spec fn spec_checked_rem(self, rhs: i128) -> Option<i128> {
        if rhs == 0 || (self == i128::MIN && rhs == -1) {
            None
        } else {
            Some(trunc_rem(self as int, rhs as int) as i128)
        }
    }

    fn checked_rem(self, rhs: i128) -> (r: Option<i128>) {
        proof {
            if rhs != 0 {
                lemma_trunc_rem_smaller(self as int, rhs as int);
            }
        }
        i128::checked_rem(self, rhs)
    }
}

/// Negation, absent for `i128::MIN`.
impl CheckedNeg for i128 {
    type Output = i128;

    open spec fn spec_checked_neg(self) -> Option<i128> {
        if i128::MIN <= -self <= i128::MAX {
            Some((-self) as i128)
        } else {
            None
        }
    }

    fn checked_neg(self) -> (r: Option<i128>) {
        i128::checked_sub(0, self)
    }
}

} // verus!
