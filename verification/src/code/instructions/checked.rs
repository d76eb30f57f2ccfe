//! Checked integer division, remainder and shifts, as `num_traits` provides
//! them for the three integer widths of the machine.
//!
//! Nothing in this file is proved: each function states what the `num_traits`
//! method it calls is documented to return.
use vstd::prelude::*;

verus! {

/// Whether `dividend / divisor` exists in a signed type whose least value is
/// `least`: the divisor is not zero and the quotient does not leave the type.
pub open spec fn divisible(dividend: int, divisor: int, least: int) -> bool {
    divisor != 0 && !(dividend == least && divisor == -1)
}

/// The quotient of `dividend` by a non-zero `divisor`, rounded towards zero.
pub open spec fn quotient(dividend: int, divisor: int) -> int {
    if dividend >= 0 && divisor > 0 {
        dividend / divisor
    } else if dividend < 0 && divisor < 0 {
        (-dividend) / (-divisor)
    } else if dividend < 0 {
        -((-dividend) / divisor)
    } else {
        -(dividend / (-divisor))
    }
}

/// What is left of `dividend` after taking out `divisor` as often as
/// `quotient` says; it has the sign of `dividend`.
pub open spec fn remainder(dividend: int, divisor: int) -> int {
    if dividend >= 0 && divisor > 0 {
        dividend % divisor
    } else if dividend < 0 && divisor < 0 {
        -((-dividend) % (-divisor))
    } else if dividend < 0 {
        -((-dividend) % divisor)
    } else {
        dividend % (-divisor)
    }
}

/// `num_traits::CheckedDiv::checked_div` on `i16`: the quotient rounded
/// towards zero, or `None` where the divisor is zero or the quotient overflows.
#[verifier::external_body]
pub(crate) fn checked_div_i16(lhs: i16, rhs: i16) -> (out: Option<i16>)
    ensures
        divisible(lhs as int, rhs as int, i16::MIN as int) ==> out == Some(
            quotient(lhs as int, rhs as int) as i16,
        ),
        !divisible(lhs as int, rhs as int, i16::MIN as int) ==> out is None,
{
    num_traits::CheckedDiv::checked_div(&lhs, &rhs)
}

/// `num_traits::CheckedDiv::checked_div` on `i32`: the quotient rounded
/// towards zero, or `None` where the divisor is zero or the quotient overflows.
#[verifier::external_body]
pub(crate) fn checked_div_i32(lhs: i32, rhs: i32) -> (out: Option<i32>)
    ensures
        divisible(lhs as int, rhs as int, i32::MIN as int) ==> out == Some(
            quotient(lhs as int, rhs as int) as i32,
        ),
        !divisible(lhs as int, rhs as int, i32::MIN as int) ==> out is None,
{
    num_traits::CheckedDiv::checked_div(&lhs, &rhs)
}

/// `num_traits::CheckedDiv::checked_div` on `i64`: the quotient rounded
/// towards zero, or `None` where the divisor is zero or the quotient overflows.
#[verifier::external_body]
pub(crate) fn checked_div_i64(lhs: i64, rhs: i64) -> (out: Option<i64>)
    ensures
        divisible(lhs as int, rhs as int, i64::MIN as int) ==> out == Some(
            quotient(lhs as int, rhs as int) as i64,
        ),
        !divisible(lhs as int, rhs as int, i64::MIN as int) ==> out is None,
{
    num_traits::CheckedDiv::checked_div(&lhs, &rhs)
}

/// `num_traits::CheckedRem::checked_rem` on `i16`: the remainder of the
/// division rounded towards zero, or `None` where the divisor is zero or the
/// division overflows.
#[verifier::external_body]
pub(crate) fn checked_rem_i16(lhs: i16, rhs: i16) -> (out: Option<i16>)
    ensures
        divisible(lhs as int, rhs as int, i16::MIN as int) ==> out == Some(
            remainder(lhs as int, rhs as int) as i16,
        ),
        !divisible(lhs as int, rhs as int, i16::MIN as int) ==> out is None,
{
    num_traits::CheckedRem::checked_rem(&lhs, &rhs)
}

/// `num_traits::CheckedRem::checked_rem` on `i32`: the remainder of the
/// division rounded towards zero, or `None` where the divisor is zero or the
/// division overflows.
#[verifier::external_body]
pub(crate) fn checked_rem_i32(lhs: i32, rhs: i32) -> (out: Option<i32>)
    ensures
        divisible(lhs as int, rhs as int, i32::MIN as int) ==> out == Some(
            remainder(lhs as int, rhs as int) as i32,
        ),
        !divisible(lhs as int, rhs as int, i32::MIN as int) ==> out is None,
{
    num_traits::CheckedRem::checked_rem(&lhs, &rhs)
}

/// `num_traits::CheckedRem::checked_rem` on `i64`: the remainder of the
/// division rounded towards zero, or `None` where the divisor is zero or the
/// division overflows.
#[verifier::external_body]
pub(crate) fn checked_rem_i64(lhs: i64, rhs: i64) -> (out: Option<i64>)
    ensures
        divisible(lhs as int, rhs as int, i64::MIN as int) ==> out == Some(
            remainder(lhs as int, rhs as int) as i64,
        ),
        !divisible(lhs as int, rhs as int, i64::MIN as int) ==> out is None,
{
    num_traits::CheckedRem::checked_rem(&lhs, &rhs)
}

/// `num_traits::CheckedShl::checked_shl` on `i16`: `lhs << count`, or `None`
/// where `count` is not less than the 16 bits of the type.
#[verifier::external_body]
pub(crate) fn checked_shl_i16(lhs: i16, count: u32) -> (out: Option<i16>)
    ensures
        count < 16 ==> out == Some(lhs << count),
        count >= 16 ==> out is None,
{
    num_traits::CheckedShl::checked_shl(&lhs, count)
}

/// `num_traits::CheckedShl::checked_shl` on `i32`: `lhs << count`, or `None`
/// where `count` is not less than the 32 bits of the type.
#[verifier::external_body]
pub(crate) fn checked_shl_i32(lhs: i32, count: u32) -> (out: Option<i32>)
    ensures
        count < 32 ==> out == Some(lhs << count),
        count >= 32 ==> out is None,
{
    num_traits::CheckedShl::checked_shl(&lhs, count)
}

/// `num_traits::CheckedShl::checked_shl` on `i64`: `lhs << count`, or `None`
/// where `count` is not less than the 64 bits of the type.
#[verifier::external_body]
pub(crate) fn checked_shl_i64(lhs: i64, count: u32) -> (out: Option<i64>)
    ensures
        count < 64 ==> out == Some(lhs << count),
        count >= 64 ==> out is None,
{
    num_traits::CheckedShl::checked_shl(&lhs, count)
}

/// `num_traits::CheckedShr::checked_shr` on `i16`: `lhs >> count`, which
/// keeps the sign, or `None` where `count` is not less than the 16 bits of
/// the type.
#[verifier::external_body]
pub(crate) fn checked_shr_i16(lhs: i16, count: u32) -> (out: Option<i16>)
    ensures
        count < 16 ==> out == Some(lhs >> count),
        count >= 16 ==> out is None,
{
    num_traits::CheckedShr::checked_shr(&lhs, count)
}

/// `num_traits::CheckedShr::checked_shr` on `i32`: `lhs >> count`, which
/// keeps the sign, or `None` where `count` is not less than the 32 bits of
/// the type.
#[verifier::external_body]
pub(crate) fn checked_shr_i32(lhs: i32, count: u32) -> (out: Option<i32>)
    ensures
        count < 32 ==> out == Some(lhs >> count),
        count >= 32 ==> out is None,
{
    num_traits::CheckedShr::checked_shr(&lhs, count)
}

/// `num_traits::CheckedShr::checked_shr` on `i64`: `lhs >> count`, which
/// keeps the sign, or `None` where `count` is not less than the 64 bits of
/// the type.
#[verifier::external_body]
pub(crate) fn checked_shr_i64(lhs: i64, count: u32) -> (out: Option<i64>)
    ensures
        count < 64 ==> out == Some(lhs >> count),
        count >= 64 ==> out is None,
{
    num_traits::CheckedShr::checked_shr(&lhs, count)
}

} // verus!
