//! Handlers of the instructions that take two operand types: the
//! arithmetic, bitwise and shift operators and the conversion.
//!
//! An operator takes its left-hand operand from the top of the stack and its
//! right-hand operand from below it, and puts its result in their place.
use vstd::prelude::*;
use vstd::arithmetic::div_mod::{lemma_div_pos_is_pos, lemma_fundamental_div_mod, lemma_mod_bound};
use crate::code::instructions::checked::{
    checked_div_i16, checked_div_i32, checked_div_i64, checked_rem_i16, checked_rem_i32,
    checked_rem_i64, checked_shl_i16, checked_shl_i32, checked_shl_i64, checked_shr_i16,
    checked_shr_i32, checked_shr_i64, divisible, quotient, remainder,
};
use crate::code::stack::Stack;
use crate::deferred::{settle, spec_settle, Computed, FloatRequest};
use crate::error::ExecutionError;
use crate::instruction::Opcode;
use crate::value::{DataType, Value, DOUBLE_ONE, FLOAT_ONE};

verus! {

/// The 16-bit signed integer that `n` wraps around to.
pub open spec fn wrap16(n: int) -> i16 {
    let low = n % 0x1_0000;
    if low > i16::MAX {
        (low - 0x1_0000) as i16
    } else {
        low as i16
    }
}

/// The 32-bit signed integer that `n` wraps around to.
pub open spec fn wrap32(n: int) -> i32 {
    let low = n % 0x1_0000_0000;
    if low > i32::MAX {
        (low - 0x1_0000_0000) as i32
    } else {
        low as i32
    }
}

/// The 64-bit signed integer that `n` wraps around to.
pub open spec fn wrap64(n: int) -> i64 {
    let low = n % 0x1_0000_0000_0000_0000;
    if low > i64::MAX {
        (low - 0x1_0000_0000_0000_0000) as i64
    } else {
        low as i64
    }
}

/// The error for a pair of operands that an operator does not accept:
/// `MalformedCode` where one of them is a variable descriptor, which is no
/// datum, and `TypeMismatch` for every other pair.
pub open spec fn spec_mismatch(lhs: Value, rhs: Value) -> ExecutionError {
    if lhs is Variable || rhs is Variable {
        ExecutionError::MalformedCode
    } else {
        ExecutionError::TypeMismatch
    }
}

/// The sum, difference or product of two numbers, before any wrapping.
pub open spec fn spec_ring_number(opcode: Opcode, a: int, b: int) -> int {
    match opcode {
        Opcode::Add => a + b,
        Opcode::Sub => a - b,
        _ => a * b,
    }
}

/// `Add`, `Sub` and `Mul`: two integers of one width give the result wrapped
/// to that width; two floating-point numbers of one variant are left to the
/// host; any other pair is a mismatch.
pub open spec fn spec_ring(opcode: Opcode, lhs: Value, rhs: Value) -> Result<
    Computed,
    ExecutionError,
> {
    match (lhs, rhs) {
        (Value::Double(_), Value::Double(_)) => Ok(
            Computed::Deferred(FloatRequest::Binary { opcode, lhs, rhs }),
        ),
        (Value::Float(_), Value::Float(_)) => Ok(
            Computed::Deferred(FloatRequest::Binary { opcode, lhs, rhs }),
        ),
        (Value::Int16(a), Value::Int16(b)) => Ok(
            Computed::Ready(Value::Int16(wrap16(spec_ring_number(opcode, a as int, b as int)))),
        ),
        (Value::Int32(a), Value::Int32(b)) => Ok(
            Computed::Ready(Value::Int32(wrap32(spec_ring_number(opcode, a as int, b as int)))),
        ),
        (Value::Int64(a), Value::Int64(b)) => Ok(
            Computed::Ready(Value::Int64(wrap64(spec_ring_number(opcode, a as int, b as int)))),
        ),
        _ => Err(spec_mismatch(lhs, rhs)),
    }
}

/// The quotient for `Div`, the remainder for `Rem` and `Mod`, both of the
/// division that rounds towards zero.
pub open spec fn spec_division_number(opcode: Opcode, a: int, b: int) -> int {
    match opcode {
        Opcode::Div => quotient(a, b),
        _ => remainder(a, b),
    }
}

/// `Div`, `Rem` and `Mod`: two integers of one width give the quotient or
/// remainder, or `DivisionByZero` where the divisor `rhs` is zero or the
/// quotient leaves the width; two floating-point numbers of one variant are
/// left to the host; any other pair is a mismatch.
pub open spec fn spec_division(opcode: Opcode, lhs: Value, rhs: Value) -> Result<
    Computed,
    ExecutionError,
> {
    match (lhs, rhs) {
        (Value::Double(_), Value::Double(_)) => Ok(
            Computed::Deferred(FloatRequest::Binary { opcode, lhs, rhs }),
        ),
        (Value::Float(_), Value::Float(_)) => Ok(
            Computed::Deferred(FloatRequest::Binary { opcode, lhs, rhs }),
        ),
        (Value::Int16(a), Value::Int16(b)) => if divisible(a as int, b as int, i16::MIN as int) {
            Ok(Computed::Ready(Value::Int16(spec_division_number(opcode, a as int, b as int) as i16)))
        } else {
            Err(ExecutionError::DivisionByZero)
        },
        (Value::Int32(a), Value::Int32(b)) => if divisible(a as int, b as int, i32::MIN as int) {
            Ok(Computed::Ready(Value::Int32(spec_division_number(opcode, a as int, b as int) as i32)))
        } else {
            Err(ExecutionError::DivisionByZero)
        },
        (Value::Int64(a), Value::Int64(b)) => if divisible(a as int, b as int, i64::MIN as int) {
            Ok(Computed::Ready(Value::Int64(spec_division_number(opcode, a as int, b as int) as i64)))
        } else {
            Err(ExecutionError::DivisionByZero)
        },
        _ => Err(spec_mismatch(lhs, rhs)),
    }
}

/// `And`, `Or` and `Xor`: bit by bit on two integers of one width, the
/// logical connective on two booleans; any other pair is a mismatch.
pub open spec fn spec_bitwise(opcode: Opcode, lhs: Value, rhs: Value) -> Result<
    Computed,
    ExecutionError,
> {
    match (lhs, rhs) {
        (Value::Int16(a), Value::Int16(b)) => Ok(
            Computed::Ready(
                Value::Int16(
                    match opcode {
                        Opcode::And => a & b,
                        Opcode::Or => a | b,
                        _ => a ^ b,
                    },
                ),
            ),
        ),
        (Value::Int32(a), Value::Int32(b)) => Ok(
            Computed::Ready(
                Value::Int32(
                    match opcode {
                        Opcode::And => a & b,
                        Opcode::Or => a | b,
                        _ => a ^ b,
                    },
                ),
            ),
        ),
        (Value::Int64(a), Value::Int64(b)) => Ok(
            Computed::Ready(
                Value::Int64(
                    match opcode {
                        Opcode::And => a & b,
                        Opcode::Or => a | b,
                        _ => a ^ b,
                    },
                ),
            ),
        ),
        (Value::Boolean(a), Value::Boolean(b)) => Ok(
            Computed::Ready(
                Value::Boolean(
                    match opcode {
                        Opcode::And => a && b,
                        Opcode::Or => a || b,
                        _ => a != b,
                    },
                ),
            ),
        ),
        _ => Err(spec_mismatch(lhs, rhs)),
    }
}

/// The number of bits to shift by that an integer operand of any width
/// stands for: its low 32 bits, read as an unsigned number. Other variants
/// are no shift count.
pub open spec fn spec_shift_count(amount: Value) -> Option<u32> {
    match amount {
        Value::Int16(n) => Some(n as u32),
        Value::Int32(n) => Some(n as u32),
        Value::Int64(n) => Some(n as u32),
        _ => None,
    }
}

/// `Shl` and `Shr`: the integer `lhs` shifted by the count that the integer
/// `rhs` stands for, in the width of `lhs`, or `ShiftOverflow` where the
/// count is not less than that width. A right shift keeps the sign. Two
/// booleans give their exclusive or, whichever the direction. Any other pair
/// is a mismatch.
pub open spec fn spec_shift(opcode: Opcode, lhs: Value, rhs: Value) -> Result<
    Computed,
    ExecutionError,
> {
    match (lhs, spec_shift_count(rhs)) {
        (Value::Int16(a), Some(count)) => if count < 16 {
            Ok(Computed::Ready(Value::Int16(if opcode is Shl { a << count } else { a >> count })))
        } else {
            Err(ExecutionError::ShiftOverflow)
        },
        (Value::Int32(a), Some(count)) => if count < 32 {
            Ok(Computed::Ready(Value::Int32(if opcode is Shl { a << count } else { a >> count })))
        } else {
            Err(ExecutionError::ShiftOverflow)
        },
        (Value::Int64(a), Some(count)) => if count < 64 {
            Ok(Computed::Ready(Value::Int64(if opcode is Shl { a << count } else { a >> count })))
        } else {
            Err(ExecutionError::ShiftOverflow)
        },
        _ => match (lhs, rhs) {
            (Value::Boolean(a), Value::Boolean(b)) => Ok(Computed::Ready(Value::Boolean(a != b))),
            _ => Err(spec_mismatch(lhs, rhs)),
        },
    }
}

/// What a two-operand operator makes of the left-hand operand `lhs` and the
/// right-hand operand `rhs`. An opcode that is no such operator gives
/// `InvalidOpcode`.
pub open spec fn spec_binary(opcode: Opcode, lhs: Value, rhs: Value) -> Result<
    Computed,
    ExecutionError,
> {
    match opcode {
        Opcode::Add | Opcode::Sub | Opcode::Mul => spec_ring(opcode, lhs, rhs),
        Opcode::Div | Opcode::Rem | Opcode::Mod => spec_division(opcode, lhs, rhs),
        Opcode::And | Opcode::Or | Opcode::Xor => spec_bitwise(opcode, lhs, rhs),
        Opcode::Shl | Opcode::Shr => spec_shift(opcode, lhs, rhs),
        _ => Err(ExecutionError::InvalidOpcode),
    }
}

/// What a two-operand instruction does to the stack `stack`: it takes the
/// left-hand operand from the top and the right-hand operand from below it.
/// A result that the machine computes takes their place; a request to the
/// host, or an error of the operator, leaves the stack without them. With
/// fewer than two values on it the stack is emptied and the instruction fails
/// with `StackUnderflow`.
pub open spec fn spec_binary_on_stack(opcode: Opcode, stack: Seq<Value>) -> (
    Seq<Value>,
    Result<Option<FloatRequest>, ExecutionError>,
) {
    if stack.len() < 2 {
        (Seq::empty(), Err(ExecutionError::StackUnderflow))
    } else {
        let lhs = stack[stack.len() - 1];
        let rhs = stack[stack.len() - 2];
        spec_settle(stack.take(stack.len() - 2), spec_binary(opcode, lhs, rhs))
    }
}

fn mismatch(lhs: Value, rhs: Value) -> (error: ExecutionError)
    ensures
        error == spec_mismatch(lhs, rhs),
{
    match (lhs, rhs) {
        (Value::Variable(_), _) => ExecutionError::MalformedCode,
        (_, Value::Variable(_)) => ExecutionError::MalformedCode,
        _ => ExecutionError::TypeMismatch,
    }
}

fn ring(opcode: Opcode, lhs: Value, rhs: Value) -> (out: Result<Computed, ExecutionError>)
    requires
        opcode is Add || opcode is Sub || opcode is Mul,
    ensures
        out == spec_ring(opcode, lhs, rhs),
{
    match (lhs, rhs) {
        (Value::Double(_), Value::Double(_)) => Ok(
            Computed::Deferred(FloatRequest::Binary { opcode, lhs, rhs }),
        ),
        (Value::Float(_), Value::Float(_)) => Ok(
            Computed::Deferred(FloatRequest::Binary { opcode, lhs, rhs }),
        ),
        (Value::Int16(a), Value::Int16(b)) => {
            let n: i16 = match opcode {
                Opcode::Add => a.wrapping_add(b),
                Opcode::Sub => a.wrapping_sub(b),
                _ => a.wrapping_mul(b),
            };
            Ok(Computed::Ready(Value::Int16(n)))
        },
        (Value::Int32(a), Value::Int32(b)) => {
            let n: i32 = match opcode {
                Opcode::Add => a.wrapping_add(b),
                Opcode::Sub => a.wrapping_sub(b),
                _ => a.wrapping_mul(b),
            };
            Ok(Computed::Ready(Value::Int32(n)))
        },
        (Value::Int64(a), Value::Int64(b)) => {
            let n: i64 = match opcode {
                Opcode::Add => a.wrapping_add(b),
                Opcode::Sub => a.wrapping_sub(b),
                _ => a.wrapping_mul(b),
            };
            Ok(Computed::Ready(Value::Int64(n)))
        },
        _ => Err(mismatch(lhs, rhs)),
    }
}

fn quotient_or_error<T>(found: Option<T>) -> (out: Result<T, ExecutionError>)
    ensures
        found matches Some(n) ==> out == Ok::<T, ExecutionError>(n),
        found is None ==> out == Err::<T, ExecutionError>(ExecutionError::DivisionByZero),
{
    match found {
        Some(n) => Ok(n),
        None => Err(ExecutionError::DivisionByZero),
    }
}

/// The remainder of a division is zero for a zero dividend and stays below
/// the divisor in size.
proof fn lemma_remainder_small(dividend: int, divisor: int)
    requires
        divisor != 0,
    ensures
        dividend == 0 ==> remainder(dividend, divisor) == 0,
        dividend >= 0 ==> 0 <= remainder(dividend, divisor) <= dividend,
        dividend <= 0 ==> dividend <= remainder(dividend, divisor) <= 0,
{
    let size = if divisor > 0 { divisor } else { -divisor };
    let mass = if dividend >= 0 { dividend } else { -dividend };
    lemma_mod_bound(mass, size);
    lemma_fundamental_div_mod(mass, size);
    lemma_div_pos_is_pos(mass, size);
    assert(size * (mass / size) >= 0) by (nonlinear_arith)
        requires
            size > 0,
            mass / size >= 0,
    ;
}

fn division(opcode: Opcode, lhs: Value, rhs: Value) -> (out: Result<Computed, ExecutionError>)
    requires
        opcode is Div || opcode is Rem || opcode is Mod,
    ensures
        out == spec_division(opcode, lhs, rhs),
{
    proof {
        match (lhs, rhs) {
            (Value::Int16(a), Value::Int16(b)) => if b != 0 {
                lemma_remainder_small(a as int, b as int);
            },
            (Value::Int32(a), Value::Int32(b)) => if b != 0 {
                lemma_remainder_small(a as int, b as int);
            },
            (Value::Int64(a), Value::Int64(b)) => if b != 0 {
                lemma_remainder_small(a as int, b as int);
            },
            _ => {},
        }
    }
    match (lhs, rhs) {
        (Value::Double(_), Value::Double(_)) => Ok(
            Computed::Deferred(FloatRequest::Binary { opcode, lhs, rhs }),
        ),
        (Value::Float(_), Value::Float(_)) => Ok(
            Computed::Deferred(FloatRequest::Binary { opcode, lhs, rhs }),
        ),
        (Value::Int16(a), Value::Int16(b)) => {
            let found: Option<i16> = match opcode {
                Opcode::Div => checked_div_i16(a, b),
                Opcode::Rem => a.checked_rem(b),
                _ => checked_rem_i16(a, b),
            };
            match quotient_or_error(found) {
                Ok(n) => Ok(Computed::Ready(Value::Int16(n))),
                Err(error) => Err(error),
            }
        },
        (Value::Int32(a), Value::Int32(b)) => {
            let found: Option<i32> = match opcode {
                Opcode::Div => checked_div_i32(a, b),
                Opcode::Rem => a.checked_rem(b),
                _ => checked_rem_i32(a, b),
            };
            match quotient_or_error(found) {
                Ok(n) => Ok(Computed::Ready(Value::Int32(n))),
                Err(error) => Err(error),
            }
        },
        (Value::Int64(a), Value::Int64(b)) => {
            let found: Option<i64> = match opcode {
                Opcode::Div => checked_div_i64(a, b),
                Opcode::Rem => a.checked_rem(b),
                _ => checked_rem_i64(a, b),
            };
            match quotient_or_error(found) {
                Ok(n) => Ok(Computed::Ready(Value::Int64(n))),
                Err(error) => Err(error),
            }
        },
        _ => Err(mismatch(lhs, rhs)),
    }
}

fn bitwise(opcode: Opcode, lhs: Value, rhs: Value) -> (out: Result<Computed, ExecutionError>)
    requires
        opcode is And || opcode is Or || opcode is Xor,
    ensures
        out == spec_bitwise(opcode, lhs, rhs),
{
    match (lhs, rhs) {
        (Value::Int16(a), Value::Int16(b)) => {
            let n: i16 = match opcode {
                Opcode::And => a & b,
                Opcode::Or => a | b,
                _ => a ^ b,
            };
            Ok(Computed::Ready(Value::Int16(n)))
        },
        (Value::Int32(a), Value::Int32(b)) => {
            let n: i32 = match opcode {
                Opcode::And => a & b,
                Opcode::Or => a | b,
                _ => a ^ b,
            };
            Ok(Computed::Ready(Value::Int32(n)))
        },
        (Value::Int64(a), Value::Int64(b)) => {
            let n: i64 = match opcode {
                Opcode::And => a & b,
                Opcode::Or => a | b,
                _ => a ^ b,
            };
            Ok(Computed::Ready(Value::Int64(n)))
        },
        (Value::Boolean(a), Value::Boolean(b)) => {
            let n: bool = match opcode {
                Opcode::And => a && b,
                Opcode::Or => a || b,
                _ => a != b,
            };
            Ok(Computed::Ready(Value::Boolean(n)))
        },
        _ => Err(mismatch(lhs, rhs)),
    }
}

fn shift_count(amount: Value) -> (count: Option<u32>)
    ensures
        count == spec_shift_count(amount),
{
    match amount {
        Value::Int16(n) => Some(#[verifier::truncate] (n as u32)),
        Value::Int32(n) => Some(#[verifier::truncate] (n as u32)),
        Value::Int64(n) => Some(#[verifier::truncate] (n as u32)),
        _ => None,
    }
}

fn shifted_or_error<T>(found: Option<T>) -> (out: Result<T, ExecutionError>)
    ensures
        found matches Some(n) ==> out == Ok::<T, ExecutionError>(n),
        found is None ==> out == Err::<T, ExecutionError>(ExecutionError::ShiftOverflow),
{
    match found {
        Some(n) => Ok(n),
        None => Err(ExecutionError::ShiftOverflow),
    }
}

fn shift(opcode: Opcode, lhs: Value, rhs: Value) -> (out: Result<Computed, ExecutionError>)
    requires
        opcode is Shl || opcode is Shr,
    ensures
        out == spec_shift(opcode, lhs, rhs),
{
    match (lhs, shift_count(rhs)) {
        (Value::Int16(a), Some(count)) => {
            let found: Option<i16> = match opcode {
                Opcode::Shl => checked_shl_i16(a, count),
                _ => checked_shr_i16(a, count),
            };
            match shifted_or_error(found) {
                Ok(n) => Ok(Computed::Ready(Value::Int16(n))),
                Err(error) => Err(error),
            }
        },
        (Value::Int32(a), Some(count)) => {
            let found: Option<i32> = match opcode {
                Opcode::Shl => checked_shl_i32(a, count),
                _ => checked_shr_i32(a, count),
            };
            match shifted_or_error(found) {
                Ok(n) => Ok(Computed::Ready(Value::Int32(n))),
                Err(error) => Err(error),
            }
        },
        (Value::Int64(a), Some(count)) => {
            let found: Option<i64> = match opcode {
                Opcode::Shl => checked_shl_i64(a, count),
                _ => checked_shr_i64(a, count),
            };
            match shifted_or_error(found) {
                Ok(n) => Ok(Computed::Ready(Value::Int64(n))),
                Err(error) => Err(error),
            }
        },
        _ => match (lhs, rhs) {
            (Value::Boolean(a), Value::Boolean(b)) => Ok(Computed::Ready(Value::Boolean(a != b))),
            _ => Err(mismatch(lhs, rhs)),
        },
    }
}

/// Computes the two-operand operator `opcode` on the left-hand operand `lhs`
/// and the right-hand operand `rhs`.
pub fn binary(opcode: Opcode, lhs: Value, rhs: Value) -> (out: Result<Computed, ExecutionError>)
    ensures
        out == spec_binary(opcode, lhs, rhs),
{
    match opcode {
        Opcode::Add | Opcode::Sub | Opcode::Mul => ring(opcode, lhs, rhs),
        Opcode::Div | Opcode::Rem | Opcode::Mod => division(opcode, lhs, rhs),
        Opcode::And | Opcode::Or | Opcode::Xor => bitwise(opcode, lhs, rhs),
        Opcode::Shl | Opcode::Shr => shift(opcode, lhs, rhs),
        _ => Err(ExecutionError::InvalidOpcode),
    }
}

/// Runs the two-operand operator `opcode` on the stack.
pub fn binary_on_stack(stack: &mut Stack, opcode: Opcode) -> (out: Result<
    Option<FloatRequest>,
    ExecutionError,
>)
    ensures
        (final(stack)@, out) == spec_binary_on_stack(opcode, old(stack)@),
{
    let lhs: Value = match stack.pop() {
        Ok(value) => value,
        Err(error) => {
            assert(stack@ =~= Seq::<Value>::empty());
            return Err(error);
        },
    };
    let rhs: Value = match stack.pop() {
        Ok(value) => value,
        Err(error) => {
            assert(stack@ =~= Seq::<Value>::empty());
            return Err(error);
        },
    };
    assert(stack@ =~= old(stack)@.take(old(stack)@.len() - 2));
    settle(stack, binary(opcode, lhs, rhs))
}

/// A two-operand instruction that the machine always computes itself: the
/// stack it leaves, and whether it succeeded.
pub open spec fn spec_unit_on_stack(opcode: Opcode, stack: Seq<Value>) -> (
    Seq<Value>,
    Result<(), ExecutionError>,
) {
    let (after, out) = spec_binary_on_stack(opcode, stack);
    match out {
        Ok(_) => (after, Ok(())),
        Err(error) => (after, Err(error)),
    }
}

/// The bitwise and shift operators never leave anything to the host, so
/// that nothing is lost where their handlers return no request.
pub proof fn lemma_bits_never_defer(opcode: Opcode, lhs: Value, rhs: Value)
    requires
        opcode is And || opcode is Or || opcode is Xor || opcode is Shl || opcode is Shr,
    ensures
        !(spec_binary(opcode, lhs, rhs) matches Ok(Computed::Deferred(_))),
{
}

fn unit_on_stack(stack: &mut Stack, opcode: Opcode) -> (out: Result<(), ExecutionError>)
    requires
        opcode is And || opcode is Or || opcode is Xor || opcode is Shl || opcode is Shr,
    ensures
        (final(stack)@, out) == spec_unit_on_stack(opcode, old(stack)@),
{
    match binary_on_stack(stack, opcode) {
        Ok(_) => Ok(()),
        Err(error) => Err(error),
    }
}

/// Whether values of type `tag` take part in conversions: the five numeric
/// types and the boolean do, strings and variable descriptors do not.
pub open spec fn spec_convertible(tag: DataType) -> bool {
    tag is Double || tag is Float || tag is Int16 || tag is Int32 || tag is Int64
        || tag is Boolean
}

/// Whether a value is exactly the number one, or the boolean true. This, and
/// not being different from zero, is what converts to true.
pub open spec fn spec_is_one(value: Value) -> bool {
    match value {
        Value::Double(bits) => bits == DOUBLE_ONE,
        Value::Float(bits) => bits == FLOAT_ONE,
        Value::Boolean(b) => b,
        _ => value.number() == 1,
    }
}

/// The value of the numeric type `target` for a boolean: one for true, zero
/// for false.
pub open spec fn spec_from_boolean(b: bool, target: DataType) -> Value {
    match target {
        DataType::Double => Value::Double(if b { DOUBLE_ONE } else { 0 }),
        DataType::Float => Value::Float(if b { FLOAT_ONE } else { 0 }),
        DataType::Int16 => Value::Int16(if b { 1 } else { 0 }),
        DataType::Int32 => Value::Int32(if b { 1 } else { 0 }),
        _ => Value::Int64(if b { 1 } else { 0 }),
    }
}

/// The value of the integer type `target` for the number `n`, wrapped around
/// to the width of the type where it does not fit.
pub open spec fn spec_from_number(n: int, target: DataType) -> Value {
    match target {
        DataType::Int16 => Value::Int16(wrap16(n)),
        DataType::Int32 => Value::Int32(wrap32(n)),
        _ => Value::Int64(wrap64(n)),
    }
}

/// The conversion of `value` to the type `target`.
///
/// Only the five numeric types and the boolean convert, in either position;
/// anything else is an `InvalidConversion` that names the type of the value
/// and the target. A value that already has the target type stays as it is.
/// A boolean becomes one or zero. A number becomes true where it is exactly
/// one and false otherwise. An integer becomes the integer of the other width
/// that it wraps around to, which is the same number where that fits. Every
/// other conversion goes from or to a floating-point number and is left to
/// the host.
pub open spec fn spec_conv(value: Value, target: DataType) -> Result<Computed, ExecutionError> {
    let source = value.spec_data_type();
    if !spec_convertible(source) || !spec_convertible(target) {
        Err(ExecutionError::InvalidConversion { source, target })
    } else if source == target {
        Ok(Computed::Ready(value))
    } else if target is Boolean {
        Ok(Computed::Ready(Value::Boolean(spec_is_one(value))))
    } else if value is Boolean {
        Ok(Computed::Ready(spec_from_boolean(spec_is_one(value), target)))
    } else if value.is_floating() || target is Double || target is Float {
        Ok(Computed::Deferred(FloatRequest::Convert { value, target }))
    } else {
        Ok(Computed::Ready(spec_from_number(value.number(), target)))
    }
}

/// What the conversion instruction does to the stack: the top value is taken
/// off and, where the machine converts it, the converted value is put in its
/// place. An empty stack fails with `StackUnderflow`.
pub open spec fn spec_conv_on_stack(target: DataType, stack: Seq<Value>) -> (
    Seq<Value>,
    Result<Option<FloatRequest>, ExecutionError>,
) {
    if stack.len() == 0 {
        (stack, Err(ExecutionError::StackUnderflow))
    } else {
        spec_settle(stack.drop_last(), spec_conv(stack.last(), target))
    }
}

/// Narrowing an integer keeps its low bits, which is the number wrapped
/// around to the narrower width.
proof fn lemma_narrowing(n: i32, m: i64)
    ensures
        n as i16 == wrap16(n as int),
        m as i16 == wrap16(m as int),
        m as i32 == wrap32(m as int),
{
    assert(n as i16 == wrap16(n as int)) by (bit_vector);
    assert(m as i16 == wrap16(m as int)) by (bit_vector);
    assert(m as i32 == wrap32(m as int)) by (bit_vector);
}

/// Converts `value` to the type `target`.
pub fn convert(value: Value, target: DataType) -> (out: Result<Computed, ExecutionError>)
    ensures
        out == spec_conv(value, target),
{
    let source: DataType = value.data_type();
    let deferred: Result<Computed, ExecutionError> = Ok(
        Computed::Deferred(FloatRequest::Convert { value, target }),
    );
    let invalid: Result<Computed, ExecutionError> = Err(
        ExecutionError::InvalidConversion { source, target },
    );
    let converted: Value = match target {
        DataType::Double => Value::Double(
            match value {
                Value::Double(bits) => bits,
                Value::Float(_) => return deferred,
                Value::Int16(_) => return deferred,
                Value::Int32(_) => return deferred,
                Value::Int64(_) => return deferred,
                Value::Boolean(b) => if b { DOUBLE_ONE } else { 0 },
                _ => return invalid,
            },
        ),
        DataType::Float => Value::Float(
            match value {
                Value::Double(_) => return deferred,
                Value::Float(bits) => bits,
                Value::Int16(_) => return deferred,
                Value::Int32(_) => return deferred,
                Value::Int64(_) => return deferred,
                Value::Boolean(b) => if b { FLOAT_ONE } else { 0 },
                _ => return invalid,
            },
        ),
        DataType::Int16 => Value::Int16(
            match value {
                Value::Double(_) => return deferred,
                Value::Float(_) => return deferred,
                Value::Int16(n) => n,
                Value::Int32(n) => {
                    proof {
                        lemma_narrowing(n, 0);
                    }
                    #[verifier::truncate]
                    (n as i16)
                },
                Value::Int64(n) => {
                    proof {
                        lemma_narrowing(0, n);
                    }
                    #[verifier::truncate]
                    (n as i16)
                },
                Value::Boolean(b) => if b { 1 } else { 0 },
                _ => return invalid,
            },
        ),
        DataType::Int32 => Value::Int32(
            match value {
                Value::Double(_) => return deferred,
                Value::Float(_) => return deferred,
                Value::Int16(n) => n as i32,
                Value::Int32(n) => n,
                Value::Int64(n) => {
                    proof {
                        lemma_narrowing(0, n);
                    }
                    #[verifier::truncate]
                    (n as i32)
                },
                Value::Boolean(b) => if b { 1 } else { 0 },
                _ => return invalid,
            },
        ),
        DataType::Int64 => Value::Int64(
            match value {
                Value::Double(_) => return deferred,
                Value::Float(_) => return deferred,
                Value::Int16(n) => n as i64,
                Value::Int32(n) => n as i64,
                Value::Int64(n) => n,
                Value::Boolean(b) => if b { 1 } else { 0 },
                _ => return invalid,
            },
        ),
        DataType::Boolean => Value::Boolean(
            match value {
                Value::Double(bits) => bits == DOUBLE_ONE,
                Value::Float(bits) => bits == FLOAT_ONE,
                Value::Int16(n) => n == 1,
                Value::Int32(n) => n == 1,
                Value::Int64(n) => n == 1,
                Value::Boolean(b) => b,
                _ => return invalid,
            },
        ),
        _ => return invalid,
    };
    Ok(Computed::Ready(converted))
}

/// The conversion instruction: replaces the top of the stack by its
/// conversion to `target_data_type`.
///
/// Returns `Ok(None)` where the machine converted the value, and
/// `Ok(Some(request))` where the conversion involves a floating-point number:
/// the value is then off the stack and the host is to answer the request.
pub fn conv(stack: &mut Stack, target_data_type: DataType) -> (out: Result<
    Option<FloatRequest>,
    ExecutionError,
>)
    ensures
        (final(stack)@, out) == spec_conv_on_stack(target_data_type, old(stack)@),
{
    let old_value: Value = match stack.pop() {
        Ok(value) => value,
        Err(error) => {
            return Err(error);
        },
    };
    settle(stack, convert(old_value, target_data_type))
}

/// The multiplication instruction: replaces the two values on top of the
/// stack by their product.
///
/// Integers of one width are multiplied with wrap-around and the result is
/// `Ok(None)`. Floating-point numbers of one variant are left to the host:
/// both are off the stack and `Ok(Some(request))` names the product to compute.
pub fn mul(stack: &mut Stack) -> (out: Result<Option<FloatRequest>, ExecutionError>)
    ensures
        (final(stack)@, out) == spec_binary_on_stack(Opcode::Mul, old(stack)@),
{
    binary_on_stack(stack, Opcode::Mul)
}

/// The division instruction: replaces the two values on top of the stack by
/// the quotient of the top by the value below it.
///
/// Integers of one width give the quotient rounded towards zero and
/// `Ok(None)`, or `DivisionByZero` where the divisor is zero or the quotient
/// leaves the width. Floating-point numbers of one variant are left to the
/// host: both are off the stack and `Ok(Some(request))` names the quotient
/// to compute.
pub fn div(stack: &mut Stack) -> (out: Result<Option<FloatRequest>, ExecutionError>)
    ensures
        (final(stack)@, out) == spec_binary_on_stack(Opcode::Div, old(stack)@),
{
    binary_on_stack(stack, Opcode::Div)
}

/// The remainder instruction: replaces the two values on top of the stack by
/// the remainder of the top by the value below it.
///
/// Integers of one width give the remainder of the division that rounds
/// towards zero and `Ok(None)`, or `DivisionByZero` where that division has
/// no quotient. Floating-point numbers of one variant are left to the host,
/// which computes the Euclidean remainder.
pub fn rem(stack: &mut Stack) -> (out: Result<Option<FloatRequest>, ExecutionError>)
    ensures
        (final(stack)@, out) == spec_binary_on_stack(Opcode::Rem, old(stack)@),
{
    binary_on_stack(stack, Opcode::Rem)
}

/// The modulus instruction: replaces the two values on top of the stack by
/// the modulus of the top by the value below it.
///
/// Integers of one width give the remainder of the division that rounds
/// towards zero and `Ok(None)`, or `DivisionByZero` where that division has
/// no quotient. Floating-point numbers of one variant are left to the host,
/// which computes the remainder with the sign of the dividend.
pub fn mod_(stack: &mut Stack) -> (out: Result<Option<FloatRequest>, ExecutionError>)
    ensures
        (final(stack)@, out) == spec_binary_on_stack(Opcode::Mod, old(stack)@),
{
    binary_on_stack(stack, Opcode::Mod)
}

/// The addition instruction: replaces the two values on top of the stack by
/// their sum.
///
/// Integers of one width are added with wrap-around and the result is
/// `Ok(None)`. Floating-point numbers of one variant are left to the host:
/// both are off the stack and `Ok(Some(request))` names the sum to compute.
pub fn add(stack: &mut Stack) -> (out: Result<Option<FloatRequest>, ExecutionError>)
    ensures
        (final(stack)@, out) == spec_binary_on_stack(Opcode::Add, old(stack)@),
{
    binary_on_stack(stack, Opcode::Add)
}

/// The subtraction instruction: replaces the two values on top of the stack
/// by the top less the value below it.
///
/// Integers of one width are subtracted with wrap-around and the result is
/// `Ok(None)`. Floating-point numbers of one variant are left to the host:
/// both are off the stack and `Ok(Some(request))` names the difference to
/// compute.
pub fn sub(stack: &mut Stack) -> (out: Result<Option<FloatRequest>, ExecutionError>)
    ensures
        (final(stack)@, out) == spec_binary_on_stack(Opcode::Sub, old(stack)@),
{
    binary_on_stack(stack, Opcode::Sub)
}

/// The and instruction: replaces the two values on top of the stack by
/// their conjunction, bit by bit for integers of one width, logical for
/// booleans.
pub fn and(stack: &mut Stack) -> (out: Result<(), ExecutionError>)
    ensures
        (final(stack)@, out) == spec_unit_on_stack(Opcode::And, old(stack)@),
{
    unit_on_stack(stack, Opcode::And)
}

/// The or instruction: replaces the two values on top of the stack by their
/// disjunction, bit by bit for integers of one width, logical for booleans.
pub fn or(stack: &mut Stack) -> (out: Result<(), ExecutionError>)
    ensures
        (final(stack)@, out) == spec_unit_on_stack(Opcode::Or, old(stack)@),
{
    unit_on_stack(stack, Opcode::Or)
}

/// The exclusive-or instruction: replaces the two values on top of the stack
/// by their exclusive or, bit by bit for integers of one width, logical for
/// booleans.
pub fn xor(stack: &mut Stack) -> (out: Result<(), ExecutionError>)
    ensures
        (final(stack)@, out) == spec_unit_on_stack(Opcode::Xor, old(stack)@),
{
    unit_on_stack(stack, Opcode::Xor)
}

/// The shift-left instruction: replaces the two values on top of the stack
/// by the top shifted left by the value below it.
///
/// The result has the width of the shifted integer; the amount may be an
/// integer of any width and must be less than that width, else the shift
/// fails with `ShiftOverflow`. On two booleans the instruction computes
/// their exclusive or.
pub fn shl(stack: &mut Stack) -> (out: Result<(), ExecutionError>)
    ensures
        (final(stack)@, out) == spec_unit_on_stack(Opcode::Shl, old(stack)@),
{
    unit_on_stack(stack, Opcode::Shl)
}

/// The shift-right instruction: replaces the two values on top of the stack
/// by the top shifted right by the value below it, keeping its sign.
///
/// The result has the width of the shifted integer; the amount may be an
/// integer of any width and must be less than that width, else the shift
/// fails with `ShiftOverflow`. On two booleans the instruction computes
/// their exclusive or.
pub fn shr(stack: &mut Stack) -> (out: Result<(), ExecutionError>)
    ensures
        (final(stack)@, out) == spec_unit_on_stack(Opcode::Shr, old(stack)@),
{
    unit_on_stack(stack, Opcode::Shr)
}

} // verus!
