//! Handlers of the instructions that take one operand type: negation,
//! duplication, return and discard.
use vstd::prelude::*;
use crate::code::instructions::double_type::{wrap16, wrap32, wrap64};
use crate::code::stack::Stack;
use crate::error::ExecutionError;
use crate::value::{Value, DOUBLE_SIGN, FLOAT_SIGN};

verus! {

/// The arithmetic negation of a value.
///
/// An integer gives its negative, wrapped around to its width (only the least
/// integer of a width is its own negative). A floating-point number has its
/// sign flipped, which is the sign bit of its pattern. A boolean, a string or
/// a variable descriptor is an `UnsupportedOperand`.
pub open spec fn spec_neg(value: Value) -> Result<Value, ExecutionError> {
    match value {
        Value::Double(bits) => Ok(Value::Double(bits ^ DOUBLE_SIGN)),
        Value::Float(bits) => Ok(Value::Float(bits ^ FLOAT_SIGN)),
        Value::Int16(n) => Ok(Value::Int16(wrap16(-n))),
        Value::Int32(n) => Ok(Value::Int32(wrap32(-n))),
        Value::Int64(n) => Ok(Value::Int64(wrap64(-n))),
        _ => Err(ExecutionError::UnsupportedOperand),
    }
}

/// The logical negation of a value: defined on booleans, an
/// `UnsupportedOperand` on every other variant.
pub open spec fn spec_not(value: Value) -> Result<Value, ExecutionError> {
    match value {
        Value::Boolean(b) => Ok(Value::Boolean(!b)),
        _ => Err(ExecutionError::UnsupportedOperand),
    }
}

/// What a one-operand operator does to the stack, where `outcome` is what it
/// makes of the top value: the top is taken off and the result, if there is
/// one, put in its place.
pub open spec fn spec_replace_top(stack: Seq<Value>, outcome: Result<Value, ExecutionError>) -> (
    Seq<Value>,
    Result<(), ExecutionError>,
) {
    match outcome {
        Ok(value) => (stack.drop_last().push(value), Ok(())),
        Err(error) => (stack.drop_last(), Err(error)),
    }
}

/// What the arithmetic negation instruction does to the stack: the top value
/// is replaced by its negative, or taken off where it has none. An empty
/// stack fails with `StackUnderflow`.
pub open spec fn spec_neg_on_stack(stack: Seq<Value>) -> (Seq<Value>, Result<(), ExecutionError>) {
    if stack.len() == 0 {
        (stack, Err(ExecutionError::StackUnderflow))
    } else {
        spec_replace_top(stack, spec_neg(stack.last()))
    }
}

/// What the logical negation instruction does to the stack: the boolean on
/// top is replaced by its opposite; any other value is taken off. An empty
/// stack fails with `StackUnderflow`.
pub open spec fn spec_not_on_stack(stack: Seq<Value>) -> (Seq<Value>, Result<(), ExecutionError>) {
    if stack.len() == 0 {
        (stack, Err(ExecutionError::StackUnderflow))
    } else {
        spec_replace_top(stack, spec_not(stack.last()))
    }
}

/// What the duplication instruction does to the stack: the top value is
/// pushed once more. An empty stack fails with `StackUnderflow`.
pub open spec fn spec_dup(stack: Seq<Value>) -> (Seq<Value>, Result<(), ExecutionError>) {
    if stack.len() == 0 {
        (stack, Err(ExecutionError::StackUnderflow))
    } else {
        (stack.push(stack.last()), Ok(()))
    }
}

/// What the return instruction does to the stack, and the value it yields:
/// the top value is taken off and returned. A variable descriptor is no datum
/// to return and fails with `MalformedCode`; an empty stack fails with
/// `StackUnderflow`.
pub open spec fn spec_ret(stack: Seq<Value>) -> (Seq<Value>, Result<Value, ExecutionError>) {
    if stack.len() == 0 {
        (stack, Err(ExecutionError::StackUnderflow))
    } else if stack.last() is Variable {
        (stack.drop_last(), Err(ExecutionError::MalformedCode))
    } else {
        (stack.drop_last(), Ok(stack.last()))
    }
}

/// What the discard instruction does to the stack: the top value is taken
/// off. An empty stack fails with `StackUnderflow`.
pub open spec fn spec_popz(stack: Seq<Value>) -> (Seq<Value>, Result<(), ExecutionError>) {
    if stack.len() == 0 {
        (stack, Err(ExecutionError::StackUnderflow))
    } else {
        (stack.drop_last(), Ok(()))
    }
}

/// Negates `value` arithmetically.
pub fn negate(value: Value) -> (out: Result<Value, ExecutionError>)
    ensures
        out == spec_neg(value),
{
    match value {
        Value::Double(bits) => Ok(Value::Double(bits ^ DOUBLE_SIGN)),
        Value::Float(bits) => Ok(Value::Float(bits ^ FLOAT_SIGN)),
        Value::Int16(n) => Ok(Value::Int16(0i16.wrapping_sub(n))),
        Value::Int32(n) => Ok(Value::Int32(0i32.wrapping_sub(n))),
        Value::Int64(n) => Ok(Value::Int64(0i64.wrapping_sub(n))),
        _ => Err(ExecutionError::UnsupportedOperand),
    }
}

/// The arithmetic negation instruction: replaces the top of the stack by its
/// negative.
pub fn neg(stack: &mut Stack) -> (out: Result<(), ExecutionError>)
    ensures
        (final(stack)@, out) == spec_neg_on_stack(old(stack)@),
{
    let old_value: Value = match stack.pop() {
        Ok(value) => value,
        Err(error) => {
            return Err(error);
        },
    };
    match negate(old_value) {
        Ok(value) => {
            stack.push(value);
            Ok(())
        },
        Err(error) => Err(error),
    }
}

/// The logical negation instruction: replaces the boolean on top of the
/// stack by its opposite.
pub fn not(stack: &mut Stack) -> (out: Result<(), ExecutionError>)
    ensures
        (final(stack)@, out) == spec_not_on_stack(old(stack)@),
{
    let old_value: Value = match stack.pop() {
        Ok(value) => value,
        Err(error) => {
            return Err(error);
        },
    };
    match old_value {
        Value::Boolean(b) => {
            stack.push(Value::Boolean(!b));
            Ok(())
        },
        _ => Err(ExecutionError::UnsupportedOperand),
    }
}

/// The duplication instruction: pushes a copy of the top of the stack.
pub fn dup(stack: &mut Stack) -> (out: Result<(), ExecutionError>)
    ensures
        (final(stack)@, out) == spec_dup(old(stack)@),
{
    let value: Value = match stack.peek() {
        Ok(value) => value,
        Err(error) => {
            return Err(error);
        },
    };
    stack.push(value);
    Ok(())
}

/// The return instruction: takes the top of the stack off as the value that
/// the invocation yields.
pub fn ret(stack: &mut Stack) -> (out: Result<Value, ExecutionError>)
    ensures
        (final(stack)@, out) == spec_ret(old(stack)@),
{
    let value: Value = match stack.pop() {
        Ok(value) => value,
        Err(error) => {
            return Err(error);
        },
    };
    match value {
        Value::Variable(_) => Err(ExecutionError::MalformedCode),
        _ => Ok(value),
    }
}

/// The discard instruction: takes the top of the stack off and drops it.
pub fn popz(stack: &mut Stack) -> (out: Result<(), ExecutionError>)
    ensures
        (final(stack)@, out) == spec_popz(old(stack)@),
{
    match stack.pop() {
        Ok(_) => Ok(()),
        Err(error) => Err(error),
    }
}

} // verus!
