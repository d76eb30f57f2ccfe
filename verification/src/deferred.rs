//! Operations that the machine hands to its host.
//!
//! The machine holds a floating-point number as its bit pattern and never
//! rounds one itself. Where an instruction needs floating-point arithmetic,
//! the handler takes the operands off the stack and returns a
//! [`FloatRequest`]. The host computes the operation on the numbers that the
//! bit patterns stand for and answers with the bits of the result, which
//! [`complete`] turns into the value to push.
use vstd::prelude::*;
use crate::code::stack::Stack;
use crate::error::ExecutionError;
use crate::instruction::Opcode;
use crate::value::{ComparisonType, DataType, Value};

verus! {

/// A floating-point operation that is left to the host.
#[derive(Clone, Copy, Debug, PartialEq, Eq, Hash)]
pub enum FloatRequest {
    /// `lhs opcode rhs`, where `opcode` is one of `Mul`, `Div`, `Rem`, `Mod`,
    /// `Add`, `Sub` and both operands are of the same floating-point variant.
    /// `Rem` is the Euclidean remainder, `Mod` the remainder that takes the
    /// sign of `lhs`. The answer is of the operands' variant.
    Binary { opcode: Opcode, lhs: Value, rhs: Value },
    /// Whether `lhs` stands in the relation `comparison_type` to `rhs`, both
    /// of the same floating-point variant. The answer is a boolean.
    Compare { comparison_type: ComparisonType, lhs: Value, rhs: Value },
    /// The numeric cast of `value` to `target`, where `value` or `target` is
    /// floating-point and neither is a boolean. A cast to an integer
    /// truncates towards zero; a cast from an integer keeps the number where
    /// the target can hold it. The answer is of type `target`.
    Convert { value: Value, target: DataType },
}

/// What a handler has made of its operands.
#[derive(Clone, Copy, Debug, PartialEq, Eq, Hash)]
pub enum Computed {
    /// The result, computed by the machine.
    Ready(Value),
    /// The operation that the host has to compute.
    Deferred(FloatRequest),
}

impl FloatRequest {
    /// The type of the value that answers this request.
    pub open spec fn spec_result_type(self) -> DataType {
        match self {
            FloatRequest::Binary { opcode, lhs, rhs } => lhs.spec_data_type(),
            FloatRequest::Compare { comparison_type, lhs, rhs } => DataType::Boolean,
            FloatRequest::Convert { value, target } => target,
        }
    }

    /// The type of the value that answers this request.
    #[verifier::when_used_as_spec(spec_result_type)]
    pub fn result_type(self) -> (tag: DataType)
        ensures
            tag == self.spec_result_type(),
    {
        match self {
            FloatRequest::Binary { opcode, lhs, rhs } => lhs.data_type(),
            FloatRequest::Compare { comparison_type, lhs, rhs } => DataType::Boolean,
            FloatRequest::Convert { value, target } => target,
        }
    }
}

/// The value of type `data_type` that the answer `bits` stands for.
///
/// A floating-point answer is the bit pattern of the number; an integer
/// answer is the integer in two's complement; a boolean answer is true for
/// every pattern but zero. The bits above the width of the type are ignored.
/// No answer makes a string or a variable descriptor.
pub open spec fn spec_value_from_bits(data_type: DataType, bits: u64) -> Option<Value> {
    match data_type {
        DataType::Double => Some(Value::Double(bits)),
        DataType::Float => Some(Value::Float(bits as u32)),
        DataType::Int16 => Some(Value::Int16(bits as i16)),
        DataType::Int32 => Some(Value::Int32(bits as i32)),
        DataType::Int64 => Some(Value::Int64(bits as i64)),
        DataType::Boolean => Some(Value::Boolean(bits != 0)),
        DataType::String => None,
        DataType::Variable => None,
    }
}

/// The value of type `data_type` that the answer `bits` stands for.
#[verifier::when_used_as_spec(spec_value_from_bits)]
pub fn value_from_bits(data_type: DataType, bits: u64) -> (value: Option<Value>)
    ensures
        value == spec_value_from_bits(data_type, bits),
{
    match data_type {
        DataType::Double => Some(Value::Double(bits)),
        DataType::Float => Some(Value::Float(#[verifier::truncate] (bits as u32))),
        DataType::Int16 => Some(Value::Int16(#[verifier::truncate] (bits as i16))),
        DataType::Int32 => Some(Value::Int32(#[verifier::truncate] (bits as i32))),
        DataType::Int64 => Some(Value::Int64(#[verifier::truncate] (bits as i64))),
        DataType::Boolean => Some(Value::Boolean(bits != 0)),
        DataType::String => None,
        DataType::Variable => None,
    }
}

/// Pushes the host's answer to `request` on the stack.
///
/// The value pushed is the one that `bits` stands for in the type that the
/// request's answer has. Fails with `HostProtocol`, leaving the stack as it
/// was, exactly when that type is a string or a variable descriptor, which no
/// request made by the machine asks for.
pub fn complete(stack: &mut Stack, request: FloatRequest, bits: u64) -> (done: Result<
    (),
    ExecutionError,
>)
    ensures
        match spec_value_from_bits(request.spec_result_type(), bits) {
            Some(value) => done is Ok && final(stack)@ == old(stack)@.push(value),
            None => done == Err::<(), ExecutionError>(
                ExecutionError::HostProtocol,
            ) && final(stack)@ == old(stack)@,
        },
{
    match value_from_bits(request.result_type(), bits) {
        Some(value) => {
            stack.push(value);
            Ok(())
        },
        None => Err(ExecutionError::HostProtocol),
    }
}

/// What becomes of a stack whose operands have been taken off, leaving
/// `rest`, once the handler has come to `outcome`: a result that the machine
/// computed is pushed; a request to the host, or an error, leaves `rest` as
/// it is and is handed on.
pub open spec fn spec_settle(rest: Seq<Value>, outcome: Result<Computed, ExecutionError>) -> (
    Seq<Value>,
    Result<Option<FloatRequest>, ExecutionError>,
) {
    match outcome {
        Ok(Computed::Ready(value)) => (rest.push(value), Ok(None)),
        Ok(Computed::Deferred(request)) => (rest, Ok(Some(request))),
        Err(error) => (rest, Err(error)),
    }
}

/// Pushes a computed result on the stack, or hands on the request or the
/// error that stands in its place.
pub fn settle(stack: &mut Stack, outcome: Result<Computed, ExecutionError>) -> (out: Result<
    Option<FloatRequest>,
    ExecutionError,
>)
    ensures
        (final(stack)@, out) == spec_settle(old(stack)@, outcome),
{
    match outcome {
        Ok(Computed::Ready(value)) => {
            stack.push(value);
            Ok(None)
        },
        Ok(Computed::Deferred(request)) => Ok(Some(request)),
        Err(error) => Err(error),
    }
}

} // verus!
