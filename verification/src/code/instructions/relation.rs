//! The six relations of the comparison instruction, on values.
use vstd::prelude::*;
use crate::deferred::{Computed, FloatRequest};
use crate::error::ExecutionError;
use crate::value::{ComparisonType, Value};

verus! {

/// Whether the number `a` stands in the relation to the number `b`.
pub open spec fn spec_relation(comparison_type: ComparisonType, a: int, b: int) -> bool {
    match comparison_type {
        ComparisonType::LT => a < b,
        ComparisonType::LTE => a <= b,
        ComparisonType::EQ => a == b,
        ComparisonType::NEQ => a != b,
        ComparisonType::GTE => a >= b,
        ComparisonType::GT => a > b,
    }
}

/// Whether two values are of one variant that the machine orders itself: one
/// of the three integer widths, or boolean.
pub open spec fn spec_ordered_pair(lhs: Value, rhs: Value) -> bool {
    ||| lhs is Int16 && rhs is Int16
    ||| lhs is Int32 && rhs is Int32
    ||| lhs is Int64 && rhs is Int64
    ||| lhs is Boolean && rhs is Boolean
}

/// Whether two values are of one floating-point variant.
pub open spec fn spec_floating_pair(lhs: Value, rhs: Value) -> bool {
    ||| lhs is Double && rhs is Double
    ||| lhs is Float && rhs is Float
}

/// The comparison of `lhs` with `rhs`.
///
/// Two integers of one width are compared as numbers, two booleans with false
/// below true. Two floating-point numbers of one variant are left to the
/// host. Any other pair is `Incomparable`.
pub open spec fn spec_compare(comparison_type: ComparisonType, lhs: Value, rhs: Value) -> Result<
    Computed,
    ExecutionError,
> {
    if spec_ordered_pair(lhs, rhs) {
        Ok(
            Computed::Ready(
                Value::Boolean(spec_relation(comparison_type, lhs.number(), rhs.number())),
            ),
        )
    } else if spec_floating_pair(lhs, rhs) {
        Ok(Computed::Deferred(FloatRequest::Compare { comparison_type, lhs, rhs }))
    } else {
        Err(ExecutionError::Incomparable)
    }
}

fn relation(comparison_type: ComparisonType, a: i64, b: i64) -> (holds: bool)
    ensures
        holds == spec_relation(comparison_type, a as int, b as int),
{
    match comparison_type {
        ComparisonType::LT => a < b,
        ComparisonType::LTE => a <= b,
        ComparisonType::EQ => a == b,
        ComparisonType::NEQ => a != b,
        ComparisonType::GTE => a >= b,
        ComparisonType::GT => a > b,
    }
}

/// Compares `lhs` with `rhs` by the relation `comparison_type`.
pub fn compare(lhs: Value, rhs: Value, comparison_type: ComparisonType) -> (out: Result<
    Computed,
    ExecutionError,
>)
    ensures
        out == spec_compare(comparison_type, lhs, rhs),
{
    let holds: bool = match (lhs, rhs) {
        (Value::Double(_), Value::Double(_)) => {
            return Ok(Computed::Deferred(FloatRequest::Compare { comparison_type, lhs, rhs }));
        },
        (Value::Float(_), Value::Float(_)) => {
            return Ok(Computed::Deferred(FloatRequest::Compare { comparison_type, lhs, rhs }));
        },
        (Value::Int16(a), Value::Int16(b)) => relation(comparison_type, a as i64, b as i64),
        (Value::Int32(a), Value::Int32(b)) => relation(comparison_type, a as i64, b as i64),
        (Value::Int64(a), Value::Int64(b)) => relation(comparison_type, a, b),
        (Value::Boolean(a), Value::Boolean(b)) => relation(
            comparison_type,
            if a { 1 } else { 0 },
            if b { 1 } else { 0 },
        ),
        _ => {
            return Err(ExecutionError::Incomparable);
        },
    };
    Ok(Computed::Ready(Value::Boolean(holds)))
}

} // verus!
