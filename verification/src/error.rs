//! The failures that the machine reports.
use vstd::prelude::*;
use crate::value::{DataType, InstanceType, Value};

verus! {

/// Why an operation of the machine failed.
///
/// A failure ends the invocation that was running; the machine retries
/// nothing and recovers nothing on its own.
#[derive(Clone, Copy, Debug, PartialEq, Eq, Hash)]
pub enum ExecutionError {
    /// An operand was needed and the operand stack was empty.
    StackUnderflow,
    /// The two operands of an arithmetic, bitwise or shift operator do not
    /// form a pair that the operator accepts.
    TypeMismatch,
    /// The two operands of a comparison are not of one comparable variant.
    Incomparable,
    /// The operand of a unary operator is of a variant that the operator is
    /// not defined on.
    UnsupportedOperand,
    /// No conversion exists from a value of type `source` to type `target`.
    InvalidConversion { source: DataType, target: DataType },
    /// Integer division, remainder or modulus whose quotient does not exist:
    /// the divisor is zero, or the quotient leaves the operand's range.
    DivisionByZero,
    /// A shift by at least as many bits as the operand is wide.
    ShiftOverflow,
    /// A store or load through a scope selector that has no tier in the
    /// variable store; `value` is what was about to be stored, if anything.
    InvalidScope { instance_type: InstanceType, value: Option<Value> },
    /// The condition of a conditional branch is not a boolean.
    ConditionTypeError,
    /// A call names a function, or a function names a code object, that the
    /// program does not have.
    UnresolvedFunction,
    /// A call passes another number of arguments than the function declares.
    ArityMismatch,
    /// The code is not well formed: control left the instruction sequence, an
    /// environment was popped that was never pushed, or a variable descriptor
    /// was found where a datum belongs.
    MalformedCode,
    /// An instruction carries an opcode that does not belong to its category.
    InvalidOpcode,
    /// A variable was read before anything was stored in it.
    UnsetVariable,
    /// Calls are nested deeper than the machine allows.
    CallDepthExceeded,
    /// A code object was named that the program does not have.
    UnknownCode,
    /// The host broke the protocol of the machine: it asked the machine to go
    /// on while a request was open or while nothing was running, or it
    /// answered a request that was not made.
    HostProtocol,
}

} // verus!
