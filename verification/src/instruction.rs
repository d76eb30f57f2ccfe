//! The instruction set and the tables of a loaded program.
use vstd::prelude::*;
use crate::value::{CodeVariable, ComparisonType, DataType, InstanceType, Value};

verus! {

/// The operation codes of the instruction set.
#[derive(Clone, Copy, Debug, PartialEq, Eq, Hash)]
pub enum Opcode {
    /// Convert the top value to another type.
    Conv,
    /// Multiply.
    Mul,
    /// Divide.
    Div,
    /// Remainder.
    Rem,
    /// Modulus.
    Mod,
    /// Add.
    Add,
    /// Subtract.
    Sub,
    /// Bitwise or logical and.
    And,
    /// Bitwise or logical or.
    Or,
    /// Bitwise or logical exclusive or.
    Xor,
    /// Arithmetic negation.
    Neg,
    /// Logical negation.
    Not,
    /// Shift left.
    Shl,
    /// Shift right.
    Shr,
    /// Compare.
    Cmp,
    /// Store the top value in a variable.
    Pop,
    /// Duplicate the top value.
    Dup,
    /// Return the top value to the caller.
    Ret,
    /// Return to the caller without a value.
    Exit,
    /// Discard the top value.
    Popz,
    /// Branch always.
    B,
    /// Branch if the top value is true.
    Bt,
    /// Branch if the top value is false.
    Bf,
    /// Enter the environment of another entity.
    PushEnv,
    /// Leave the environment entered last.
    PopEnv,
    /// Push a value.
    Push,
    /// Push a local variable.
    PushLoc,
    /// Push a global variable.
    PushGlb,
    /// Push a built-in variable.
    PushBltn,
    /// Push a 16-bit integer.
    PushI,
    /// Call a function.
    Call,
    /// Call the function that a value names.
    CallV,
    /// Debugger break.
    Break,
}

/// One operation of a code object.
#[derive(Clone, Copy, Debug, PartialEq, Eq, Hash)]
pub enum Instruction {
    /// An operator on one operand type: `Neg`, `Not`, `Dup`, `Ret`, `Exit`,
    /// `Popz`.
    SingleType { opcode: Opcode, data_type: DataType },
    /// An operator on two operand types: the conversion, whose target is
    /// `type2`, and the arithmetic, bitwise and shift operators.
    DoubleType { opcode: Opcode, type1: DataType, type2: DataType },
    /// A comparison of two operands by one of the six relations.
    Comparison { comparison_type: ComparisonType, type1: DataType, type2: DataType },
    /// A branch (`B`, `Bt`, `Bf`) or an environment switch (`PushEnv`,
    /// `PopEnv`), with its jump offset.
    Goto { opcode: Opcode, jump_offset: i32 },
    /// Store the top of the stack in `destination`, in the tier that
    /// `instance_type` selects.
    Pop { instance_type: InstanceType, destination: CodeVariable },
    /// Push a literal, or the current value of the variable that a descriptor
    /// names.
    Push { value: Value },
    /// Call `function` with `arguments_count` arguments that lie on the stack.
    Call { function: usize, arguments_count: usize },
    /// A debugger marker. It does nothing when executed.
    Break { marker: i16 },
}

/// A compiled routine: a sequence of instructions that never changes once
/// loaded.
#[derive(Clone, Debug, PartialEq, Eq)]
pub struct Code {
    /// The instructions in program order.
    pub instructions: Vec<Instruction>,
}

/// A callable function of the program.
#[derive(Clone, Copy, Debug, PartialEq, Eq, Hash)]
pub struct Function {
    /// Index of the code object that a call enters.
    pub code: usize,
    /// The number of arguments that the function expects on the stack.
    pub arguments_count: usize,
}

/// The tables of a loaded program that the machine reads.
#[derive(Clone, Debug, PartialEq, Eq)]
pub struct GameData {
    /// The code objects, each identified by its index.
    pub codes: Vec<Code>,
    /// The functions, each identified by its index.
    pub functions: Vec<Function>,
}

} // verus!
