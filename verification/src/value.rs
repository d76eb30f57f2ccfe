//! The runtime datum of the machine and the small tags that describe it.
use vstd::prelude::*;

verus! {

/// The primitive type tags that instructions carry.
#[derive(Clone, Copy, Debug, PartialEq, Eq, Hash)]
pub enum DataType {
    /// 64-bit floating-point number.
    Double,
    /// 32-bit floating-point number.
    Float,
    /// 32-bit signed integer.
    Int32,
    /// 64-bit signed integer.
    Int64,
    /// Truth value.
    Boolean,
    /// A reference to a variable.
    Variable,
    /// A string of the program's string table.
    String,
    /// 16-bit signed integer.
    Int16,
}

/// The six relations of the comparison instruction.
#[derive(Clone, Copy, Debug, PartialEq, Eq, Hash)]
pub enum ComparisonType {
    /// `<`
    LT,
    /// `<=`
    LTE,
    /// `==`
    EQ,
    /// `!=`
    NEQ,
    /// `>=`
    GTE,
    /// `>`
    GT,
}

/// Selects the tier of the variable store, and the owner within it, that a
/// variable access goes to.
#[derive(Clone, Copy, Debug, PartialEq, Eq, Hash)]
pub enum InstanceType {
    /// No selector was encoded.
    Undefined,
    /// An instance variable: of the given object, or of the entity that is
    /// executing where no object is given.
    Instance(Option<usize>),
    /// An instance placed in a room, by its number in the room.
    RoomInstance(i16),
    /// The `other` entity of a collision or `with` block.
    Other,
    /// Every active instance.
    All,
    /// No instance at all.
    Noone,
    /// A global variable.
    Global,
    /// A variable built into the runtime.
    Builtin,
    /// A variable local to the code object that is executing.
    Local,
    /// The instance is named by the value on top of the stack.
    StackTop,
    /// A function argument.
    Argument,
    /// A static variable.
    Static,
}

/// Describes a variable as an instruction refers to it: which variable, and
/// where it lives.
#[derive(Clone, Copy, Debug, PartialEq, Eq, Hash)]
pub struct CodeVariable {
    /// Index of the variable in the program's variable table.
    pub variable: usize,
    /// The scope the variable is looked up in.
    pub instance_type: InstanceType,
}

/// A value as the machine holds it on the operand stack and in the variable
/// store.
///
/// The two floating-point variants carry the IEEE 754 bit pattern of the
/// number (what `to_bits` gives), so that values stay plain integers
/// throughout the machine.
#[derive(Clone, Copy, Debug, PartialEq, Eq, Hash)]
pub enum Value {
    /// A binary64 number, as its bit pattern.
    Double(u64),
    /// A binary32 number, as its bit pattern.
    Float(u32),
    /// 16-bit signed integer.
    Int16(i16),
    /// 32-bit signed integer.
    Int32(i32),
    /// 64-bit signed integer.
    Int64(i64),
    /// Truth value.
    Boolean(bool),
    /// A string, as its index in the program's string table.
    String(usize),
    /// A variable descriptor. It tells a push instruction what to load and is
    /// never a datum: the operand stack and the variable store are not meant
    /// to hold one.
    Variable(CodeVariable),
}

/// Sign bit of a binary64 bit pattern.
pub const DOUBLE_SIGN: u64 = 0x8000_0000_0000_0000;

/// Sign bit of a binary32 bit pattern.
pub const FLOAT_SIGN: u32 = 0x8000_0000;

/// Bit pattern of the binary64 number one.
pub const DOUBLE_ONE: u64 = 0x3FF0_0000_0000_0000;

/// Bit pattern of the binary32 number one.
pub const FLOAT_ONE: u32 = 0x3F80_0000;

impl Value {
    /// The type tag of the variant that this value carries.
    pub open spec fn spec_data_type(self) -> DataType {
        match self {
            Value::Double(_) => DataType::Double,
            Value::Float(_) => DataType::Float,
            Value::Int16(_) => DataType::Int16,
            Value::Int32(_) => DataType::Int32,
            Value::Int64(_) => DataType::Int64,
            Value::Boolean(_) => DataType::Boolean,
            Value::String(_) => DataType::String,
            Value::Variable(_) => DataType::Variable,
        }
    }

    /// The type tag of the variant that this value carries.
    #[verifier::when_used_as_spec(spec_data_type)]
    pub fn data_type(self) -> (tag: DataType)
        ensures
            tag == self.spec_data_type(),
    {
        match self {
            Value::Double(_) => DataType::Double,
            Value::Float(_) => DataType::Float,
            Value::Int16(_) => DataType::Int16,
            Value::Int32(_) => DataType::Int32,
            Value::Int64(_) => DataType::Int64,
            Value::Boolean(_) => DataType::Boolean,
            Value::String(_) => DataType::String,
            Value::Variable(_) => DataType::Variable,
        }
    }

    /// Whether the value is one of the two floating-point variants.
    pub open spec fn is_floating(self) -> bool {
        self is Double || self is Float
    }

    /// Whether the value is one of the three integer variants.
    pub open spec fn is_integer(self) -> bool {
        self is Int16 || self is Int32 || self is Int64
    }

    /// The number that an integer or boolean value stands for; zero for every
    /// other variant.
    pub open spec fn number(self) -> int {
        match self {
            Value::Int16(n) => n as int,
            Value::Int32(n) => n as int,
            Value::Int64(n) => n as int,
            Value::Boolean(b) => if b { 1 } else { 0 },
            _ => 0,
        }
    }
}

} // verus!
