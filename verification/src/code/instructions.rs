//! The handlers of the instruction set, one function for each operation.
pub mod checked;
pub mod double_type;
pub mod other;
pub mod relation;
pub mod single_type;
