//! Execution of code objects: the operand stack, the variable store, the
//! instruction handlers and the dispatcher.
pub mod stack;
pub mod variables;
pub mod run;
pub mod instructions;
