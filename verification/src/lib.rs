//! A bytecode virtual machine for compiled GameMaker code.
//!
//! The machine is a stack interpreter. Values are pushed to and popped from an
//! operand stack ([`code::stack`]), named variables live in a three-tier store
//! ([`code::variables`]), the handlers of [`code::instructions`] give each
//! instruction its meaning, and the dispatcher of [`code::run`] walks the
//! instructions of a code object one at a time. Every operation is total:
//! a failure is an [`error::ExecutionError`], never a panic.
//!
//! Each function states what it computes in terms of a mathematical model:
//! the stack is a sequence with its top last, the tiers of the store are
//! maps, and the whole machine is the [`code::run::Machine`] whose one step
//! is [`code::run::spec_step`]. What follows from these definitions for all
//! programs and values is collected in [`laws`] and [`scoping`].
//!
//! The machine never rounds a floating-point number. It carries the two
//! floating-point variants as bit patterns, decides on the patterns what
//! can be decided there (negation, and the conversions from and to
//! booleans), and hands every other floating-point operation to its host as
//! a [`deferred::FloatRequest`], which the host answers with the bits of the
//! result.
pub mod value;
pub mod error;
pub mod instruction;
pub mod deferred;
pub mod code;
pub mod gm_code;
pub mod laws;
pub mod scoping;
