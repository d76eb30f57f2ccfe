//! The operand stack under its GameMaker name.
use vstd::prelude::*;
use crate::code::stack::Stack;

verus! {

/// The operand stack of a GameMaker machine: another name for [`Stack`].
pub type GMStack = Stack;

} // verus!
