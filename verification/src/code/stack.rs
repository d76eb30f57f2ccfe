//! The operand stack.
use vstd::prelude::*;
use crate::error::ExecutionError;
use crate::value::Value;

verus! {

/// The working memory of the machine: a last-in, first-out sequence of values.
///
/// One stack serves a whole run. A called code object pushes and pops on the
/// stack of its caller.
#[derive(Debug)]
pub struct Stack {
    /// The values, the bottom of the stack first.
    pub items: Vec<Value>,
}

impl View for Stack {
    type V = Seq<Value>;

    /// The values on the stack, the bottom first and the top last.
    open spec fn view(&self) -> Seq<Value> {
        self.items@
    }
}

/// What a pop makes of a stack: the top value is taken off and returned. An
/// empty stack stays empty and the pop fails with `StackUnderflow`.
pub open spec fn spec_pop(stack: Seq<Value>) -> (Seq<Value>, Result<Value, ExecutionError>) {
    if stack.len() == 0 {
        (stack, Err(ExecutionError::StackUnderflow))
    } else {
        (stack.drop_last(), Ok(stack.last()))
    }
}

/// What a peek returns: the top value, or `StackUnderflow` on an empty stack.
pub open spec fn spec_peek(stack: Seq<Value>) -> Result<Value, ExecutionError> {
    spec_pop(stack).1
}

impl Stack {
    /// An empty stack.
    pub fn new() -> (stack: Stack)
        ensures
            stack@ == Seq::<Value>::empty(),
    {
        Stack { items: Vec::new() }
    }

    /// Puts `value` on top. This always succeeds.
    pub fn push(&mut self, value: Value)
        ensures
            final(self)@ == old(self)@.push(value),
    {
        self.items.push(value);
    }

    /// Takes the top value off the stack and returns it.
    ///
    /// Fails with `StackUnderflow`, leaving the stack empty as it was, exactly
    /// when there is nothing to take.
    pub fn pop(&mut self) -> (popped: Result<Value, ExecutionError>)
        ensures
            (final(self)@, popped) == spec_pop(old(self)@),
    {
        match self.items.pop() {
            Some(value) => Ok(value),
            None => Err(ExecutionError::StackUnderflow),
        }
    }

    /// Returns a copy of the top value and leaves the stack as it is.
    ///
    /// Fails with `StackUnderflow` exactly when the stack is empty.
    pub fn peek(&self) -> (top: Result<Value, ExecutionError>)
        ensures
            top == spec_peek(self@),
    {
        let depth: usize = self.items.len();
        if depth == 0 {
            Err(ExecutionError::StackUnderflow)
        } else {
            Ok(self.items[depth - 1])
        }
    }

    /// The number of values on the stack.
    pub fn len(&self) -> (depth: usize)
        ensures
            depth == self@.len(),
    {
        self.items.len()
    }
}

} // verus!
