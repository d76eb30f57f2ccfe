//! Handlers of the comparison, of the conditions of branches, and of the
//! instructions that move values between the stack and the variable store.
use vstd::prelude::*;
use crate::code::instructions::relation::{compare, spec_compare};
use crate::code::stack::Stack;
use crate::code::variables::{Variables, VariablesView};
use crate::deferred::{settle, spec_settle, FloatRequest};
use crate::error::ExecutionError;
use crate::value::{CodeVariable, ComparisonType, InstanceType, Value};

verus! {

/// What the comparison instruction does to the stack: the right-hand operand
/// is taken from the top and the left-hand operand from below it, and where
/// the machine compares them the boolean result takes their place. With
/// fewer than two values on it the stack is emptied and the instruction
/// fails with `StackUnderflow`.
pub open spec fn spec_comparison(comparison_type: ComparisonType, stack: Seq<Value>) -> (
    Seq<Value>,
    Result<Option<FloatRequest>, ExecutionError>,
) {
    if stack.len() < 2 {
        (Seq::empty(), Err(ExecutionError::StackUnderflow))
    } else {
        let rhs = stack[stack.len() - 1];
        let lhs = stack[stack.len() - 2];
        spec_settle(stack.take(stack.len() - 2), spec_compare(comparison_type, lhs, rhs))
    }
}

/// The comparison instruction: replaces the two values on top of the stack
/// by whether the lower stands in the relation `comparison_type` to the
/// upper.
///
/// Returns `Ok(None)` where the machine compared the values, and
/// `Ok(Some(request))` where they are floating-point numbers: both are then
/// off the stack and the host is to answer the request.
pub fn cmp(stack: &mut Stack, comparison_type: ComparisonType) -> (out: Result<
    Option<FloatRequest>,
    ExecutionError,
>)
    ensures
        (final(stack)@, out) == spec_comparison(comparison_type, old(stack)@),
{
    let rhs: Value = match stack.pop() {
        Ok(value) => value,
        Err(error) => {
            assert(stack@ =~= Seq::<Value>::empty());
            return Err(error);
        },
    };
    let lhs: Value = match stack.pop() {
        Ok(value) => value,
        Err(error) => {
            assert(stack@ =~= Seq::<Value>::empty());
            return Err(error);
        },
    };
    assert(stack@ =~= old(stack)@.take(old(stack)@.len() - 2));
    settle(stack, compare(lhs, rhs, comparison_type))
}

/// What taking a branch condition does to the stack, and whether the branch
/// that jumps on `wanted` is taken: the top value is taken off; the branch is
/// taken where it is the boolean `wanted`. Any value but a boolean is a
/// `ConditionTypeError`; an empty stack fails with `StackUnderflow`.
pub open spec fn spec_condition(wanted: bool, stack: Seq<Value>) -> (
    Seq<Value>,
    Result<bool, ExecutionError>,
) {
    if stack.len() == 0 {
        (stack, Err(ExecutionError::StackUnderflow))
    } else {
        match stack.last() {
            Value::Boolean(b) => (stack.drop_last(), Ok(b == wanted)),
            _ => (stack.drop_last(), Err(ExecutionError::ConditionTypeError)),
        }
    }
}

/// The condition of a branch-if-true: takes the boolean on top of the stack
/// off and returns whether to jump, which is whether it is true.
pub fn bt(stack: &mut Stack) -> (out: Result<bool, ExecutionError>)
    ensures
        (final(stack)@, out) == spec_condition(true, old(stack)@),
{
    let value: Value = match stack.pop() {
        Ok(value) => value,
        Err(error) => {
            return Err(error);
        },
    };
    match value {
        Value::Boolean(boolean) => Ok(boolean),
        _ => Err(ExecutionError::ConditionTypeError),
    }
}

/// The condition of a branch-if-false: takes the boolean on top of the stack
/// off and returns whether to jump, which is whether it is false.
pub fn bf(stack: &mut Stack) -> (out: Result<bool, ExecutionError>)
    ensures
        (final(stack)@, out) == spec_condition(false, old(stack)@),
{
    let value: Value = match stack.pop() {
        Ok(value) => value,
        Err(error) => {
            return Err(error);
        },
    };
    match value {
        Value::Boolean(boolean) => Ok(!boolean),
        _ => Err(ExecutionError::ConditionTypeError),
    }
}

/// Where a variable lives.
pub enum Place {
    /// The global variable of this index.
    Global(usize),
    /// The variable of this index that belongs to the object instance of this
    /// index.
    Instance(usize, usize),
    /// The variable of this index that is local to the code object of this
    /// index.
    Local(usize, usize),
}

/// The place that the scope selector `instance_type` gives the variable
/// `variable`, while the code object `code_index` runs on behalf of the
/// entity `object_index`. An instance variable belongs to the object that
/// the selector names and, where it names none, to that entity. The
/// selectors that are neither instance, global nor local have no place.
pub open spec fn spec_place(
    code_index: usize,
    object_index: usize,
    instance_type: InstanceType,
    variable: usize,
) -> Option<Place> {
    match instance_type {
        InstanceType::Instance(Some(object)) => Some(Place::Instance(variable, object)),
        InstanceType::Instance(None) => Some(Place::Instance(variable, object_index)),
        InstanceType::Global => Some(Place::Global(variable)),
        InstanceType::Local => Some(Place::Local(variable, code_index)),
        _ => None,
    }
}

/// The store with `value` written to `place`; the other variables keep their
/// values.
pub open spec fn spec_write(variables: VariablesView, place: Place, value: Value) -> VariablesView {
    match place {
        Place::Global(variable) => VariablesView {
            globals: variables.globals.insert(variable, value),
            ..variables
        },
        Place::Instance(variable, object) => VariablesView {
            instances: variables.instances.insert((variable, object), value),
            ..variables
        },
        Place::Local(variable, code) => VariablesView {
            locals: variables.locals.insert((variable, code), value),
            ..variables
        },
    }
}

/// The value that the store holds at `place`, if any.
pub open spec fn spec_read(variables: VariablesView, place: Place) -> Option<Value> {
    match place {
        Place::Global(variable) => if variables.globals.contains_key(variable) {
            Some(variables.globals[variable])
        } else {
            None
        },
        Place::Instance(variable, object) => if variables.instances.contains_key(
            (variable, object),
        ) {
            Some(variables.instances[(variable, object)])
        } else {
            None
        },
        Place::Local(variable, code) => if variables.locals.contains_key((variable, code)) {
            Some(variables.locals[(variable, code)])
        } else {
            None
        },
    }
}

/// What the store instruction does to the stack and the variable store.
///
/// The top value is taken off the stack, and written to the place that the
/// selector gives the destination. A selector without a place is an
/// `InvalidScope` that names the selector and the value; a variable
/// descriptor is no datum to store and fails with `MalformedCode`; in both
/// cases the value is off the stack and the store is unchanged. An empty
/// stack fails with `StackUnderflow`.
pub open spec fn spec_pop(
    variables: VariablesView,
    code_index: usize,
    object_index: usize,
    stack: Seq<Value>,
    instance_type: InstanceType,
    destination: CodeVariable,
) -> (VariablesView, Seq<Value>, Result<(), ExecutionError>) {
    if stack.len() == 0 {
        (variables, stack, Err(ExecutionError::StackUnderflow))
    } else {
        let value = stack.last();
        match spec_place(code_index, object_index, instance_type, destination.variable) {
            None => (
                variables,
                stack.drop_last(),
                Err(ExecutionError::InvalidScope { instance_type, value: Some(value) }),
            ),
            Some(place) => if value is Variable {
                (variables, stack.drop_last(), Err(ExecutionError::MalformedCode))
            } else {
                (spec_write(variables, place, value), stack.drop_last(), Ok(()))
            },
        }
    }
}

/// The value that a push of the descriptor `source` loads.
///
/// The variable is read at the place that the descriptor's own selector
/// gives it. A selector without a place is an `InvalidScope` that names the
/// selector; a variable that nothing was stored in is an `UnsetVariable`:
/// there is no default value.
pub open spec fn spec_load(
    variables: VariablesView,
    code_index: usize,
    object_index: usize,
    source: CodeVariable,
) -> Result<Value, ExecutionError> {
    match spec_place(code_index, object_index, source.instance_type, source.variable) {
        None => Err(
            ExecutionError::InvalidScope { instance_type: source.instance_type, value: None },
        ),
        Some(place) => match spec_read(variables, place) {
            Some(value) => Ok(value),
            None => Err(ExecutionError::UnsetVariable),
        },
    }
}

fn place(code_index: usize, object_index: usize, instance_type: &InstanceType, variable: usize) -> (found:
    Option<Place>)
    ensures
        found == spec_place(code_index, object_index, *instance_type, variable),
{
    match instance_type {
        InstanceType::Instance(Some(object)) => Some(Place::Instance(variable, *object)),
        InstanceType::Instance(None) => Some(Place::Instance(variable, object_index)),
        InstanceType::Global => Some(Place::Global(variable)),
        InstanceType::Local => Some(Place::Local(variable, code_index)),
        _ => None,
    }
}

/// The store instruction: takes the top of the stack off and stores it in
/// the variable `destination`, in the tier that `instance_type` selects.
///
/// `code_index` is the code object that is executing, which owns its local
/// variables; `object_index` is the entity on whose behalf it executes, which
/// owns the instance variables that name no object.
pub fn pop(
    variables: &mut Variables,
    code_index: usize,
    object_index: usize,
    stack: &mut Stack,
    instance_type: &InstanceType,
    destination: &CodeVariable,
) -> (out: Result<(), ExecutionError>)
    ensures
        (final(variables)@, final(stack)@, out) == spec_pop(
            old(variables)@,
            code_index,
            object_index,
            old(stack)@,
            *instance_type,
            *destination,
        ),
{
    let value: Value = match stack.pop() {
        Ok(value) => value,
        Err(error) => {
            return Err(error);
        },
    };
    let target: Place = match place(code_index, object_index, instance_type, destination.variable) {
        Some(target) => target,
        None => {
            return Err(
                ExecutionError::InvalidScope { instance_type: *instance_type, value: Some(value) },
            );
        },
    };
    match value {
        Value::Variable(_) => {
            return Err(ExecutionError::MalformedCode);
        },
        _ => {},
    }
    match target {
        Place::Global(variable) => variables.set_global(variable, value),
        Place::Instance(variable, object) => variables.set_instance(variable, object, value),
        Place::Local(variable, code) => variables.set_local(variable, code, value),
    }
    Ok(())
}

/// Reads the variable that the descriptor `source` names.
///
/// `code_index` and `object_index` are the code object that is executing and
/// the entity on whose behalf it executes, as for [`pop`].
pub fn load(variables: &Variables, code_index: usize, object_index: usize, source: &CodeVariable) -> (out:
    Result<Value, ExecutionError>)
    ensures
        out == spec_load(variables@, code_index, object_index, *source),
{
    let target: Place = match place(
        code_index,
        object_index,
        &source.instance_type,
        source.variable,
    ) {
        Some(target) => target,
        None => {
            return Err(
                ExecutionError::InvalidScope { instance_type: source.instance_type, value: None },
            );
        },
    };
    let found: Option<Value> = match target {
        Place::Global(variable) => variables.global(variable),
        Place::Instance(variable, object) => variables.instance(variable, object),
        Place::Local(variable, code) => variables.local(variable, code),
    };
    match found {
        Some(value) => Ok(value),
        None => Err(ExecutionError::UnsetVariable),
    }
}

} // verus!
