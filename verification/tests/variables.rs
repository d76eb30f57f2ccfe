use std::collections::HashMap;

use acorn::code::instructions::other::{load, pop};
use acorn::code::stack::Stack;
use acorn::code::variables::Variables;
use acorn::error::ExecutionError;
use acorn::value::{CodeVariable, InstanceType, Value};

fn variable(variable: usize, instance_type: InstanceType) -> CodeVariable {
    CodeVariable { variable, instance_type }
}

#[test]
fn a_new_store_is_empty() {
    let variables = Variables::new();
    assert!(variables.globals.is_empty());
    assert!(variables.instances.is_empty());
    assert!(variables.locals.is_empty());
    assert_eq!(variables.global(0), None);
    assert_eq!(variables.instance(0, 0), None);
    assert_eq!(variables.local(0, 0), None);
}

#[test]
fn a_store_can_be_built_from_its_fields() {
    let mut variables = Variables {
        globals: HashMap::new(),
        instances: HashMap::new(),
        locals: HashMap::new(),
    };
    variables.set_global(1, Value::Int32(5));
    assert_eq!(variables.global(1), Some(Value::Int32(5)));
}

#[test]
fn the_tiers_are_independent() {
    let mut variables = Variables::new();
    variables.set_global(1, Value::Int32(10));
    variables.set_instance(1, 1, Value::Int32(20));
    variables.set_local(1, 1, Value::Int32(30));
    assert_eq!(variables.global(1), Some(Value::Int32(10)));
    assert_eq!(variables.instance(1, 1), Some(Value::Int32(20)));
    assert_eq!(variables.local(1, 1), Some(Value::Int32(30)));
    assert_eq!(variables.instance(1, 2), None);
    assert_eq!(variables.local(2, 1), None);
    variables.set_instance(1, 2, Value::Int32(21));
    variables.set_instance(2, 1, Value::Int32(22));
    assert_eq!(variables.instance(1, 1), Some(Value::Int32(20)));
    assert_eq!(variables.instance(1, 2), Some(Value::Int32(21)));
    assert_eq!(variables.instance(2, 1), Some(Value::Int32(22)));
    variables.set_instance(1, 1, Value::Boolean(true));
    assert_eq!(variables.instance(1, 1), Some(Value::Boolean(true)));
}

#[test]
fn clearing_locals_drops_one_code_object() {
    let mut variables = Variables::new();
    variables.set_local(1, 10, Value::Int32(1));
    variables.set_local(2, 10, Value::Int32(2));
    variables.set_local(1, 11, Value::Int32(3));
    variables.set_global(1, Value::Int32(4));
    variables.set_instance(1, 10, Value::Int32(5));
    variables.clear_locals(10);
    assert_eq!(variables.local(1, 10), None);
    assert_eq!(variables.local(2, 10), None);
    assert_eq!(variables.local(1, 11), Some(Value::Int32(3)));
    assert_eq!(variables.global(1), Some(Value::Int32(4)));
    assert_eq!(variables.instance(1, 10), Some(Value::Int32(5)));
    variables.clear_locals(99);
    assert_eq!(variables.local(1, 11), Some(Value::Int32(3)));
    variables.clear_all_locals();
    assert_eq!(variables.local(1, 11), None);
    assert_eq!(variables.global(1), Some(Value::Int32(4)));
}

#[test]
fn pop_stores_by_scope() {
    let mut variables = Variables::new();
    let mut stack = Stack::new();
    stack.push(Value::Int32(4));
    stack.push(Value::Int32(3));
    stack.push(Value::Int32(2));
    stack.push(Value::Int32(1));
    let code_index = 7;
    let object_index = 9;

    let destination = variable(5, InstanceType::Undefined);
    assert_eq!(
        pop(&mut variables, code_index, object_index, &mut stack, &InstanceType::Global, &destination),
        Ok(())
    );
    assert_eq!(variables.global(5), Some(Value::Int32(1)));
    assert_eq!(
        pop(&mut variables, code_index, object_index, &mut stack, &InstanceType::Local, &destination),
        Ok(())
    );
    assert_eq!(variables.local(5, 7), Some(Value::Int32(2)));
    assert_eq!(
        pop(
            &mut variables,
            code_index,
            object_index,
            &mut stack,
            &InstanceType::Instance(None),
            &destination
        ),
        Ok(())
    );
    assert_eq!(variables.instance(5, 9), Some(Value::Int32(3)));
    assert_eq!(
        pop(
            &mut variables,
            code_index,
            object_index,
            &mut stack,
            &InstanceType::Instance(Some(12)),
            &destination
        ),
        Ok(())
    );
    assert_eq!(variables.instance(5, 12), Some(Value::Int32(4)));
    assert_eq!(stack.len(), 0);
    assert_eq!(variables.globals.len(), 1);
    assert_eq!(variables.local(5, 9), None);
    assert_eq!(variables.instance(5, 7), None);
}

#[test]
fn pop_goes_by_the_selector_of_the_instruction() {
    // The selector given to the instruction decides, not the one inside the
    // destination.
    let mut variables = Variables::new();
    let mut stack = Stack::new();
    stack.push(Value::Int32(1));
    let destination = variable(5, InstanceType::Local);
    assert_eq!(pop(&mut variables, 0, 0, &mut stack, &InstanceType::Global, &destination), Ok(()));
    assert_eq!(variables.global(5), Some(Value::Int32(1)));
    assert_eq!(variables.local(5, 0), None);
}

#[test]
fn pop_to_an_unsupported_scope_fails() {
    let selectors = [
        InstanceType::Undefined,
        InstanceType::Other,
        InstanceType::All,
        InstanceType::Noone,
        InstanceType::Builtin,
        InstanceType::StackTop,
        InstanceType::Argument,
        InstanceType::Static,
    ];
    for selector in selectors {
        let mut variables = Variables::new();
        let mut stack = Stack::new();
        stack.push(Value::Int16(1));
        stack.push(Value::String(3));
        assert_eq!(
            pop(&mut variables, 0, 0, &mut stack, &selector, &variable(1, selector)),
            Err(ExecutionError::InvalidScope {
                instance_type: selector,
                value: Some(Value::String(3))
            })
        );
        assert_eq!(stack.items, vec![Value::Int16(1)]);
        assert!(variables.globals.is_empty());
        assert!(variables.instances.is_empty());
        assert!(variables.locals.is_empty());
    }
}

#[test]
fn pop_of_nothing_underflows() {
    let mut variables = Variables::new();
    let mut stack = Stack::new();
    assert_eq!(
        pop(&mut variables, 0, 0, &mut stack, &InstanceType::Global, &variable(1, InstanceType::Global)),
        Err(ExecutionError::StackUnderflow)
    );
    assert!(variables.globals.is_empty());
}

#[test]
fn a_descriptor_is_never_stored() {
    let mut variables = Variables::new();
    let mut stack = Stack::new();
    stack.push(Value::Variable(variable(2, InstanceType::Global)));
    assert_eq!(
        pop(&mut variables, 0, 0, &mut stack, &InstanceType::Global, &variable(1, InstanceType::Global)),
        Err(ExecutionError::MalformedCode)
    );
    assert_eq!(stack.len(), 0);
    assert!(variables.globals.is_empty());
}

#[test]
fn load_reads_by_the_scope_of_the_descriptor() {
    let mut variables = Variables::new();
    variables.set_global(1, Value::Int32(10));
    variables.set_instance(1, 9, Value::Int32(20));
    variables.set_instance(1, 12, Value::Int32(21));
    variables.set_local(1, 7, Value::Int32(30));
    assert_eq!(load(&variables, 7, 9, &variable(1, InstanceType::Global)), Ok(Value::Int32(10)));
    assert_eq!(
        load(&variables, 7, 9, &variable(1, InstanceType::Instance(None))),
        Ok(Value::Int32(20))
    );
    assert_eq!(
        load(&variables, 7, 9, &variable(1, InstanceType::Instance(Some(12)))),
        Ok(Value::Int32(21))
    );
    assert_eq!(load(&variables, 7, 9, &variable(1, InstanceType::Local)), Ok(Value::Int32(30)));
}

#[test]
fn an_unset_variable_does_not_load() {
    let mut variables = Variables::new();
    variables.set_local(1, 7, Value::Int32(30));
    assert_eq!(
        load(&variables, 7, 9, &variable(2, InstanceType::Local)),
        Err(ExecutionError::UnsetVariable)
    );
    assert_eq!(
        load(&variables, 8, 9, &variable(1, InstanceType::Local)),
        Err(ExecutionError::UnsetVariable)
    );
    assert_eq!(
        load(&variables, 7, 9, &variable(1, InstanceType::Global)),
        Err(ExecutionError::UnsetVariable)
    );
    assert_eq!(
        load(&variables, 7, 9, &variable(1, InstanceType::Instance(None))),
        Err(ExecutionError::UnsetVariable)
    );
}

#[test]
fn load_from_an_unsupported_scope_fails() {
    let variables = Variables::new();
    assert_eq!(
        load(&variables, 0, 0, &variable(1, InstanceType::Builtin)),
        Err(ExecutionError::InvalidScope { instance_type: InstanceType::Builtin, value: None })
    );
}
