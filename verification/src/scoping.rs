//! The life of variables: what the steps of the machine do, and do not do,
//! to the three tiers of the variable store.
use vstd::prelude::*;
use crate::code::instructions::other::spec_load;
use crate::code::run::{
    spec_call, spec_enter, spec_fetch, spec_leave, spec_run, spec_run_code, spec_running,
    spec_step, spec_supply, Frame, Machine,
};
use crate::error::ExecutionError;
use crate::instruction::{GameData, Instruction};
use crate::value::{CodeVariable, InstanceType, Value};

verus! {

/// The lifecycle of local variables: every local variable in the store
/// belongs to a code object that is executing.
pub open spec fn spec_locals_live(machine: Machine) -> bool {
    forall|variable: usize, code: usize| #[trigger]
        machine.variables.locals.contains_key((variable, code)) ==> spec_running(
            machine.frames,
            code,
        )
}

/// Which code objects are executing does not depend on where in them the
/// innermost invocation stands.
pub proof fn lemma_running_ignores_position(frames: Seq<Frame>, pc: usize, code: usize)
    requires
        frames.len() > 0,
    ensures
        spec_running(
            frames.update(frames.len() - 1, Frame { code_index: frames.last().code_index, pc }),
            code,
        ) == spec_running(frames, code),
{
    let moved = frames.update(
        frames.len() - 1,
        Frame { code_index: frames.last().code_index, pc },
    );
    if spec_running(frames, code) {
        let i = choose|i: int| 0 <= i < frames.len() && (#[trigger] frames[i]).code_index == code;
        assert(moved[i].code_index == code);
    }
    if spec_running(moved, code) {
        let i = choose|i: int| 0 <= i < moved.len() && (#[trigger] moved[i]).code_index == code;
        assert(frames[i].code_index == code);
    }
}

/// Moving the innermost invocation to another instruction keeps the
/// lifecycle of local variables.
proof fn lemma_position_keeps_locals_live(machine: Machine, moved: Machine, pc: usize)
    requires
        spec_locals_live(machine),
        machine.frames.len() > 0,
        moved.variables.locals == machine.variables.locals,
        moved.frames == machine.frames.update(
            machine.frames.len() - 1,
            Frame { code_index: machine.frames.last().code_index, pc },
        ),
    ensures
        spec_locals_live(moved),
{
    assert forall|variable: usize, code: usize| #[trigger]
        moved.variables.locals.contains_key((variable, code)) implies spec_running(
        moved.frames,
        code,
    ) by {
        lemma_running_ignores_position(machine.frames, pc, code);
    }
}

/// A code object that runs in the innermost invocation, or further out, is
/// executing.
proof fn lemma_running_by_index(frames: Seq<Frame>, i: int)
    requires
        0 <= i < frames.len(),
    ensures
        spec_running(frames, frames[i].code_index),
{
}

/// The end of an invocation keeps the lifecycle of local variables: the
/// locals of the code object that was left are dropped unless it is still
/// executing further out.
pub proof fn law_leave_keeps_locals_live(machine: Machine, result: Option<Value>)
    requires
        spec_locals_live(machine),
        machine.frames.len() > 0,
    ensures
        spec_locals_live(spec_leave(machine, result).0),
{
    let after = spec_leave(machine, result).0;
    let left = machine.frames.last().code_index;
    let callers = machine.frames.drop_last();
    assert(after.frames == callers);
    assert forall|variable: usize, code: usize| #[trigger]
        after.variables.locals.contains_key((variable, code)) implies spec_running(
        after.frames,
        code,
    ) by {
        assert(machine.variables.locals.contains_key((variable, code)));
        assert(spec_running(machine.frames, code));
        let i = choose|i: int|
            0 <= i < machine.frames.len() && (#[trigger] machine.frames[i]).code_index == code;
        if i == machine.frames.len() - 1 {
            assert(code == left);
            assert(spec_running(callers, left));
        } else {
            assert(callers[i].code_index == code);
        }
    }
}

/// A call keeps the lifecycle of local variables: it adds an invocation and
/// touches no variable.
proof fn lemma_call_keeps_locals_live(
    data: GameData,
    machine: Machine,
    function: usize,
    arguments_count: usize,
)
    requires
        spec_locals_live(machine),
        machine.frames.len() > 0,
    ensures
        spec_locals_live(spec_call(data, machine, function, arguments_count).0),
{
    let after = spec_call(data, machine, function, arguments_count).0;
    if after != machine {
        let moved = machine.advance();
        lemma_position_keeps_locals_live(
            machine,
            moved,
            (machine.frames.last().pc + 1) as usize,
        );
        assert forall|variable: usize, code: usize| #[trigger]
            after.variables.locals.contains_key((variable, code)) implies spec_running(
            after.frames,
            code,
        ) by {
            assert(after.variables == moved.variables);
            assert(moved.variables.locals.contains_key((variable, code)));
            assert(spec_running(moved.frames, code));
            let i = choose|i: int|
                0 <= i < moved.frames.len() && (#[trigger] moved.frames[i]).code_index == code;
            assert(after.frames[i].code_index == code);
        }
    }
}

/// Every step keeps the lifecycle of local variables: a store writes a
/// local of the code object that is executing, the end of an invocation
/// drops the locals of a code object that is left for good, and nothing
/// else touches the local tier.
pub proof fn law_step_keeps_locals_live(data: GameData, machine: Machine)
    requires
        spec_locals_live(machine),
    ensures
        spec_locals_live(spec_step(data, machine).0),
{
    let after = spec_step(data, machine).0;
    match spec_fetch(data, machine) {
        Err(_) => {},
        Ok(instruction) => {
            let top = machine.frames.last();
            lemma_running_by_index(machine.frames, machine.frames.len() - 1);
            match instruction {
                Instruction::SingleType { opcode, data_type } => {
                    if after.frames.len() < machine.frames.len() {
                        law_leave_keeps_locals_live(machine, None);
                        assert(spec_leave(machine, None).0.variables == after.variables);
                        assert(spec_leave(machine, None).0.frames == after.frames);
                    } else if after.frames != machine.frames {
                        lemma_position_keeps_locals_live(machine, after, (top.pc + 1) as usize);
                    }
                },
                Instruction::Call { function, arguments_count } => {
                    lemma_call_keeps_locals_live(data, machine, function, arguments_count);
                },
                Instruction::Goto { opcode, jump_offset } => {
                    if after.frames != machine.frames {
                        lemma_position_keeps_locals_live(
                            machine,
                            after,
                            after.frames.last().pc,
                        );
                    }
                },
                Instruction::Pop { instance_type, destination } => {
                    if after.frames != machine.frames {
                        let stored = Machine { variables: after.variables, ..machine };
                        assert forall|variable: usize, code: usize| #[trigger]
                            stored.variables.locals.contains_key(
                                (variable, code),
                            ) implies spec_running(stored.frames, code) by {
                            if !machine.variables.locals.contains_key((variable, code)) {
                                assert(code == top.code_index);
                            }
                        }
                        lemma_position_keeps_locals_live(stored, after, (top.pc + 1) as usize);
                    }
                },
                _ => {
                    if after.frames != machine.frames {
                        lemma_position_keeps_locals_live(machine, after, (top.pc + 1) as usize);
                    }
                },
            }
        },
    }
}

/// Entering a code object from the host starts the lifecycle of local
/// variables afresh: there is no local variable at all.
pub proof fn law_enter_leaves_no_locals(
    data: GameData,
    machine: Machine,
    code_index: usize,
    object_index: usize,
)
    requires
        spec_enter(data, machine, code_index, object_index).1 is Ok,
    ensures
        spec_enter(data, machine, code_index, object_index).0.variables.locals == Map::<
            (usize, usize),
            Value,
        >::empty(),
        spec_locals_live(spec_enter(data, machine, code_index, object_index).0),
{
}

/// An answer of the host keeps the lifecycle of local variables.
pub proof fn law_supply_keeps_locals_live(machine: Machine, bits: u64)
    requires
        spec_locals_live(machine),
    ensures
        spec_locals_live(spec_supply(machine, bits).0),
{
}

/// A run of any number of steps keeps the lifecycle of local variables.
pub proof fn law_run_keeps_locals_live(data: GameData, machine: Machine, budget: nat)
    requires
        spec_locals_live(machine),
    ensures
        spec_locals_live(spec_run(data, machine, budget).0),
    decreases budget,
{
    if budget > 0 {
        law_step_keeps_locals_live(data, machine);
        law_run_keeps_locals_live(data, spec_step(data, machine).0, (budget - 1) as nat);
    }
}

/// Local scope: an invocation of a code object that was not executing when
/// it was called starts without local variables. Whatever an earlier
/// invocation of the code object stored, and whatever ran in between, a load
/// of any of its locals right after the call finds the variable unset.
pub proof fn law_call_finds_no_stale_locals(
    data: GameData,
    machine: Machine,
    function: usize,
    arguments_count: usize,
    variable: usize,
)
    requires
        spec_locals_live(machine),
        spec_call(data, machine, function, arguments_count).1 is Ok,
        !spec_running(machine.frames, data.functions@[function as int].code),
    ensures
        ({
            let called = spec_call(data, machine, function, arguments_count).0;
            &&& called.frames.last().code_index == data.functions@[function as int].code
            &&& spec_load(
                called.variables,
                called.frames.last().code_index,
                called.object_index,
                CodeVariable { variable, instance_type: InstanceType::Local },
            ) == Err::<Value, ExecutionError>(ExecutionError::UnsetVariable)
        }),
{
}

/// Local scope, from the host: a code object that the host enters starts
/// without local variables, whatever was stored before.
pub proof fn law_enter_finds_no_stale_locals(
    data: GameData,
    machine: Machine,
    code_index: usize,
    object_index: usize,
    variable: usize,
)
    requires
        spec_enter(data, machine, code_index, object_index).1 is Ok,
    ensures
        spec_load(
            spec_enter(data, machine, code_index, object_index).0.variables,
            code_index,
            object_index,
            CodeVariable { variable, instance_type: InstanceType::Local },
        ) == Err::<Value, ExecutionError>(ExecutionError::UnsetVariable),
{
}

/// Whether `instruction` stores to the global variable `variable`.
pub open spec fn spec_stores_global(instruction: Instruction, variable: usize) -> bool {
    match instruction {
        Instruction::Pop { instance_type, destination } => instance_type is Global
            && destination.variable == variable,
        _ => false,
    }
}

/// Whether no instruction of the program stores to the global variable
/// `variable`.
pub open spec fn spec_never_stores_global(data: GameData, variable: usize) -> bool {
    forall|code: int, pc: int|
        0 <= code < data.codes@.len() && 0 <= pc < data.codes@[code].instructions@.len()
            ==> !spec_stores_global(#[trigger] data.codes@[code].instructions@[pc], variable)
}

/// Whether two stores agree on the global variable `variable`: both hold
/// nothing for it, or both hold the same value.
pub open spec fn spec_same_global(before: Machine, after: Machine, variable: usize) -> bool {
    &&& before.variables.globals.contains_key(variable)
        == after.variables.globals.contains_key(variable)
    &&& before.variables.globals.contains_key(variable) ==> before.variables.globals[variable]
        == after.variables.globals[variable]
}

/// Global scope, one step: a global variable changes only by a store to it.
/// Every other instruction, the end of an invocation included, leaves it as
/// it is.
pub proof fn law_step_keeps_global(data: GameData, machine: Machine, variable: usize)
    requires
        !(spec_fetch(data, machine) matches Ok(instruction) && spec_stores_global(
            instruction,
            variable,
        )),
    ensures
        spec_same_global(machine, spec_step(data, machine).0, variable),
{
}

/// Global scope, whole runs: while a program that never stores to a global
/// variable runs, for however many steps and through however many
/// invocations, the variable keeps the value it has.
pub proof fn law_run_keeps_global(data: GameData, machine: Machine, variable: usize, budget: nat)
    requires
        spec_never_stores_global(data, variable),
    ensures
        spec_same_global(machine, spec_run(data, machine, budget).0, variable),
    decreases budget,
{
    if budget > 0 {
        law_step_keeps_global(data, machine, variable);
        law_run_keeps_global(data, spec_step(data, machine).0, variable, (budget - 1) as nat);
    }
}

/// Global scope, from the host: entering and running any code object of a
/// program that never stores to a global variable leaves the variable as it
/// is. Entering alone never changes a global or an instance variable.
pub proof fn law_run_code_keeps_global(
    data: GameData,
    machine: Machine,
    code_index: usize,
    object_index: usize,
    variable: usize,
    budget: nat,
)
    requires
        spec_never_stores_global(data, variable),
    ensures
        spec_same_global(
            machine,
            spec_run_code(data, machine, code_index, object_index, budget).0,
            variable,
        ),
        spec_enter(data, machine, code_index, object_index).0.variables.globals
            == machine.variables.globals,
        spec_enter(data, machine, code_index, object_index).0.variables.instances
            == machine.variables.instances,
{
    law_run_keeps_global(
        data,
        spec_enter(data, machine, code_index, object_index).0,
        variable,
        budget,
    );
}

} // verus!
