//! The dispatcher: the state of a running machine and its transitions.
//!
//! The machine advances one instruction at a time. A step either goes on
//! within the machine, ends the run, or stops at a floating-point operation
//! that the host has to compute. Calls do not use the host's call stack: each
//! active invocation is a frame of the machine, so that a run can stop at any
//! instruction and be taken up again.
use vstd::prelude::*;
pub use crate::code::stack::Stack;
pub use crate::code::variables::Variables;
pub use crate::gm_code::GMStack;
use crate::code::instructions::double_type::{
    conv, lemma_bits_never_defer, spec_binary_on_stack, spec_conv_on_stack,
};
use crate::code::instructions::other::{
    bf, bt, load, spec_comparison, spec_condition, spec_load, spec_pop,
};
use crate::code::instructions::single_type::{
    dup, neg, not, popz, ret, spec_dup, spec_neg_on_stack, spec_not_on_stack, spec_popz, spec_ret,
};
use crate::code::variables::{without_owner, VariablesView};
use crate::deferred::{spec_value_from_bits, value_from_bits, FloatRequest};
use crate::error::ExecutionError;
use crate::instruction::{GameData, Instruction, Opcode};
use crate::value::{CodeVariable, DataType, InstanceType, Value};

verus! {

/// The most invocations that may be active at once. A call beyond it fails
/// with `CallDepthExceeded`.
pub const CALL_DEPTH_LIMIT: usize = 1024;

/// The factor by which a jump offset is scaled to a distance in the
/// instruction sequence.
pub const JUMP_SCALE: i32 = 4;

/// One active invocation of a code object.
#[derive(Clone, Copy, Debug, PartialEq, Eq, Hash)]
pub struct Frame {
    /// The code object that is executing. It owns the local variables of the
    /// invocation.
    pub code_index: usize,
    /// Index of the instruction to execute next.
    pub pc: usize,
}

/// How a step, or a run of steps, ended.
#[derive(Clone, Copy, Debug, PartialEq, Eq, Hash)]
pub enum Step {
    /// The machine can go on: there are instructions left to execute.
    Continue,
    /// The machine waits for the host to compute this operation and to
    /// `supply` the answer.
    Float(FloatRequest),
    /// The outermost invocation has ended, with the value it returned, if
    /// any.
    Finished(Option<Value>),
}

/// A machine: the program it runs and the state of the run.
#[derive(Debug)]
pub struct App {
    /// The program.
    pub data: GameData,
    /// The operand stack, shared by all invocations.
    pub stack: Stack,
    /// The variable store.
    pub variables: Variables,
    /// The active invocations, the outermost first. Empty while nothing
    /// runs.
    pub frames: Vec<Frame>,
    /// The entity on whose behalf code executes: the owner of instance
    /// variables that name no object.
    pub object_index: usize,
    /// The entities that were set aside by the environments entered and not
    /// yet left, the outermost first.
    pub environments: Vec<usize>,
    /// The request that the host has not answered yet.
    pub pending: Option<FloatRequest>,
}

/// The state of a run, as mathematical values.
pub struct Machine {
    /// The operand stack, the bottom first.
    pub stack: Seq<Value>,
    /// The variable store.
    pub variables: VariablesView,
    /// The active invocations, the outermost first.
    pub frames: Seq<Frame>,
    /// The entity on whose behalf code executes.
    pub object_index: usize,
    /// The entities set aside by the environments entered.
    pub environments: Seq<usize>,
    /// The request that the host has not answered yet.
    pub pending: Option<FloatRequest>,
}

impl View for App {
    type V = Machine;

    open spec fn view(&self) -> Machine {
        Machine {
            stack: self.stack@,
            variables: self.variables@,
            frames: self.frames@,
            object_index: self.object_index,
            environments: self.environments@,
            pending: self.pending,
        }
    }
}

impl Machine {
    /// The machine with another operand stack.
    pub open spec fn with_stack(self, stack: Seq<Value>) -> Machine {
        Machine { stack, ..self }
    }

    /// The machine with the innermost invocation at the instruction `pc`.
    pub open spec fn at(self, pc: int) -> Machine {
        Machine {
            frames: self.frames.update(
                self.frames.len() - 1,
                Frame { code_index: self.frames.last().code_index, pc: pc as usize },
            ),
            ..self
        }
    }

    /// The machine with the innermost invocation moved on to its next
    /// instruction.
    pub open spec fn advance(self) -> Machine {
        self.at(self.frames.last().pc + 1)
    }
}

/// The instruction that the machine executes next.
///
/// There is none, and the step is a breach of `HostProtocol`, while a request
/// is open or nothing runs. An invocation of a code object that the program
/// does not have is `UnknownCode`. Where control has left the instruction
/// sequence, which ends neither in a return nor in an exit, the code is
/// `MalformedCode`.
pub open spec fn spec_fetch(data: GameData, machine: Machine) -> Result<
    Instruction,
    ExecutionError,
> {
    if machine.pending is Some || machine.frames.len() == 0 {
        Err(ExecutionError::HostProtocol)
    } else if machine.frames.last().code_index >= data.codes@.len() {
        Err(ExecutionError::UnknownCode)
    } else {
        let code = data.codes@[machine.frames.last().code_index as int].instructions@;
        if machine.frames.last().pc >= code.len() {
            Err(ExecutionError::MalformedCode)
        } else {
            Ok(code[machine.frames.last().pc as int])
        }
    }
}

/// The length of the instruction sequence that the innermost invocation
/// executes.
pub open spec fn spec_code_len(data: GameData, machine: Machine) -> int {
    data.codes@[machine.frames.last().code_index as int].instructions@.len() as int
}

/// The machine after an instruction that worked on the stack alone, leaving
/// `stack` and coming to `out`.
///
/// On success the invocation moves on to the next instruction; where the
/// handler asked the host for something, the request stays open until it is
/// answered. On failure the stack is as the handler left it and nothing else
/// has changed.
pub open spec fn spec_after(
    machine: Machine,
    stack: Seq<Value>,
    out: Result<Option<FloatRequest>, ExecutionError>,
) -> (Machine, Result<Step, ExecutionError>) {
    match out {
        Ok(None) => (machine.with_stack(stack).advance(), Ok(Step::Continue)),
        Ok(Some(request)) => (
            Machine { pending: Some(request), ..machine.with_stack(stack).advance() },
            Ok(Step::Float(request)),
        ),
        Err(error) => (machine.with_stack(stack), Err(error)),
    }
}

/// A handler's plain success as the success of one that may ask the host.
pub open spec fn spec_quiet(out: Result<(), ExecutionError>) -> Result<
    Option<FloatRequest>,
    ExecutionError,
> {
    match out {
        Ok(_) => Ok(None),
        Err(error) => Err(error),
    }
}

/// Whether one of `frames` is an invocation of the code object `code`.
pub open spec fn spec_running(frames: Seq<Frame>, code: usize) -> bool {
    exists|i: int| 0 <= i < frames.len() && (#[trigger] frames[i]).code_index == code
}

/// The machine after its innermost invocation has ended with `result`.
///
/// The invocation is gone. Unless the same code object is still executing
/// further out, its local variables are dropped, so that the next invocation
/// of it starts without any. A caller finds the result, if there is one, on
/// top of the stack and goes on; without a caller the run is finished and the
/// result is handed to the host.
pub open spec fn spec_leave(machine: Machine, result: Option<Value>) -> (
    Machine,
    Result<Step, ExecutionError>,
) {
    let left = machine.frames.last().code_index;
    let callers = machine.frames.drop_last();
    let variables = if spec_running(callers, left) {
        machine.variables
    } else {
        VariablesView {
            locals: without_owner(machine.variables.locals, left),
            ..machine.variables
        }
    };
    if callers.len() == 0 {
        (Machine { frames: callers, variables, ..machine }, Ok(Step::Finished(result)))
    } else {
        (
            Machine {
                frames: callers,
                variables,
                stack: match result {
                    Some(value) => machine.stack.push(value),
                    None => machine.stack,
                },
                ..machine
            },
            Ok(Step::Continue),
        )
    }
}

/// One instruction with a single operand type.
///
/// `Neg`, `Not`, `Dup` and `Popz` work on the stack and move on. `Ret` takes
/// the top of the stack off and ends the invocation with it; `Exit` ends the
/// invocation without a value. No other opcode belongs here.
pub open spec fn spec_single(machine: Machine, opcode: Opcode) -> (
    Machine,
    Result<Step, ExecutionError>,
) {
    match opcode {
        Opcode::Neg => {
            let (stack, out) = spec_neg_on_stack(machine.stack);
            spec_after(machine, stack, spec_quiet(out))
        },
        Opcode::Not => {
            let (stack, out) = spec_not_on_stack(machine.stack);
            spec_after(machine, stack, spec_quiet(out))
        },
        Opcode::Dup => {
            let (stack, out) = spec_dup(machine.stack);
            spec_after(machine, stack, spec_quiet(out))
        },
        Opcode::Popz => {
            let (stack, out) = spec_popz(machine.stack);
            spec_after(machine, stack, spec_quiet(out))
        },
        Opcode::Ret => {
            let (stack, out) = spec_ret(machine.stack);
            match out {
                Ok(value) => spec_leave(machine.with_stack(stack), Some(value)),
                Err(error) => (machine.with_stack(stack), Err(error)),
            }
        },
        Opcode::Exit => spec_leave(machine, None),
        _ => (machine, Err(ExecutionError::InvalidOpcode)),
    }
}

/// One instruction with two operand types: the conversion to `target`, or an
/// arithmetic, bitwise or shift operator. No other opcode belongs here.
pub open spec fn spec_double(machine: Machine, opcode: Opcode, target: DataType) -> (
    Machine,
    Result<Step, ExecutionError>,
) {
    match opcode {
        Opcode::Conv => {
            let (stack, out) = spec_conv_on_stack(target, machine.stack);
            spec_after(machine, stack, out)
        },
        Opcode::Mul | Opcode::Div | Opcode::Rem | Opcode::Mod | Opcode::Add | Opcode::Sub
        | Opcode::And | Opcode::Or | Opcode::Xor | Opcode::Shl | Opcode::Shr => {
            let (stack, out) = spec_binary_on_stack(opcode, machine.stack);
            spec_after(machine, stack, out)
        },
        _ => (machine, Err(ExecutionError::InvalidOpcode)),
    }
}

/// The index that a jump by `jump_offset` from the instruction at `pc` leads
/// to: the offset is scaled by `JUMP_SCALE` and added to the index of the
/// jump itself.
pub open spec fn spec_jump_target(pc: usize, jump_offset: i32) -> int {
    pc + JUMP_SCALE * jump_offset
}

/// The machine after a jump by `jump_offset`: the invocation goes on at the
/// target. A target outside the instruction sequence is `MalformedCode`.
pub open spec fn spec_jump(data: GameData, machine: Machine, jump_offset: i32) -> (
    Machine,
    Result<Step, ExecutionError>,
) {
    let target = spec_jump_target(machine.frames.last().pc, jump_offset);
    if 0 <= target < spec_code_len(data, machine) {
        (machine.at(target), Ok(Step::Continue))
    } else {
        (machine, Err(ExecutionError::MalformedCode))
    }
}

/// The machine after a conditional branch that jumps where the condition is
/// `wanted`: the condition is taken off the stack, and the invocation jumps
/// or moves on to the next instruction.
pub open spec fn spec_branch(data: GameData, machine: Machine, wanted: bool, jump_offset: i32) -> (
    Machine,
    Result<Step, ExecutionError>,
) {
    let (stack, out) = spec_condition(wanted, machine.stack);
    match out {
        Ok(taken) => if taken {
            spec_jump(data, machine.with_stack(stack), jump_offset)
        } else {
            (machine.with_stack(stack).advance(), Ok(Step::Continue))
        },
        Err(error) => (machine.with_stack(stack), Err(error)),
    }
}

/// The entity that a value names: a non-negative integer of any width that
/// is an index.
pub open spec fn spec_entity(value: Value) -> Option<usize> {
    if value.is_integer() && 0 <= value.number() <= usize::MAX {
        Some(value.number() as usize)
    } else {
        None
    }
}

/// The machine after entering an environment: the entity named by the top of
/// the stack, which is taken off, executes from now on, and the entity that
/// executed so far is set aside. A value that names no entity is an
/// `UnsupportedOperand`.
pub open spec fn spec_push_env(machine: Machine) -> (Machine, Result<Step, ExecutionError>) {
    if machine.stack.len() == 0 {
        (machine, Err(ExecutionError::StackUnderflow))
    } else {
        let entered = machine.with_stack(machine.stack.drop_last());
        match spec_entity(machine.stack.last()) {
            Some(entity) => (
                Machine {
                    object_index: entity,
                    environments: machine.environments.push(machine.object_index),
                    ..entered.advance()
                },
                Ok(Step::Continue),
            ),
            None => (entered, Err(ExecutionError::UnsupportedOperand)),
        }
    }
}

/// The machine after leaving an environment: the entity that was set aside
/// last executes again. Leaving without having entered is `MalformedCode`.
pub open spec fn spec_pop_env(machine: Machine) -> (Machine, Result<Step, ExecutionError>) {
    if machine.environments.len() == 0 {
        (machine, Err(ExecutionError::MalformedCode))
    } else {
        (
            Machine {
                object_index: machine.environments.last(),
                environments: machine.environments.drop_last(),
                ..machine.advance()
            },
            Ok(Step::Continue),
        )
    }
}

/// One branch or environment instruction. The environment instructions do
/// not use their jump offset: the machine knows one entity at a time and
/// enters an environment exactly once. No other opcode belongs here.
pub open spec fn spec_goto(data: GameData, machine: Machine, opcode: Opcode, jump_offset: i32) -> (
    Machine,
    Result<Step, ExecutionError>,
) {
    match opcode {
        Opcode::B => spec_jump(data, machine, jump_offset),
        Opcode::Bt => spec_branch(data, machine, true, jump_offset),
        Opcode::Bf => spec_branch(data, machine, false, jump_offset),
        Opcode::PushEnv => spec_push_env(machine),
        Opcode::PopEnv => spec_pop_env(machine),
        _ => (machine, Err(ExecutionError::InvalidOpcode)),
    }
}

/// One store instruction: the top of the stack goes to the variable, with
/// the executing code object as the owner of locals and the executing entity
/// as the owner of instance variables that name no object.
pub open spec fn spec_store(
    machine: Machine,
    instance_type: InstanceType,
    destination: CodeVariable,
) -> (Machine, Result<Step, ExecutionError>) {
    let (variables, stack, out) = spec_pop(
        machine.variables,
        machine.frames.last().code_index,
        machine.object_index,
        machine.stack,
        instance_type,
        destination,
    );
    spec_after(Machine { variables, ..machine }, stack, spec_quiet(out))
}

/// One push instruction: a literal is pushed as it is; a variable descriptor
/// has the current value of its variable pushed, and the variable store is
/// not touched by either.
pub open spec fn spec_push(machine: Machine, value: Value) -> (
    Machine,
    Result<Step, ExecutionError>,
) {
    match value {
        Value::Variable(source) => match spec_load(
            machine.variables,
            machine.frames.last().code_index,
            machine.object_index,
            source,
        ) {
            Ok(loaded) => (
                machine.with_stack(machine.stack.push(loaded)).advance(),
                Ok(Step::Continue),
            ),
            Err(error) => (machine, Err(error)),
        },
        _ => (machine.with_stack(machine.stack.push(value)).advance(), Ok(Step::Continue)),
    }
}

/// One call instruction.
///
/// The function must exist and so must its code object, else the call is an
/// `UnresolvedFunction`. The instruction must pass as many arguments as the
/// function declares, else it is an `ArityMismatch`, and they must lie on the
/// stack, else it is a `StackUnderflow`. With `CALL_DEPTH_LIMIT` invocations
/// active the call fails with `CallDepthExceeded`. Otherwise the caller is
/// moved past the call and a new invocation of the function's code object
/// starts at its first instruction, on the same stack and variable store.
pub open spec fn spec_call(
    data: GameData,
    machine: Machine,
    function: usize,
    arguments_count: usize,
) -> (Machine, Result<Step, ExecutionError>) {
    if function >= data.functions@.len() {
        (machine, Err(ExecutionError::UnresolvedFunction))
    } else if data.functions@[function as int].code >= data.codes@.len() {
        (machine, Err(ExecutionError::UnresolvedFunction))
    } else if data.functions@[function as int].arguments_count != arguments_count {
        (machine, Err(ExecutionError::ArityMismatch))
    } else if machine.stack.len() < arguments_count {
        (machine, Err(ExecutionError::StackUnderflow))
    } else if machine.frames.len() >= CALL_DEPTH_LIMIT {
        (machine, Err(ExecutionError::CallDepthExceeded))
    } else {
        (
            Machine {
                frames: machine.advance().frames.push(
                    Frame { code_index: data.functions@[function as int].code, pc: 0 },
                ),
                ..machine
            },
            Ok(Step::Continue),
        )
    }
}

/// What executing `instruction` makes of the machine.
pub open spec fn spec_execute(data: GameData, machine: Machine, instruction: Instruction) -> (
    Machine,
    Result<Step, ExecutionError>,
) {
    match instruction {
        Instruction::SingleType { opcode, data_type } => spec_single(machine, opcode),
        Instruction::DoubleType { opcode, type1, type2 } => spec_double(machine, opcode, type2),
        Instruction::Comparison { comparison_type, type1, type2 } => {
            let (stack, out) = spec_comparison(comparison_type, machine.stack);
            spec_after(machine, stack, out)
        },
        Instruction::Goto { opcode, jump_offset } => spec_goto(data, machine, opcode, jump_offset),
        Instruction::Pop { instance_type, destination } => spec_store(
            machine,
            instance_type,
            destination,
        ),
        Instruction::Push { value } => spec_push(machine, value),
        Instruction::Call { function, arguments_count } => spec_call(
            data,
            machine,
            function,
            arguments_count,
        ),
        Instruction::Break { marker } => (machine.advance(), Ok(Step::Continue)),
    }
}

/// One step of the machine: the next instruction is fetched and executed. A
/// step that cannot fetch leaves the machine as it is.
pub open spec fn spec_step(data: GameData, machine: Machine) -> (
    Machine,
    Result<Step, ExecutionError>,
) {
    match spec_fetch(data, machine) {
        Ok(instruction) => spec_execute(data, machine, instruction),
        Err(error) => (machine, Err(error)),
    }
}

/// A run of at most `budget` steps: the machine steps until a step does not
/// say `Continue`, and that step's outcome is the outcome of the run. A run
/// whose budget is used up ends with `Continue`: the run can be resumed.
pub open spec fn spec_run(data: GameData, machine: Machine, budget: nat) -> (
    Machine,
    Result<Step, ExecutionError>,
)
    decreases budget,
{
    if budget == 0 {
        (machine, Ok(Step::Continue))
    } else {
        let (next, out) = spec_step(data, machine);
        match out {
            Ok(Step::Continue) => spec_run(data, next, (budget - 1) as nat),
            _ => (next, out),
        }
    }
}

/// The machine made ready to run the code object `code_index` on behalf of
/// the entity `object_index`.
///
/// Whatever ran before is abandoned: the only invocation is the new one, at
/// its first instruction; no environment is entered, no request is open, and
/// no local variable is left from earlier invocations. The operand stack and
/// the global and instance variables are kept. A code object that the
/// program does not have is `UnknownCode`, and the machine stays as it is.
pub open spec fn spec_enter(data: GameData, machine: Machine, code_index: usize, object_index: usize) -> (
    Machine,
    Result<(), ExecutionError>,
) {
    if code_index >= data.codes@.len() {
        (machine, Err(ExecutionError::UnknownCode))
    } else {
        (
            Machine {
                stack: machine.stack,
                variables: VariablesView {
                    locals: Map::<(usize, usize), Value>::empty(),
                    ..machine.variables
                },
                frames: seq![Frame { code_index, pc: 0 }],
                object_index,
                environments: Seq::<usize>::empty(),
                pending: None,
            },
            Ok(()),
        )
    }
}

/// Entering a code object and running it for at most `budget` steps.
pub open spec fn spec_run_code(
    data: GameData,
    machine: Machine,
    code_index: usize,
    object_index: usize,
    budget: nat,
) -> (Machine, Result<Step, ExecutionError>) {
    let (entered, out) = spec_enter(data, machine, code_index, object_index);
    match out {
        Ok(_) => spec_run(data, entered, budget),
        Err(error) => (entered, Err(error)),
    }
}

/// The machine after the host has answered the open request with `bits`: the
/// value that the bits stand for, in the type of the request's answer, is on
/// top of the stack and no request is open. Without an open request, or with
/// one whose answer is no datum, the answer is a breach of `HostProtocol` and
/// the machine stays as it is.
pub open spec fn spec_supply(machine: Machine, bits: u64) -> (Machine, Result<(), ExecutionError>) {
    match machine.pending {
        Some(request) => match spec_value_from_bits(request.spec_result_type(), bits) {
            Some(value) => (
                Machine { stack: machine.stack.push(value), pending: None, ..machine },
                Ok(()),
            ),
            None => (machine, Err(ExecutionError::HostProtocol)),
        },
        None => (machine, Err(ExecutionError::HostProtocol)),
    }
}

fn running(frames: &Vec<Frame>, code: usize) -> (found: bool)
    ensures
        found == spec_running(frames@, code),
{
    let mut i: usize = 0;
    while i < frames.len()
        invariant
            i <= frames.len(),
            forall|j: int| 0 <= j < i ==> (#[trigger] frames@[j]).code_index != code,
        decreases frames.len() - i,
    {
        if frames[i].code_index == code {
            return true;
        }
        i = i + 1;
    }
    false
}

fn jump_target(pc: usize, jump_offset: i32, len: usize) -> (target: Option<usize>)
    ensures
        target == (if 0 <= spec_jump_target(pc, jump_offset) < len {
            Some(spec_jump_target(pc, jump_offset) as usize)
        } else {
            None
        }),
{
    let target: i128 = pc as i128 + JUMP_SCALE as i128 * jump_offset as i128;
    if 0 <= target && target < len as i128 {
        Some(target as usize)
    } else {
        None
    }
}

fn entity(value: Value) -> (found: Option<usize>)
    ensures
        found == spec_entity(value),
{
    match value {
        Value::Int16(n) => if n >= 0 {
            Some(n as usize)
        } else {
            None
        },
        Value::Int32(n) => if n >= 0 {
            Some(n as usize)
        } else {
            None
        },
        Value::Int64(n) => if n >= 0 && n as u64 <= usize::MAX as u64 {
            Some(n as usize)
        } else {
            None
        },
        _ => None,
    }
}

fn quiet(out: Result<(), ExecutionError>) -> (same: Result<Option<FloatRequest>, ExecutionError>)
    ensures
        same == spec_quiet(out),
{
    match out {
        Ok(_) => Ok(None),
        Err(error) => Err(error),
    }
}

impl App {
    /// Whether an instruction can be fetched: something runs, no request is
    /// open, and control is inside an instruction sequence.
    pub open spec fn ready(&self) -> bool {
        spec_fetch(self.data, self@) is Ok
    }

    /// A machine for the program `data`, with nothing running, an empty
    /// stack and an empty variable store.
    pub fn new(data: GameData) -> (app: App)
        ensures
            app.data == data,
            app@.stack == Seq::<Value>::empty(),
            app@.variables.globals == Map::<usize, Value>::empty(),
            app@.variables.instances == Map::<(usize, usize), Value>::empty(),
            app@.variables.locals == Map::<(usize, usize), Value>::empty(),
            app@.frames == Seq::<Frame>::empty(),
            app@.object_index == 0,
            app@.environments == Seq::<usize>::empty(),
            app@.pending == None::<FloatRequest>,
    {
        App {
            data,
            stack: Stack::new(),
            variables: Variables::new(),
            frames: Vec::new(),
            object_index: 0,
            environments: Vec::new(),
            pending: None,
        }
    }

    fn fetch(&self) -> (out: Result<Instruction, ExecutionError>)
        ensures
            out == spec_fetch(self.data, self@),
    {
        if self.pending.is_some() || self.frames.len() == 0 {
            return Err(ExecutionError::HostProtocol);
        }
        let frame: Frame = self.frames[self.frames.len() - 1];
        if frame.code_index >= self.data.codes.len() {
            return Err(ExecutionError::UnknownCode);
        }
        let code: &Vec<Instruction> = &self.data.codes[frame.code_index].instructions;
        if frame.pc >= code.len() {
            return Err(ExecutionError::MalformedCode);
        }
        Ok(code[frame.pc])
    }

    fn at(&mut self, pc: usize)
        requires
            old(self).frames@.len() > 0,
        ensures
            final(self)@ == old(self)@.at(pc as int),
            final(self).data == old(self).data,
    {
        let last: usize = self.frames.len() - 1;
        let code_index: usize = self.frames[last].code_index;
        self.frames.set(last, Frame { code_index, pc });
    }

    fn advance(&mut self)
        requires
            old(self).ready(),
        ensures
            final(self)@ == old(self)@.advance(),
            final(self).data == old(self).data,
    {
        let frame: Frame = self.frames[self.frames.len() - 1];
        let len: usize = self.data.codes[frame.code_index].instructions.len();
        assert(frame.pc < len);
        self.at(frame.pc + 1);
    }

    fn after(&mut self, out: Result<Option<FloatRequest>, ExecutionError>) -> (step: Result<
        Step,
        ExecutionError,
    >)
        requires
            old(self).ready(),
        ensures
            (final(self)@, step) == spec_after(old(self)@, old(self)@.stack, out),
            final(self).data == old(self).data,
    {
        match out {
            Ok(None) => {
                self.advance();
                Ok(Step::Continue)
            },
            Ok(Some(request)) => {
                self.advance();
                self.pending = Some(request);
                Ok(Step::Float(request))
            },
            Err(error) => Err(error),
        }
    }

    fn leave(&mut self, result: Option<Value>) -> (step: Result<Step, ExecutionError>)
        requires
            old(self).frames@.len() > 0,
        ensures
            (final(self)@, step) == spec_leave(old(self)@, result),
            final(self).data == old(self).data,
    {
        let last: usize = self.frames.len() - 1;
        let left: usize = self.frames[last].code_index;
        self.frames.pop();
        if !running(&self.frames, left) {
            self.variables.clear_locals(left);
        }
        if self.frames.len() == 0 {
            Ok(Step::Finished(result))
        } else {
            match result {
                Some(value) => self.stack.push(value),
                None => {},
            }
            Ok(Step::Continue)
        }
    }

    fn run_single(&mut self, opcode: Opcode) -> (step: Result<Step, ExecutionError>)
        requires
            old(self).ready(),
        ensures
            (final(self)@, step) == spec_single(old(self)@, opcode),
            final(self).data == old(self).data,
    {
        match opcode {
            Opcode::Neg => {
                let out = neg(&mut self.stack);
                self.after(quiet(out))
            },
            Opcode::Not => {
                let out = not(&mut self.stack);
                self.after(quiet(out))
            },
            Opcode::Dup => {
                let out = dup(&mut self.stack);
                self.after(quiet(out))
            },
            Opcode::Popz => {
                let out = popz(&mut self.stack);
                self.after(quiet(out))
            },
            Opcode::Ret => match ret(&mut self.stack) {
                Ok(value) => self.leave(Some(value)),
                Err(error) => Err(error),
            },
            Opcode::Exit => self.leave(None),
            _ => Err(ExecutionError::InvalidOpcode),
        }
    }

    fn run_double(&mut self, opcode: Opcode, target: DataType) -> (step: Result<
        Step,
        ExecutionError,
    >)
        requires
            old(self).ready(),
        ensures
            (final(self)@, step) == spec_double(old(self)@, opcode, target),
            final(self).data == old(self).data,
    {
        proof {
            if old(self)@.stack.len() >= 2 {
                let lhs = old(self)@.stack[old(self)@.stack.len() - 1];
                let rhs = old(self)@.stack[old(self)@.stack.len() - 2];
                if opcode is And || opcode is Or || opcode is Xor || opcode is Shl
                    || opcode is Shr {
                    lemma_bits_never_defer(opcode, lhs, rhs);
                }
            }
        }
        let out: Result<Option<FloatRequest>, ExecutionError> = match opcode {
            Opcode::Conv => conv(&mut self.stack, target),
            Opcode::Mul => crate::code::instructions::double_type::mul(&mut self.stack),
            Opcode::Div => crate::code::instructions::double_type::div(&mut self.stack),
            Opcode::Rem => crate::code::instructions::double_type::rem(&mut self.stack),
            Opcode::Mod => crate::code::instructions::double_type::mod_(&mut self.stack),
            Opcode::Add => crate::code::instructions::double_type::add(&mut self.stack),
            Opcode::Sub => crate::code::instructions::double_type::sub(&mut self.stack),
            Opcode::And => quiet(crate::code::instructions::double_type::and(&mut self.stack)),
            Opcode::Or => quiet(crate::code::instructions::double_type::or(&mut self.stack)),
            Opcode::Xor => quiet(crate::code::instructions::double_type::xor(&mut self.stack)),
            Opcode::Shl => quiet(crate::code::instructions::double_type::shl(&mut self.stack)),
            Opcode::Shr => quiet(crate::code::instructions::double_type::shr(&mut self.stack)),
            _ => {
                return Err(ExecutionError::InvalidOpcode);
            },
        };
        self.after(out)
    }

    fn jump(&mut self, jump_offset: i32) -> (step: Result<Step, ExecutionError>)
        requires
            old(self).ready(),
        ensures
            (final(self)@, step) == spec_jump(old(self).data, old(self)@, jump_offset),
            final(self).data == old(self).data,
    {
        let frame: Frame = self.frames[self.frames.len() - 1];
        let len: usize = self.data.codes[frame.code_index].instructions.len();
        match jump_target(frame.pc, jump_offset, len) {
            Some(target) => {
                self.at(target);
                Ok(Step::Continue)
            },
            None => Err(ExecutionError::MalformedCode),
        }
    }

    fn branch(&mut self, wanted: bool, jump_offset: i32) -> (step: Result<Step, ExecutionError>)
        requires
            old(self).ready(),
        ensures
            (final(self)@, step) == spec_branch(old(self).data, old(self)@, wanted, jump_offset),
            final(self).data == old(self).data,
    {
        let out: Result<bool, ExecutionError> = if wanted {
            bt(&mut self.stack)
        } else {
            bf(&mut self.stack)
        };
        match out {
            Ok(true) => self.jump(jump_offset),
            Ok(false) => {
                self.advance();
                Ok(Step::Continue)
            },
            Err(error) => Err(error),
        }
    }

    fn push_env(&mut self) -> (step: Result<Step, ExecutionError>)
        requires
            old(self).ready(),
        ensures
            (final(self)@, step) == spec_push_env(old(self)@),
            final(self).data == old(self).data,
    {
        let named: Value = match self.stack.pop() {
            Ok(value) => value,
            Err(error) => {
                return Err(error);
            },
        };
        match entity(named) {
            Some(found) => {
                self.environments.push(self.object_index);
                self.object_index = found;
                self.advance();
                Ok(Step::Continue)
            },
            None => Err(ExecutionError::UnsupportedOperand),
        }
    }

    fn pop_env(&mut self) -> (step: Result<Step, ExecutionError>)
        requires
            old(self).ready(),
        ensures
            (final(self)@, step) == spec_pop_env(old(self)@),
            final(self).data == old(self).data,
    {
        match self.environments.pop() {
            Some(found) => {
                self.object_index = found;
                self.advance();
                Ok(Step::Continue)
            },
            None => Err(ExecutionError::MalformedCode),
        }
    }

    fn run_goto(&mut self, opcode: Opcode, jump_offset: i32) -> (step: Result<
        Step,
        ExecutionError,
    >)
        requires
            old(self).ready(),
        ensures
            (final(self)@, step) == spec_goto(old(self).data, old(self)@, opcode, jump_offset),
            final(self).data == old(self).data,
    {
        match opcode {
            Opcode::B => self.jump(jump_offset),
            Opcode::Bt => self.branch(true, jump_offset),
            Opcode::Bf => self.branch(false, jump_offset),
            Opcode::PushEnv => self.push_env(),
            Opcode::PopEnv => self.pop_env(),
            _ => Err(ExecutionError::InvalidOpcode),
        }
    }

    fn run_store(&mut self, instance_type: InstanceType, destination: CodeVariable) -> (step:
        Result<Step, ExecutionError>)
        requires
            old(self).ready(),
        ensures
            (final(self)@, step) == spec_store(old(self)@, instance_type, destination),
            final(self).data == old(self).data,
    {
        let code_index: usize = self.frames[self.frames.len() - 1].code_index;
        let out = crate::code::instructions::other::pop(
            &mut self.variables,
            code_index,
            self.object_index,
            &mut self.stack,
            &instance_type,
            &destination,
        );
        self.after(quiet(out))
    }

    fn run_push(&mut self, value: Value) -> (step: Result<Step, ExecutionError>)
        requires
            old(self).ready(),
        ensures
            (final(self)@, step) == spec_push(old(self)@, value),
            final(self).data == old(self).data,
    {
        let pushed: Value = match value {
            Value::Variable(source) => {
                let code_index: usize = self.frames[self.frames.len() - 1].code_index;
                match load(&self.variables, code_index, self.object_index, &source) {
                    Ok(loaded) => loaded,
                    Err(error) => {
                        return Err(error);
                    },
                }
            },
            _ => value,
        };
        self.stack.push(pushed);
        self.advance();
        Ok(Step::Continue)
    }

    fn run_call(&mut self, function: usize, arguments_count: usize) -> (step: Result<
        Step,
        ExecutionError,
    >)
        requires
            old(self).ready(),
        ensures
            (final(self)@, step) == spec_call(old(self).data, old(self)@, function, arguments_count),
            final(self).data == old(self).data,
    {
        if function >= self.data.functions.len() {
            return Err(ExecutionError::UnresolvedFunction);
        }
        let code_index: usize = self.data.functions[function].code;
        if code_index >= self.data.codes.len() {
            return Err(ExecutionError::UnresolvedFunction);
        }
        if self.data.functions[function].arguments_count != arguments_count {
            return Err(ExecutionError::ArityMismatch);
        }
        if self.stack.len() < arguments_count {
            return Err(ExecutionError::StackUnderflow);
        }
        if self.frames.len() >= CALL_DEPTH_LIMIT {
            return Err(ExecutionError::CallDepthExceeded);
        }
        self.advance();
        self.frames.push(Frame { code_index, pc: 0 });
        Ok(Step::Continue)
    }

    /// Executes the next instruction of the innermost invocation.
    ///
    /// The machine afterwards, and the outcome, are those of [`spec_step`]:
    /// `Continue` where the run goes on, `Float` where the host has to answer
    /// a request before the next step, `Finished` where the outermost
    /// invocation has returned or exited, and the error of the instruction
    /// where it failed. The program is never changed.
    pub fn run_instruction(&mut self) -> (step: Result<Step, ExecutionError>)
        ensures
            (final(self)@, step) == spec_step(old(self).data, old(self)@),
            final(self).data == old(self).data,
    {
        let instruction: Instruction = match self.fetch() {
            Ok(instruction) => instruction,
            Err(error) => {
                return Err(error);
            },
        };
        match instruction {
            Instruction::SingleType { opcode, data_type } => self.run_single(opcode),
            Instruction::DoubleType { opcode, type1, type2 } => self.run_double(opcode, type2),
            Instruction::Comparison { comparison_type, type1, type2 } => {
                let out = crate::code::instructions::other::cmp(&mut self.stack, comparison_type);
                self.after(out)
            },
            Instruction::Goto { opcode, jump_offset } => self.run_goto(opcode, jump_offset),
            Instruction::Pop { instance_type, destination } => self.run_store(
                instance_type,
                destination,
            ),
            Instruction::Push { value } => self.run_push(value),
            Instruction::Call { function, arguments_count } => self.run_call(
                function,
                arguments_count,
            ),
            Instruction::Break { marker } => {
                self.advance();
                Ok(Step::Continue)
            },
        }
    }

    /// Takes up the run for at most `budget` steps.
    ///
    /// The machine steps until a step ends the run, asks the host for
    /// something or fails, or until the budget is used up, in which case the
    /// outcome is `Continue` and the run can be resumed again.
    pub fn resume(&mut self, budget: usize) -> (step: Result<Step, ExecutionError>)
        ensures
            (final(self)@, step) == spec_run(old(self).data, old(self)@, budget as nat),
            final(self).data == old(self).data,
    {
        let mut left: usize = budget;
        while left > 0
            invariant
                self.data == old(self).data,
                spec_run(self.data, self@, left as nat) == spec_run(
                    old(self).data,
                    old(self)@,
                    budget as nat,
                ),
            decreases left,
        {
            match self.run_instruction() {
                Ok(Step::Continue) => {
                    left = left - 1;
                },
                other => {
                    return other;
                },
            }
        }
        Ok(Step::Continue)
    }

    /// Abandons whatever ran before and makes the machine ready to run the
    /// code object `code_index` on behalf of the entity `object_index`.
    pub fn enter(&mut self, code_index: usize, object_index: usize) -> (out: Result<
        (),
        ExecutionError,
    >)
        ensures
            (final(self)@, out) == spec_enter(
                old(self).data,
                old(self)@,
                code_index,
                object_index,
            ),
            final(self).data == old(self).data,
    {
        if code_index >= self.data.codes.len() {
            return Err(ExecutionError::UnknownCode);
        }
        self.variables.clear_all_locals();
        self.frames.clear();
        self.frames.push(Frame { code_index, pc: 0 });
        self.object_index = object_index;
        self.environments.clear();
        self.pending = None;
        assert(self.frames@ =~= seq![Frame { code_index, pc: 0 }]);
        Ok(())
    }

    /// Runs the code object `code_index` on behalf of the entity
    /// `object_index`, for at most `budget` steps.
    ///
    /// The outcome is `Finished` with the returned value where the code
    /// object ran to its return or exit, `Float` where the run stopped at an
    /// operation that the host has to compute, `Continue` where the budget
    /// was used up first, and the error where an instruction failed. After
    /// `Float` the host calls `supply`; after `Float` and `Continue` it
    /// calls `resume`.
    pub fn run_code(&mut self, code_index: usize, object_index: usize, budget: usize) -> (step:
        Result<Step, ExecutionError>)
        ensures
            (final(self)@, step) == spec_run_code(
                old(self).data,
                old(self)@,
                code_index,
                object_index,
                budget as nat,
            ),
            final(self).data == old(self).data,
    {
        match self.enter(code_index, object_index) {
            Ok(_) => self.resume(budget),
            Err(error) => Err(error),
        }
    }

    /// Answers the open request with `bits`, the bit pattern of the result
    /// that the host computed.
    pub fn supply(&mut self, bits: u64) -> (out: Result<(), ExecutionError>)
        ensures
            (final(self)@, out) == spec_supply(old(self)@, bits),
            final(self).data == old(self).data,
    {
        let request: FloatRequest = match self.pending {
            Some(request) => request,
            None => {
                return Err(ExecutionError::HostProtocol);
            },
        };
        match value_from_bits(request.result_type(), bits) {
            Some(value) => {
                self.stack.push(value);
                self.pending = None;
                Ok(())
            },
            None => Err(ExecutionError::HostProtocol),
        }
    }
}

} // verus!
