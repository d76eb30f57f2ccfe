//! What holds of the machine whatever the program and the values: each
//! statement here is proved from the definitions of the operations.
use vstd::prelude::*;
use crate::code::instructions::double_type::{
    spec_binary, spec_binary_on_stack, spec_conv, spec_shift_count,
};
use crate::code::instructions::single_type::{spec_neg, spec_neg_on_stack};
use crate::code::instructions::relation::spec_compare;
use crate::code::run::{spec_code_len, spec_fetch, spec_run, spec_step, Machine, Step};
use crate::code::stack::spec_pop;
use crate::deferred::{Computed, FloatRequest};
use crate::error::ExecutionError;
use crate::instruction::{GameData, Instruction, Opcode};
use crate::value::{ComparisonType, DataType, Value};

verus! {

/// Negating a number twice gives the number back, for each of the five
/// numeric variants. For integers this includes the least integer of a
/// width, which is its own negative; for floating-point numbers it holds of
/// the bit pattern, whatever number it stands for.
pub proof fn law_neg_is_an_involution(value: Value)
    requires
        value.is_integer() || value.is_floating(),
    ensures
        spec_neg(value) is Ok,
        spec_neg(spec_neg(value)->Ok_0) == Ok::<Value, ExecutionError>(value),
{
    match value {
        Value::Double(bits) => {
            assert((bits ^ 0x8000_0000_0000_0000u64) ^ 0x8000_0000_0000_0000u64 == bits)
                by (bit_vector);
        },
        Value::Float(bits) => {
            assert((bits ^ 0x8000_0000u32) ^ 0x8000_0000u32 == bits) by (bit_vector);
        },
        _ => {},
    }
}

/// On the stack, two negations in a row leave a stack with a number on top
/// exactly as it was.
pub proof fn law_neg_twice_restores_the_stack(stack: Seq<Value>)
    requires
        stack.len() > 0,
        stack.last().is_integer() || stack.last().is_floating(),
    ensures
        ({
            let (once, first) = spec_neg_on_stack(stack);
            let (twice, second) = spec_neg_on_stack(once);
            first is Ok && second is Ok && twice == stack
        }),
{
    law_neg_is_an_involution(stack.last());
    let (once, first) = spec_neg_on_stack(stack);
    let (twice, second) = spec_neg_on_stack(once);
    assert(once.last() == spec_neg(stack.last())->Ok_0);
    assert(once.drop_last() =~= stack.drop_last());
    assert(twice =~= stack);
}

/// Whether the type `tag` holds the number `n`: an integer type holds the
/// numbers of its range, the boolean holds zero and one.
pub open spec fn spec_holds(tag: DataType, n: int) -> bool {
    match tag {
        DataType::Int16 => i16::MIN <= n <= i16::MAX,
        DataType::Int32 => i32::MIN <= n <= i32::MAX,
        DataType::Int64 => i64::MIN <= n <= i64::MAX,
        DataType::Boolean => n == 0 || n == 1,
        _ => false,
    }
}

/// Converting an integer or a boolean to a type that holds its number keeps
/// the number, and the machine does it without the host.
pub proof fn law_conv_keeps_numbers_that_fit(value: Value, target: DataType)
    requires
        value.is_integer() || value is Boolean,
        spec_holds(target, value.number()),
    ensures
        spec_conv(value, target) matches Ok(Computed::Ready(converted))
            && converted.spec_data_type() == target && converted.number() == value.number(),
{
}

/// A chain of conversions that stays within range comes back to where it
/// started: an integer or a boolean that is converted to a type that holds
/// its number, then to another such type, and then to its own type again, is
/// the value it was.
pub proof fn law_conv_round_trip(value: Value, first: DataType, second: DataType)
    requires
        value.is_integer() || value is Boolean,
        spec_holds(first, value.number()),
        spec_holds(second, value.number()),
    ensures
        ({
            let there = spec_conv(value, first);
            let further = spec_conv(there->Ok_0->Ready_0, second);
            let back = spec_conv(further->Ok_0->Ready_0, value.spec_data_type());
            &&& there is Ok && there->Ok_0 is Ready
            &&& further is Ok && further->Ok_0 is Ready
            &&& back == Ok::<Computed, ExecutionError>(Computed::Ready(value))
        }),
{
    law_conv_keeps_numbers_that_fit(value, first);
    let there = spec_conv(value, first)->Ok_0->Ready_0;
    law_conv_keeps_numbers_that_fit(there, second);
    let further = spec_conv(there, second)->Ok_0->Ready_0;
    law_conv_keeps_numbers_that_fit(further, value.spec_data_type());
}

/// Division, remainder and modulus of integers by zero fail with
/// `DivisionByZero`, for each of the three widths and whatever the dividend.
pub proof fn law_division_by_zero(opcode: Opcode, lhs: Value, rhs: Value)
    requires
        opcode is Div || opcode is Rem || opcode is Mod,
        lhs.is_integer(),
        lhs.spec_data_type() == rhs.spec_data_type(),
        rhs.number() == 0,
    ensures
        spec_binary(opcode, lhs, rhs) == Err::<Computed, ExecutionError>(
            ExecutionError::DivisionByZero,
        ),
{
}

/// On the stack, a division, remainder or modulus whose divisor, the value
/// below the top, is an integer zero takes both operands off and fails with
/// `DivisionByZero`.
pub proof fn law_division_by_zero_on_stack(opcode: Opcode, stack: Seq<Value>)
    requires
        opcode is Div || opcode is Rem || opcode is Mod,
        stack.len() >= 2,
        stack[stack.len() - 1].is_integer(),
        stack[stack.len() - 1].spec_data_type() == stack[stack.len() - 2].spec_data_type(),
        stack[stack.len() - 2].number() == 0,
    ensures
        spec_binary_on_stack(opcode, stack) == (
            stack.take(stack.len() - 2),
            Err::<Option<FloatRequest>, ExecutionError>(
                ExecutionError::DivisionByZero,
            ),
        ),
{
    law_division_by_zero(opcode, stack[stack.len() - 1], stack[stack.len() - 2]);
}

/// The number of bits of an integer variant; zero for the other variants.
pub open spec fn spec_width(value: Value) -> int {
    match value {
        Value::Int16(_) => 16,
        Value::Int32(_) => 32,
        Value::Int64(_) => 64,
        _ => 0,
    }
}

/// A shift of an integer by at least as many bits as it is wide fails with
/// `ShiftOverflow`, in either direction. The amount is read as a 32-bit
/// count, so this is stated of the amounts that are such a count.
pub proof fn law_shift_overflow(opcode: Opcode, lhs: Value, rhs: Value)
    requires
        opcode is Shl || opcode is Shr,
        lhs.is_integer(),
        rhs.is_integer(),
        spec_width(lhs) <= rhs.number() <= u32::MAX,
    ensures
        spec_binary(opcode, lhs, rhs) == Err::<Computed, ExecutionError>(
            ExecutionError::ShiftOverflow,
        ),
{
    assert(spec_shift_count(rhs) == Some(rhs.number() as u32));
}

/// The stack after the values `values` were pushed on `stack`, the first of
/// them first.
pub open spec fn spec_push_all(stack: Seq<Value>, values: Seq<Value>) -> Seq<Value>
    decreases values.len(),
{
    if values.len() == 0 {
        stack
    } else {
        spec_push_all(stack.push(values.first()), values.drop_first())
    }
}

/// The stack after `count` pops, and what the pops returned, the first of
/// them first.
pub open spec fn spec_pop_all(stack: Seq<Value>, count: nat) -> (
    Seq<Value>,
    Seq<Result<Value, ExecutionError>>,
)
    decreases count,
{
    if count == 0 {
        (stack, Seq::empty())
    } else {
        let (rest, popped) = spec_pop(stack);
        let (end, others) = spec_pop_all(rest, (count - 1) as nat);
        (end, seq![popped] + others)
    }
}

/// Pushing values one after the other appends them to the stack.
pub proof fn lemma_push_all_appends(stack: Seq<Value>, values: Seq<Value>)
    ensures
        spec_push_all(stack, values) == stack + values,
    decreases values.len(),
{
    if values.len() == 0 {
        assert(stack + values =~= stack);
    } else {
        lemma_push_all_appends(stack.push(values.first()), values.drop_first());
        assert(stack.push(values.first()) + values.drop_first() =~= stack + values);
    }
}

/// Popping as many values as lie on top of `stack` returns them from the
/// last to the first and leaves `stack`.
pub proof fn lemma_pop_all_reverses(stack: Seq<Value>, values: Seq<Value>)
    ensures
        spec_pop_all(stack + values, values.len()) == (
            stack,
            Seq::new(
                values.len(),
                |i: int| Ok::<Value, ExecutionError>(values[values.len() - 1 - i]),
            ),
        ),
    decreases values.len(),
{
    let wanted = Seq::new(
        values.len(),
        |i: int| Ok::<Value, ExecutionError>(values[values.len() - 1 - i]),
    );
    if values.len() == 0 {
        assert(stack + values =~= stack);
        assert(wanted =~= Seq::empty());
    } else {
        let fewer = values.drop_last();
        assert((stack + values).drop_last() =~= stack + fewer);
        assert((stack + values).last() == values.last());
        lemma_pop_all_reverses(stack, fewer);
        let others = Seq::new(
            fewer.len(),
            |i: int| Ok::<Value, ExecutionError>(fewer[fewer.len() - 1 - i]),
        );
        assert(seq![Ok::<Value, ExecutionError>(values.last())] + others =~= wanted);
    }
}

/// Stack discipline: after any number of pushes, as many pops return the
/// pushed values in exactly the reverse order and leave the stack as it was
/// before the pushes. On a stack that was empty before, one more pop fails
/// with `StackUnderflow`.
pub proof fn law_stack_discipline(stack: Seq<Value>, values: Seq<Value>)
    ensures
        ({
            let (rest, popped) = spec_pop_all(spec_push_all(stack, values), values.len());
            &&& rest == stack
            &&& popped.len() == values.len()
            &&& forall|i: int|
                0 <= i < values.len() ==> popped[i] == Ok::<Value, ExecutionError>(
                    values[values.len() - 1 - i],
                )
            &&& stack.len() == 0 ==> spec_pop(rest).1 == Err::<Value, ExecutionError>(
                ExecutionError::StackUnderflow,
            )
        }),
{
    lemma_push_all_appends(stack, values);
    lemma_pop_all_reverses(stack, values);
}

/// The length of an instruction sequence is a machine index.
proof fn lemma_code_len_is_an_index(data: GameData, machine: Machine)
    requires
        spec_fetch(data, machine) is Ok,
    ensures
        spec_code_len(data, machine) <= usize::MAX,
{
    let code = data.codes@[machine.frames.last().code_index as int];
    assert(code.instructions.len() == code.instructions@.len());
}

/// Jump arithmetic: an unconditional branch with offset `jump_offset` at the
/// instruction index `pc` continues at the index `pc + 4 * jump_offset`,
/// backwards for a negative offset, and changes nothing else. A branch whose
/// target is not an instruction of the code object fails with
/// `MalformedCode` and leaves the machine as it is.
pub proof fn law_jump_is_scaled_by_four(data: GameData, machine: Machine, jump_offset: i32)
    requires
        spec_fetch(data, machine) == Ok::<Instruction, ExecutionError>(
            Instruction::Goto { opcode: Opcode::B, jump_offset },
        ),
    ensures
        ({
            let target = machine.frames.last().pc + 4 * jump_offset;
            let (after, out) = spec_step(data, machine);
            if 0 <= target < spec_code_len(data, machine) {
                &&& out == Ok::<Step, ExecutionError>(Step::Continue)
                &&& after == machine.at(target)
                &&& after.frames.last().pc == target
                &&& after.frames.last().code_index == machine.frames.last().code_index
                &&& after.frames.len() == machine.frames.len()
            } else {
                &&& out == Err::<Step, ExecutionError>(ExecutionError::MalformedCode)
                &&& after == machine
            }
        }),
{
    lemma_code_len_is_an_index(data, machine);
}

/// Jump arithmetic of conditional branches: a branch-if-true or
/// branch-if-false whose condition is on top of the stack takes the
/// condition off; where the condition is the one it jumps on it continues at
/// `pc + 4 * jump_offset`, and at `pc + 1` where it is the other.
pub proof fn law_conditional_jump(
    data: GameData,
    machine: Machine,
    opcode: Opcode,
    jump_offset: i32,
    condition: bool,
)
    requires
        opcode is Bt || opcode is Bf,
        spec_fetch(data, machine) == Ok::<Instruction, ExecutionError>(
            Instruction::Goto { opcode, jump_offset },
        ),
        machine.stack.len() > 0,
        machine.stack.last() == Value::Boolean(condition),
        0 <= machine.frames.last().pc + 4 * jump_offset < spec_code_len(data, machine),
    ensures
        ({
            let (after, out) = spec_step(data, machine);
            &&& out == Ok::<Step, ExecutionError>(Step::Continue)
            &&& after.stack == machine.stack.drop_last()
            &&& after.frames.last().pc == (if condition == (opcode is Bt) {
                machine.frames.last().pc + 4 * jump_offset
            } else {
                machine.frames.last().pc + 1
            })
        }),
{
    lemma_code_len_is_an_index(data, machine);
}

/// A run may be taken in parts: running for `first` steps and, where that
/// used up its budget, resuming for `second` steps ends exactly as one run of
/// `first + second` steps. Where the first part ended otherwise, the longer
/// run ended there too.
pub proof fn law_run_in_parts(data: GameData, machine: Machine, first: nat, second: nat)
    ensures
        spec_run(data, machine, first + second) == (match spec_run(data, machine, first).1 {
            Ok(Step::Continue) => spec_run(data, spec_run(data, machine, first).0, second),
            _ => spec_run(data, machine, first),
        }),
    decreases first,
{
    if first > 0 {
        let (next, out) = spec_step(data, machine);
        if out == Ok::<Step, ExecutionError>(Step::Continue) {
            law_run_in_parts(data, next, (first - 1) as nat, second);
            assert((first + second - 1) as nat == (first - 1) as nat + second);
        }
    }
}

/// The host is asked for floating-point work only: an operator, a
/// comparison or a conversion that the machine does not compute itself has a
/// floating-point operand, or converts to a floating-point type.
pub proof fn law_requests_are_floating_point(
    opcode: Opcode,
    comparison_type: ComparisonType,
    target: DataType,
    lhs: Value,
    rhs: Value,
)
    ensures
        spec_binary(opcode, lhs, rhs) matches Ok(Computed::Deferred(request)) ==> lhs.is_floating()
            && rhs.is_floating() && request == (FloatRequest::Binary { opcode, lhs, rhs }),
        spec_compare(comparison_type, lhs, rhs) matches Ok(Computed::Deferred(request))
            ==> lhs.is_floating() && rhs.is_floating() && request == (FloatRequest::Compare {
            comparison_type,
            lhs,
            rhs,
        }),
        spec_conv(lhs, target) matches Ok(Computed::Deferred(request)) ==> (lhs.is_floating()
            || target is Double || target is Float) && request == (FloatRequest::Convert {
            value: lhs,
            target,
        }),
{
}

/// The outcome of a step tells the state of the machine: after `Finished`
/// nothing runs any more; after `Float` exactly the request handed out is
/// open; after `Continue` an invocation is active and no request is open. A
/// failed step opens no request and ends no invocation.
pub proof fn law_outcome_tells_the_state(data: GameData, machine: Machine)
    ensures
        ({
            let (after, out) = spec_step(data, machine);
            match out {
                Ok(Step::Finished(_)) => after.frames.len() == 0 && after.pending is None,
                Ok(Step::Float(request)) => after.frames.len() > 0 && after.pending == Some(
                    request,
                ),
                Ok(Step::Continue) => after.frames.len() > 0 && after.pending is None,
                Err(_) => after.frames == machine.frames && after.pending == machine.pending,
            }
        }),
{
}

} // verus!
