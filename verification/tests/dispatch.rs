use acorn::code::run::{App, Frame, Step, CALL_DEPTH_LIMIT, JUMP_SCALE};
use acorn::deferred::FloatRequest;
use acorn::error::ExecutionError;
use acorn::instruction::{Code, Function, GameData, Instruction, Opcode};
use acorn::value::{CodeVariable, ComparisonType, DataType, InstanceType, Value};

const BUDGET: usize = 100_000;

fn single(opcode: Opcode) -> Instruction {
    Instruction::SingleType { opcode, data_type: DataType::Int32 }
}

fn double(opcode: Opcode) -> Instruction {
    Instruction::DoubleType { opcode, type1: DataType::Int32, type2: DataType::Int32 }
}

fn conv(target: DataType) -> Instruction {
    Instruction::DoubleType { opcode: Opcode::Conv, type1: DataType::Int32, type2: target }
}

fn compare(comparison_type: ComparisonType) -> Instruction {
    Instruction::Comparison { comparison_type, type1: DataType::Int32, type2: DataType::Int32 }
}

fn goto(opcode: Opcode, jump_offset: i32) -> Instruction {
    Instruction::Goto { opcode, jump_offset }
}

fn push(value: Value) -> Instruction {
    Instruction::Push { value }
}

fn push_variable(variable: usize, instance_type: InstanceType) -> Instruction {
    Instruction::Push { value: Value::Variable(CodeVariable { variable, instance_type }) }
}

fn store(variable: usize, instance_type: InstanceType) -> Instruction {
    Instruction::Pop { instance_type, destination: CodeVariable { variable, instance_type } }
}

fn call(function: usize, arguments_count: usize) -> Instruction {
    Instruction::Call { function, arguments_count }
}

fn marker() -> Instruction {
    Instruction::Break { marker: 0 }
}

/// A program of the given code objects, with one function for each that
/// takes no arguments.
fn program(codes: Vec<Vec<Instruction>>) -> GameData {
    let functions =
        (0..codes.len()).map(|code| Function { code, arguments_count: 0 }).collect();
    GameData {
        codes: codes.into_iter().map(|instructions| Code { instructions }).collect(),
        functions,
    }
}

/// A machine that runs the single code object `instructions`.
fn machine(instructions: Vec<Instruction>) -> App {
    App::new(program(vec![instructions]))
}

/// Runs the code object to its end, computing what the machine asks for.
fn run(app: &mut App, code_index: usize, object_index: usize) -> Result<Option<Value>, ExecutionError> {
    let mut step = app.run_code(code_index, object_index, BUDGET)?;
    loop {
        match step {
            Step::Finished(result) => return Ok(result),
            Step::Float(request) => app.supply(float_unit(request))?,
            Step::Continue => panic!("the budget was used up"),
        }
        step = app.resume(BUDGET)?;
    }
}

/// The arithmetic that the host computes.
fn float_unit(request: FloatRequest) -> u64 {
    match request {
        FloatRequest::Binary { opcode, lhs: Value::Double(a), rhs: Value::Double(b) } => {
            let (a, b) = (f64::from_bits(a), f64::from_bits(b));
            let result = match opcode {
                Opcode::Add => a + b,
                Opcode::Sub => a - b,
                Opcode::Mul => a * b,
                Opcode::Div => a / b,
                Opcode::Rem => a.rem_euclid(b),
                Opcode::Mod => a % b,
                other => panic!("no floating-point operator: {other:?}"),
            };
            result.to_bits()
        }
        FloatRequest::Compare { comparison_type, lhs: Value::Double(a), rhs: Value::Double(b) } => {
            let (a, b) = (f64::from_bits(a), f64::from_bits(b));
            u64::from(match comparison_type {
                ComparisonType::LT => a < b,
                ComparisonType::LTE => a <= b,
                ComparisonType::EQ => a == b,
                ComparisonType::NEQ => a != b,
                ComparisonType::GTE => a >= b,
                ComparisonType::GT => a > b,
            })
        }
        FloatRequest::Convert { value: Value::Int32(n), target: DataType::Double } => {
            f64::from(n).to_bits()
        }
        FloatRequest::Convert { value: Value::Double(bits), target: DataType::Int32 } => {
            (f64::from_bits(bits) as i32) as u32 as u64
        }
        other => panic!("the tests do not compute {other:?}"),
    }
}

#[test]
fn a_new_machine_is_idle() {
    let app = machine(vec![single(Opcode::Exit)]);
    assert!(app.frames.is_empty());
    assert!(app.environments.is_empty());
    assert_eq!(app.pending, None);
    assert_eq!(app.object_index, 0);
    assert_eq!(app.stack.len(), 0);
    assert!(app.variables.globals.is_empty());
}

#[test]
fn ret_yields_the_top_of_the_stack() {
    let mut app = machine(vec![push(Value::Int32(5)), push(Value::Int32(6)), single(Opcode::Ret)]);
    assert_eq!(run(&mut app, 0, 0), Ok(Some(Value::Int32(6))));
    assert_eq!(app.stack.items, vec![Value::Int32(5)]);
    assert!(app.frames.is_empty());
}

#[test]
fn exit_yields_nothing() {
    let mut app = machine(vec![push(Value::Int32(5)), single(Opcode::Exit), single(Opcode::Ret)]);
    assert_eq!(run(&mut app, 0, 0), Ok(None));
    assert_eq!(app.stack.items, vec![Value::Int32(5)]);
}

#[test]
fn running_off_the_end_is_malformed_code() {
    let mut app = machine(vec![push(Value::Int32(5)), single(Opcode::Popz)]);
    assert_eq!(run(&mut app, 0, 0), Err(ExecutionError::MalformedCode));
    let mut app = machine(vec![]);
    assert_eq!(run(&mut app, 0, 0), Err(ExecutionError::MalformedCode));
}

#[test]
fn an_unknown_code_object_does_not_run() {
    let mut app = machine(vec![single(Opcode::Exit)]);
    app.stack.push(Value::Int32(1));
    assert_eq!(app.run_code(1, 0, BUDGET), Err(ExecutionError::UnknownCode));
    assert!(app.frames.is_empty());
    assert_eq!(app.stack.items, vec![Value::Int32(1)]);
    app.frames.push(Frame { code_index: 3, pc: 0 });
    assert_eq!(app.run_instruction(), Err(ExecutionError::UnknownCode));
}

#[test]
fn single_type_operators_run_in_sequence() {
    let mut app = machine(vec![
        push(Value::Int32(5)),
        single(Opcode::Neg),
        single(Opcode::Dup),
        push(Value::Boolean(false)),
        single(Opcode::Not),
        single(Opcode::Popz),
        double(Opcode::Add),
        single(Opcode::Ret),
    ]);
    assert_eq!(run(&mut app, 0, 0), Ok(Some(Value::Int32(-10))));
    assert_eq!(app.stack.len(), 0);
}

#[test]
fn double_type_operators_run_in_sequence() {
    // ((((7 - 2) * 3) / 4) << 2 | 1) ^ 8, with the top as left-hand side.
    let mut app = machine(vec![
        push(Value::Int32(2)),
        push(Value::Int32(7)),
        double(Opcode::Sub),
        push(Value::Int32(3)),
        double(Opcode::Mul),
        push(Value::Int32(4)),
        single(Opcode::Dup),
        single(Opcode::Popz),
        // The divisor lies below the dividend: swap by storing.
        store(0, InstanceType::Local),
        store(1, InstanceType::Local),
        push_variable(0, InstanceType::Local),
        push_variable(1, InstanceType::Local),
        double(Opcode::Div),
        store(1, InstanceType::Local),
        push(Value::Int32(2)),
        push_variable(1, InstanceType::Local),
        double(Opcode::Shl),
        push(Value::Int32(1)),
        double(Opcode::Or),
        push(Value::Int32(8)),
        double(Opcode::Xor),
        single(Opcode::Ret),
    ]);
    assert_eq!(run(&mut app, 0, 0), Ok(Some(Value::Int32(5))));
}

#[test]
fn remainder_modulus_and_shift_right_dispatch() {
    let mut app = machine(vec![
        push(Value::Int32(5)),
        push(Value::Int32(-17)),
        double(Opcode::Rem),
        push(Value::Int32(5)),
        push(Value::Int32(-17)),
        double(Opcode::Mod),
        double(Opcode::And),
        push(Value::Int32(1)),
        push(Value::Int32(-64)),
        double(Opcode::Shr),
        double(Opcode::Add),
        single(Opcode::Ret),
    ]);
    // -17 rem 5 = -2, -17 mod 5 = -2, -2 & -2 = -2, -64 >> 1 = -32, -32 + -2.
    assert_eq!(run(&mut app, 0, 0), Ok(Some(Value::Int32(-34))));
}

#[test]
fn conversion_dispatches_on_the_second_type() {
    let mut app = machine(vec![
        push(Value::Int32(2)),
        conv(DataType::Boolean),
        single(Opcode::Ret),
    ]);
    assert_eq!(run(&mut app, 0, 0), Ok(Some(Value::Boolean(false))));
    let mut app = machine(vec![
        push(Value::Int32(70000)),
        Instruction::DoubleType {
            opcode: Opcode::Conv,
            type1: DataType::Boolean,
            type2: DataType::Int16,
        },
        single(Opcode::Ret),
    ]);
    assert_eq!(run(&mut app, 0, 0), Ok(Some(Value::Int16(4464))));
}

#[test]
fn comparison_dispatches() {
    let mut app = machine(vec![
        push(Value::Int32(1)),
        push(Value::Int32(2)),
        compare(ComparisonType::LT),
        single(Opcode::Ret),
    ]);
    assert_eq!(run(&mut app, 0, 0), Ok(Some(Value::Boolean(true))));
}

#[test]
fn an_opcode_of_another_category_is_invalid() {
    let wrong = [
        single(Opcode::Add),
        single(Opcode::B),
        single(Opcode::Conv),
        single(Opcode::Push),
        double(Opcode::Neg),
        double(Opcode::Ret),
        double(Opcode::Cmp),
        double(Opcode::Bt),
        goto(Opcode::Ret, 0),
        goto(Opcode::Add, 1),
        goto(Opcode::Call, 1),
    ];
    for instruction in wrong {
        let mut app = machine(vec![push(Value::Int32(1)), push(Value::Int32(1)), instruction]);
        assert_eq!(run(&mut app, 0, 0), Err(ExecutionError::InvalidOpcode));
        assert_eq!(app.stack.len(), 2);
        assert_eq!(app.frames, vec![Frame { code_index: 0, pc: 2 }]);
    }
}

#[test]
fn a_failing_instruction_stops_the_run() {
    let mut app = machine(vec![
        push(Value::Int32(0)),
        push(Value::Int32(1)),
        double(Opcode::Div),
        push(Value::Int32(9)),
        single(Opcode::Ret),
    ]);
    assert_eq!(run(&mut app, 0, 0), Err(ExecutionError::DivisionByZero));
    assert_eq!(app.stack.len(), 0);
    assert_eq!(app.frames, vec![Frame { code_index: 0, pc: 2 }]);
}

#[test]
fn break_does_nothing() {
    let mut app = machine(vec![marker(), push(Value::Int32(1)), marker(), single(Opcode::Ret)]);
    assert_eq!(app.enter(0, 0), Ok(()));
    assert_eq!(app.run_instruction(), Ok(Step::Continue));
    assert_eq!(app.frames, vec![Frame { code_index: 0, pc: 1 }]);
    assert_eq!(app.stack.len(), 0);
    assert_eq!(app.resume(BUDGET), Ok(Step::Finished(Some(Value::Int32(1)))));
}

#[test]
fn the_jump_scale_is_four() {
    assert_eq!(JUMP_SCALE, 4);
}

#[test]
fn a_jump_lands_at_the_scaled_offset() {
    // From index, by offset, to index.
    let table: [(usize, i32, usize); 8] = [
        (5, 3, 17),
        (0, 1, 4),
        (0, 4, 16),
        (1, 2, 9),
        (17, -4, 1),
        (19, -1, 15),
        (8, -2, 0),
        (6, 0, 6),
    ];
    for (from, offset, to) in table {
        let mut instructions = vec![marker(); 20];
        instructions[from] = goto(Opcode::B, offset);
        let mut app = machine(instructions);
        assert_eq!(app.enter(0, 0), Ok(()));
        assert_eq!(app.resume(from), Ok(Step::Continue));
        assert_eq!(app.frames, vec![Frame { code_index: 0, pc: from }]);
        assert_eq!(app.run_instruction(), Ok(Step::Continue));
        assert_eq!(app.frames, vec![Frame { code_index: 0, pc: to }]);
    }
}

#[test]
fn a_jump_skips_what_lies_between() {
    let mut instructions = vec![push(Value::Int32(0)); 18];
    instructions[5] = goto(Opcode::B, 3);
    instructions.push(single(Opcode::Exit));
    let mut app = machine(instructions);
    assert_eq!(run(&mut app, 0, 0), Ok(None));
    // Five pushes before the jump and the one at index 17 after it.
    assert_eq!(app.stack.len(), 6);
}

#[test]
fn a_jump_out_of_the_code_is_malformed() {
    for (from, offset) in [(0usize, -1), (3, -1), (0, 5), (19, 1), (4, 4), (2, i32::MAX), (2, i32::MIN)]
    {
        let mut instructions = vec![marker(); 20];
        instructions[from] = goto(Opcode::B, offset);
        let mut app = machine(instructions);
        assert_eq!(app.run_code(0, 0, BUDGET), Err(ExecutionError::MalformedCode));
        assert_eq!(app.frames, vec![Frame { code_index: 0, pc: from }]);
    }
}

#[test]
fn conditional_branches_jump_or_fall_through() {
    for (opcode, condition, jumps) in [
        (Opcode::Bt, true, true),
        (Opcode::Bt, false, false),
        (Opcode::Bf, true, false),
        (Opcode::Bf, false, true),
    ] {
        let mut instructions = vec![marker(); 10];
        instructions[0] = push(Value::Int32(9));
        instructions[1] = push(Value::Boolean(condition));
        instructions[2] = goto(opcode, 1);
        let mut app = machine(instructions);
        assert_eq!(app.enter(0, 0), Ok(()));
        assert_eq!(app.resume(3), Ok(Step::Continue));
        let pc = if jumps { 6 } else { 3 };
        assert_eq!(app.frames, vec![Frame { code_index: 0, pc }]);
        assert_eq!(app.stack.items, vec![Value::Int32(9)]);
    }
}

#[test]
fn a_branch_on_no_boolean_fails() {
    let mut app = machine(vec![push(Value::Int32(1)), goto(Opcode::Bt, 0), single(Opcode::Exit)]);
    assert_eq!(run(&mut app, 0, 0), Err(ExecutionError::ConditionTypeError));
    assert_eq!(app.stack.len(), 0);
    let mut app = machine(vec![goto(Opcode::Bf, 0), single(Opcode::Exit)]);
    assert_eq!(run(&mut app, 0, 0), Err(ExecutionError::StackUnderflow));
}

#[test]
fn a_loop_counts_down() {
    // local 0 = 3; do { local 0 = local 0 - 1 } while local 0 != 0; with the
    // loop body placed four instructions apart from its branch.
    let mut app = machine(vec![
        push(Value::Int32(12)),
        store(0, InstanceType::Local),
        marker(),
        marker(),
        // index 4
        push(Value::Int32(4)),
        push_variable(0, InstanceType::Local),
        double(Opcode::Sub),
        store(0, InstanceType::Local),
        // index 8
        push_variable(0, InstanceType::Local),
        push(Value::Int32(0)),
        compare(ComparisonType::EQ),
        marker(),
        // index 12: back to index 4 while the counter is not zero.
        goto(Opcode::Bf, -2),
        push_variable(0, InstanceType::Local),
        single(Opcode::Ret),
    ]);
    assert_eq!(run(&mut app, 0, 0), Ok(Some(Value::Int32(0))));
}

#[test]
fn call_and_store_end_to_end() {
    // A pushes two numbers and calls B; B takes both off, adds them and
    // returns the sum; A stores what it got in a global.
    let a = vec![
        push(Value::Int32(40)),
        push(Value::Int32(2)),
        call(0, 2),
        store(7, InstanceType::Global),
        single(Opcode::Exit),
    ];
    let b = vec![
        store(0, InstanceType::Local),
        store(1, InstanceType::Local),
        push_variable(0, InstanceType::Local),
        push_variable(1, InstanceType::Local),
        double(Opcode::Add),
        single(Opcode::Ret),
    ];
    let data = GameData {
        codes: vec![Code { instructions: a }, Code { instructions: b }],
        functions: vec![Function { code: 1, arguments_count: 2 }],
    };
    let mut app = App::new(data);
    assert_eq!(run(&mut app, 0, 0), Ok(None));
    assert_eq!(app.variables.global(7), Some(Value::Int32(42)));
    assert_eq!(app.variables.globals.len(), 1);
    assert_eq!(app.stack.len(), 0);
    assert!(app.frames.is_empty());
    assert!(app.variables.locals.get(&1).is_none());
}

#[test]
fn a_call_without_result_pushes_nothing() {
    let mut app = App::new(program(vec![
        vec![push(Value::Int32(1)), call(1, 0), single(Opcode::Ret)],
        vec![single(Opcode::Exit)],
    ]));
    assert_eq!(run(&mut app, 0, 0), Ok(Some(Value::Int32(1))));
    assert_eq!(app.stack.len(), 0);
}

#[test]
fn calls_nest() {
    let mut app = App::new(program(vec![
        vec![call(1, 0), push(Value::Int32(1)), double(Opcode::Add), single(Opcode::Ret)],
        vec![call(2, 0), push(Value::Int32(10)), double(Opcode::Add), single(Opcode::Ret)],
        vec![push(Value::Int32(100)), single(Opcode::Ret)],
    ]));
    assert_eq!(app.enter(0, 0), Ok(()));
    assert_eq!(app.resume(2), Ok(Step::Continue));
    assert_eq!(
        app.frames,
        vec![
            Frame { code_index: 0, pc: 1 },
            Frame { code_index: 1, pc: 1 },
            Frame { code_index: 2, pc: 0 }
        ]
    );
    assert_eq!(app.resume(BUDGET), Ok(Step::Finished(Some(Value::Int32(111)))));
}

#[test]
fn a_failure_in_a_callee_ends_the_whole_run() {
    let mut app = App::new(program(vec![
        vec![call(1, 0), push(Value::Int32(1)), single(Opcode::Ret)],
        vec![push(Value::Int32(0)), push(Value::Int32(1)), double(Opcode::Mod), single(Opcode::Ret)],
    ]));
    assert_eq!(run(&mut app, 0, 0), Err(ExecutionError::DivisionByZero));
}

#[test]
fn a_call_must_resolve() {
    let mut data = program(vec![vec![call(5, 0), single(Opcode::Exit)]]);
    let mut app = App::new(data.clone());
    assert_eq!(run(&mut app, 0, 0), Err(ExecutionError::UnresolvedFunction));
    assert_eq!(app.frames, vec![Frame { code_index: 0, pc: 0 }]);
    data.functions = vec![Function { code: 4, arguments_count: 0 }];
    data.codes[0].instructions[0] = call(0, 0);
    let mut app = App::new(data);
    assert_eq!(run(&mut app, 0, 0), Err(ExecutionError::UnresolvedFunction));
}

#[test]
fn a_call_must_pass_the_declared_arguments() {
    let data = GameData {
        codes: vec![
            Code { instructions: vec![push(Value::Int32(1)), call(0, 1), single(Opcode::Exit)] },
            Code { instructions: vec![single(Opcode::Exit)] },
        ],
        functions: vec![Function { code: 1, arguments_count: 2 }],
    };
    let mut app = App::new(data.clone());
    assert_eq!(run(&mut app, 0, 0), Err(ExecutionError::ArityMismatch));
    assert_eq!(app.stack.len(), 1);
    let mut short = data;
    short.codes[0].instructions[1] = call(0, 2);
    let mut app = App::new(short);
    assert_eq!(run(&mut app, 0, 0), Err(ExecutionError::StackUnderflow));
    assert_eq!(app.stack.len(), 1);
}

#[test]
fn calls_nest_to_the_limit_and_no_deeper() {
    let mut app = App::new(program(vec![vec![call(0, 0), single(Opcode::Exit)]]));
    assert_eq!(run(&mut app, 0, 0), Err(ExecutionError::CallDepthExceeded));
    assert_eq!(app.frames.len(), CALL_DEPTH_LIMIT);
    assert_eq!(CALL_DEPTH_LIMIT, 1024);
}

#[test]
fn push_loads_the_current_value() {
    let mut app = machine(vec![
        push(Value::Int32(1)),
        store(3, InstanceType::Global),
        push_variable(3, InstanceType::Global),
        push(Value::Int32(2)),
        store(3, InstanceType::Global),
        push_variable(3, InstanceType::Global),
        double(Opcode::Sub),
        single(Opcode::Ret),
    ]);
    assert_eq!(run(&mut app, 0, 0), Ok(Some(Value::Int32(1))));
    assert_eq!(app.variables.global(3), Some(Value::Int32(2)));
}

#[test]
fn push_of_an_unset_variable_fails() {
    let mut app = machine(vec![push_variable(3, InstanceType::Global), single(Opcode::Ret)]);
    assert_eq!(run(&mut app, 0, 0), Err(ExecutionError::UnsetVariable));
    assert_eq!(app.stack.len(), 0);
    let mut app = machine(vec![push_variable(3, InstanceType::StackTop), single(Opcode::Ret)]);
    assert_eq!(
        run(&mut app, 0, 0),
        Err(ExecutionError::InvalidScope { instance_type: InstanceType::StackTop, value: None })
    );
}

#[test]
fn a_store_to_an_unsupported_scope_fails() {
    let mut app = machine(vec![
        push(Value::Int32(1)),
        store(3, InstanceType::Argument),
        single(Opcode::Exit),
    ]);
    assert_eq!(
        run(&mut app, 0, 0),
        Err(ExecutionError::InvalidScope {
            instance_type: InstanceType::Argument,
            value: Some(Value::Int32(1))
        })
    );
}

#[test]
fn instance_variables_belong_to_the_executing_entity() {
    let code = vec![
        push(Value::Int32(1)),
        store(0, InstanceType::Instance(None)),
        push(Value::Int32(2)),
        store(0, InstanceType::Instance(Some(50))),
        single(Opcode::Exit),
    ];
    let mut app = machine(code);
    assert_eq!(run(&mut app, 0, 4), Ok(None));
    assert_eq!(run(&mut app, 0, 5), Ok(None));
    assert_eq!(app.variables.instance(0, 4), Some(Value::Int32(1)));
    assert_eq!(app.variables.instance(0, 5), Some(Value::Int32(1)));
    assert_eq!(app.variables.instance(0, 50), Some(Value::Int32(2)));
    assert_eq!(app.variables.instance(0, 0), None);
}

#[test]
fn locals_do_not_outlive_their_invocation() {
    // C1 reads its local where one is set and sets it otherwise.
    let c1_store =
        vec![push(Value::Int32(11)), store(0, InstanceType::Local), single(Opcode::Exit)];
    let c1_load = vec![push_variable(0, InstanceType::Local), single(Opcode::Ret)];
    let c2 = vec![push(Value::Int32(22)), store(0, InstanceType::Local), single(Opcode::Exit)];
    let mut app = App::new(program(vec![c1_store, c2, c1_load]));
    assert_eq!(run(&mut app, 0, 0), Ok(None));
    assert_eq!(app.variables.local(0, 0), None);
    assert_eq!(run(&mut app, 1, 0), Ok(None));
    // The same code object again: whatever it reads first is not there.
    app.data.codes[0] = app.data.codes[2].clone();
    assert_eq!(run(&mut app, 0, 0), Err(ExecutionError::UnsetVariable));
}

#[test]
fn a_called_code_object_starts_without_locals() {
    // A calls B twice; B returns its local 0 if set, and sets it otherwise.
    // Were locals kept, the second call would find the 5 of the first.
    let b = vec![
        push(Value::Int32(5)),
        store(0, InstanceType::Local),
        push_variable(0, InstanceType::Local),
        single(Opcode::Ret),
    ];
    let probe = vec![push_variable(0, InstanceType::Local), single(Opcode::Ret)];
    let a = vec![call(1, 0), single(Opcode::Popz), call(3, 0), call(2, 0), single(Opcode::Ret)];
    let c2 = vec![push(Value::Int32(1)), store(0, InstanceType::Local), single(Opcode::Exit)];
    let data = GameData {
        codes: vec![
            Code { instructions: a },
            Code { instructions: b },
            Code { instructions: c2 },
            Code { instructions: probe },
        ],
        functions: vec![
            Function { code: 0, arguments_count: 0 },
            Function { code: 1, arguments_count: 0 },
            Function { code: 2, arguments_count: 0 },
            Function { code: 3, arguments_count: 0 },
        ],
    };
    let mut app = App::new(data);
    assert_eq!(app.enter(0, 0), Ok(()));
    // Into B, through its store.
    assert_eq!(app.resume(3), Ok(Step::Continue));
    assert_eq!(app.variables.local(0, 1), Some(Value::Int32(5)));
    // B returns: its local is gone.
    assert_eq!(app.resume(2), Ok(Step::Continue));
    assert_eq!(app.frames, vec![Frame { code_index: 0, pc: 1 }]);
    assert_eq!(app.variables.local(0, 1), None);
    assert_eq!(app.stack.items, vec![Value::Int32(5)]);
    // The probe is another code object and sees no local either.
    assert_eq!(app.resume(BUDGET), Err(ExecutionError::UnsetVariable));
}

#[test]
fn locals_last_while_the_code_object_still_runs_further_out() {
    // R stores local 0 on its first entry and calls itself once; the inner
    // invocation ends first and must not take the local with it.
    let r = vec![
        push_variable(0, InstanceType::Global),
        goto(Opcode::Bt, 2),
        push(Value::Boolean(true)),
        store(0, InstanceType::Global),
        push(Value::Int32(77)),
        store(0, InstanceType::Local),
        call(0, 0),
        push_variable(0, InstanceType::Local),
        single(Opcode::Ret),
        // index 9: the inner invocation.
        single(Opcode::Exit),
    ];
    let mut app = App::new(program(vec![r]));
    app.variables.set_global(0, Value::Boolean(false));
    assert_eq!(run(&mut app, 0, 0), Ok(Some(Value::Int32(77))));
    assert_eq!(app.variables.local(0, 0), None);
    assert_eq!(app.variables.global(0), Some(Value::Boolean(true)));
}

#[test]
fn globals_last_across_invocations() {
    let mut app = App::new(program(vec![
        vec![push(Value::Int64(123)), store(9, InstanceType::Global), single(Opcode::Exit)],
        vec![push(Value::Int32(1)), store(9, InstanceType::Local), call(2, 0), single(Opcode::Exit)],
        vec![push(Value::Int32(2)), store(9, InstanceType::Instance(None)), single(Opcode::Exit)],
        vec![push_variable(9, InstanceType::Global), single(Opcode::Ret)],
    ]));
    assert_eq!(run(&mut app, 0, 0), Ok(None));
    for _ in 0..5 {
        assert_eq!(run(&mut app, 1, 3), Ok(None));
        assert_eq!(run(&mut app, 2, 4), Ok(None));
        assert_eq!(app.variables.global(9), Some(Value::Int64(123)));
    }
    assert_eq!(run(&mut app, 3, 0), Ok(Some(Value::Int64(123))));
    assert_eq!(app.variables.instance(9, 3), Some(Value::Int32(2)));
    assert_eq!(app.variables.instance(9, 4), Some(Value::Int32(2)));
}

#[test]
fn entering_keeps_the_stack_and_the_lasting_tiers() {
    let mut app = machine(vec![single(Opcode::Exit)]);
    app.stack.push(Value::Int32(1));
    app.variables.set_global(1, Value::Int32(2));
    app.variables.set_instance(1, 1, Value::Int32(3));
    app.variables.set_local(1, 0, Value::Int32(4));
    app.frames.push(Frame { code_index: 0, pc: 1 });
    app.frames.push(Frame { code_index: 0, pc: 0 });
    app.environments.push(6);
    app.pending =
        Some(FloatRequest::Convert { value: Value::Int32(1), target: DataType::Double });
    assert_eq!(app.enter(0, 8), Ok(()));
    assert_eq!(app.stack.items, vec![Value::Int32(1)]);
    assert_eq!(app.variables.global(1), Some(Value::Int32(2)));
    assert_eq!(app.variables.instance(1, 1), Some(Value::Int32(3)));
    assert_eq!(app.variables.local(1, 0), None);
    assert_eq!(app.frames, vec![Frame { code_index: 0, pc: 0 }]);
    assert_eq!(app.object_index, 8);
    assert!(app.environments.is_empty());
    assert_eq!(app.pending, None);
}

#[test]
fn environments_rebind_the_executing_entity() {
    let mut app = machine(vec![
        push(Value::Int32(1)),
        store(0, InstanceType::Instance(None)),
        push(Value::Int32(8)),
        goto(Opcode::PushEnv, 0),
        push(Value::Int32(2)),
        store(0, InstanceType::Instance(None)),
        push(Value::Int16(9)),
        goto(Opcode::PushEnv, 0),
        push(Value::Int32(3)),
        store(0, InstanceType::Instance(None)),
        goto(Opcode::PopEnv, 0),
        push(Value::Int32(4)),
        store(1, InstanceType::Instance(None)),
        goto(Opcode::PopEnv, 0),
        push(Value::Int32(5)),
        store(1, InstanceType::Instance(None)),
        single(Opcode::Exit),
    ]);
    assert_eq!(run(&mut app, 0, 3), Ok(None));
    assert_eq!(app.variables.instance(0, 3), Some(Value::Int32(1)));
    assert_eq!(app.variables.instance(0, 8), Some(Value::Int32(2)));
    assert_eq!(app.variables.instance(0, 9), Some(Value::Int32(3)));
    assert_eq!(app.variables.instance(1, 8), Some(Value::Int32(4)));
    assert_eq!(app.variables.instance(1, 3), Some(Value::Int32(5)));
    assert_eq!(app.object_index, 3);
    assert!(app.environments.is_empty());
    assert_eq!(app.stack.len(), 0);
}

#[test]
fn leaving_an_environment_that_was_not_entered_is_malformed() {
    let mut app = machine(vec![goto(Opcode::PopEnv, 0), single(Opcode::Exit)]);
    assert_eq!(run(&mut app, 0, 3), Err(ExecutionError::MalformedCode));
    assert_eq!(app.object_index, 3);
}

#[test]
fn an_environment_needs_an_entity() {
    for value in [
        Value::Boolean(true),
        Value::Int32(-1),
        Value::Int64(-5),
        Value::Double(1.0f64.to_bits()),
        Value::String(1),
    ] {
        let mut app = machine(vec![push(value), goto(Opcode::PushEnv, 0), single(Opcode::Exit)]);
        assert_eq!(run(&mut app, 0, 3), Err(ExecutionError::UnsupportedOperand));
        assert_eq!(app.object_index, 3);
        assert!(app.environments.is_empty());
    }
    let mut app = machine(vec![goto(Opcode::PushEnv, 0), single(Opcode::Exit)]);
    assert_eq!(run(&mut app, 0, 3), Err(ExecutionError::StackUnderflow));
    let mut app = machine(vec![push(Value::Int64(12)), goto(Opcode::PushEnv, 0), single(Opcode::Exit)]);
    assert_eq!(run(&mut app, 0, 3), Ok(None));
    assert_eq!(app.object_index, 12);
}

#[test]
fn a_run_pauses_when_the_budget_is_used_up() {
    let mut app = machine(vec![marker(), marker(), marker(), marker(), goto(Opcode::B, -1)]);
    assert_eq!(app.run_code(0, 0, 7), Ok(Step::Continue));
    assert_eq!(app.frames, vec![Frame { code_index: 0, pc: 2 }]);
    assert_eq!(app.resume(3), Ok(Step::Continue));
    assert_eq!(app.frames, vec![Frame { code_index: 0, pc: 0 }]);
    assert_eq!(app.resume(0), Ok(Step::Continue));
    assert_eq!(app.frames, vec![Frame { code_index: 0, pc: 0 }]);
    assert_eq!(app.resume(1_000_003), Ok(Step::Continue));
    assert_eq!(app.frames, vec![Frame { code_index: 0, pc: 3 }]);
}

#[test]
fn a_paused_run_ends_like_an_unbroken_one() {
    let code = vec![
        push(Value::Int32(1)),
        push(Value::Int32(2)),
        double(Opcode::Add),
        push(Value::Int32(3)),
        double(Opcode::Mul),
        single(Opcode::Ret),
    ];
    let mut whole = machine(code.clone());
    let expected = whole.run_code(0, 0, BUDGET);
    assert_eq!(expected, Ok(Step::Finished(Some(Value::Int32(9)))));
    let mut steps = machine(code);
    let mut step = steps.run_code(0, 0, 1);
    let mut rounds = 1;
    while step == Ok(Step::Continue) {
        step = steps.resume(1);
        rounds += 1;
    }
    assert_eq!(step, expected);
    assert_eq!(rounds, 6);
}

#[test]
fn floating_point_work_is_handed_to_the_host() {
    let mut app = machine(vec![
        push(Value::Double(2.0f64.to_bits())),
        push(Value::Double(1.5f64.to_bits())),
        double(Opcode::Add),
        single(Opcode::Ret),
    ]);
    let request = FloatRequest::Binary {
        opcode: Opcode::Add,
        lhs: Value::Double(1.5f64.to_bits()),
        rhs: Value::Double(2.0f64.to_bits()),
    };
    assert_eq!(app.run_code(0, 0, BUDGET), Ok(Step::Float(request)));
    assert_eq!(app.pending, Some(request));
    assert_eq!(app.stack.len(), 0);
    assert_eq!(app.frames, vec![Frame { code_index: 0, pc: 3 }]);
    // The machine does not go on before the answer is there.
    assert_eq!(app.run_instruction(), Err(ExecutionError::HostProtocol));
    assert_eq!(app.resume(BUDGET), Err(ExecutionError::HostProtocol));
    assert_eq!(app.frames, vec![Frame { code_index: 0, pc: 3 }]);
    assert_eq!(app.supply(3.5f64.to_bits()), Ok(()));
    assert_eq!(app.pending, None);
    assert_eq!(app.stack.items, vec![Value::Double(3.5f64.to_bits())]);
    assert_eq!(app.resume(BUDGET), Ok(Step::Finished(Some(Value::Double(3.5f64.to_bits())))));
}

#[test]
fn a_run_with_floating_point_steps() {
    // (7 as double / 2.0) < 4.0, then 3.5 as an integer.
    let mut app = machine(vec![
        push(Value::Double(2.0f64.to_bits())),
        push(Value::Int32(7)),
        conv(DataType::Double),
        double(Opcode::Div),
        single(Opcode::Dup),
        push(Value::Double(4.0f64.to_bits())),
        compare(ComparisonType::LT),
        goto(Opcode::Bf, 1),
        conv(DataType::Int32),
        single(Opcode::Ret),
    ]);
    assert_eq!(run(&mut app, 0, 0), Ok(Some(Value::Int32(3))));
}

#[test]
fn an_answer_without_a_request_is_refused() {
    let mut app = machine(vec![single(Opcode::Exit)]);
    assert_eq!(app.supply(1), Err(ExecutionError::HostProtocol));
    assert_eq!(app.stack.len(), 0);
    assert_eq!(app.enter(0, 0), Ok(()));
    assert_eq!(app.supply(1), Err(ExecutionError::HostProtocol));
    app.pending = Some(FloatRequest::Convert { value: Value::Int32(1), target: DataType::String });
    assert_eq!(app.supply(1), Err(ExecutionError::HostProtocol));
    assert_eq!(app.stack.len(), 0);
}

#[test]
fn an_idle_machine_does_not_step() {
    let mut app = machine(vec![single(Opcode::Exit)]);
    assert_eq!(app.run_instruction(), Err(ExecutionError::HostProtocol));
    assert_eq!(app.resume(5), Err(ExecutionError::HostProtocol));
    assert_eq!(run(&mut app, 0, 0), Ok(None));
    assert_eq!(app.run_instruction(), Err(ExecutionError::HostProtocol));
}
