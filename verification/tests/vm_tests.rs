use crescent::vm::arith::{ArithOp, FloatAsk, FloatOp};
use crescent::vm::binary_chunk::Prototype;
use crescent::vm::error::{Fault, OpcodeError, StackError, TypeError, VmError};
use crescent::vm::instruction::{execute, Instruction, InstructionOperation};
use crescent::vm::lua_state::{compare_values, CampareOperator, LuaApi, LuaState, LuaVm};
use crescent::vm::lua_value::LuaValue;
use crescent::vm::lua_vm::{load_main, Resume, Step};
use crescent::vm::op_code::OpCodeEnum;

fn num(x: f64) -> LuaValue {
    LuaValue::Number(x.to_bits())
}

fn text(s: &str) -> LuaValue {
    LuaValue::String(s.as_bytes().to_vec())
}

fn abc(op: OpCodeEnum, a: u32, b: u32, c: u32) -> Instruction {
    op.index() as u32 | a << 7 | b << 16 | c << 24
}

fn abck(op: OpCodeEnum, a: u32, k: u32, b: u32, c: u32) -> Instruction {
    abc(op, a, b, c) | k << 15
}

fn abx(op: OpCodeEnum, a: u32, bx: u32) -> Instruction {
    op.index() as u32 | a << 7 | bx << 15
}

fn asbx(op: OpCodeEnum, a: u32, sbx: i32) -> Instruction {
    abx(op, a, (sbx + 65535) as u32)
}

fn sj(op: OpCodeEnum, j: i32) -> Instruction {
    op.index() as u32 | ((j + 16777215) as u32) << 7
}

fn prototype(max_stack: u8, code: Vec<u32>, constants: Vec<LuaValue>) -> Prototype {
    Prototype {
        source: b"@test.lua".to_vec(),
        line_defined: 0,
        last_line_defined: 0,
        num_params: 0,
        is_vararg: 1,
        max_statck_size: max_stack,
        code,
        constants,
        upvalues: Vec::new(),
        prototypes: Vec::new(),
        line_info: Vec::new(),
        abs_line_list: Vec::new(),
        local_variable: Vec::new(),
        upvalue_names: Vec::new(),
    }
}

fn unit(ask: &FloatAsk) -> Option<u64> {
    match ask {
        FloatAsk::Parse(bytes) => {
            std::str::from_utf8(bytes).ok()?.parse::<f64>().ok().map(f64::to_bits)
        }
        FloatAsk::Apply(op, a, b) => {
            let a = f64::from_bits(*a);
            let b = f64::from_bits(*b);
            let r = match op {
                FloatOp::Add => a + b,
                FloatOp::Sub => a - b,
                FloatOp::Mul => a * b,
                FloatOp::Mod => a % b,
                FloatOp::Pow => a.powf(b),
                FloatOp::Div => a / b,
                FloatOp::IDiv => (a / b).floor(),
            };
            Some(r.to_bits())
        }
    }
}

/// Runs a function to its return, with a float unit at hand.
fn run(proto: Prototype, max_steps: u64) -> Result<(LuaState, Step), VmError> {
    let (mut state, mut step) = load_main(proto, max_steps)?;
    loop {
        match step {
            Step::Float(ticket) => {
                let pc = state.get_pc();
                let reply = ticket.question().and_then(|ask| unit(&ask));
                step = match state.resume(ticket, reply) {
                    Ok(Step::Continue) => state.run(max_steps)?,
                    Ok(other) => other,
                    Err(fault) => return Err(VmError { fault, pc, op_code: None }),
                };
            }
            other => return Ok((state, other)),
        }
    }
}

fn finished(proto: Prototype) -> LuaState {
    let (state, step) = run(proto, 100_000).unwrap();
    assert!(matches!(step, Step::Return));
    state
}

fn state_with(values: Vec<LuaValue>, room: usize) -> LuaState {
    let mut state = LuaState::new(values.len() + room, prototype(0, Vec::new(), Vec::new()));
    for v in values {
        state.push(v).unwrap();
    }
    state
}

fn live(state: &LuaState) -> Vec<LuaValue> {
    state.stack.slots[..state.stack.top].to_vec()
}

fn ints(values: &[i64]) -> Vec<LuaValue> {
    values.iter().map(|i| LuaValue::Integer(*i)).collect()
}

#[test]
fn test_move_instruction() {
    // 1       [1]     VARARGPREP      0
    // 2       [2]     JMP             -1      ; to 2
    // 3       [2]     RETURN          0 1 1   ; 0 out
    let proto = prototype(
        2,
        vec![
            abc(OpCodeEnum::OpVARARGPREP, 0, 0, 0),
            sj(OpCodeEnum::OpJMP, -1),
            abc(OpCodeEnum::OpRETURN, 0, 1, 1),
        ],
        Vec::new(),
    );
    // the loop never ends: the run stops when its steps are used up
    let (state, step) = load_main(proto, 1000).unwrap();
    assert!(matches!(step, Step::Continue));
    assert!(state.get_pc() == 1 || state.get_pc() == 2);
}

#[test]
fn lua_vm_test_declare_a_variable() {
    // 1       [1]     VARARGPREP      0
    // 2       [1]     LOADNIL         0 1     ; 2 out
    // 3       [1]     RETURN          2 1 1   ; 0 out
    let proto = prototype(
        2,
        vec![
            abc(OpCodeEnum::OpVARARGPREP, 0, 0, 0),
            abc(OpCodeEnum::OpLOADNIL, 0, 1, 0),
            abc(OpCodeEnum::OpRETURN, 2, 1, 1),
        ],
        Vec::new(),
    );
    let state = finished(proto);
    assert_eq!(live(&state), vec![LuaValue::Nil, LuaValue::Nil]);
    assert_eq!(state.get_pc(), 3);
}

#[test]
fn test_load_nil_and_return() {
    // the words of `local a`: VARARGPREP 0; LOADNIL 0 0; RETURN 1 1 1
    let proto = prototype(2, vec![81, 8, 16842950], Vec::new());
    let (mut state, step) = load_main(proto, 1000).unwrap();
    assert!(matches!(step, Step::Return));
    assert_eq!(state.stack.slots.len(), 2 + 8);
    assert_eq!(state.get_top(), 2);
    assert_eq!(state.register(0), Ok(LuaValue::Nil));
    assert_eq!(state.get_pc(), 3);
    // behind the end of the code nothing can be read
    assert_eq!(
        state.step().unwrap_err(),
        VmError { fault: Fault::Opcode(OpcodeError::BadOperand), pc: 3, op_code: None }
    );
}

#[test]
fn test_add_2_integer_program() {
    // 1       [1]     VARARGPREP      0
    // 2       [1]     LOADI           0 1
    // 3       [1]     LOADI           1 2
    // 4       [1]     LOADNIL         2 0     ; 1 out
    // 5       [1]     ADD             2 0 1
    // 6       [1]     MMBIN           0 1 6   ; __add
    // 7       [1]     RETURN          3 1 1   ; 0 out
    let proto = prototype(
        3,
        vec![
            abc(OpCodeEnum::OpVARARGPREP, 0, 0, 0),
            asbx(OpCodeEnum::OpLOADI, 0, 1),
            asbx(OpCodeEnum::OpLOADI, 1, 2),
            abc(OpCodeEnum::OpLOADNIL, 2, 0, 0),
            abc(OpCodeEnum::OpADD, 2, 0, 1),
            abc(OpCodeEnum::OpMMBIN, 0, 1, 6),
            abc(OpCodeEnum::OpRETURN, 3, 1, 1),
        ],
        Vec::new(),
    );
    let state = finished(proto);
    assert_eq!(live(&state), ints(&[1, 2, 3]));
}

#[test]
fn test_add_2_float_program() {
    // 1       [1]     VARARGPREP      0
    // 2       [1]     LOADK           0 0     ; 2.2
    // 3       [1]     LOADK           1 1     ; 3.3
    // 4       [1]     LOADNIL         2 0     ; 1 out
    // 5       [2]     ADD             2 0 1
    // 6       [2]     MMBIN           0 1 6   ; __add
    // 7       [2]     RETURN          3 1 1   ; 0 out
    let proto = prototype(
        3,
        vec![
            abc(OpCodeEnum::OpVARARGPREP, 0, 0, 0),
            abx(OpCodeEnum::OpLOADK, 0, 0),
            abx(OpCodeEnum::OpLOADK, 1, 1),
            abc(OpCodeEnum::OpLOADNIL, 2, 0, 0),
            abc(OpCodeEnum::OpADD, 2, 0, 1),
            abc(OpCodeEnum::OpMMBIN, 0, 1, 6),
            abc(OpCodeEnum::OpRETURN, 3, 1, 1),
        ],
        vec![num(2.2), num(3.3)],
    );
    // without a float unit the run stops at the addition
    let (waiting, step) = load_main(
        prototype(
            3,
            vec![
                abx(OpCodeEnum::OpLOADK, 0, 0),
                abx(OpCodeEnum::OpLOADK, 1, 1),
                abc(OpCodeEnum::OpADD, 2, 0, 1),
            ],
            vec![num(2.2), num(3.3)],
        ),
        100,
    )
    .unwrap();
    match step {
        Step::Float(ticket) => {
            assert_eq!(ticket.resume, Resume::Store(2));
            assert_eq!(ticket.task.op, ArithOp::Add);
            match ticket.question() {
                Some(FloatAsk::Apply(FloatOp::Add, a, b)) => {
                    assert_eq!((a, b), (2.2f64.to_bits(), 3.3f64.to_bits()))
                }
                other => panic!("no question: {:?}", other),
            }
        }
        other => panic!("no ticket: {:?}", other),
    }
    assert_eq!(waiting.get_pc(), 3);
    assert_eq!(waiting.register(2), Ok(LuaValue::Nil));

    let state = finished(proto);
    assert_eq!(state.register(0), Ok(num(2.2)));
    assert_eq!(state.register(1), Ok(num(3.3)));
    match state.register(2).unwrap() {
        LuaValue::Number(bits) => {
            let sum = f64::from_bits(bits);
            assert!((sum - 5.5).abs() <= f64::EPSILON * 5.5);
            assert_eq!(sum, 2.2 + 3.3);
        }
        other => panic!("no number: {:?}", other),
    }
}

#[test]
fn test_len_instruction() {
    // 1       [1]     VARARGPREP      0
    // 2       [1]     LOADK           0 0     ; "123"
    // 3       [1]     LOADNIL         1 0     ; 1 out
    // 4       [2]     LEN             1 0
    // 5       [2]     RETURN          2 1 1   ; 0 out
    let proto = prototype(
        2,
        vec![
            abc(OpCodeEnum::OpVARARGPREP, 0, 0, 0),
            abx(OpCodeEnum::OpLOADK, 0, 0),
            abc(OpCodeEnum::OpLOADNIL, 1, 0, 0),
            abc(OpCodeEnum::OpLEN, 1, 0, 0),
            abc(OpCodeEnum::OpRETURN, 2, 1, 1),
        ],
        vec![text("123")],
    );
    let state = finished(proto);
    assert_eq!(live(&state), vec![text("123"), LuaValue::Integer(3)]);
}

#[test]
fn test_concat_instruction() {
    // 1       [1]     VARARGPREP      0
    // 2       [1]     LOADK           0 0     ; "str"
    // 3       [1]     LOADNIL         1 0     ; 1 out
    // 4       [2]     MOVE            2 0
    // 5       [2]     MOVE            3 0
    // 6       [2]     CONCAT          2 2
    // 7       [2]     MOVE            1 2
    // 8       [2]     RETURN          2 1 1   ; 0 out
    let proto = prototype(
        4,
        vec![
            abc(OpCodeEnum::OpVARARGPREP, 0, 0, 0),
            abx(OpCodeEnum::OpLOADK, 0, 0),
            abc(OpCodeEnum::OpLOADNIL, 1, 0, 0),
            abc(OpCodeEnum::OpMove, 2, 0, 0),
            abc(OpCodeEnum::OpMove, 3, 0, 0),
            abc(OpCodeEnum::OpCONCAT, 2, 0, 2),
            abc(OpCodeEnum::OpMove, 1, 2, 0),
            abc(OpCodeEnum::OpRETURN, 2, 1, 1),
        ],
        vec![text("str")],
    );
    let state = finished(proto);
    assert_eq!(state.register(1), Ok(text("strstr")));
    assert_eq!(live(&state), vec![text("str"), text("strstr"), text("strstr"), text("str")]);
}

fn sum_of_multiples(first: i32, last: i32) -> Prototype {
    //     1       [1]     VARARGPREP      0
    //     2       [1]     LOADI           0 0
    //     3       [2]     LOADI           1 first
    //     4       [2]     LOADI           2 last
    //     5       [2]     LOADI           3 1
    //     6       [2]     FORPREP         1 6     ; to 13
    //     7       [3]     MODK            5 4 0   ; 3
    //     8       [3]     MMBINK          4 0 9 0 ; __mod 3
    //     9       [3]     EQI             5 0 1
    //     10      [3]     JMP             2       ; to 13
    //     11      [4]     ADD             0 0 4
    //     12      [4]     MMBIN           0 4 6   ; __add
    //     13      [2]     FORLOOP         1 7     ; to 7
    //     14      [6]     RETURN          1 1 1   ; 0 out
    prototype(
        6,
        vec![
            abc(OpCodeEnum::OpVARARGPREP, 0, 0, 0),
            asbx(OpCodeEnum::OpLOADI, 0, 0),
            asbx(OpCodeEnum::OpLOADI, 1, first),
            asbx(OpCodeEnum::OpLOADI, 2, last),
            asbx(OpCodeEnum::OpLOADI, 3, 1),
            abx(OpCodeEnum::OpFORPREP, 1, 6),
            abc(OpCodeEnum::OpMODK, 5, 4, 0),
            abc(OpCodeEnum::OpMMBINK, 4, 0, 9),
            abck(OpCodeEnum::OpEQI, 5, 1, 127, 0),
            sj(OpCodeEnum::OpJMP, 2),
            abc(OpCodeEnum::OpADD, 0, 0, 4),
            abc(OpCodeEnum::OpMMBIN, 0, 4, 6),
            abx(OpCodeEnum::OpFORLOOP, 1, 7),
            abc(OpCodeEnum::OpRETURN, 1, 1, 1),
        ],
        vec![LuaValue::Integer(3)],
    )
}

#[test]
fn test_sum_of_even_number_in_100() {
    // the multiples of 3 from 5 to 100 are 6, 9, .., 99
    let state = finished(sum_of_multiples(5, 100));
    assert_eq!(state.register(0), Ok(LuaValue::Integer(1680)));
    assert_eq!(state.register(0), Ok(LuaValue::Integer((5..=100).filter(|i| i % 3 == 0).sum())));
    assert_eq!(state.register(4), Ok(LuaValue::Integer(100)));
    assert_eq!(state.get_top(), 6);
    assert_eq!(state.stack.slots.len(), 6 + 8);
}

#[test]
fn test_sum_of_multiples_of_3_up_to_100() {
    // with 3 itself among them the sum is 1683
    let state = finished(sum_of_multiples(3, 100));
    assert_eq!(state.register(0), Ok(LuaValue::Integer(1683)));
    let state = finished(sum_of_multiples(1, 100));
    assert_eq!(state.register(0), Ok(LuaValue::Integer(1683)));
    // a loop whose start is behind its end does not run
    let state = finished(sum_of_multiples(7, 6));
    assert_eq!(state.register(0), Ok(LuaValue::Integer(0)));
    assert_eq!(state.register(4), Ok(LuaValue::Nil));
}

#[test]
fn test_float_loop() {
    // for i = 0.5, 2.5, 1.0 do sum = sum + i end
    let proto = prototype(
        5,
        vec![
            asbx(OpCodeEnum::OpLOADF, 0, 0),
            abx(OpCodeEnum::OpLOADK, 1, 0),
            abx(OpCodeEnum::OpLOADK, 2, 1),
            asbx(OpCodeEnum::OpLOADF, 3, 1),
            abx(OpCodeEnum::OpFORPREP, 1, 1),
            abc(OpCodeEnum::OpADD, 0, 0, 4),
            abx(OpCodeEnum::OpFORLOOP, 1, 2),
            abc(OpCodeEnum::OpRETURN, 0, 1, 1),
        ],
        vec![num(0.5), num(2.5)],
    );
    let state = finished(proto);
    assert_eq!(state.register(0), Ok(num(0.5 + 1.5 + 2.5)));
    assert_eq!(state.register(1), Ok(num(3.5)));
    assert_eq!(state.register(4), Ok(num(2.5)));
    // a loop that counts down
    let down = prototype(
        5,
        vec![
            asbx(OpCodeEnum::OpLOADI, 0, 0),
            asbx(OpCodeEnum::OpLOADI, 1, 3),
            asbx(OpCodeEnum::OpLOADI, 2, 1),
            asbx(OpCodeEnum::OpLOADI, 3, -1),
            abx(OpCodeEnum::OpFORPREP, 1, 1),
            abc(OpCodeEnum::OpADD, 0, 0, 4),
            abx(OpCodeEnum::OpFORLOOP, 1, 2),
            abc(OpCodeEnum::OpRETURN, 0, 1, 1),
        ],
        Vec::new(),
    );
    let state = finished(down);
    assert_eq!(state.register(0), Ok(LuaValue::Integer(6)));
}

fn one(state: &mut LuaState, word: Instruction) -> Result<Step, Fault> {
    execute(word, state)
}

fn registers(values: Vec<LuaValue>) -> LuaState {
    state_with(values, 8)
}

#[test]
fn test_load_instructions() {
    let mut state = registers(vec![LuaValue::Nil, LuaValue::Nil, LuaValue::Nil]);
    one(&mut state, asbx(OpCodeEnum::OpLOADI, 0, -7)).unwrap();
    one(&mut state, asbx(OpCodeEnum::OpLOADF, 1, 65536)).unwrap();
    one(&mut state, abc(OpCodeEnum::OpLOADTRUE, 2, 0, 0)).unwrap();
    assert_eq!(live(&state), vec![LuaValue::Integer(-7), num(65536.0), LuaValue::Boolean(true)]);
    one(&mut state, abc(OpCodeEnum::OpLOADFALSE, 2, 0, 0)).unwrap();
    assert_eq!(state.register(2), Ok(LuaValue::Boolean(false)));
    one(&mut state, abc(OpCodeEnum::OpLOADNIL, 0, 2, 0)).unwrap();
    assert_eq!(live(&state), vec![LuaValue::Nil, LuaValue::Nil, LuaValue::Nil]);
    assert_eq!(
        one(&mut state, asbx(OpCodeEnum::OpLOADI, 3, 1)),
        Err(Fault::Stack(StackError::OutOfBounds))
    );
    assert_eq!(
        one(&mut state, abc(OpCodeEnum::OpLOADNIL, 1, 2, 0)),
        Err(Fault::Stack(StackError::OutOfBounds))
    );
    assert_eq!(
        one(&mut state, abx(OpCodeEnum::OpLOADK, 0, 0)),
        Err(Fault::Opcode(OpcodeError::BadOperand))
    );
    let mut full = state_with(vec![LuaValue::Nil], 0);
    assert_eq!(
        one(&mut full, asbx(OpCodeEnum::OpLOADI, 0, 1)),
        Err(Fault::Stack(StackError::Overflow))
    );
    assert_eq!(one(&mut state, 127), Err(Fault::Opcode(OpcodeError::Unknown)));
    assert_eq!((127 as Instruction).execute(&mut state), Err(Fault::Opcode(OpcodeError::Unknown)));
    assert!(matches!(one(&mut state, abc(OpCodeEnum::OpCALL, 0, 1, 1)), Ok(Step::Continue)));
    assert!(matches!(one(&mut state, abc(OpCodeEnum::OpRETURN, 0, 1, 1)), Ok(Step::Return)));
}

#[test]
fn test_load_kx() {
    let (state, step) = load_main(
        prototype(
            1,
            vec![
                abx(OpCodeEnum::OpLOADKX, 0, 0),
                (OpCodeEnum::OpEXTRAARG.index() as u32) | 1 << 7,
                abc(OpCodeEnum::OpRETURN, 0, 1, 1),
            ],
            vec![text("zero"), text("one")],
        ),
        10,
    )
    .unwrap();
    assert!(matches!(step, Step::Return));
    assert_eq!(state.register(0), Ok(text("one")));
    assert_eq!(state.get_pc(), 3);
}

#[test]
fn test_arithmetic_instructions() {
    let mut state = registers(ints(&[0, 12, 5]));
    let cases: [(OpCodeEnum, i64); 10] = [
        (OpCodeEnum::OpADD, 17),
        (OpCodeEnum::OpSUB, 7),
        (OpCodeEnum::OpMUL, 60),
        (OpCodeEnum::OpMOD, 2),
        (OpCodeEnum::OpIDIV, 2),
        (OpCodeEnum::OpBAND, 4),
        (OpCodeEnum::OpBOR, 13),
        (OpCodeEnum::OpBXOR, 9),
        (OpCodeEnum::OpSHL, 384),
        (OpCodeEnum::OpSHR, 0),
    ];
    for (op, expected) in cases {
        assert!(matches!(one(&mut state, abc(op, 0, 1, 2)), Ok(Step::Continue)));
        assert_eq!(live(&state), ints(&[expected, 12, 5]), "{:?}", op);
    }
    one(&mut state, abc(OpCodeEnum::OpUNM, 0, 1, 0)).unwrap();
    assert_eq!(state.register(0), Ok(LuaValue::Integer(-12)));
    one(&mut state, abc(OpCodeEnum::OpBNOT, 0, 1, 0)).unwrap();
    assert_eq!(state.register(0), Ok(LuaValue::Integer(-13)));
    one(&mut state, abc(OpCodeEnum::OpADDI, 0, 1, 127 + 30)).unwrap();
    assert_eq!(state.register(0), Ok(LuaValue::Integer(42)));
    one(&mut state, abc(OpCodeEnum::OpADDI, 0, 1, 127 - 30)).unwrap();
    assert_eq!(state.register(0), Ok(LuaValue::Integer(-18)));
    one(&mut state, abc(OpCodeEnum::OpSHLI, 0, 1, 127 + 2)).unwrap();
    assert_eq!(state.register(0), Ok(LuaValue::Integer(48)));
    one(&mut state, abc(OpCodeEnum::OpSHRI, 0, 1, 127 + 2)).unwrap();
    assert_eq!(state.register(0), Ok(LuaValue::Integer(3)));
    assert_eq!(state.get_top(), 3);
    // a power waits for the float unit and stores its answer
    let ticket = match one(&mut state, abc(OpCodeEnum::OpPOW, 0, 1, 2)) {
        Ok(Step::Float(ticket)) => ticket,
        other => panic!("no ticket: {:?}", other),
    };
    let reply = unit(&ticket.question().unwrap());
    assert!(matches!(state.resume(ticket, reply), Ok(Step::Continue)));
    assert_eq!(state.register(0), Ok(num(248832.0)));
    assert_eq!(
        one(&mut state, abc(OpCodeEnum::OpADD, 0, 1, 3)),
        Err(Fault::Stack(StackError::OutOfBounds))
    );
    let mut tight = state_with(ints(&[1, 2, 3]), 1);
    assert_eq!(
        one(&mut tight, abc(OpCodeEnum::OpADD, 0, 1, 2)),
        Err(Fault::Stack(StackError::Overflow))
    );
    let mut zero = registers(ints(&[1, 0]));
    assert_eq!(one(&mut zero, abc(OpCodeEnum::OpMOD, 0, 0, 1)), Err(Fault::DivisionByZero));
    let mut wrong = registers(vec![LuaValue::Nil, LuaValue::Integer(1)]);
    assert_eq!(
        one(&mut wrong, abc(OpCodeEnum::OpADD, 0, 0, 1)),
        Err(Fault::Type(TypeError::Arithmetic))
    );
}

#[test]
fn test_arithmetic_with_constants() {
    let mut state = LuaState::new(
        10,
        prototype(0, Vec::new(), vec![LuaValue::Integer(4), num(0.5)]),
    );
    state.push_integer(0).unwrap();
    state.push_integer(10).unwrap();
    let cases: [(OpCodeEnum, i64); 8] = [
        (OpCodeEnum::OpADDK, 14),
        (OpCodeEnum::OpSUBK, 6),
        (OpCodeEnum::OpMULK, 40),
        (OpCodeEnum::OpMODK, 2),
        (OpCodeEnum::OpIDIVK, 2),
        (OpCodeEnum::OpBANDK, 0),
        (OpCodeEnum::OpBORK, 14),
        (OpCodeEnum::OpBXORK, 14),
    ];
    for (op, expected) in cases {
        one(&mut state, abc(op, 0, 1, 0)).unwrap();
        assert_eq!(state.register(0), Ok(LuaValue::Integer(expected)), "{:?}", op);
    }
    for (op, expected) in [(OpCodeEnum::OpDIVK, 20.0), (OpCodeEnum::OpPOWK, 10f64.powf(0.5))] {
        let ticket = match one(&mut state, abc(op, 0, 1, 1)) {
            Ok(Step::Float(ticket)) => ticket,
            other => panic!("no ticket: {:?}", other),
        };
        let reply = unit(&ticket.question().unwrap());
        state.resume(ticket, reply).unwrap();
        assert_eq!(state.register(0), Ok(num(expected)));
    }
    assert_eq!(
        one(&mut state, abc(OpCodeEnum::OpADDK, 0, 1, 2)),
        Err(Fault::Opcode(OpcodeError::BadOperand))
    );
}

#[test]
fn test_compare_instructions() {
    let mut state = LuaState::new(
        10,
        prototype(0, vec![0, 0, 0, 0], Vec::new()),
    );
    state.push_integer(3).unwrap();
    state.push_integer(5).unwrap();
    state.push_number(3.0f64.to_bits()).unwrap();
    state.push_string(b"x".to_vec()).unwrap();
    let skips = |state: &mut LuaState, word: Instruction| -> bool {
        state.set_pc(0).unwrap();
        one(state, word).unwrap();
        state.get_pc() == 1
    };
    assert!(!skips(&mut state, abck(OpCodeEnum::OpEQ, 0, 1, 1, 0)));
    assert!(skips(&mut state, abck(OpCodeEnum::OpEQ, 0, 0, 1, 0)));
    assert!(skips(&mut state, abck(OpCodeEnum::OpEQ, 0, 1, 0, 0)));
    // an integer is no number, though they are beside each other in the order
    assert!(!skips(&mut state, abck(OpCodeEnum::OpEQ, 0, 1, 2, 0)));
    assert!(skips(&mut state, abck(OpCodeEnum::OpLE, 0, 1, 2, 0)));
    assert!(!skips(&mut state, abck(OpCodeEnum::OpLT, 0, 1, 2, 0)));
    assert!(skips(&mut state, abck(OpCodeEnum::OpLT, 0, 1, 1, 0)));
    assert!(skips(&mut state, abck(OpCodeEnum::OpLT, 1, 0, 0, 0)));
    assert!(skips(&mut state, abck(OpCodeEnum::OpEQI, 0, 1, 127 + 3, 0)));
    assert!(skips(&mut state, abck(OpCodeEnum::OpEQI, 0, 0, 127 + 4, 0)));
    assert!(skips(&mut state, abck(OpCodeEnum::OpLTI, 0, 1, 127 + 4, 0)));
    assert!(!skips(&mut state, abck(OpCodeEnum::OpLTI, 0, 1, 127 + 3, 0)));
    assert!(skips(&mut state, abck(OpCodeEnum::OpLEI, 0, 1, 127 + 3, 0)));
    assert!(skips(&mut state, abck(OpCodeEnum::OpGTI, 0, 1, 127 + 2, 0)));
    assert!(!skips(&mut state, abck(OpCodeEnum::OpGTI, 0, 1, 127 + 3, 0)));
    assert!(skips(&mut state, abck(OpCodeEnum::OpGEI, 0, 1, 127 + 3, 0)));
    assert!(skips(&mut state, abck(OpCodeEnum::OpGEI, 2, 1, 127 + 3, 0)));
    assert!(skips(&mut state, abck(OpCodeEnum::OpLTI, 2, 1, 127 + 4, 0)));
    assert!(!skips(&mut state, abck(OpCodeEnum::OpEQ, 3, 1, 0, 0)));
    assert_eq!(
        one(&mut state, abck(OpCodeEnum::OpLT, 3, 1, 0, 0)),
        Err(Fault::Type(TypeError::Compare))
    );
    assert_eq!(
        one(&mut state, abck(OpCodeEnum::OpLEI, 3, 1, 127, 0)),
        Err(Fault::Type(TypeError::Compare))
    );
    assert_eq!(
        one(&mut state, abck(OpCodeEnum::OpEQ, 4, 1, 0, 0)),
        Err(Fault::Stack(StackError::OutOfBounds))
    );
}

#[test]
fn test_jump_and_length_faults() {
    let mut state = LuaState::new(4, prototype(0, vec![0, 0, 0], Vec::new()));
    state.push_integer(1).unwrap();
    one(&mut state, sj(OpCodeEnum::OpJMP, 3)).unwrap();
    assert_eq!(state.get_pc(), 3);
    one(&mut state, sj(OpCodeEnum::OpJMP, -2)).unwrap();
    assert_eq!(state.get_pc(), 1);
    assert_eq!(
        one(&mut state, sj(OpCodeEnum::OpJMP, 3)),
        Err(Fault::Opcode(OpcodeError::BadOperand))
    );
    assert_eq!(
        one(&mut state, sj(OpCodeEnum::OpJMP, -2)),
        Err(Fault::Opcode(OpcodeError::BadOperand))
    );
    assert_eq!(
        one(&mut state, abc(OpCodeEnum::OpLEN, 0, 0, 0)),
        Err(Fault::Type(TypeError::Length))
    );
    assert_eq!(
        one(&mut state, abc(OpCodeEnum::OpLEN, 0, 1, 0)),
        Err(Fault::Stack(StackError::OutOfBounds))
    );
    let failed = LuaState::new(4, prototype(0, vec![abc(OpCodeEnum::OpLEN, 0, 0, 0)], Vec::new()));
    let mut failed = failed;
    failed.push_nil().unwrap();
    assert_eq!(
        failed.run(5).unwrap_err(),
        VmError { fault: Fault::Type(TypeError::Length), pc: 0, op_code: Some(52) }
    );
}

#[test]
fn test_concat_instruction_forms() {
    let mut state = state_with(vec![text("a"), text("b"), text("c"), LuaValue::Integer(1)], 0);
    one(&mut state, abc(OpCodeEnum::OpCONCAT, 0, 0, 3)).unwrap();
    assert_eq!(live(&state), vec![text("abc"), text("b"), text("c"), LuaValue::Integer(1)]);
    // the stack has grown by the room that the join took
    assert_eq!(state.stack.slots.len(), 7);
    one(&mut state, abc(OpCodeEnum::OpCONCAT, 3, 0, 1)).unwrap();
    assert_eq!(state.register(3), Ok(LuaValue::Integer(1)));
    one(&mut state, abc(OpCodeEnum::OpCONCAT, 3, 0, 0)).unwrap();
    assert_eq!(state.register(3), Ok(text("")));
    one(&mut state, abc(OpCodeEnum::OpLOADI, 3, 0, 0) | 65535 << 15).unwrap();
    assert_eq!(
        one(&mut state, abc(OpCodeEnum::OpCONCAT, 2, 0, 3)),
        Err(Fault::Stack(StackError::OutOfBounds))
    );
    assert_eq!(
        one(&mut state, abc(OpCodeEnum::OpCONCAT, 2, 0, 2)),
        Err(Fault::Type(TypeError::Concat))
    );
}

#[test]
fn test_host_stack_api() {
    let mut state = state_with(ints(&[1, 2, 3, 4, 5]), 3);
    assert_eq!(state.get_top(), 5);
    assert_eq!(state.abs_index(-1), Some(4));
    assert_eq!(state.abs_index(-6), None);
    state.push_value(1).unwrap();
    assert_eq!(live(&state), ints(&[1, 2, 3, 4, 5, 2]));
    state.replace(0).unwrap();
    assert_eq!(live(&state), ints(&[2, 2, 3, 4, 5]));
    state.copy(-1, 1).unwrap();
    assert_eq!(live(&state), ints(&[2, 5, 3, 4, 5]));
    state.pop(2).unwrap();
    assert_eq!(live(&state), ints(&[2, 5, 3]));
    assert_eq!(state.stack.slots[3], LuaValue::Nil);
    assert_eq!(state.pop(4), Err(Fault::Stack(StackError::Underflow)));
    state.set_top(5).unwrap();
    assert_eq!(live(&state), vec![
        LuaValue::Integer(2),
        LuaValue::Integer(5),
        LuaValue::Integer(3),
        LuaValue::Nil,
        LuaValue::Nil
    ]);
    state.set_top(-3).unwrap();
    assert_eq!(live(&state), ints(&[2, 5]));
    assert_eq!(state.set_top(9), Err(Fault::Stack(StackError::Overflow)));
    assert_eq!(state.set_top(-3), Err(Fault::Stack(StackError::Underflow)));
    assert_eq!(state.copy(0, 2), Err(Fault::Stack(StackError::OutOfBounds)));
    assert_eq!(state.push_value(2), Err(Fault::Stack(StackError::OutOfBounds)));
    assert_eq!(state.replace(2), Err(Fault::Stack(StackError::OutOfBounds)));
    assert!(state.check_stack(20));
    assert_eq!(state.stack.slots.len(), 22);
    state.push_nil().unwrap();
    state.push_boolean(true).unwrap();
    state.push_number(1.5f64.to_bits()).unwrap();
    state.push_string(b"s".to_vec()).unwrap();
    assert_eq!(
        live(&state)[2..],
        [LuaValue::Nil, LuaValue::Boolean(true), num(1.5), text("s")]
    );
    assert!(state.is_integer(0) && state.is_number(0) && !state.is_string(0));
    assert!(state.is_number(4) && !state.is_integer(4));
    assert!(state.is_string(-1) && !state.is_number(-1));
    assert!(!state.is_integer(6) && !state.is_string(6));
    assert_eq!(state.to_integer(0), Some(2));
    assert_eq!(state.to_integer(4), None);
    assert_eq!(state.to_numberx(0), Some(2.0f64.to_bits()));
    assert_eq!(state.to_numberx(4), Some(1.5f64.to_bits()));
    assert_eq!(state.to_numberx(5), None);
    assert_eq!(state.to_string(5), Some(b"s".to_vec()));
    assert_eq!(state.to_string(0), None);
}

#[test]
fn test_rotate_and_insert() {
    let mut state = state_with(ints(&[1, 2, 3, 4, 5]), 1);
    state.rotate(1, 1).unwrap();
    assert_eq!(live(&state), ints(&[1, 5, 2, 3, 4]));
    state.rotate(1, -1).unwrap();
    assert_eq!(live(&state), ints(&[1, 2, 3, 4, 5]));
    state.rotate(0, 2).unwrap();
    assert_eq!(live(&state), ints(&[4, 5, 1, 2, 3]));
    state.rotate(-3, -2).unwrap();
    assert_eq!(live(&state), ints(&[4, 5, 3, 1, 2]));
    state.rotate(0, 5).unwrap();
    assert_eq!(live(&state), ints(&[4, 5, 3, 1, 2]));
    state.rotate(2, 0).unwrap();
    assert_eq!(live(&state), ints(&[4, 5, 3, 1, 2]));
    state.insert(1).unwrap();
    assert_eq!(live(&state), ints(&[4, 2, 5, 3, 1]));
    assert_eq!(state.rotate(3, 3), Err(Fault::Stack(StackError::OutOfBounds)));
    assert_eq!(state.rotate(5, 0), Err(Fault::Stack(StackError::OutOfBounds)));
    assert_eq!(state.insert(-6), Err(Fault::Stack(StackError::OutOfBounds)));
}

#[test]
fn test_len_and_concat_api() {
    let mut state = state_with(vec![text("abc"), text("de"), text("f")], 2);
    state.len(0).unwrap();
    assert_eq!(state.to_integer(-1), Some(3));
    state.pop(1).unwrap();
    state.concat(3).unwrap();
    assert_eq!(live(&state), vec![text("abcdef")]);
    state.concat(1).unwrap();
    assert_eq!(live(&state), vec![text("abcdef")]);
    state.concat(0).unwrap();
    assert_eq!(live(&state), vec![text("abcdef"), text("")]);
    state.push_integer(1).unwrap();
    assert_eq!(state.concat(2), Err(Fault::Type(TypeError::Concat)));
    assert_eq!(state.concat(4), Err(Fault::Stack(StackError::Underflow)));
    assert_eq!(state.len(2), Err(Fault::Type(TypeError::Length)));
    assert_eq!(state.len(3), Err(Fault::Stack(StackError::OutOfBounds)));
    assert_eq!(state.get_top(), 3);
}

#[test]
fn test_compare_api() {
    let state = state_with(
        vec![
            LuaValue::Nil,
            LuaValue::Boolean(true),
            LuaValue::Integer(2),
            num(2.0),
            num(f64::NAN),
            text("abc"),
        ],
        0,
    );
    // every value but a NaN equals itself
    for i in 0..6 {
        assert_eq!(state.compare(i, i, CampareOperator::Equal), Ok(i != 4));
    }
    assert_eq!(state.compare(2, 3, CampareOperator::Equal), Ok(false));
    assert_eq!(state.compare(2, 3, CampareOperator::LessEqual), Ok(true));
    assert_eq!(state.compare(2, 3, CampareOperator::GreatEqual), Ok(true));
    assert_eq!(state.compare(2, 3, CampareOperator::LessThen), Ok(false));
    assert_eq!(state.compare(3, 2, CampareOperator::GreatThen), Ok(false));
    assert_eq!(state.compare(4, 3, CampareOperator::LessThen), Ok(false));
    assert_eq!(state.compare(4, 4, CampareOperator::LessEqual), Ok(false));
    assert_eq!(state.compare(0, 1, CampareOperator::Equal), Ok(false));
    assert_eq!(state.compare(0, 1, CampareOperator::LessThen), Err(Fault::Type(TypeError::Compare)));
    assert_eq!(state.compare(5, 2, CampareOperator::GreatThen), Err(Fault::Type(TypeError::Compare)));
    assert_eq!(state.compare(0, 6, CampareOperator::Equal), Err(Fault::Stack(StackError::OutOfBounds)));
    assert_eq!(
        compare_values(&text("a"), &text("b"), CampareOperator::LessThen),
        Ok(true)
    );
}

#[test]
fn test_string_length() {
    let mut state = state_with(vec![text("abc")], 1);
    state.len(0).unwrap();
    assert_eq!(live(&state), vec![text("abc"), LuaValue::Integer(3)]);
    for v in [LuaValue::Nil, LuaValue::Boolean(true), LuaValue::Integer(3), num(3.0)] {
        let mut state = state_with(vec![v], 1);
        assert_eq!(state.len(0), Err(Fault::Type(TypeError::Length)));
        assert_eq!(state.get_top(), 1);
    }
}

#[test]
fn test_vm_api() {
    let mut state = LuaState::new(
        4,
        prototype(0, vec![10, 20, 30], vec![LuaValue::Integer(7), text("k")]),
    );
    assert_eq!(state.get_pc(), 0);
    assert_eq!(state.fetch(), Ok(10));
    assert_eq!(state.fetch(), Ok(20));
    assert_eq!(state.get_pc(), 2);
    state.add_pc(-2).unwrap();
    assert_eq!(state.fetch(), Ok(10));
    state.add_pc(2).unwrap();
    assert_eq!(state.get_pc(), 3);
    assert_eq!(state.fetch(), Err(Fault::Opcode(OpcodeError::BadOperand)));
    assert_eq!(state.add_pc(1), Err(Fault::Opcode(OpcodeError::BadOperand)));
    assert_eq!(state.add_pc(-4), Err(Fault::Opcode(OpcodeError::BadOperand)));
    assert_eq!(state.get_pc(), 3);
    state.get_const(1).unwrap();
    state.get_rk(0x100).unwrap();
    state.get_rk(0).unwrap();
    assert_eq!(live(&state), vec![text("k"), LuaValue::Integer(7), text("k")]);
    assert_eq!(state.get_const(2), Err(Fault::Opcode(OpcodeError::BadOperand)));
    assert_eq!(state.get_rk(0x102), Err(Fault::Opcode(OpcodeError::BadOperand)));
    assert_eq!(state.get_rk(3), Err(Fault::Stack(StackError::OutOfBounds)));
    state.push_nil().unwrap();
    assert_eq!(state.get_const(0), Err(Fault::Stack(StackError::Overflow)));
    assert_eq!(state.push_nil(), Err(Fault::Stack(StackError::Overflow)));
}

#[test]
fn test_arith_api() {
    let mut state = state_with(ints(&[9, 7, 3]), 0);
    assert!(matches!(state.arith(ArithOp::Sub), Ok(None)));
    assert_eq!(live(&state), ints(&[9, 4]));
    let task = state.arith(ArithOp::Div).unwrap().unwrap();
    assert_eq!(state.get_top(), 0);
    assert_eq!(task.lhs, LuaValue::Integer(9));
    assert_eq!(task.rhs, LuaValue::Integer(4));
    assert_eq!(state.arith(ArithOp::Add), Err(Fault::Stack(StackError::Underflow)));
    state.push_nil().unwrap();
    state.push_integer(1).unwrap();
    assert_eq!(state.arith(ArithOp::Add), Err(Fault::Type(TypeError::Arithmetic)));
    assert_eq!(state.get_top(), 0);
}
