use crescent::vm::instruction::{Instruction, InstructionOperation};
use crescent::vm::op_code::{OpArg, OpCodeEnum, OpMode, OP_CODE_COUNT};

fn print_operands(i: Instruction) {
    println!("op name => {:?}", i.op_name());

    match i.op_mode() {
        OpMode::IABC => {
            let (a, b, c) = i.abc();
            println!("\ta => {:?}", a);
            match i.b_mode() {
                OpArg::OpArgN => println!("\tb => {:?}", b),
                _ => println!("\tb => {:?}", -1 - b & 0xFF),
            }
            match i.c_mode() {
                OpArg::OpArgN => println!("\tc => {:?}", c),
                _ => println!("\tc => {:?}", -1 - c & 0xFF),
            }
        }
        OpMode::IABx => {
            let (a, bx) = i.a_bx();
            println!("\ta => {:?}", a);
            match i.b_mode() {
                OpArg::OpArgK => println!("\tbx => {:?}", -1 - bx),
                OpArg::OpArgU => println!("\tbx => {:?}", bx),
                _ => (),
            }
        }
        OpMode::IAsBx => {
            let (a, sbx) = i.a_sbx();
            println!("\ta => {:?}\t sbx => {:?}", a, sbx);
        }
        OpMode::IAx => {
            let ax = i.ax();
            println!("\tax => {}", ax);
        }
        OpMode::ISJ => {
            let sj = i.sj();
            println!("\tsj => {}", sj);
        }
    }
}

#[test]
fn instruction_test_instruction() {
    let codes: [Instruction; 5] = [139, 33027, 131362, 100663598, 16908484];
    for code in codes.iter() {
        print_operands(code.clone());
    }
}

#[test]
fn mod_test_instruction() {
    let codes: [Instruction; 3] = [81, 8, 16842950];
    for code in codes.iter() {
        print_operands(code.clone());
    }
}

#[test]
fn test_inst_move() {
    let i: Instruction = 2147483448;
    let sj = i.sj();
    assert_eq!(sj, -1)
}

#[test]
fn test_decoded_names() {
    // VARARGPREP 0; LOADNIL 0 0; RETURN 1 1 1
    let codes: [Instruction; 3] = [81, 8, 16842950];
    assert_eq!(codes[0].op_name(), "VARARGPREP");
    assert_eq!(codes[1].op_name(), "LOADNIL");
    assert_eq!(codes[2].op_name(), "RETURN");
    assert_eq!(codes[2].abc(), (1, 1, 1));
    assert_eq!(codes[2].k(), 0);
    assert_eq!(codes[2].op_code(), 70);
    assert_eq!(codes[2].operation(), Some(OpCodeEnum::OpRETURN));
    // GETTABUP 0 0 0; LOADK 1 1; CALL 0 2 1
    assert_eq!((11 as Instruction).op_name(), "GETTABUP");
    assert_eq!((32899 as Instruction).op_name(), "LOADK");
    assert_eq!((32899 as Instruction).a_bx(), (1, 1));
    assert_eq!((16908356 as Instruction).op_name(), "CALL");
    assert_eq!((16908356 as Instruction).abc(), (0, 2, 1));
}

#[test]
fn test_fields_of_extreme_words() {
    let all: Instruction = 0xffff_ffff;
    assert_eq!(all.op_code(), 127);
    assert_eq!(all.operation(), None);
    assert_eq!(all.abc(), (255, 255, 255));
    assert_eq!(all.k(), 1);
    assert_eq!(all.a_bx(), (255, 131071));
    assert_eq!(all.a_sbx(), (255, 65536));
    assert_eq!(all.ax(), 33554431);
    assert_eq!(all.sj(), 16777216);
    assert_eq!(all.bx(), 128);
    assert_eq!(all.sc(), 128);
    let none: Instruction = 0;
    assert_eq!(none.abc(), (0, 0, 0));
    assert_eq!(none.a_sbx(), (0, -65535));
    assert_eq!(none.sj(), -16777215);
    assert_eq!(none.bx(), -127);
    assert_eq!(none.op_name(), "MOVE");
    assert_eq!(none.op_mode(), OpMode::IABC);
}

#[test]
fn test_sbx_is_bx_centred() {
    for w in [0u32, 1 << 15, 0x7fff_8000, 0xffff_ffff, 0x8000_0001, 65535 << 15] {
        let (a, bx) = w.a_bx();
        let (a2, sbx) = w.a_sbx();
        assert_eq!(a, a2);
        assert!(0 <= a && a < 256);
        assert_eq!(sbx, bx - 65535);
        assert_eq!(w.sj(), (w >> 7) as i32 - (((1 << 25) - 1) >> 1));
    }
    assert_eq!(((65535u32 << 15) as Instruction).a_sbx().1, 0);
}

#[test]
fn test_opcode_table() {
    assert_eq!(OP_CODE_COUNT, 83);
    for n in 0..OP_CODE_COUNT {
        let op = OpCodeEnum::from_index(n).unwrap();
        assert_eq!(op.index(), n);
        let info = op.info();
        assert_eq!(info.name, op.name());
        assert_eq!(info.op_mode, op.op_mode());
        assert_eq!(info.test_flag == 1, op.is_test());
        assert_eq!(info.set_a_flag == 1, op.sets_a());
        assert_eq!(info.arg_b_mode, op.arg_b_mode());
        assert_eq!(info.arg_c_mode, op.arg_c_mode());
        assert_eq!((n as Instruction).op_mode(), op.op_mode());
    }
    assert_eq!(OpCodeEnum::from_index(83), None);
    assert_eq!(OpCodeEnum::from_index(127), None);
    assert_eq!(OpCodeEnum::OpMove.index(), 0);
    assert_eq!(OpCodeEnum::OpRETURN.index(), 70);
    assert_eq!(OpCodeEnum::OpEXTRAARG.index(), 82);
    assert_eq!(OpCodeEnum::OpJMP.op_mode(), OpMode::ISJ);
    assert_eq!(OpCodeEnum::OpLOADI.op_mode(), OpMode::IAsBx);
    assert_eq!(OpCodeEnum::OpLOADK.op_mode(), OpMode::IABx);
    assert_eq!(OpCodeEnum::OpEXTRAARG.op_mode(), OpMode::IAx);
    assert_eq!(OpCodeEnum::OpADD.op_mode(), OpMode::IABC);
    assert!(OpCodeEnum::OpEQ.is_test());
    assert!(!OpCodeEnum::OpEQ.sets_a());
    assert!(OpCodeEnum::OpADD.sets_a());
    assert_eq!(OpCodeEnum::OpADDK.arg_c_mode(), OpArg::OpArgK);
    assert_eq!(OpCodeEnum::OpMove.arg_b_mode(), OpArg::OpArgR);
    assert_eq!(OpCodeEnum::OpMove.arg_c_mode(), OpArg::OpArgN);
}
