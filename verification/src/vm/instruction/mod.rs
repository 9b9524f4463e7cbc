pub mod arith;
pub mod compare;
pub mod load;
pub mod misc;
pub mod repeat;

use vstd::prelude::*;
use super::arith::ArithOp;
use super::error::{Fault, OpcodeError};
use super::lua_state::{CampareOperator, LuaState, StateModel};
use super::lua_vm::{follows, Outcome, Step, StepModel};
use super::op_code::{OpArg, OpCodeEnum, OpMode};

verus! {

/// One 32-bit code word.
pub type Instruction = u32;

/// The largest value of the 17-bit field Bx.
pub const MAXARG_BX: i32 = 131071;

/// The value of Bx that stands for the signed displacement zero.
pub const MAXARG_SBX: i32 = 65535;

/// The value of the 25-bit jump field that stands for the displacement zero.
pub const OFFSET_SJ: i32 = 16777215;

/// The value of an 8-bit field that stands for the signed immediate zero.
pub const OFFSET_SC: i32 = 127;

/// The opcode number: the low 7 bits.
pub open spec fn field_op(w: u32) -> int {
    w as int % 128
}

/// Field A: the 8 bits above the opcode.
pub open spec fn field_a(w: u32) -> int {
    (w as int / 128) % 256
}

/// Field k: the single bit above A.
pub open spec fn field_k(w: u32) -> int {
    (w as int / 32768) % 2
}

/// Field B: the 8 bits above k.
pub open spec fn field_b(w: u32) -> int {
    (w as int / 65536) % 256
}

/// Field C: the top 8 bits.
pub open spec fn field_c(w: u32) -> int {
    w as int / 16777216
}

/// Field Bx: the 17 bits above A, unsigned.
pub open spec fn field_bx(w: u32) -> int {
    w as int / 32768
}

/// Field sBx: Bx read as a displacement centred on zero.
pub open spec fn field_sbx(w: u32) -> int {
    field_bx(w) - 65535
}

/// Field Ax: the 25 bits above the opcode, unsigned.
pub open spec fn field_ax(w: u32) -> int {
    w as int / 128
}

/// Field sJ: the 25 bits above the opcode read as a jump displacement centred on zero.
pub open spec fn field_sj(w: u32) -> int {
    field_ax(w) - 16777215
}

/// Field sB: B read as a signed immediate.
pub open spec fn field_sb(w: u32) -> int {
    field_b(w) - 127
}

/// Field sC: C read as a signed immediate.
pub open spec fn field_sc(w: u32) -> int {
    field_c(w) - 127
}

/// The operation that a code word names, if its opcode number is in the table.
pub open spec fn operation_of(w: u32) -> Option<OpCodeEnum> {
    OpCodeEnum::spec_from_index(field_op(w))
}

/// A code word is recognized when its opcode number names an operation.
pub open spec fn recognized(w: u32) -> bool {
    field_op(w) < 83
}

/// Decoding of a code word. Decoding is stateless: every accessor is a function of the word.
pub trait InstructionOperation {
    /// The code word itself.
    spec fn word(&self) -> u32;

    fn op_code(&self) -> (r: usize)
        ensures
            r == field_op(self.word()),
            r < 128,
    ;

    /// The operation of the word, or `None` for an opcode number outside the table.
    fn operation(&self) -> (r: Option<OpCodeEnum>)
        ensures
            r == operation_of(self.word()),
            r.is_some() <==> recognized(self.word()),
    ;

    fn abc(&self) -> (r: (i32, i32, i32))
        ensures
            r.0 == field_a(self.word()),
            r.1 == field_b(self.word()),
            r.2 == field_c(self.word()),
            0 <= r.0 < 256,
            0 <= r.1 < 256,
            0 <= r.2 < 256,
    ;

    fn a_bx(&self) -> (r: (i32, i32))
        ensures
            r.0 == field_a(self.word()),
            r.1 == field_bx(self.word()),
            0 <= r.0 < 256,
            0 <= r.1 <= MAXARG_BX,
    ;

    fn a_sbx(&self) -> (r: (i32, i32))
        ensures
            r.0 == field_a(self.word()),
            r.1 == field_sbx(self.word()),
            r.1 == field_bx(self.word()) - 65535,
            0 <= r.0 < 256,
            -65535 <= r.1 <= 65536,
    ;

    fn ax(&self) -> (r: i32)
        ensures
            r == field_ax(self.word()),
            0 <= r < 33554432,
    ;

    fn sj(&self) -> (r: i32)
        ensures
            r == field_sj(self.word()),
            r == self.word() as int / 128 - 16777215,
            -16777215 <= r <= 16777216,
    ;

    fn k(&self) -> (r: i32)
        ensures
            r == field_k(self.word()),
            0 <= r <= 1,
    ;

    /// B read as a signed immediate: the operand of the comparisons with an immediate.
    fn bx(&self) -> (r: i32)
        ensures
            r == field_sb(self.word()),
            -127 <= r <= 128,
    ;

    /// C read as a signed immediate: the operand of the arithmetic with an immediate.
    fn sc(&self) -> (r: i32)
        ensures
            r == field_sc(self.word()),
            -127 <= r <= 128,
    ;

    fn op_name(&self) -> (r: &'static str)
        requires
            recognized(self.word()),
        ensures
            r == operation_of(self.word()).unwrap().spec_name(),
    ;

    fn op_mode(&self) -> (r: OpMode)
        requires
            recognized(self.word()),
        ensures
            r == operation_of(self.word()).unwrap().spec_mode(),
    ;

    fn b_mode(&self) -> (r: OpArg)
        requires
            recognized(self.word()),
        ensures
            r == operation_of(self.word()).unwrap().spec_arg_b(),
    ;

    fn c_mode(&self) -> (r: OpArg)
        requires
            recognized(self.word()),
        ensures
            r == operation_of(self.word()).unwrap().spec_arg_c(),
    ;

    /// Runs the instruction on a state whose position in the code is behind it.
    fn execute(&self, vm: &mut LuaState) -> (r: Result<Step, Fault>)
        requires
            old(vm).wf(),
        ensures
            final(vm).wf(),
            final(vm)@.code == old(vm)@.code,
            final(vm)@.constants == old(vm)@.constants,
            follows(old(vm)@, final(vm)@, r, executed(old(vm)@, self.word())),
    ;
}

/// What an instruction does to a state whose position in the code is behind it. A
/// word whose opcode number names no operation is a fault. `RETURN` ends the run.
/// The operations that this machine does not perform leave the state as it is.
pub open spec fn executed(s: StateModel, w: u32) -> Outcome {
    match operation_of(w) {
        None => Err(Fault::Opcode(OpcodeError::Unknown)),
        Some(op) => match op {
            OpCodeEnum::OpMove => misc::moving_model(s, w),
            OpCodeEnum::OpLOADI => load::load_i_model(s, w),
            OpCodeEnum::OpLOADF => load::load_f_model(s, w),
            OpCodeEnum::OpLOADK => load::load_k_model(s, w),
            OpCodeEnum::OpLOADKX => load::load_kx_model(s, w),
            OpCodeEnum::OpLOADFALSE => load::load_bool_model(s, w, false),
            OpCodeEnum::OpLOADTRUE => load::load_bool_model(s, w, true),
            OpCodeEnum::OpLOADNIL => load::load_nil_model(s, w),
            OpCodeEnum::OpLEN => misc::len_model(s, w),
            OpCodeEnum::OpCONCAT => misc::concat_model(s, w),
            OpCodeEnum::OpJMP => misc::jump_model(s, w),
            OpCodeEnum::OpFORPREP => repeat::for_prep_model(s, w),
            OpCodeEnum::OpFORLOOP => repeat::for_loop_model(s, w),
            OpCodeEnum::OpADDK => arith::arith_k_model(s, ArithOp::Add, w),
            OpCodeEnum::OpSUBK => arith::arith_k_model(s, ArithOp::Sub, w),
            OpCodeEnum::OpMULK => arith::arith_k_model(s, ArithOp::Mul, w),
            OpCodeEnum::OpMODK => arith::arith_k_model(s, ArithOp::Mod, w),
            OpCodeEnum::OpPOWK => arith::arith_k_model(s, ArithOp::Pow, w),
            OpCodeEnum::OpDIVK => arith::arith_k_model(s, ArithOp::Div, w),
            OpCodeEnum::OpIDIVK => arith::arith_k_model(s, ArithOp::IDiv, w),
            OpCodeEnum::OpBANDK => arith::arith_k_model(s, ArithOp::BAnd, w),
            OpCodeEnum::OpBORK => arith::arith_k_model(s, ArithOp::BOr, w),
            OpCodeEnum::OpBXORK => arith::arith_k_model(s, ArithOp::BXor, w),
            OpCodeEnum::OpADDI => arith::arith_i_model(s, ArithOp::Add, w),
            OpCodeEnum::OpSHLI => arith::arith_i_model(s, ArithOp::Shl, w),
            OpCodeEnum::OpSHRI => arith::arith_i_model(s, ArithOp::Shr, w),
            OpCodeEnum::OpADD => arith::arith_model(s, ArithOp::Add, w),
            OpCodeEnum::OpSUB => arith::arith_model(s, ArithOp::Sub, w),
            OpCodeEnum::OpMUL => arith::arith_model(s, ArithOp::Mul, w),
            OpCodeEnum::OpMOD => arith::arith_model(s, ArithOp::Mod, w),
            OpCodeEnum::OpPOW => arith::arith_model(s, ArithOp::Pow, w),
            OpCodeEnum::OpDIV => arith::arith_model(s, ArithOp::Div, w),
            OpCodeEnum::OpIDIV => arith::arith_model(s, ArithOp::IDiv, w),
            OpCodeEnum::OpBAND => arith::arith_model(s, ArithOp::BAnd, w),
            OpCodeEnum::OpBOR => arith::arith_model(s, ArithOp::BOr, w),
            OpCodeEnum::OpBXOR => arith::arith_model(s, ArithOp::BXor, w),
            OpCodeEnum::OpSHL => arith::arith_model(s, ArithOp::Shl, w),
            OpCodeEnum::OpSHR => arith::arith_model(s, ArithOp::Shr, w),
            OpCodeEnum::OpUNM => arith::unary_model(s, ArithOp::Unm, w),
            OpCodeEnum::OpBNOT => arith::unary_model(s, ArithOp::BNot, w),
            OpCodeEnum::OpEQ => compare::compare_model(s, CampareOperator::Equal, w),
            OpCodeEnum::OpLT => compare::compare_model(s, CampareOperator::LessThen, w),
            OpCodeEnum::OpLE => compare::compare_model(s, CampareOperator::LessEqual, w),
            OpCodeEnum::OpEQI => compare::compare_i_model(s, CampareOperator::Equal, w),
            OpCodeEnum::OpLTI => compare::compare_i_model(s, CampareOperator::LessThen, w),
            OpCodeEnum::OpLEI => compare::compare_i_model(s, CampareOperator::LessEqual, w),
            OpCodeEnum::OpGTI => compare::compare_i_model(s, CampareOperator::GreatThen, w),
            OpCodeEnum::OpGEI => compare::compare_i_model(s, CampareOperator::GreatEqual, w),
            OpCodeEnum::OpRETURN => Ok((s, StepModel::Return)),
            _ => Ok((s, StepModel::Continue)),
        },
    }
}

/// Runs one instruction.
pub fn execute(i: Instruction, vm: &mut LuaState) -> (r: Result<Step, Fault>)
    requires
        old(vm).wf(),
    ensures
        final(vm).wf(),
        final(vm)@.code == old(vm)@.code,
        final(vm)@.constants == old(vm)@.constants,
        follows(old(vm)@, final(vm)@, r, executed(old(vm)@, i)),
{
    match i.operation() {
        None => Err(Fault::Opcode(OpcodeError::Unknown)),
        Some(op) => match op {
            OpCodeEnum::OpMove => misc::moving(i, vm),
            OpCodeEnum::OpLOADI => load::load_i(i, vm),
            OpCodeEnum::OpLOADF => load::load_f(i, vm),
            OpCodeEnum::OpLOADK => load::load_k(i, vm),
            OpCodeEnum::OpLOADKX => load::load_kx(i, vm),
            OpCodeEnum::OpLOADFALSE => load::load_false(i, vm),
            OpCodeEnum::OpLOADTRUE => load::load_true(i, vm),
            OpCodeEnum::OpLOADNIL => load::load_nil(i, vm),
            OpCodeEnum::OpLEN => misc::len(i, vm),
            OpCodeEnum::OpCONCAT => misc::concat(i, vm),
            OpCodeEnum::OpJMP => misc::jump(i, vm),
            OpCodeEnum::OpFORPREP => repeat::for_prep(i, vm),
            OpCodeEnum::OpFORLOOP => repeat::for_loop(i, vm),
            OpCodeEnum::OpADDK => crate::vm::instruction::arith::add_k(i, vm),
            OpCodeEnum::OpSUBK => crate::vm::instruction::arith::sub_k(i, vm),
            OpCodeEnum::OpMULK => crate::vm::instruction::arith::mul_k(i, vm),
            OpCodeEnum::OpMODK => crate::vm::instruction::arith::mod_k(i, vm),
            OpCodeEnum::OpPOWK => crate::vm::instruction::arith::pow_k(i, vm),
            OpCodeEnum::OpDIVK => crate::vm::instruction::arith::div_k(i, vm),
            OpCodeEnum::OpIDIVK => crate::vm::instruction::arith::idiv_k(i, vm),
            OpCodeEnum::OpBANDK => crate::vm::instruction::arith::b_and_k(i, vm),
            OpCodeEnum::OpBORK => crate::vm::instruction::arith::b_or_k(i, vm),
            OpCodeEnum::OpBXORK => crate::vm::instruction::arith::b_xor_k(i, vm),
            OpCodeEnum::OpADDI => crate::vm::instruction::arith::add_i(i, vm),
            OpCodeEnum::OpSHLI => crate::vm::instruction::arith::shl_i(i, vm),
            OpCodeEnum::OpSHRI => crate::vm::instruction::arith::shr_i(i, vm),
            OpCodeEnum::OpADD => crate::vm::instruction::arith::add(i, vm),
            OpCodeEnum::OpSUB => crate::vm::instruction::arith::sub(i, vm),
            OpCodeEnum::OpMUL => crate::vm::instruction::arith::mul(i, vm),
            OpCodeEnum::OpMOD => crate::vm::instruction::arith::mod_(i, vm),
            OpCodeEnum::OpPOW => crate::vm::instruction::arith::pow(i, vm),
            OpCodeEnum::OpDIV => crate::vm::instruction::arith::div(i, vm),
            OpCodeEnum::OpIDIV => crate::vm::instruction::arith::idiv(i, vm),
            OpCodeEnum::OpBAND => crate::vm::instruction::arith::b_and(i, vm),
            OpCodeEnum::OpBOR => crate::vm::instruction::arith::b_or(i, vm),
            OpCodeEnum::OpBXOR => crate::vm::instruction::arith::b_xor(i, vm),
            OpCodeEnum::OpSHL => crate::vm::instruction::arith::shl(i, vm),
            OpCodeEnum::OpSHR => crate::vm::instruction::arith::shr(i, vm),
            OpCodeEnum::OpUNM => crate::vm::instruction::arith::unm(i, vm),
            OpCodeEnum::OpBNOT => crate::vm::instruction::arith::b_not(i, vm),
            OpCodeEnum::OpEQ => compare::equal(i, vm),
            OpCodeEnum::OpLT => compare::less_than(i, vm),
            OpCodeEnum::OpLE => compare::less_equal(i, vm),
            OpCodeEnum::OpEQI => compare::equal_i(i, vm),
            OpCodeEnum::OpLTI => compare::less_than_i(i, vm),
            OpCodeEnum::OpLEI => compare::less_equal_i(i, vm),
            OpCodeEnum::OpGTI => compare::greater_than_i(i, vm),
            OpCodeEnum::OpGEI => compare::greater_equal_i(i, vm),
            OpCodeEnum::OpRETURN => Ok(Step::Return),
            _ => Ok(Step::Continue),
        },
    }
}

/// The five bit slices of a word, as the arithmetic that the field functions use.
pub proof fn lemma_field_bits(w: u32)
    ensures
        (w & 0x7f) as int == field_op(w),
        ((w >> 7) & 0xff) as int == field_a(w),
        ((w >> 15) & 0x1) as int == field_k(w),
        ((w >> 16) & 0xff) as int == field_b(w),
        (w >> 24) as int == field_c(w),
        (w >> 15) as int == field_bx(w),
        (w >> 7) as int == field_ax(w),
{
    assert((w & 0x7f) == w % 128) by (bit_vector);
    assert(((w >> 7) & 0xff) == (w / 128) % 256) by (bit_vector);
    assert(((w >> 15) & 0x1) == (w / 32768) % 2) by (bit_vector);
    assert(((w >> 16) & 0xff) == (w / 65536) % 256) by (bit_vector);
    assert((w >> 24) == w / 16777216) by (bit_vector);
    assert((w >> 15) == w / 32768) by (bit_vector);
    assert((w >> 7) == w / 128) by (bit_vector);
}

/// The code word with the opcode number `op` and the fields A, k, B and C.
pub open spec fn abc_value(op: int, a: int, k: int, b: int, c: int) -> u32 {
    (op + a * 128 + k * 32768 + b * 65536 + c * 16777216) as u32
}

/// The code word with the opcode number `op` and the fields A and Bx.
pub open spec fn abx_value(op: int, a: int, bx: int) -> u32 {
    (op + a * 128 + bx * 32768) as u32
}

/// The code word with the opcode number `op` and the field Ax, or with the field sJ
/// as `ax - 16777215`.
pub open spec fn ax_value(op: int, ax: int) -> u32 {
    (op + ax * 128) as u32
}

/// The code word of an operation with the fields A, k, B and C.
pub fn abc_word(op: OpCodeEnum, a: u8, k: bool, b: u8, c: u8) -> (w: Instruction)
    ensures
        w == abc_value(
            op.spec_index(),
            a as int,
            if k {
                1
            } else {
                0
            },
            b as int,
            c as int,
        ),
        operation_of(w) == Some(op),
        field_a(w) == a,
        field_k(w) == if k {
            1int
        } else {
            0int
        },
        field_b(w) == b,
        field_c(w) == c,
{
    let o = op.index() as u32;
    let kk: u32 = if k {
        1
    } else {
        0
    };
    let a32 = a as u32;
    let b32 = b as u32;
    let c32 = c as u32;
    let w = o | (a32 << 7) | (kk << 15) | (b32 << 16) | (c32 << 24);
    proof {
        assert(o < 128 && a32 < 256 && kk < 2 && b32 < 256 && c32 < 256 ==> {
            let w = o | (a32 << 7) | (kk << 15) | (b32 << 16) | (c32 << 24);
            w % 128 == o && (w / 128) % 256 == a32 && (w / 32768) % 2 == kk && (w / 65536) % 256
                == b32 && w / 16777216 == c32 && w == o + a32 * 128 + kk * 32768 + b32 * 65536
                + c32 * 16777216
        }) by (bit_vector);
        OpCodeEnum::lemma_index_injective(
            op,
            choose|other: OpCodeEnum| other.spec_index() == o as int,
        );
    }
    w
}

/// The code word of an operation with the fields A and Bx.
pub fn abx_word(op: OpCodeEnum, a: u8, bx: u32) -> (w: Instruction)
    requires
        bx <= 131071,
    ensures
        w == abx_value(op.spec_index(), a as int, bx as int),
        operation_of(w) == Some(op),
        field_a(w) == a,
        field_bx(w) == bx,
{
    let o = op.index() as u32;
    let a32 = a as u32;
    let w = o | (a32 << 7) | (bx << 15);
    proof {
        assert(o < 128 && a32 < 256 && bx <= 131071 ==> {
            let w = o | (a32 << 7) | (bx << 15);
            w % 128 == o && (w / 128) % 256 == a32 && w / 32768 == bx && w == o + a32 * 128 + bx
                * 32768
        }) by (bit_vector);
        OpCodeEnum::lemma_index_injective(
            op,
            choose|other: OpCodeEnum| other.spec_index() == o as int,
        );
    }
    w
}

/// The code word of an operation with the fields A and sBx.
pub fn asbx_word(op: OpCodeEnum, a: u8, sbx: i32) -> (w: Instruction)
    requires
        -65535 <= sbx <= 65536,
    ensures
        w == abx_value(op.spec_index(), a as int, sbx + 65535),
        operation_of(w) == Some(op),
        field_a(w) == a,
        field_sbx(w) == sbx,
{
    abx_word(op, a, (sbx + MAXARG_SBX) as u32)
}

/// The code word of an operation with the field sJ.
pub fn sj_word(op: OpCodeEnum, sj: i32) -> (w: Instruction)
    requires
        -16777215 <= sj <= 16777216,
    ensures
        w == ax_value(op.spec_index(), sj + 16777215),
        operation_of(w) == Some(op),
        field_sj(w) == sj,
        field_ax(w) == sj + 16777215,
{
    let o = op.index() as u32;
    let j = (sj + OFFSET_SJ) as u32;
    let w = o | (j << 7);
    proof {
        assert(o < 128 && j <= 33554431 ==> {
            let w = o | (j << 7);
            w % 128 == o && w / 128 == j && w == o + j * 128
        }) by (bit_vector);
        OpCodeEnum::lemma_index_injective(
            op,
            choose|other: OpCodeEnum| other.spec_index() == o as int,
        );
    }
    w
}

impl InstructionOperation for Instruction {
    open spec fn word(&self) -> u32 {
        *self
    }

    fn op_code(&self) -> (r: usize) {
        proof {
            lemma_field_bits(*self);
        }
        (*self & 0x7f) as usize
    }

    fn operation(&self) -> (r: Option<OpCodeEnum>) {
        OpCodeEnum::from_index(self.op_code())
    }

    fn abc(&self) -> (r: (i32, i32, i32)) {
        proof {
            lemma_field_bits(*self);
        }
        let a = ((*self >> 7) & 0xff) as i32;
        let b = ((*self >> 16) & 0xff) as i32;
        let c = (*self >> 24) as i32;
        (a, b, c)
    }

    fn a_bx(&self) -> (r: (i32, i32)) {
        proof {
            lemma_field_bits(*self);
        }
        let a = ((*self >> 7) & 0xff) as i32;
        let bx = (*self >> 15) as i32;
        (a, bx)
    }

    fn a_sbx(&self) -> (r: (i32, i32)) {
        let (a, bx) = self.a_bx();
        (a, bx - MAXARG_SBX)
    }

    fn ax(&self) -> (r: i32) {
        proof {
            lemma_field_bits(*self);
        }
        (*self >> 7) as i32
    }

    fn sj(&self) -> (r: i32) {
        self.ax() - OFFSET_SJ
    }

    fn k(&self) -> (r: i32) {
        proof {
            lemma_field_bits(*self);
        }
        ((*self >> 15) & 0x1) as i32
    }

    fn bx(&self) -> (r: i32) {
        let (_, b, _) = self.abc();
        b - OFFSET_SC
    }

    fn sc(&self) -> (r: i32) {
        let (_, _, c) = self.abc();
        c - OFFSET_SC
    }

    fn op_name(&self) -> (r: &'static str) {
        match self.operation() {
            Some(op) => op.name(),
            None => "",
        }
    }

    fn op_mode(&self) -> (r: OpMode) {
        match self.operation() {
            Some(op) => op.op_mode(),
            None => OpMode::IABC,
        }
    }

    fn b_mode(&self) -> (r: OpArg) {
        match self.operation() {
            Some(op) => op.arg_b_mode(),
            None => OpArg::OpArgN,
        }
    }

    fn c_mode(&self) -> (r: OpArg) {
        match self.operation() {
            Some(op) => op.arg_c_mode(),
            None => OpArg::OpArgN,
        }
    }

    fn execute(&self, vm: &mut LuaState) -> (r: Result<Step, Fault>) {
        self::execute(*self, vm)
    }
}

} // verus!
