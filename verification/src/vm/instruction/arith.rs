use vstd::prelude::*;
use crate::vm::arith::{ArithOp, TaskModel};
use crate::vm::error::{Fault, OpcodeError, StackError};
use crate::vm::lua_state::{LuaApi, LuaState, LuaVm, StateModel};
use crate::vm::lua_value::{LuaValue, ValueModel};
use crate::vm::lua_vm::{follows, settled, FloatTicket, Outcome, Resume, Step};
use super::{field_a, field_b, field_c, field_sc, Instruction, InstructionOperation};

verus! {

/// An operation on two values into register `a`, by way of the top of the stack, where
/// two slots must be free. Where the float unit has to be asked, the instruction
/// waits, and its result will be stored in the register.
pub open spec fn arith_effect(s: StateModel, op: ArithOp, a: int, lhs: ValueModel, rhs: ValueModel)
    -> Outcome {
    if s.top + 2 > s.capacity() {
        Err(Fault::Stack(StackError::Overflow))
    } else {
        settled(s, TaskModel { op, lhs, rhs, applied: None }, Resume::Store(a as i32))
    }
}

/// An operation `A B C` on two registers: register `A` becomes the result of the
/// operation on the registers `B` and `C`.
pub open spec fn arith_model(s: StateModel, op: ArithOp, w: u32) -> Outcome {
    let a = field_a(w);
    let b = field_b(w);
    let c = field_c(w);
    if !(a < s.top && b < s.top && c < s.top) {
        Err(Fault::Stack(StackError::OutOfBounds))
    } else {
        arith_effect(s, op, a, s.slots[b], s.slots[c])
    }
}

/// An operation `A B C` on a register and a constant: register `A` becomes the result
/// of the operation on register `B` and the constant of number `C`.
pub open spec fn arith_k_model(s: StateModel, op: ArithOp, w: u32) -> Outcome {
    let a = field_a(w);
    let b = field_b(w);
    let c = field_c(w);
    if !(a < s.top && b < s.top) {
        Err(Fault::Stack(StackError::OutOfBounds))
    } else if !(c < s.constants.len()) {
        Err(Fault::Opcode(OpcodeError::BadOperand))
    } else {
        arith_effect(s, op, a, s.slots[b], s.constants[c])
    }
}

/// An operation `A B sC` on a register and an immediate: register `A` becomes the
/// result of the operation on register `B` and the integer `sC`.
pub open spec fn arith_i_model(s: StateModel, op: ArithOp, w: u32) -> Outcome {
    let a = field_a(w);
    let b = field_b(w);
    if !(a < s.top && b < s.top) {
        Err(Fault::Stack(StackError::OutOfBounds))
    } else {
        arith_effect(s, op, a, s.slots[b], ValueModel::Integer(field_sc(w) as i64))
    }
}

/// An operation `A B` on one register: register `A` becomes the result of the
/// operation on register `B`.
pub open spec fn unary_model(s: StateModel, op: ArithOp, w: u32) -> Outcome {
    let a = field_a(w);
    let b = field_b(w);
    if !(a < s.top && b < s.top) {
        Err(Fault::Stack(StackError::OutOfBounds))
    } else {
        arith_effect(s, op, a, s.slots[b], ValueModel::Integer(0))
    }
}

/// Does an operation on two values by way of the top of the stack and stores the
/// result in register `a`, which must be there.
pub fn arith_on(vm: &mut LuaState, op: ArithOp, a: i32, lhs: LuaValue, rhs: LuaValue) -> (r: Result<
    Step,
    Fault,
>)
    requires
        old(vm).wf(),
        0 <= a < old(vm)@.top,
    ensures
        final(vm).wf(),
        final(vm)@.code == old(vm)@.code,
        final(vm)@.constants == old(vm)@.constants,
        follows(old(vm)@, final(vm)@, r, arith_effect(old(vm)@, op, a as int, lhs@, rhs@)),
{
    if vm.stack.slots.len() - vm.stack.top < 2 {
        return Err(Fault::Stack(StackError::Overflow));
    }
    let _ = vm.push(lhs);
    let _ = vm.push(rhs);
    let ghost full = vm@;
    assert(full.operation(op) == (TaskModel { op, lhs: lhs@, rhs: rhs@, applied: None }));
    match vm.arith(op) {
        Ok(None) => {
            let _ = vm.replace(a);
            assert(vm@.slots =~= old(vm)@.stored(a as int, vm@.slots[a as int]).slots);
            Ok(Step::Continue)
        },
        Ok(Some(task)) => {
            assert(vm@.slots =~= old(vm)@.slots);
            Ok(Step::Float(FloatTicket { task, resume: Resume::Store(a) }))
        },
        Err(f) => {
            assert(vm@.slots =~= old(vm)@.slots);
            Err(f)
        },
    }
}

fn arith(i: Instruction, vm: &mut LuaState, op: ArithOp) -> (r: Result<Step, Fault>)
    requires
        old(vm).wf(),
    ensures
        final(vm).wf(),
        final(vm)@.code == old(vm)@.code,
        final(vm)@.constants == old(vm)@.constants,
        follows(old(vm)@, final(vm)@, r, arith_model(old(vm)@, op, i)),
{
    let (a, b, c) = i.abc();
    let lhs = match vm.register(b) {
        Ok(v) => v,
        Err(f) => return Err(f),
    };
    let rhs = match vm.register(c) {
        Ok(v) => v,
        Err(f) => return Err(f),
    };
    if a as usize >= vm.get_top() {
        return Err(Fault::Stack(StackError::OutOfBounds));
    }
    arith_on(vm, op, a, lhs, rhs)
}

fn arith_k(i: Instruction, vm: &mut LuaState, op: ArithOp) -> (r: Result<Step, Fault>)
    requires
        old(vm).wf(),
    ensures
        final(vm).wf(),
        final(vm)@.code == old(vm)@.code,
        final(vm)@.constants == old(vm)@.constants,
        follows(old(vm)@, final(vm)@, r, arith_k_model(old(vm)@, op, i)),
{
    let (a, b, c) = i.abc();
    let lhs = match vm.register(b) {
        Ok(v) => v,
        Err(f) => return Err(f),
    };
    if a as usize >= vm.get_top() {
        return Err(Fault::Stack(StackError::OutOfBounds));
    }
    if c as usize >= vm.prototype.constants.len() {
        return Err(Fault::Opcode(OpcodeError::BadOperand));
    }
    let rhs = vm.prototype.constants[c as usize].clone();
    arith_on(vm, op, a, lhs, rhs)
}

fn arith_i(i: Instruction, vm: &mut LuaState, op: ArithOp) -> (r: Result<Step, Fault>)
    requires
        old(vm).wf(),
    ensures
        final(vm).wf(),
        final(vm)@.code == old(vm)@.code,
        final(vm)@.constants == old(vm)@.constants,
        follows(old(vm)@, final(vm)@, r, arith_i_model(old(vm)@, op, i)),
{
    let (a, b, _) = i.abc();
    let sc = i.sc();
    let lhs = match vm.register(b) {
        Ok(v) => v,
        Err(f) => return Err(f),
    };
    if a as usize >= vm.get_top() {
        return Err(Fault::Stack(StackError::OutOfBounds));
    }
    arith_on(vm, op, a, lhs, LuaValue::Integer(sc as i64))
}

fn unary(i: Instruction, vm: &mut LuaState, op: ArithOp) -> (r: Result<Step, Fault>)
    requires
        old(vm).wf(),
    ensures
        final(vm).wf(),
        final(vm)@.code == old(vm)@.code,
        final(vm)@.constants == old(vm)@.constants,
        follows(old(vm)@, final(vm)@, r, unary_model(old(vm)@, op, i)),
{
    let (a, b, _) = i.abc();
    let lhs = match vm.register(b) {
        Ok(v) => v,
        Err(f) => return Err(f),
    };
    if a as usize >= vm.get_top() {
        return Err(Fault::Stack(StackError::OutOfBounds));
    }
    arith_on(vm, op, a, lhs, LuaValue::Integer(0))
}

/// `ADDK A B C`.
pub fn add_k(i: Instruction, vm: &mut LuaState) -> (r: Result<Step, Fault>)
    requires
        old(vm).wf(),
    ensures
        final(vm).wf(),
        final(vm)@.code == old(vm)@.code,
        final(vm)@.constants == old(vm)@.constants,
        follows(old(vm)@, final(vm)@, r, arith_k_model(old(vm)@, ArithOp::Add, i)),
{
    arith_k(i, vm, ArithOp::Add)
}

/// `SUBK A B C`.
pub fn sub_k(i: Instruction, vm: &mut LuaState) -> (r: Result<Step, Fault>)
    requires
        old(vm).wf(),
    ensures
        final(vm).wf(),
        final(vm)@.code == old(vm)@.code,
        final(vm)@.constants == old(vm)@.constants,
        follows(old(vm)@, final(vm)@, r, arith_k_model(old(vm)@, ArithOp::Sub, i)),
{
    arith_k(i, vm, ArithOp::Sub)
}

/// `MULK A B C`.
pub fn mul_k(i: Instruction, vm: &mut LuaState) -> (r: Result<Step, Fault>)
    requires
        old(vm).wf(),
    ensures
        final(vm).wf(),
        final(vm)@.code == old(vm)@.code,
        final(vm)@.constants == old(vm)@.constants,
        follows(old(vm)@, final(vm)@, r, arith_k_model(old(vm)@, ArithOp::Mul, i)),
{
    arith_k(i, vm, ArithOp::Mul)
}

/// `MODK A B C`.
pub fn mod_k(i: Instruction, vm: &mut LuaState) -> (r: Result<Step, Fault>)
    requires
        old(vm).wf(),
    ensures
        final(vm).wf(),
        final(vm)@.code == old(vm)@.code,
        final(vm)@.constants == old(vm)@.constants,
        follows(old(vm)@, final(vm)@, r, arith_k_model(old(vm)@, ArithOp::Mod, i)),
{
    arith_k(i, vm, ArithOp::Mod)
}

/// `POWK A B C`.
pub fn pow_k(i: Instruction, vm: &mut LuaState) -> (r: Result<Step, Fault>)
    requires
        old(vm).wf(),
    ensures
        final(vm).wf(),
        final(vm)@.code == old(vm)@.code,
        final(vm)@.constants == old(vm)@.constants,
        follows(old(vm)@, final(vm)@, r, arith_k_model(old(vm)@, ArithOp::Pow, i)),
{
    arith_k(i, vm, ArithOp::Pow)
}

/// `DIVK A B C`.
pub fn div_k(i: Instruction, vm: &mut LuaState) -> (r: Result<Step, Fault>)
    requires
        old(vm).wf(),
    ensures
        final(vm).wf(),
        final(vm)@.code == old(vm)@.code,
        final(vm)@.constants == old(vm)@.constants,
        follows(old(vm)@, final(vm)@, r, arith_k_model(old(vm)@, ArithOp::Div, i)),
{
    arith_k(i, vm, ArithOp::Div)
}

/// `IDIVK A B C`.
pub fn idiv_k(i: Instruction, vm: &mut LuaState) -> (r: Result<Step, Fault>)
    requires
        old(vm).wf(),
    ensures
        final(vm).wf(),
        final(vm)@.code == old(vm)@.code,
        final(vm)@.constants == old(vm)@.constants,
        follows(old(vm)@, final(vm)@, r, arith_k_model(old(vm)@, ArithOp::IDiv, i)),
{
    arith_k(i, vm, ArithOp::IDiv)
}

/// `BANDK A B C`.
pub fn b_and_k(i: Instruction, vm: &mut LuaState) -> (r: Result<Step, Fault>)
    requires
        old(vm).wf(),
    ensures
        final(vm).wf(),
        final(vm)@.code == old(vm)@.code,
        final(vm)@.constants == old(vm)@.constants,
        follows(old(vm)@, final(vm)@, r, arith_k_model(old(vm)@, ArithOp::BAnd, i)),
{
    arith_k(i, vm, ArithOp::BAnd)
}

/// `BORK A B C`.
pub fn b_or_k(i: Instruction, vm: &mut LuaState) -> (r: Result<Step, Fault>)
    requires
        old(vm).wf(),
    ensures
        final(vm).wf(),
        final(vm)@.code == old(vm)@.code,
        final(vm)@.constants == old(vm)@.constants,
        follows(old(vm)@, final(vm)@, r, arith_k_model(old(vm)@, ArithOp::BOr, i)),
{
    arith_k(i, vm, ArithOp::BOr)
}

/// `BXORK A B C`.
pub fn b_xor_k(i: Instruction, vm: &mut LuaState) -> (r: Result<Step, Fault>)
    requires
        old(vm).wf(),
    ensures
        final(vm).wf(),
        final(vm)@.code == old(vm)@.code,
        final(vm)@.constants == old(vm)@.constants,
        follows(old(vm)@, final(vm)@, r, arith_k_model(old(vm)@, ArithOp::BXor, i)),
{
    arith_k(i, vm, ArithOp::BXor)
}

/// `ADDI A B sC`.
pub fn add_i(i: Instruction, vm: &mut LuaState) -> (r: Result<Step, Fault>)
    requires
        old(vm).wf(),
    ensures
        final(vm).wf(),
        final(vm)@.code == old(vm)@.code,
        final(vm)@.constants == old(vm)@.constants,
        follows(old(vm)@, final(vm)@, r, arith_i_model(old(vm)@, ArithOp::Add, i)),
{
    arith_i(i, vm, ArithOp::Add)
}

/// `SHLI A B sC`.
pub fn shl_i(i: Instruction, vm: &mut LuaState) -> (r: Result<Step, Fault>)
    requires
        old(vm).wf(),
    ensures
        final(vm).wf(),
        final(vm)@.code == old(vm)@.code,
        final(vm)@.constants == old(vm)@.constants,
        follows(old(vm)@, final(vm)@, r, arith_i_model(old(vm)@, ArithOp::Shl, i)),
{
    arith_i(i, vm, ArithOp::Shl)
}

/// `SHRI A B sC`.
pub fn shr_i(i: Instruction, vm: &mut LuaState) -> (r: Result<Step, Fault>)
    requires
        old(vm).wf(),
    ensures
        final(vm).wf(),
        final(vm)@.code == old(vm)@.code,
        final(vm)@.constants == old(vm)@.constants,
        follows(old(vm)@, final(vm)@, r, arith_i_model(old(vm)@, ArithOp::Shr, i)),
{
    arith_i(i, vm, ArithOp::Shr)
}

/// `ADD A B C`.
pub fn add(i: Instruction, vm: &mut LuaState) -> (r: Result<Step, Fault>)
    requires
        old(vm).wf(),
    ensures
        final(vm).wf(),
        final(vm)@.code == old(vm)@.code,
        final(vm)@.constants == old(vm)@.constants,
        follows(old(vm)@, final(vm)@, r, arith_model(old(vm)@, ArithOp::Add, i)),
{
    arith(i, vm, ArithOp::Add)
}

/// `SUB A B C`.
pub fn sub(i: Instruction, vm: &mut LuaState) -> (r: Result<Step, Fault>)
    requires
        old(vm).wf(),
    ensures
        final(vm).wf(),
        final(vm)@.code == old(vm)@.code,
        final(vm)@.constants == old(vm)@.constants,
        follows(old(vm)@, final(vm)@, r, arith_model(old(vm)@, ArithOp::Sub, i)),
{
    arith(i, vm, ArithOp::Sub)
}

/// `MUL A B C`.
pub fn mul(i: Instruction, vm: &mut LuaState) -> (r: Result<Step, Fault>)
    requires
        old(vm).wf(),
    ensures
        final(vm).wf(),
        final(vm)@.code == old(vm)@.code,
        final(vm)@.constants == old(vm)@.constants,
        follows(old(vm)@, final(vm)@, r, arith_model(old(vm)@, ArithOp::Mul, i)),
{
    arith(i, vm, ArithOp::Mul)
}

/// `MOD A B C`.
pub fn mod_(i: Instruction, vm: &mut LuaState) -> (r: Result<Step, Fault>)
    requires
        old(vm).wf(),
    ensures
        final(vm).wf(),
        final(vm)@.code == old(vm)@.code,
        final(vm)@.constants == old(vm)@.constants,
        follows(old(vm)@, final(vm)@, r, arith_model(old(vm)@, ArithOp::Mod, i)),
{
    arith(i, vm, ArithOp::Mod)
}

/// `POW A B C`.
pub fn pow(i: Instruction, vm: &mut LuaState) -> (r: Result<Step, Fault>)
    requires
        old(vm).wf(),
    ensures
        final(vm).wf(),
        final(vm)@.code == old(vm)@.code,
        final(vm)@.constants == old(vm)@.constants,
        follows(old(vm)@, final(vm)@, r, arith_model(old(vm)@, ArithOp::Pow, i)),
{
    arith(i, vm, ArithOp::Pow)
}

/// `DIV A B C`.
pub fn div(i: Instruction, vm: &mut LuaState) -> (r: Result<Step, Fault>)
    requires
        old(vm).wf(),
    ensures
        final(vm).wf(),
        final(vm)@.code == old(vm)@.code,
        final(vm)@.constants == old(vm)@.constants,
        follows(old(vm)@, final(vm)@, r, arith_model(old(vm)@, ArithOp::Div, i)),
{
    arith(i, vm, ArithOp::Div)
}

/// `IDIV A B C`.
pub fn idiv(i: Instruction, vm: &mut LuaState) -> (r: Result<Step, Fault>)
    requires
        old(vm).wf(),
    ensures
        final(vm).wf(),
        final(vm)@.code == old(vm)@.code,
        final(vm)@.constants == old(vm)@.constants,
        follows(old(vm)@, final(vm)@, r, arith_model(old(vm)@, ArithOp::IDiv, i)),
{
    arith(i, vm, ArithOp::IDiv)
}

/// `BAND A B C`.
pub fn b_and(i: Instruction, vm: &mut LuaState) -> (r: Result<Step, Fault>)
    requires
        old(vm).wf(),
    ensures
        final(vm).wf(),
        final(vm)@.code == old(vm)@.code,
        final(vm)@.constants == old(vm)@.constants,
        follows(old(vm)@, final(vm)@, r, arith_model(old(vm)@, ArithOp::BAnd, i)),
{
    arith(i, vm, ArithOp::BAnd)
}

/// `BOR A B C`.
pub fn b_or(i: Instruction, vm: &mut LuaState) -> (r: Result<Step, Fault>)
    requires
        old(vm).wf(),
    ensures
        final(vm).wf(),
        final(vm)@.code == old(vm)@.code,
        final(vm)@.constants == old(vm)@.constants,
        follows(old(vm)@, final(vm)@, r, arith_model(old(vm)@, ArithOp::BOr, i)),
{
    arith(i, vm, ArithOp::BOr)
}

/// `BXOR A B C`.
pub fn b_xor(i: Instruction, vm: &mut LuaState) -> (r: Result<Step, Fault>)
    requires
        old(vm).wf(),
    ensures
        final(vm).wf(),
        final(vm)@.code == old(vm)@.code,
        final(vm)@.constants == old(vm)@.constants,
        follows(old(vm)@, final(vm)@, r, arith_model(old(vm)@, ArithOp::BXor, i)),
{
    arith(i, vm, ArithOp::BXor)
}

/// `SHL A B C`.
pub fn shl(i: Instruction, vm: &mut LuaState) -> (r: Result<Step, Fault>)
    requires
        old(vm).wf(),
    ensures
        final(vm).wf(),
        final(vm)@.code == old(vm)@.code,
        final(vm)@.constants == old(vm)@.constants,
        follows(old(vm)@, final(vm)@, r, arith_model(old(vm)@, ArithOp::Shl, i)),
{
    arith(i, vm, ArithOp::Shl)
}

/// `SHR A B C`.
pub fn shr(i: Instruction, vm: &mut LuaState) -> (r: Result<Step, Fault>)
    requires
        old(vm).wf(),
    ensures
        final(vm).wf(),
        final(vm)@.code == old(vm)@.code,
        final(vm)@.constants == old(vm)@.constants,
        follows(old(vm)@, final(vm)@, r, arith_model(old(vm)@, ArithOp::Shr, i)),
{
    arith(i, vm, ArithOp::Shr)
}

/// `UNM A B`.
pub fn unm(i: Instruction, vm: &mut LuaState) -> (r: Result<Step, Fault>)
    requires
        old(vm).wf(),
    ensures
        final(vm).wf(),
        final(vm)@.code == old(vm)@.code,
        final(vm)@.constants == old(vm)@.constants,
        follows(old(vm)@, final(vm)@, r, unary_model(old(vm)@, ArithOp::Unm, i)),
{
    unary(i, vm, ArithOp::Unm)
}

/// `BNOT A B`.
pub fn b_not(i: Instruction, vm: &mut LuaState) -> (r: Result<Step, Fault>)
    requires
        old(vm).wf(),
    ensures
        final(vm).wf(),
        final(vm)@.code == old(vm)@.code,
        final(vm)@.constants == old(vm)@.constants,
        follows(old(vm)@, final(vm)@, r, unary_model(old(vm)@, ArithOp::BNot, i)),
{
    unary(i, vm, ArithOp::BNot)
}

} // verus!
