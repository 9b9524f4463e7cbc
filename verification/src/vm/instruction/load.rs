use vstd::prelude::*;
use crate::vm::error::{Fault, OpcodeError, StackError};
use crate::vm::lua_state::{cleared, LuaApi, LuaState, LuaVm, StateModel};
use crate::vm::lua_value::{LuaValue, ValueModel};
use crate::vm::lua_vm::{follows, Outcome, Step, StepModel};
use crate::vm::number;
use super::{field_a, field_ax, field_b, field_bx, field_sbx, Instruction, InstructionOperation};

verus! {

/// A value loaded into register `a` by way of the top of the stack: the register must
/// be there, and a slot must be free.
pub open spec fn loaded(s: StateModel, a: int, v: ValueModel) -> Outcome {
    if !(0 <= a < s.top) {
        Err(Fault::Stack(StackError::OutOfBounds))
    } else if s.top >= s.capacity() {
        Err(Fault::Stack(StackError::Overflow))
    } else {
        Ok((s.stored(a, v), StepModel::Continue))
    }
}

/// `LOADNIL A B`: the registers `A ..= A + B` become nil.
pub open spec fn load_nil_model(s: StateModel, w: u32) -> Outcome {
    let a = field_a(w);
    let b = field_b(w);
    if !(a + b < s.top) {
        Err(Fault::Stack(StackError::OutOfBounds))
    } else if s.top >= s.capacity() {
        Err(Fault::Stack(StackError::Overflow))
    } else {
        Ok((StateModel { slots: cleared(s.slots, a, a + b + 1), ..s }, StepModel::Continue))
    }
}

/// `LOADI A sBx`: register `A` becomes the integer `sBx`.
pub open spec fn load_i_model(s: StateModel, w: u32) -> Outcome {
    loaded(s, field_a(w), ValueModel::Integer(field_sbx(w) as i64))
}

/// `LOADF A sBx`: register `A` becomes the number `sBx`.
pub open spec fn load_f_model(s: StateModel, w: u32) -> Outcome {
    loaded(s, field_a(w), ValueModel::Number(number::number_of_integer(field_sbx(w) as i64)))
}

/// `LOADFALSE A` and `LOADTRUE A`: register `A` becomes the boolean.
pub open spec fn load_bool_model(s: StateModel, w: u32, value: bool) -> Outcome {
    loaded(s, field_a(w), ValueModel::Boolean(value))
}

/// A constant loaded into register `a`.
pub open spec fn constant_loaded(s: StateModel, a: int, k: int) -> Outcome {
    if !(0 <= a < s.top) {
        Err(Fault::Stack(StackError::OutOfBounds))
    } else if !(0 <= k < s.constants.len()) {
        Err(Fault::Opcode(OpcodeError::BadOperand))
    } else if s.top >= s.capacity() {
        Err(Fault::Stack(StackError::Overflow))
    } else {
        Ok((s.stored(a, s.constants[k]), StepModel::Continue))
    }
}

/// `LOADK A Bx`: register `A` becomes the constant of number `Bx`.
pub open spec fn load_k_model(s: StateModel, w: u32) -> Outcome {
    constant_loaded(s, field_a(w), field_bx(w))
}

/// `LOADKX A`: register `A` becomes the constant whose number is the field Ax of the
/// next code word, which is skipped.
pub open spec fn load_kx_model(s: StateModel, w: u32) -> Outcome {
    if !(field_a(w) < s.top) {
        Err(Fault::Stack(StackError::OutOfBounds))
    } else if !(s.pc < s.code.len() && s.in_code(s.pc + 1)) {
        Err(Fault::Opcode(OpcodeError::BadOperand))
    } else {
        constant_loaded(s.at_pc(s.pc + 1), field_a(w), field_ax(s.code[s.pc]))
    }
}

/// Loads a value into a register by way of the top of the stack.
pub fn load(vm: &mut LuaState, a: i32, v: LuaValue) -> (r: Result<Step, Fault>)
    requires
        old(vm).wf(),
    ensures
        final(vm).wf(),
        final(vm)@.code == old(vm)@.code,
        final(vm)@.constants == old(vm)@.constants,
        follows(old(vm)@, final(vm)@, r, loaded(old(vm)@, a as int, v@)),
{
    if a < 0 || a as usize >= vm.get_top() {
        return Err(Fault::Stack(StackError::OutOfBounds));
    }
    match vm.push(v) {
        Ok(_) => {},
        Err(f) => return Err(f),
    }
    let _ = vm.replace(a);
    assert(vm@.slots =~= old(vm)@.stored(a as int, v@).slots);
    Ok(Step::Continue)
}

pub fn load_nil(i: Instruction, vm: &mut LuaState) -> (r: Result<Step, Fault>)
    requires
        old(vm).wf(),
    ensures
        final(vm).wf(),
        final(vm)@.code == old(vm)@.code,
        final(vm)@.constants == old(vm)@.constants,
        follows(old(vm)@, final(vm)@, r, load_nil_model(old(vm)@, i)),
{
    let (a, b, _) = i.abc();
    if (a + b) as usize >= vm.get_top() {
        return Err(Fault::Stack(StackError::OutOfBounds));
    }
    match vm.push_nil() {
        Ok(_) => {},
        Err(f) => return Err(f),
    }
    let mut k: i32 = a;
    assert(vm@.slots =~= cleared(old(vm)@.slots, a as int, a as int));
    while k <= a + b
        invariant
            0 <= a <= k <= a + b + 1,
            a + b < old(vm)@.top,
            a + b < 512,
            old(vm).wf(),
            old(vm)@.top < old(vm)@.capacity(),
            vm.wf(),
            vm@ == (StateModel {
                slots: cleared(old(vm)@.slots, a as int, k as int),
                top: old(vm)@.top + 1,
                ..old(vm)@
            }),
        decreases a + b + 1 - k,
    {
        let _ = vm.copy(-1, k);
        k = k + 1;
        assert(vm@.slots =~= cleared(old(vm)@.slots, a as int, k as int));
    }
    let _ = vm.pop(1);
    assert(vm@.slots =~= cleared(old(vm)@.slots, a as int, a + b + 1));
    Ok(Step::Continue)
}

pub fn load_i(i: Instruction, vm: &mut LuaState) -> (r: Result<Step, Fault>)
    requires
        old(vm).wf(),
    ensures
        final(vm).wf(),
        final(vm)@.code == old(vm)@.code,
        final(vm)@.constants == old(vm)@.constants,
        follows(old(vm)@, final(vm)@, r, load_i_model(old(vm)@, i)),
{
    let (a, sbx) = i.a_sbx();
    load(vm, a, LuaValue::Integer(sbx as i64))
}

pub fn load_f(i: Instruction, vm: &mut LuaState) -> (r: Result<Step, Fault>)
    requires
        old(vm).wf(),
    ensures
        final(vm).wf(),
        final(vm)@.code == old(vm)@.code,
        final(vm)@.constants == old(vm)@.constants,
        follows(old(vm)@, final(vm)@, r, load_f_model(old(vm)@, i)),
{
    let (a, sbx) = i.a_sbx();
    load(vm, a, LuaValue::Number(number::from_integer(sbx as i64)))
}

pub fn load_false(i: Instruction, vm: &mut LuaState) -> (r: Result<Step, Fault>)
    requires
        old(vm).wf(),
    ensures
        final(vm).wf(),
        final(vm)@.code == old(vm)@.code,
        final(vm)@.constants == old(vm)@.constants,
        follows(old(vm)@, final(vm)@, r, load_bool_model(old(vm)@, i, false)),
{
    let (a, _, _) = i.abc();
    load(vm, a, LuaValue::Boolean(false))
}

pub fn load_true(i: Instruction, vm: &mut LuaState) -> (r: Result<Step, Fault>)
    requires
        old(vm).wf(),
    ensures
        final(vm).wf(),
        final(vm)@.code == old(vm)@.code,
        final(vm)@.constants == old(vm)@.constants,
        follows(old(vm)@, final(vm)@, r, load_bool_model(old(vm)@, i, true)),
{
    let (a, _, _) = i.abc();
    load(vm, a, LuaValue::Boolean(true))
}

/// Loads the constant of number `k` into register `a`.
pub fn load_constant(vm: &mut LuaState, a: i32, k: i32) -> (r: Result<Step, Fault>)
    requires
        old(vm).wf(),
    ensures
        final(vm).wf(),
        final(vm)@.code == old(vm)@.code,
        final(vm)@.constants == old(vm)@.constants,
        follows(old(vm)@, final(vm)@, r, constant_loaded(old(vm)@, a as int, k as int)),
{
    if a < 0 || a as usize >= vm.get_top() {
        return Err(Fault::Stack(StackError::OutOfBounds));
    }
    if k < 0 {
        return Err(Fault::Opcode(OpcodeError::BadOperand));
    }
    match vm.get_const(k as usize) {
        Ok(_) => {},
        Err(f) => return Err(f),
    }
    let _ = vm.replace(a);
    assert(vm@.slots =~= old(vm)@.stored(a as int, old(vm)@.constants[k as int]).slots);
    Ok(Step::Continue)
}

pub fn load_k(i: Instruction, vm: &mut LuaState) -> (r: Result<Step, Fault>)
    requires
        old(vm).wf(),
    ensures
        final(vm).wf(),
        final(vm)@.code == old(vm)@.code,
        final(vm)@.constants == old(vm)@.constants,
        follows(old(vm)@, final(vm)@, r, load_k_model(old(vm)@, i)),
{
    let (a, bx) = i.a_bx();
    load_constant(vm, a, bx)
}

pub fn load_kx(i: Instruction, vm: &mut LuaState) -> (r: Result<Step, Fault>)
    requires
        old(vm).wf(),
    ensures
        final(vm).wf(),
        final(vm)@.code == old(vm)@.code,
        final(vm)@.constants == old(vm)@.constants,
        follows(old(vm)@, final(vm)@, r, load_kx_model(old(vm)@, i)),
{
    let (a, _) = i.a_bx();
    if a as usize >= vm.get_top() {
        return Err(Fault::Stack(StackError::OutOfBounds));
    }
    let pc = vm.get_pc();
    if pc as usize >= vm.prototype.code.len() || pc == 0xffff_ffff {
        return Err(Fault::Opcode(OpcodeError::BadOperand));
    }
    // the next word is looked at before it is taken
    let ax = vm.prototype.code[pc as usize].ax();
    if ax as usize >= vm.prototype.constants.len() {
        return Err(Fault::Opcode(OpcodeError::BadOperand));
    }
    if vm.stack.top >= vm.stack.slots.len() {
        return Err(Fault::Stack(StackError::Overflow));
    }
    let _ = vm.fetch();
    load_constant(vm, a, ax)
}

} // verus!
