use vstd::prelude::*;
use crate::vm::error::{Fault, OpcodeError, StackError};
use crate::vm::lua_state::{
    compare_values, compared, CampareOperator, LuaApi, LuaState, LuaVm, StateModel,
};
use crate::vm::lua_value::{LuaValue, ValueModel};
use crate::vm::lua_vm::{follows, Outcome, Step, StepModel};
use super::{field_a, field_b, field_k, field_sb, Instruction, InstructionOperation};

verus! {

/// The end of a test: where the comparison gives what the bit `k` asks for, the next
/// instruction is skipped.
pub open spec fn test_effect(s: StateModel, result: Result<bool, Fault>, k: int) -> Outcome {
    match result {
        Err(f) => Err(f),
        Ok(b) => if b == (k == 1) {
            if !s.in_code(s.pc + 1) {
                Err(Fault::Opcode(OpcodeError::BadOperand))
            } else {
                Ok((s.at_pc(s.pc + 1), StepModel::Continue))
            }
        } else {
            Ok((s, StepModel::Continue))
        },
    }
}

/// A test `A B k` of two registers.
pub open spec fn compare_model(s: StateModel, op: CampareOperator, w: u32) -> Outcome {
    let a = field_a(w);
    let b = field_b(w);
    if !(a < s.top && b < s.top) {
        Err(Fault::Stack(StackError::OutOfBounds))
    } else {
        test_effect(s, compared(s.slots[a], s.slots[b], op), field_k(w))
    }
}

/// A test `A sB k` of a register and an immediate integer.
pub open spec fn compare_i_model(s: StateModel, op: CampareOperator, w: u32) -> Outcome {
    let a = field_a(w);
    if !(a < s.top) {
        Err(Fault::Stack(StackError::OutOfBounds))
    } else {
        test_effect(
            s,
            compared(s.slots[a], ValueModel::Integer(field_sb(w) as i64), op),
            field_k(w),
        )
    }
}

fn test(vm: &mut LuaState, result: Result<bool, Fault>, k: i32) -> (r: Result<Step, Fault>)
    requires
        old(vm).wf(),
    ensures
        final(vm).wf(),
        final(vm)@.code == old(vm)@.code,
        final(vm)@.constants == old(vm)@.constants,
        follows(old(vm)@, final(vm)@, r, test_effect(old(vm)@, result, k as int)),
{
    match result {
        Err(f) => Err(f),
        Ok(b) => {
            if b == (k == 1) {
                match vm.add_pc(1) {
                    Ok(_) => Ok(Step::Continue),
                    Err(f) => Err(f),
                }
            } else {
                Ok(Step::Continue)
            }
        },
    }
}

fn compare(i: Instruction, vm: &mut LuaState, op: CampareOperator) -> (r: Result<Step, Fault>)
    requires
        old(vm).wf(),
    ensures
        final(vm).wf(),
        final(vm)@.code == old(vm)@.code,
        final(vm)@.constants == old(vm)@.constants,
        follows(old(vm)@, final(vm)@, r, compare_model(old(vm)@, op, i)),
{
    let (a, b, _) = i.abc();
    let k = i.k();
    let result = vm.compare(a, b, op);
    test(vm, result, k)
}

fn compare_i(i: Instruction, vm: &mut LuaState, op: CampareOperator) -> (r: Result<Step, Fault>)
    requires
        old(vm).wf(),
    ensures
        final(vm).wf(),
        final(vm)@.code == old(vm)@.code,
        final(vm)@.constants == old(vm)@.constants,
        follows(old(vm)@, final(vm)@, r, compare_i_model(old(vm)@, op, i)),
{
    let (a, _, _) = i.abc();
    let k = i.k();
    let sb = i.bx();
    let lhs = match vm.register(a) {
        Ok(v) => v,
        Err(f) => return Err(f),
    };
    let result = compare_values(&lhs, &LuaValue::Integer(sb as i64), op);
    test(vm, result, k)
}

/// `EQ A B k`.
pub fn equal(i: Instruction, vm: &mut LuaState) -> (r: Result<Step, Fault>)
    requires
        old(vm).wf(),
    ensures
        final(vm).wf(),
        final(vm)@.code == old(vm)@.code,
        final(vm)@.constants == old(vm)@.constants,
        follows(old(vm)@, final(vm)@, r, compare_model(old(vm)@, CampareOperator::Equal, i)),
{
    compare(i, vm, CampareOperator::Equal)
}

/// `LT A B k`.
pub fn less_than(i: Instruction, vm: &mut LuaState) -> (r: Result<Step, Fault>)
    requires
        old(vm).wf(),
    ensures
        final(vm).wf(),
        final(vm)@.code == old(vm)@.code,
        final(vm)@.constants == old(vm)@.constants,
        follows(old(vm)@, final(vm)@, r, compare_model(old(vm)@, CampareOperator::LessThen, i)),
{
    compare(i, vm, CampareOperator::LessThen)
}

/// `LE A B k`.
pub fn less_equal(i: Instruction, vm: &mut LuaState) -> (r: Result<Step, Fault>)
    requires
        old(vm).wf(),
    ensures
        final(vm).wf(),
        final(vm)@.code == old(vm)@.code,
        final(vm)@.constants == old(vm)@.constants,
        follows(old(vm)@, final(vm)@, r, compare_model(old(vm)@, CampareOperator::LessEqual, i)),
{
    compare(i, vm, CampareOperator::LessEqual)
}

/// `EQI A sB k`.
pub fn equal_i(i: Instruction, vm: &mut LuaState) -> (r: Result<Step, Fault>)
    requires
        old(vm).wf(),
    ensures
        final(vm).wf(),
        final(vm)@.code == old(vm)@.code,
        final(vm)@.constants == old(vm)@.constants,
        follows(old(vm)@, final(vm)@, r, compare_i_model(old(vm)@, CampareOperator::Equal, i)),
{
    compare_i(i, vm, CampareOperator::Equal)
}

/// `LTI A sB k`.
pub fn less_than_i(i: Instruction, vm: &mut LuaState) -> (r: Result<Step, Fault>)
    requires
        old(vm).wf(),
    ensures
        final(vm).wf(),
        final(vm)@.code == old(vm)@.code,
        final(vm)@.constants == old(vm)@.constants,
        follows(old(vm)@, final(vm)@, r, compare_i_model(old(vm)@, CampareOperator::LessThen, i)),
{
    compare_i(i, vm, CampareOperator::LessThen)
}

/// `LEI A sB k`.
pub fn less_equal_i(i: Instruction, vm: &mut LuaState) -> (r: Result<Step, Fault>)
    requires
        old(vm).wf(),
    ensures
        final(vm).wf(),
        final(vm)@.code == old(vm)@.code,
        final(vm)@.constants == old(vm)@.constants,
        follows(old(vm)@, final(vm)@, r, compare_i_model(old(vm)@, CampareOperator::LessEqual, i)),
{
    compare_i(i, vm, CampareOperator::LessEqual)
}

/// `GTI A sB k`.
pub fn greater_than_i(i: Instruction, vm: &mut LuaState) -> (r: Result<Step, Fault>)
    requires
        old(vm).wf(),
    ensures
        final(vm).wf(),
        final(vm)@.code == old(vm)@.code,
        final(vm)@.constants == old(vm)@.constants,
        follows(old(vm)@, final(vm)@, r, compare_i_model(old(vm)@, CampareOperator::GreatThen, i)),
{
    compare_i(i, vm, CampareOperator::GreatThen)
}

/// `GEI A sB k`.
pub fn greater_equal_i(i: Instruction, vm: &mut LuaState) -> (r: Result<Step, Fault>)
    requires
        old(vm).wf(),
    ensures
        final(vm).wf(),
        final(vm)@.code == old(vm)@.code,
        final(vm)@.constants == old(vm)@.constants,
        follows(old(vm)@, final(vm)@, r, compare_i_model(old(vm)@, CampareOperator::GreatEqual, i)),
{
    compare_i(i, vm, CampareOperator::GreatEqual)
}

} // verus!
