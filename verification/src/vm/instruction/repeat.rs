use vstd::prelude::*;
use crate::vm::arith::{ArithOp, ArithTask, ProgressModel, TaskModel};
use crate::vm::error::{Fault, OpcodeError, StackError};
use crate::vm::lua_state::{LuaApi, LuaState, LuaVm, StateModel};
use crate::vm::lua_vm::{follows, settled, Outcome, Resume, Step, StepModel};
use super::arith::arith_on;
use super::{field_a, field_bx, Instruction, InstructionOperation};

verus! {

/// `FORPREP A Bx`: the counter in register `A` steps back by the step in register
/// `A + 2`, so that the first `FORLOOP` brings it to its start; then the position in
/// the code moves `Bx` forward, to that `FORLOOP`. The step is taken by way of the top
/// of the stack, where two slots must be free.
pub open spec fn for_prep_model(s: StateModel, w: u32) -> Outcome {
    let a = field_a(w);
    let bx = field_bx(w);
    let task = TaskModel { op: ArithOp::Sub, lhs: s.slots[a], rhs: s.slots[a + 2], applied: None };
    if !(a + 2 < s.top) {
        Err(Fault::Stack(StackError::OutOfBounds))
    } else if s.top + 2 > s.capacity() {
        Err(Fault::Stack(StackError::Overflow))
    } else if !s.in_code(s.pc + bx) {
        Err(Fault::Opcode(OpcodeError::BadOperand))
    } else {
        match task.next() {
            ProgressModel::Fail(f) => Err(f),
            ProgressModel::Done(v) => Ok((s.stored(a, v).at_pc(s.pc + bx), StepModel::Continue)),
            ProgressModel::Ask(_) => Ok(
                (s.at_pc(s.pc + bx), StepModel::Float(task, Resume::Store(a as i32))),
            ),
        }
    }
}

/// `FORLOOP A Bx`: the counter in register `A` steps on by the step in register
/// `A + 2`. Where it has not passed the limit in register `A + 1`, it is copied to the
/// loop variable in register `A + 3` and the position in the code moves `Bx` back, to
/// the start of the body.
pub open spec fn for_loop_model(s: StateModel, w: u32) -> Outcome {
    let a = field_a(w);
    let bx = field_bx(w);
    if !(a + 3 < s.top) {
        Err(Fault::Stack(StackError::OutOfBounds))
    } else {
        settled(
            s,
            TaskModel { op: ArithOp::Add, lhs: s.slots[a], rhs: s.slots[a + 2], applied: None },
            Resume::ForLoop(a as i32, bx as i32),
        )
    }
}

pub fn for_prep(i: Instruction, vm: &mut LuaState) -> (r: Result<Step, Fault>)
    requires
        old(vm).wf(),
    ensures
        final(vm).wf(),
        final(vm)@.code == old(vm)@.code,
        final(vm)@.constants == old(vm)@.constants,
        follows(old(vm)@, final(vm)@, r, for_prep_model(old(vm)@, i)),
{
    let (a, bx) = i.a_bx();
    let step = match vm.register(a + 2) {
        Ok(v) => v,
        Err(f) => return Err(f),
    };
    let init = match vm.register(a) {
        Ok(v) => v,
        Err(f) => return Err(f),
    };
    if vm.stack.slots.len() - vm.stack.top < 2 {
        return Err(Fault::Stack(StackError::Overflow));
    }
    if !vm.can_jump(bx) {
        return Err(Fault::Opcode(OpcodeError::BadOperand));
    }
    let step = match arith_on(vm, ArithOp::Sub, a, init, step) {
        Ok(s) => s,
        Err(f) => return Err(f),
    };
    let _ = vm.add_pc(bx);
    Ok(step)
}

pub fn for_loop(i: Instruction, vm: &mut LuaState) -> (r: Result<Step, Fault>)
    requires
        old(vm).wf(),
    ensures
        final(vm).wf(),
        final(vm)@.code == old(vm)@.code,
        final(vm)@.constants == old(vm)@.constants,
        follows(old(vm)@, final(vm)@, r, for_loop_model(old(vm)@, i)),
{
    let (a, bx) = i.a_bx();
    let step = match vm.register(a + 2) {
        Ok(v) => v,
        Err(f) => return Err(f),
    };
    let counter = match vm.register(a) {
        Ok(v) => v,
        Err(f) => return Err(f),
    };
    if (a + 3) as usize >= vm.get_top() {
        return Err(Fault::Stack(StackError::OutOfBounds));
    }
    vm.settle(ArithTask::new(ArithOp::Add, counter, step), Resume::ForLoop(a, bx))
}

} // verus!
