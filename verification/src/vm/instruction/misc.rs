use vstd::prelude::*;
use crate::vm::error::{Fault, OpcodeError, StackError, TypeError};
use crate::vm::lua_state::{joined, lemma_joined_none, LuaApi, LuaState, LuaVm, StateModel};
use crate::vm::lua_value::ValueModel;
use crate::vm::lua_vm::{follows, Outcome, Step, StepModel};
use super::{field_a, field_b, field_c, field_sj, Instruction, InstructionOperation};

verus! {

/// `MOVE A B`: register `A` becomes a copy of register `B`.
pub open spec fn moving_model(s: StateModel, w: u32) -> Outcome {
    let a = field_a(w);
    let b = field_b(w);
    if !(a < s.top && b < s.top) {
        Err(Fault::Stack(StackError::OutOfBounds))
    } else {
        Ok((s.stored(a, s.slots[b]), StepModel::Continue))
    }
}

/// `JMP sJ`: the position in the code moves by `sJ`.
pub open spec fn jump_model(s: StateModel, w: u32) -> Outcome {
    if !s.in_code(s.pc + field_sj(w)) {
        Err(Fault::Opcode(OpcodeError::BadOperand))
    } else {
        Ok((s.at_pc(s.pc + field_sj(w)), StepModel::Continue))
    }
}

/// `LEN A B`: register `A` becomes the length of the string in register `B`.
pub open spec fn len_model(s: StateModel, w: u32) -> Outcome {
    let a = field_a(w);
    let b = field_b(w);
    if !(a < s.top && b < s.top) {
        Err(Fault::Stack(StackError::OutOfBounds))
    } else {
        match s.slots[b] {
            ValueModel::String(bytes) => if s.top >= s.capacity() || bytes.len() > i64::MAX {
                Err(Fault::Stack(StackError::Overflow))
            } else {
                Ok((s.stored(a, ValueModel::Integer(bytes.len() as i64)), StepModel::Continue))
            },
            _ => Err(Fault::Type(TypeError::Length)),
        }
    }
}

/// `CONCAT A C`: register `A` becomes the strings of the `C` registers from `A` on,
/// joined. The values are joined on top of the stack, which grows where it has to. No
/// register gives the empty string; one register is left as it is, whatever it holds;
/// of two or more, each must hold a string.
pub open spec fn concat_model(s: StateModel, w: u32) -> Outcome {
    let a = field_a(w);
    let c = field_c(w);
    let room: nat = if c == 0 {
        1
    } else {
        c as nat
    };
    if !(a < s.top && a + c <= s.top) {
        Err(Fault::Stack(StackError::OutOfBounds))
    } else if c >= 2 && joined(s.slots, a, a + c) is None {
        Err(Fault::Type(TypeError::Concat))
    } else if s.top + room > usize::MAX {
        Err(Fault::Stack(StackError::Overflow))
    } else if c == 0 {
        Ok((s.grown(room).stored(a, ValueModel::String(Seq::<u8>::empty())), StepModel::Continue))
    } else if c == 1 {
        Ok((s.grown(room), StepModel::Continue))
    } else {
        Ok(
            (
                s.grown(room).stored(a, ValueModel::String(joined(s.slots, a, a + c)->Some_0)),
                StepModel::Continue,
            ),
        )
    }
}

pub fn moving(i: Instruction, vm: &mut LuaState) -> (r: Result<Step, Fault>)
    requires
        old(vm).wf(),
    ensures
        final(vm).wf(),
        final(vm)@.code == old(vm)@.code,
        final(vm)@.constants == old(vm)@.constants,
        follows(old(vm)@, final(vm)@, r, moving_model(old(vm)@, i)),
{
    let (a, b, _) = i.abc();
    match vm.copy(b, a) {
        Ok(_) => Ok(Step::Continue),
        Err(f) => Err(f),
    }
}

pub fn jump(i: Instruction, vm: &mut LuaState) -> (r: Result<Step, Fault>)
    requires
        old(vm).wf(),
    ensures
        final(vm).wf(),
        final(vm)@.code == old(vm)@.code,
        final(vm)@.constants == old(vm)@.constants,
        follows(old(vm)@, final(vm)@, r, jump_model(old(vm)@, i)),
{
    let sj = i.sj();
    match vm.add_pc(sj) {
        Ok(_) => Ok(Step::Continue),
        Err(f) => Err(f),
    }
}

pub fn len(i: Instruction, vm: &mut LuaState) -> (r: Result<Step, Fault>)
    requires
        old(vm).wf(),
    ensures
        final(vm).wf(),
        final(vm)@.code == old(vm)@.code,
        final(vm)@.constants == old(vm)@.constants,
        follows(old(vm)@, final(vm)@, r, len_model(old(vm)@, i)),
{
    let (a, b, _) = i.abc();
    if a as usize >= vm.get_top() || b as usize >= vm.get_top() {
        return Err(Fault::Stack(StackError::OutOfBounds));
    }
    match vm.len(b) {
        Ok(_) => {},
        Err(f) => return Err(f),
    }
    let _ = vm.replace(a);
    assert(vm@.slots =~= old(vm)@.stored(
        a as int,
        ValueModel::Integer(old(vm)@.slots[b as int]->String_0.len() as i64),
    ).slots);
    Ok(Step::Continue)
}

/// The strings of a range join as the strings of any range with the same values.
pub proof fn lemma_joined_same(
    s1: Seq<ValueModel>,
    from1: int,
    s2: Seq<ValueModel>,
    from2: int,
    n: int,
)
    requires
        0 <= n,
        forall|k: int| from1 <= k < from1 + n ==> #[trigger] s1[k] == s2[k - from1 + from2],
    ensures
        joined(s1, from1, from1 + n) == joined(s2, from2, from2 + n),
    decreases n,
{
    if n > 0 {
        lemma_joined_same(s1, from1, s2, from2, n - 1);
        assert(s1[from1 + n - 1] == s2[from1 + n - 1 - from1 + from2]);
    }
}

pub fn concat(i: Instruction, vm: &mut LuaState) -> (r: Result<Step, Fault>)
    requires
        old(vm).wf(),
    ensures
        final(vm).wf(),
        final(vm)@.code == old(vm)@.code,
        final(vm)@.constants == old(vm)@.constants,
        follows(old(vm)@, final(vm)@, r, concat_model(old(vm)@, i)),
{
    let (a, _, c) = i.abc();
    let top = vm.get_top();
    if a as usize >= top || (a + c) as usize > top {
        return Err(Fault::Stack(StackError::OutOfBounds));
    }
    let room: usize = if c == 0 {
        1
    } else {
        c as usize
    };
    if c >= 2 {
        let mut n: i32 = 0;
        while n < c
            invariant
                0 <= n <= c < 256,
                0 <= a < 256,
                a + c <= top,
                top == vm@.top,
                2 <= c,
                a == field_a(i),
                c == field_c(i),
                vm@ == old(vm)@,
                vm.wf(),
                joined(vm@.slots, a as int, a + n) is Some,
            decreases c - n,
        {
            if !vm.is_string(a + n) {
                proof {
                    assert(joined(vm@.slots, a as int, a + n + 1) is None);
                    lemma_joined_none(vm@.slots, a as int, a + n + 1, a + c);
                }
                return Err(Fault::Type(TypeError::Concat));
            }
            n = n + 1;
        }
    }
    if !vm.check_stack(room) {
        return Err(Fault::Stack(StackError::Overflow));
    }
    let ghost grown = vm@;
    let mut k: i32 = 0;
    while k < c
        invariant
            0 <= k <= c < 256,
            0 <= a < 256,
            a + c <= top,
            top == grown.top,
            grown.top + c <= grown.capacity(),
            grown.wf(),
            vm.wf(),
            vm@.top == top + k,
            vm@.slots.len() == grown.slots.len(),
            vm@.pc == grown.pc,
            vm@.code == grown.code,
            vm@.constants == grown.constants,
            forall|j: int|
                0 <= j < vm@.slots.len() ==> #[trigger] vm@.slots[j] == if top <= j < top + k {
                    grown.slots[a + (j - top)]
                } else {
                    grown.slots[j]
                },
        decreases c - k,
    {
        let _ = vm.push_value(a + k);
        k = k + 1;
    }
    let ghost filled = vm@;
    proof {
        lemma_joined_same(filled.slots, top as int, old(vm)@.slots, a as int, c as int);
    }
    let _ = vm.concat(c as usize);
    if c == 1 {
        let _ = vm.pop(1);
        assert(vm@.slots =~= grown.slots);
        return Ok(Step::Continue);
    }
    let _ = vm.replace(a);
    proof {
        if c == 0 {
            assert(vm@.slots =~= grown.stored(
                a as int,
                ValueModel::String(Seq::<u8>::empty()),
            ).slots);
        } else {
            assert(vm@.slots =~= grown.stored(
                a as int,
                ValueModel::String(joined(old(vm)@.slots, a as int, a + c)->Some_0),
            ).slots);
        }
    }
    Ok(Step::Continue)
}

} // verus!
