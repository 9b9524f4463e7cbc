use vstd::prelude::*;
use super::arith::{ArithOp, ArithTask, Progress, ProgressModel, TaskModel};
use super::binary_chunk::Prototype;
use super::error::{Fault, OpcodeError, StackError, TypeError};
use super::instruction::Instruction;
use super::lua_stack::{absolute, reversed_range, LuaStack};
use super::lua_value::{bytes_lt_from, value_eq, value_le, value_lt, LuaValue, ValueModel};
use super::number;
use super::undump::values_of;

verus! {

/// The comparisons that `compare` makes.
#[derive(Debug, Clone, Copy, PartialEq, Eq, Structural)]
pub enum CampareOperator {
    Equal,
    LessThen,
    GreatThen,
    LessEqual,
    GreatEqual,
}

/// The state of the machine: the operand stack, the function that runs, and the
/// position in its code of the next instruction.
#[derive(Debug)]
pub struct LuaState {
    pub stack: LuaStack,
    pub prototype: Prototype,
    pub pc: u32,
}

/// The state as values: the slots of the stack and its top, the position in the code,
/// and the constants and the code of the function.
pub struct StateModel {
    pub slots: Seq<ValueModel>,
    pub top: nat,
    pub pc: int,
    pub constants: Seq<ValueModel>,
    pub code: Seq<u32>,
}

/// `slots` with nil in the slots `from .. to`.
pub open spec fn cleared(slots: Seq<ValueModel>, from: int, to: int) -> Seq<ValueModel> {
    Seq::new(
        slots.len(),
        |k: int|
            if from <= k < to {
                ValueModel::Nil
            } else {
                slots[k]
            },
    )
}

/// The two values can stand in an order comparison: they are of one variant, or the
/// one is an integer and the other a number.
pub open spec fn order_defined(a: ValueModel, b: ValueModel) -> bool {
    match (a, b) {
        (ValueModel::Nil, ValueModel::Nil) => true,
        (ValueModel::Boolean(_), ValueModel::Boolean(_)) => true,
        (ValueModel::Integer(_), ValueModel::Integer(_)) => true,
        (ValueModel::Integer(_), ValueModel::Number(_)) => true,
        (ValueModel::Number(_), ValueModel::Integer(_)) => true,
        (ValueModel::Number(_), ValueModel::Number(_)) => true,
        (ValueModel::String(_), ValueModel::String(_)) => true,
        _ => false,
    }
}

/// The result of a comparison of two values, or the fault of an order comparison of
/// two values that have no order. A comparison with a NaN is false.
pub open spec fn compared(a: ValueModel, b: ValueModel, op: CampareOperator) -> Result<
    bool,
    Fault,
> {
    if op == CampareOperator::Equal {
        Ok(value_eq(a, b))
    } else if !order_defined(a, b) {
        Err(Fault::Type(TypeError::Compare))
    } else {
        Ok(
            match op {
                CampareOperator::LessThen => value_lt(a, b),
                CampareOperator::GreatThen => value_lt(b, a),
                CampareOperator::LessEqual => value_le(a, b),
                _ => value_le(b, a),
            },
        )
    }
}

/// The strings in the slots `from .. to`, joined in their order; `None` where one of
/// the slots holds no string.
pub open spec fn joined(slots: Seq<ValueModel>, from: int, to: int) -> Option<Seq<u8>>
    decreases to - from,
{
    if from >= to {
        Some(Seq::<u8>::empty())
    } else {
        match (joined(slots, from, to - 1), slots[to - 1]) {
            (Some(bytes), ValueModel::String(s)) => Some(bytes + s),
            _ => None,
        }
    }
}

/// Where the value at place `k` of a segment of `len` values comes from when the
/// segment is rotated by `n` places toward its end (`n >= 0`) or by `-n` places toward
/// its start.
pub open spec fn rotation_source(len: int, n: int, k: int) -> int {
    if n >= 0 {
        if k < n {
            k + len - n
        } else {
            k - n
        }
    } else {
        if k < len + n {
            k - n
        } else {
            k - n - len
        }
    }
}

/// `slots` with the segment `from .. top` rotated by `n` places.
pub open spec fn rotated(slots: Seq<ValueModel>, from: int, top: int, n: int) -> Seq<ValueModel> {
    Seq::new(
        slots.len(),
        |k: int|
            if from <= k < top {
                slots[from + rotation_source(top - from, n, k - from)]
            } else {
                slots[k]
            },
    )
}

impl StateModel {
    /// The invariant of a state: the top is within the slots, and the slots from the top
    /// on hold nil.
    pub open spec fn wf(self) -> bool {
        &&& self.top <= self.slots.len()
        &&& forall|k: int| self.top <= k < self.slots.len() ==> self.slots[k] == ValueModel::Nil
    }

    pub open spec fn capacity(self) -> nat {
        self.slots.len()
    }

    /// The slot that an index points at.
    pub open spec fn slot_of(self, index: int) -> int {
        absolute(self.top, index)
    }

    /// The index points at a live slot.
    pub open spec fn valid(self, index: int) -> bool {
        0 <= self.slot_of(index) < self.top
    }

    /// The value that an index points at.
    pub open spec fn at(self, index: int) -> ValueModel {
        self.slots[self.slot_of(index)]
    }

    /// The state with one more value on top.
    pub open spec fn pushed(self, v: ValueModel) -> StateModel {
        StateModel { slots: self.slots.update(self.top as int, v), top: self.top + 1, ..self }
    }

    /// The state without its `n` topmost values.
    pub open spec fn popped(self, n: nat) -> StateModel {
        StateModel {
            slots: cleared(self.slots, self.top - n, self.top as int),
            top: (self.top - n) as nat,
            ..self
        }
    }

    /// The state with another value in the slot that an index points at.
    pub open spec fn stored(self, index: int, v: ValueModel) -> StateModel {
        StateModel { slots: self.slots.update(self.slot_of(index), v), ..self }
    }

    /// The state with its top at `top`: values above it are dropped.
    pub open spec fn with_top(self, top: nat) -> StateModel {
        StateModel { slots: cleared(self.slots, top as int, self.top as int), top, ..self }
    }

    /// The values from `index` to the top can be rotated by `n` places: the index is
    /// valid, there are at least `n` values (or `-n`), and the top is a 32-bit index.
    pub open spec fn can_rotate(self, index: int, n: int) -> bool {
        &&& self.valid(index)
        &&& self.top <= 0x7fff_ffff
        &&& -(self.top - self.slot_of(index)) <= n <= self.top - self.slot_of(index)
    }

    /// A position in the code, or the one behind its end, that a 32-bit counter holds.
    pub open spec fn in_code(self, pc: int) -> bool {
        0 <= pc <= self.code.len() && pc <= u32::MAX
    }

    /// The state with room for `n` more values: where fewer slots are free above the top,
    /// slots that hold nil are added until `n` are.
    pub open spec fn grown(self, n: nat) -> StateModel {
        StateModel {
            slots: if self.capacity() >= self.top + n {
                self.slots
            } else {
                self.slots + Seq::new(
                    (self.top + n - self.capacity()) as nat,
                    |k: int| ValueModel::Nil,
                )
            },
            ..self
        }
    }

    /// The operation on the two topmost values, the topmost as its right operand.
    pub open spec fn operation(self, op: ArithOp) -> TaskModel {
        TaskModel {
            op,
            lhs: self.slots[self.top - 2],
            rhs: self.slots[self.top - 1],
            applied: None,
        }
    }

    /// The state at another position in the code.
    pub open spec fn at_pc(self, pc: int) -> StateModel {
        StateModel { pc, ..self }
    }
}

impl View for LuaState {
    type V = StateModel;

    open spec fn view(&self) -> StateModel {
        StateModel {
            slots: self.stack@.slots,
            top: self.stack@.top,
            pc: self.pc as int,
            constants: values_of(self.prototype.constants@),
            code: self.prototype.code@,
        }
    }
}

/// The stack interface of the machine, as the instructions use it: values are pushed,
/// popped, copied and looked at by index. A non-negative index counts slots from the
/// bottom, a negative one back from the top; an index is valid where it points at a
/// live slot.
pub trait LuaApi: View<V = StateModel> + Sized {
    fn get_top(&self) -> (r: usize)
        ensures
            r == self@.top,
    ;

    fn abs_index(&self, index: i32) -> (r: Option<usize>)
        ensures
            self@.slot_of(index as int) >= 0 ==> r == Some(self@.slot_of(index as int) as usize),
            self@.slot_of(index as int) < 0 ==> r is None,
    ;

    /// Makes room for `n` more values. Returns false, and changes nothing, where the
    /// stack would outgrow the address space.
    fn check_stack(&mut self, n: usize) -> (ok: bool)
        requires
            old(self)@.wf(),
        ensures
            final(self)@.wf(),
            ok == (old(self)@.top + n <= usize::MAX),
            !ok ==> final(self)@ == old(self)@,
            ok ==> final(self)@ == old(self)@.grown(n as nat),
    ;

    /// Takes the `n` topmost values off. Fails with `Underflow`, and changes nothing,
    /// where fewer are there.
    fn pop(&mut self, n: usize) -> (r: Result<(), Fault>)
        requires
            old(self)@.wf(),
        ensures
            final(self)@.wf(),
            n <= old(self)@.top ==> r is Ok && final(self)@ == old(self)@.popped(n as nat),
            n > old(self)@.top ==> r == Err::<(), Fault>(Fault::Stack(StackError::Underflow))
                && final(self)@ == old(self)@,
    ;

    /// Copies the value at `from_idex` into the slot at `to_index`. Fails with
    /// `OutOfBounds`, and changes nothing, where one of the two is no valid index.
    fn copy(&mut self, from_idex: i32, to_index: i32) -> (r: Result<(), Fault>)
        requires
            old(self)@.wf(),
        ensures
            final(self)@.wf(),
            old(self)@.valid(from_idex as int) && old(self)@.valid(to_index as int) ==> r is Ok
                && final(self)@ == old(self)@.stored(
                to_index as int,
                old(self)@.at(from_idex as int),
            ),
            !(old(self)@.valid(from_idex as int) && old(self)@.valid(to_index as int)) ==> r
                == Err::<(), Fault>(Fault::Stack(StackError::OutOfBounds))
                    && final(self)@ == old(self)@,
    ;

    /// Puts a copy of the value at `index` on top. Fails, and changes nothing, with
    /// `OutOfBounds` for an index that is not valid, else with `Overflow` where every
    /// slot is in use.
    fn push_value(&mut self, index: i32) -> (r: Result<(), Fault>)
        requires
            old(self)@.wf(),
        ensures
            final(self)@.wf(),
            match r {
                Ok(_) => old(self)@.valid(index as int) && old(self)@.top < old(self)@.capacity()
                    && final(self)@ == old(self)@.pushed(old(self)@.at(index as int)),
                Err(f) => final(self)@ == old(self)@ && if !old(self)@.valid(index as int) {
                    f == Fault::Stack(StackError::OutOfBounds)
                } else {
                    f == Fault::Stack(StackError::Overflow)
                        && old(self)@.top >= old(self)@.capacity()
                },
            },
    ;

    /// Takes the top value off and stores it in the slot at `index`, an index into the
    /// stack as it is before the call. Fails, and changes nothing, with `OutOfBounds`
    /// for an index that is not valid.
    fn replace(&mut self, index: i32) -> (r: Result<(), Fault>)
        requires
            old(self)@.wf(),
        ensures
            final(self)@.wf(),
            match r {
                Ok(_) => old(self)@.valid(index as int) && final(self)@ == old(self)@.stored(
                    index as int,
                    old(self)@.at(-1),
                ).popped(1),
                Err(f) => final(self)@ == old(self)@ && f == Fault::Stack(StackError::OutOfBounds)
                    && !old(self)@.valid(index as int),
            },
    ;

    /// Moves the top value down to `index`, shifting the values from there on up by one.
    fn insert(&mut self, index: i32) -> (r: Result<(), Fault>)
        requires
            old(self)@.wf(),
        ensures
            final(self)@.wf(),
            match r {
                Ok(_) => old(self)@.can_rotate(index as int, 1) && final(self)@ == (StateModel {
                    slots: rotated(
                        old(self)@.slots,
                        old(self)@.slot_of(index as int),
                        old(self)@.top as int,
                        1,
                    ),
                    ..old(self)@
                }),
                Err(f) => final(self)@ == old(self)@ && f == Fault::Stack(StackError::OutOfBounds)
                    && !old(self)@.can_rotate(index as int, 1),
            },
    ;

    /// Rotates the values from `index` to the top by `n` places toward the top, or for
    /// a negative `n` by `-n` places toward `index`. Fails with `OutOfBounds`, and
    /// changes nothing, where they cannot be rotated so.
    fn rotate(&mut self, index: i32, n: i32) -> (r: Result<(), Fault>)
        requires
            old(self)@.wf(),
        ensures
            final(self)@.wf(),
            match r {
                Ok(_) => old(self)@.can_rotate(index as int, n as int) && final(self)@
                    == (StateModel {
                    slots: rotated(
                        old(self)@.slots,
                        old(self)@.slot_of(index as int),
                        old(self)@.top as int,
                        n as int,
                    ),
                    ..old(self)@
                }),
                Err(f) => final(self)@ == old(self)@ && f == Fault::Stack(StackError::OutOfBounds)
                    && !old(self)@.can_rotate(index as int, n as int),
            },
    ;

    /// Sets the top to the slot that `index` points at: values above it are dropped,
    /// and a higher top takes in slots that hold nil. Fails, and changes nothing, with
    /// `Underflow` for an index below the first slot and with `Overflow` for one beyond
    /// the last.
    fn set_top(&mut self, index: i32) -> (r: Result<(), Fault>)
        requires
            old(self)@.wf(),
        ensures
            final(self)@.wf(),
            match r {
                Ok(_) => 0 <= old(self)@.slot_of(index as int) <= old(self)@.capacity()
                    && final(self)@ == old(self)@.with_top(old(self)@.slot_of(index as int) as nat),
                Err(f) => final(self)@ == old(self)@ && if old(self)@.slot_of(index as int) < 0 {
                    f == Fault::Stack(StackError::Underflow)
                } else {
                    f == Fault::Stack(StackError::Overflow) && old(self)@.slot_of(index as int)
                        > old(self)@.capacity()
                },
            },
    ;

    fn push_nil(&mut self) -> (r: Result<(), Fault>)
        requires
            old(self)@.wf(),
        ensures
            final(self)@.wf(),
            old(self)@.top < old(self)@.capacity() ==> r is Ok
                && final(self)@ == old(self)@.pushed(ValueModel::Nil),
            old(self)@.top >= old(self)@.capacity() ==> r == Err::<(), Fault>(
                Fault::Stack(StackError::Overflow),
            ) && final(self)@ == old(self)@,
    ;

    fn push_integer(&mut self, val: i64) -> (r: Result<(), Fault>)
        requires
            old(self)@.wf(),
        ensures
            final(self)@.wf(),
            old(self)@.top < old(self)@.capacity() ==> r is Ok
                && final(self)@ == old(self)@.pushed(ValueModel::Integer(val)),
            old(self)@.top >= old(self)@.capacity() ==> r == Err::<(), Fault>(
                Fault::Stack(StackError::Overflow),
            ) && final(self)@ == old(self)@,
    ;

    fn push_boolean(&mut self, val: bool) -> (r: Result<(), Fault>)
        requires
            old(self)@.wf(),
        ensures
            final(self)@.wf(),
            old(self)@.top < old(self)@.capacity() ==> r is Ok
                && final(self)@ == old(self)@.pushed(ValueModel::Boolean(val)),
            old(self)@.top >= old(self)@.capacity() ==> r == Err::<(), Fault>(
                Fault::Stack(StackError::Overflow),
            ) && final(self)@ == old(self)@,
    ;

    fn push_string(&mut self, val: Vec<u8>) -> (r: Result<(), Fault>)
        requires
            old(self)@.wf(),
        ensures
            final(self)@.wf(),
            old(self)@.top < old(self)@.capacity() ==> r is Ok
                && final(self)@ == old(self)@.pushed(ValueModel::String(val@)),
            old(self)@.top >= old(self)@.capacity() ==> r == Err::<(), Fault>(
                Fault::Stack(StackError::Overflow),
            ) && final(self)@ == old(self)@,
    ;

    /// Puts a number on top, given as its bit pattern.
    fn push_number(&mut self, val: u64) -> (r: Result<(), Fault>)
        requires
            old(self)@.wf(),
        ensures
            final(self)@.wf(),
            old(self)@.top < old(self)@.capacity() ==> r is Ok
                && final(self)@ == old(self)@.pushed(ValueModel::Number(val)),
            old(self)@.top >= old(self)@.capacity() ==> r == Err::<(), Fault>(
                Fault::Stack(StackError::Overflow),
            ) && final(self)@ == old(self)@,
    ;

    /// Whether `idx` is valid and points at an integer or a number.
    fn is_number(&self, idx: i32) -> (r: bool)
        requires
            self@.wf(),
        ensures
            r == (self@.valid(idx as int) && (self@.at(idx as int) is Integer || self@.at(
                idx as int,
            ) is Number)),
    ;

    /// The value at `idx` as a number, for an integer or a number at a valid index.
    fn to_numberx(&self, idx: i32) -> (r: Option<u64>)
        requires
            self@.wf(),
        ensures
            r == if self@.valid(idx as int) {
                match self@.at(idx as int) {
                    ValueModel::Integer(i) => Some(number::number_of_integer(i)),
                    ValueModel::Number(n) => Some(n),
                    _ => None,
                }
            } else {
                None
            },
    ;

    /// Whether `idx` is valid and points at an integer.
    fn is_integer(&self, idx: i32) -> (r: bool)
        requires
            self@.wf(),
        ensures
            r == (self@.valid(idx as int) && self@.at(idx as int) is Integer),
    ;

    /// The integer at `idx`, for an integer at a valid index.
    fn to_integer(&self, idx: i32) -> (r: Option<i64>)
        requires
            self@.wf(),
        ensures
            r == if self@.valid(idx as int) {
                match self@.at(idx as int) {
                    ValueModel::Integer(i) => Some(i),
                    _ => None,
                }
            } else {
                None
            },
    ;

    /// Whether `idx` is valid and points at a string.
    fn is_string(&self, idx: i32) -> (r: bool)
        requires
            self@.wf(),
        ensures
            r == (self@.valid(idx as int) && self@.at(idx as int) is String),
    ;

    /// The bytes of the string at `idx`, for a string at a valid index.
    fn to_string(&self, idx: i32) -> (r: Option<Vec<u8>>)
        requires
            self@.wf(),
        ensures
            match r {
                Some(bytes) => self@.valid(idx as int) && self@.at(idx as int)
                    == ValueModel::String(bytes@),
                None => !(self@.valid(idx as int) && self@.at(idx as int) is String),
            },
    ;

    /// Puts the length of the string at `idx` on top. Fails, and changes nothing, with
    /// `OutOfBounds` for an index that is not valid, else with a type error for a value
    /// that is no string, else with `Overflow` where every slot is in use or the length
    /// is no 64-bit integer.
    fn len(&mut self, idx: i32) -> (r: Result<(), Fault>)
        requires
            old(self)@.wf(),
        ensures
            final(self)@.wf(),
            match r {
                Ok(_) => old(self)@.valid(idx as int) && old(self)@.at(idx as int) is String
                    && old(self)@.top < old(self)@.capacity() && old(self)@.at(
                    idx as int,
                )->String_0.len() <= i64::MAX && final(self)@ == old(self)@.pushed(
                    ValueModel::Integer(old(self)@.at(idx as int)->String_0.len() as i64),
                ),
                Err(f) => final(self)@ == old(self)@ && if !old(self)@.valid(idx as int) {
                    f == Fault::Stack(StackError::OutOfBounds)
                } else if !(old(self)@.at(idx as int) is String) {
                    f == Fault::Type(TypeError::Length)
                } else {
                    f == Fault::Stack(StackError::Overflow)
                        && (old(self)@.top >= old(self)@.capacity() || old(self)@.at(idx as int)->String_0.len() > i64::MAX)
                },
            },
    ;

    /// Joins the `n` topmost values, which must be strings, into one string that takes
    /// their place. For `n == 0` the empty string is put on top; for `n == 1` nothing
    /// happens. Fails, and changes nothing, with `Underflow` where fewer than `n` values
    /// are there, with a type error where one of two or more values is no string, and
    /// with `Overflow` where the empty string finds no free slot.
    fn concat(&mut self, n: usize) -> (r: Result<(), Fault>)
        requires
            old(self)@.wf(),
        ensures
            final(self)@.wf(),
            match r {
                Ok(_) => n <= old(self)@.top && if n == 0 {
                    old(self)@.top < old(self)@.capacity() && final(self)@ == old(self)@.pushed(
                        ValueModel::String(Seq::<u8>::empty()),
                    )
                } else if n == 1 {
                    final(self)@ == old(self)@
                } else {
                    joined(old(self)@.slots, old(self)@.top - n, old(self)@.top as int) is Some
                        && final(self)@ == old(self)@.popped(n as nat).pushed(
                        ValueModel::String(
                            joined(
                                old(self)@.slots,
                                old(self)@.top - n,
                                old(self)@.top as int,
                            )->Some_0,
                        ),
                    )
                },
                Err(f) => final(self)@ == old(self)@ && if n > old(self)@.top {
                    f == Fault::Stack(StackError::Underflow)
                } else if n == 0 {
                    f == Fault::Stack(StackError::Overflow)
                        && old(self)@.top >= old(self)@.capacity()
                } else {
                    f == Fault::Type(TypeError::Concat) && n >= 2 && joined(
                        old(self)@.slots,
                        old(self)@.top - n,
                        old(self)@.top as int,
                    ) is None
                },
            },
    ;

    /// Compares the values at two indices. Fails with `OutOfBounds` for an index that
    /// is not valid, and with a type error for an order comparison of two values that
    /// have no order.
    fn compare(&self, idx1: i32, idx2: i32, op: CampareOperator) -> (r: Result<bool, Fault>)
        requires
            self@.wf(),
        ensures
            r == if self@.valid(idx1 as int) && self@.valid(idx2 as int) {
                compared(self@.at(idx1 as int), self@.at(idx2 as int), op)
            } else {
                Err(Fault::Stack(StackError::OutOfBounds))
            },
    ;
}

/// The interface of the machine to its code: the position in the code, the constants,
/// and arithmetic.
pub trait LuaVm: LuaApi {
    fn get_pc(&self) -> (r: u32)
        ensures
            r == self@.pc,
    ;

    /// Moves the position in the code by `n`. Fails with `BadOperand`, and changes
    /// nothing, where the new position is before the code or behind its end.
    fn add_pc(&mut self, n: i32) -> (r: Result<(), Fault>)
        ensures
            final(self)@.wf() == old(self)@.wf(),
            match r {
                Ok(_) => old(self)@.in_code(old(self)@.pc + n) && final(self)@ == old(self)@.at_pc(
                    old(self)@.pc + n,
                ),
                Err(f) => f == Fault::Opcode(OpcodeError::BadOperand) && !old(self)@.in_code(
                    old(self)@.pc + n,
                ) && final(self)@ == old(self)@,
            },
    ;

    /// Reads the instruction at the position in the code and moves the position behind
    /// it. Fails with `BadOperand`, and changes nothing, where the position is at the
    /// end of the code or behind it.
    fn fetch(&mut self) -> (r: Result<Instruction, Fault>)
        ensures
            final(self)@.wf() == old(self)@.wf(),
            match r {
                Ok(w) => old(self)@.pc < old(self)@.code.len() && old(self)@.in_code(
                    old(self)@.pc + 1,
                ) && w == old(self)@.code[old(self)@.pc] && final(self)@ == old(self)@.at_pc(
                    old(self)@.pc + 1,
                ),
                Err(f) => f == Fault::Opcode(OpcodeError::BadOperand)
                    && !(old(self)@.pc < old(self)@.code.len() && old(self)@.in_code(old(self)@.pc + 1))
                    && final(self)@ == old(self)@,
            },
    ;

    /// Puts the constant of number `idx` on top. Fails, and changes nothing, with
    /// `BadOperand` where there is no such constant, else with `Overflow` where every
    /// slot is in use.
    fn get_const(&mut self, idx: usize) -> (r: Result<(), Fault>)
        requires
            old(self)@.wf(),
        ensures
            final(self)@.wf(),
            match r {
                Ok(_) => idx < old(self)@.constants.len() && old(self)@.top < old(self)@.capacity()
                    && final(self)@ == old(self)@.pushed(old(self)@.constants[idx as int]),
                Err(f) => final(self)@ == old(self)@ && if idx >= old(self)@.constants.len() {
                    f == Fault::Opcode(OpcodeError::BadOperand)
                } else {
                    f == Fault::Stack(StackError::Overflow)
                        && old(self)@.top >= old(self)@.capacity()
                },
            },
    ;

    /// Puts an operand on top that is a register or a constant: above 255 the low 8
    /// bits number a constant, else the operand is a stack index.
    fn get_rk(&mut self, rk: i32) -> (r: Result<(), Fault>)
        requires
            old(self)@.wf(),
        ensures
            final(self)@.wf(),
            match r {
                Ok(_) => old(self)@.top < old(self)@.capacity()
                    && final(self)@ == old(self)@.pushed(
                    if rk > 0xff {
                        old(self)@.constants[rk as int % 256]
                    } else {
                        old(self)@.at(rk as int)
                    },
                ) && if rk > 0xff {
                    rk as int % 256 < old(self)@.constants.len()
                } else {
                    old(self)@.valid(rk as int)
                },
                Err(f) => final(self)@ == old(self)@ && if rk > 0xff
                    && rk as int % 256 >= old(self)@.constants.len() {
                    f == Fault::Opcode(OpcodeError::BadOperand)
                } else if rk <= 0xff && !old(self)@.valid(rk as int) {
                    f == Fault::Stack(StackError::OutOfBounds)
                } else {
                    f == Fault::Stack(StackError::Overflow)
                        && old(self)@.top >= old(self)@.capacity()
                },
            },
    ;

    /// Takes the two topmost values off, the right operand first, and does an
    /// operation on them. With its result at hand the result is put on top and `None`
    /// returned. Where the float unit has to be asked, nothing is put on top and the
    /// task is returned. Fails with `Underflow`, and changes nothing, where fewer than
    /// two values are there; where the operation fails, the two values are taken off.
    fn arith(&mut self, op: ArithOp) -> (r: Result<Option<ArithTask>, Fault>)
        requires
            old(self)@.wf(),
        ensures
            final(self)@.wf(),
            old(self)@.top < 2 ==> r == Err::<Option<ArithTask>, Fault>(
                Fault::Stack(StackError::Underflow),
            ) && final(self)@ == old(self)@,
            old(self)@.top >= 2 ==> match old(self)@.operation(op).next() {
                ProgressModel::Done(v) => r == Ok::<Option<ArithTask>, Fault>(None)
                    && final(self)@ == old(self)@.popped(2).pushed(v),
                ProgressModel::Fail(f) => r == Err::<Option<ArithTask>, Fault>(f) && final(self)@
                    == old(self)@.popped(2),
                ProgressModel::Ask(_) => r is Ok && r->Ok_0 is Some
                    && r->Ok_0->Some_0@ == old(self)@.operation(op)
                    && final(self)@ == old(self)@.popped(2),
            },
    ;
}

fn stack_fault(e: StackError) -> (r: Fault)
    ensures
        r == Fault::Stack(e),
{
    Fault::Stack(e)
}

impl LuaState {
    pub open spec fn wf(&self) -> bool {
        self@.wf()
    }

    /// A state for a function, with a stack of `stack_size` slots, none in use, at the
    /// start of the code.
    pub fn new(stack_size: usize, prototype: Prototype) -> (r: LuaState)
        ensures
            r.wf(),
            r@.top == 0,
            r@.pc == 0,
            r@.slots == Seq::new(stack_size as nat, |k: int| ValueModel::Nil),
            r.prototype == prototype,
    {
        LuaState { stack: LuaStack::new(stack_size), prototype, pc: 0 }
    }



    /// The slot of a valid index.
    fn slot(&self, index: i32) -> (r: Option<usize>)
        ensures
            match r {
                Some(at) => self@.valid(index as int) && at == self@.slot_of(index as int),
                None => !self@.valid(index as int),
            },
    {
        match self.stack.abs_index(index) {
            Some(at) => if at < self.stack.top {
                Some(at)
            } else {
                None
            },
            None => None,
        }
    }

    /// A copy of the value at a valid index.
    fn value_at(&self, index: i32) -> (r: Option<LuaValue>)
        requires
            self.wf(),
        ensures
            match r {
                Some(v) => self@.valid(index as int) && v@ == self@.at(index as int),
                None => !self@.valid(index as int),
            },
    {
        match self.slot(index) {
            Some(at) => Some(self.stack.slots[at].clone()),
            None => None,
        }
    }


    /// Puts a value on top. Fails with `Overflow`, and changes nothing, where every
    /// slot is in use.
    pub fn push(&mut self, val: LuaValue) -> (r: Result<(), Fault>)
        requires
            old(self).wf(),
        ensures
            final(self).wf(),
            old(self)@.top < old(self)@.capacity() ==> r is Ok
                && final(self)@ == old(self)@.pushed(val@),
            old(self)@.top >= old(self)@.capacity() ==> r == Err::<(), Fault>(
                Fault::Stack(StackError::Overflow),
            ) && final(self)@ == old(self)@,
    {
        match self.stack.push(val) {
            Ok(_) => Ok(()),
            Err(e) => Err(stack_fault(e)),
        }
    }






    /// Takes the top value off.
    fn pop_value(&mut self) -> (r: LuaValue)
        requires
            old(self).wf(),
            old(self)@.top > 0,
        ensures
            final(self).wf(),
            r@ == old(self)@.slots[old(self)@.top - 1],
            final(self)@ == old(self)@.popped(1),
    {
        let r = self.stack.pop();
        assert(self@.slots =~= old(self)@.popped(1).slots);
        match r {
            Ok(v) => v,
            Err(_) => LuaValue::Nil,
        }
    }



















    /// Sets the position in the code. Fails with `BadOperand`, and changes nothing,
    /// where the position is before the code or behind its end.
    pub fn set_pc(&mut self, target: i64) -> (r: Result<(), Fault>)
        ensures
            final(self).wf() == old(self).wf(),
            match r {
                Ok(_) => old(self)@.in_code(target as int) && final(self)@ == old(self)@.at_pc(
                    target as int,
                ),
                Err(f) => f == Fault::Opcode(OpcodeError::BadOperand) && !old(self)@.in_code(
                    target as int,
                ) && final(self)@ == old(self)@,
            },
    {
        if target < 0 || target > 0xffff_ffff || target as u64 > self.prototype.code.len() as u64 {
            return Err(Fault::Opcode(OpcodeError::BadOperand));
        }
        self.pc = target as u32;
        Ok(())
    }


    /// Whether the position in the code can move by `n`.
    pub fn can_jump(&self, n: i32) -> (r: bool)
        ensures
            r == self@.in_code(self@.pc + n),
    {
        let target: i64 = self.pc as i64 + n as i64;
        !(target < 0 || target > 0xffff_ffff || target as u64 > self.prototype.code.len() as u64)
    }



}

impl LuaApi for LuaState {
    fn get_top(&self) -> (r: usize)
    {
        self.stack.top
    }

    fn abs_index(&self, index: i32) -> (r: Option<usize>)
    {
        self.stack.abs_index(index)
    }

    fn check_stack(&mut self, n: usize) -> (ok: bool)
    {
        let ok = self.stack.check(n);
        proof {
            if ok {
                assert(self@.slots =~= old(self)@.grown(n as nat).slots);
            }
        }
        ok
    }

    fn pop(&mut self, n: usize) -> (r: Result<(), Fault>)
    {
        if n > self.stack.top {
            return Err(Fault::Stack(StackError::Underflow));
        }
        let mut i: usize = 0;
        assert(self@.slots =~= old(self)@.popped(0).slots);
        while i < n
            invariant
                i <= n <= old(self)@.top,
                self.wf(),
                self@ == old(self)@.popped(i as nat),
            decreases n - i,
        {
            let ghost before = self@;
            self.pop_value();
            i = i + 1;
            assert(self@.slots =~= old(self)@.popped(i as nat).slots);
        }
        Ok(())
    }

    fn copy(&mut self, from_idex: i32, to_index: i32) -> (r: Result<(), Fault>)
    {
        let val = match self.value_at(from_idex) {
            Some(v) => v,
            None => return Err(Fault::Stack(StackError::OutOfBounds)),
        };
        let to = match self.slot(to_index) {
            Some(at) => at,
            None => return Err(Fault::Stack(StackError::OutOfBounds)),
        };
        self.stack.slots.set(to, val);
        assert(self@.slots =~= old(self)@.stored(to_index as int, val@).slots);
        Ok(())
    }

    fn push_value(&mut self, index: i32) -> (r: Result<(), Fault>)
    {
        let val = match self.value_at(index) {
            Some(v) => v,
            None => return Err(Fault::Stack(StackError::OutOfBounds)),
        };
        self.push(val)
    }

    fn replace(&mut self, index: i32) -> (r: Result<(), Fault>)
    {
        let to = match self.slot(index) {
            Some(at) => at,
            None => return Err(Fault::Stack(StackError::OutOfBounds)),
        };
        let val = self.stack.slots[self.stack.top - 1].clone();
        self.stack.slots.set(to, val);
        assert(self@.slots =~= old(self)@.stored(index as int, old(self)@.at(-1)).slots);
        self.pop_value();
        Ok(())
    }

    fn insert(&mut self, index: i32) -> (r: Result<(), Fault>)
    {
        self.rotate(index, 1)
    }

    fn rotate(&mut self, index: i32, n: i32) -> (r: Result<(), Fault>)
    {
        let from = match self.slot(index) {
            Some(at) => at,
            None => return Err(Fault::Stack(StackError::OutOfBounds)),
        };
        let top = self.stack.top;
        if top > 0x7fff_ffff {
            return Err(Fault::Stack(StackError::OutOfBounds));
        }
        let len: i64 = (top - from) as i64;
        let turn: i64 = n as i64;
        if turn > len || turn < -len {
            return Err(Fault::Stack(StackError::OutOfBounds));
        }
        let last: i64 = top as i64 - 1;
        let first: i64 = from as i64;
        let mid: i64 = if turn >= 0 {
            last - turn
        } else {
            first - turn - 1
        };
        let ghost s0 = self.stack@.slots;
        let _ = self.stack.reverse(first as i32, mid as i32);
        let ghost s1 = self.stack@.slots;
        let _ = self.stack.reverse((mid + 1) as i32, last as i32);
        let ghost s2 = self.stack@.slots;
        let _ = self.stack.reverse(first as i32, last as i32);
        proof {
            assert(s1 == if first < mid {
                reversed_range(s0, first as int, mid as int)
            } else {
                s0
            });
            assert(s2 == if mid + 1 < last {
                reversed_range(s1, mid + 1, last as int)
            } else {
                s1
            });
            assert(self.stack@.slots == if first < last {
                reversed_range(s2, first as int, last as int)
            } else {
                s2
            });
            assert(self@.slots =~= rotated(s0, from as int, top as int, n as int));
        }
        Ok(())
    }

    fn set_top(&mut self, index: i32) -> (r: Result<(), Fault>)
    {
        let new_top = match self.stack.abs_index(index) {
            Some(at) => at,
            None => return Err(Fault::Stack(StackError::Underflow)),
        };
        if new_top > self.stack.slots.len() {
            return Err(Fault::Stack(StackError::Overflow));
        }
        if new_top < self.stack.top {
            let n = self.stack.top - new_top;
            let _ = self.pop(n);
            assert(self@.slots =~= old(self)@.with_top(new_top as nat).slots);
        } else {
            self.stack.top = new_top;
            assert(self@.slots =~= old(self)@.with_top(new_top as nat).slots);
        }
        Ok(())
    }

    fn push_nil(&mut self) -> (r: Result<(), Fault>)
    {
        self.push(LuaValue::Nil)
    }

    fn push_integer(&mut self, val: i64) -> (r: Result<(), Fault>)
    {
        self.push(LuaValue::Integer(val))
    }

    fn push_boolean(&mut self, val: bool) -> (r: Result<(), Fault>)
    {
        self.push(LuaValue::Boolean(val))
    }

    fn push_string(&mut self, val: Vec<u8>) -> (r: Result<(), Fault>)
    {
        self.push(LuaValue::String(val))
    }

    fn push_number(&mut self, val: u64) -> (r: Result<(), Fault>)
    {
        self.push(LuaValue::Number(val))
    }

    fn is_number(&self, idx: i32) -> (r: bool)
    {
        match self.value_at(idx) {
            Some(v) => v.is_number(),
            None => false,
        }
    }

    fn to_numberx(&self, idx: i32) -> (r: Option<u64>)
    {
        match self.value_at(idx) {
            Some(LuaValue::Integer(i)) => Some(number::from_integer(i)),
            Some(LuaValue::Number(n)) => Some(n),
            _ => None,
        }
    }

    fn is_integer(&self, idx: i32) -> (r: bool)
    {
        match self.value_at(idx) {
            Some(v) => v.is_integer(),
            None => false,
        }
    }

    fn to_integer(&self, idx: i32) -> (r: Option<i64>)
    {
        match self.value_at(idx) {
            Some(LuaValue::Integer(i)) => Some(i),
            _ => None,
        }
    }

    fn is_string(&self, idx: i32) -> (r: bool)
    {
        match self.value_at(idx) {
            Some(v) => v.is_string(),
            None => false,
        }
    }

    fn to_string(&self, idx: i32) -> (r: Option<Vec<u8>>)
    {
        match self.value_at(idx) {
            Some(LuaValue::String(s)) => Some(s),
            _ => None,
        }
    }

    fn len(&mut self, idx: i32) -> (r: Result<(), Fault>)
    {
        let val = match self.value_at(idx) {
            Some(v) => v,
            None => return Err(Fault::Stack(StackError::OutOfBounds)),
        };
        match val {
            LuaValue::String(s) => {
                let n = s.len();
                if n as u64 > 0x7fff_ffff_ffff_ffff {
                    return Err(Fault::Stack(StackError::Overflow));
                }
                self.push_integer(n as i64)
            },
            _ => Err(Fault::Type(TypeError::Length)),
        }
    }

    fn concat(&mut self, n: usize) -> (r: Result<(), Fault>)
    {
        let top = self.stack.top;
        if n > top {
            return Err(Fault::Stack(StackError::Underflow));
        }
        if n == 0 {
            let empty: Vec<u8> = Vec::new();
            assert(empty@ =~= Seq::<u8>::empty());
            return self.push_string(empty);
        }
        if n == 1 {
            return Ok(());
        }
        let from: usize = top - n;
        let mut bytes: Vec<u8> = Vec::new();
        let mut i: usize = from;
        assert(bytes@ =~= Seq::<u8>::empty());
        while i < top
            invariant
                from <= i <= top,
                top == self@.top,
                n >= 2,
                from == top - n,
                self.wf(),
                self@ == old(self)@,
                joined(self@.slots, from as int, i as int) == Some(bytes@),
            decreases top - i,
        {
            match &self.stack.slots[i] {
                LuaValue::String(s) => {
                    let mut k: usize = 0;
                    let ghost before = bytes@;
                    while k < s.len()
                        invariant
                            k <= s.len(),
                            bytes@ == before + s@.take(k as int),
                        decreases s.len() - k,
                    {
                        bytes.push(s[k]);
                        k = k + 1;
                        assert(s@.take(k as int) == s@.take(k - 1).push(s@[k - 1]));
                        assert(bytes@ =~= before + s@.take(k as int));
                    }
                    assert(s@.take(s.len() as int) == s@);
                    assert(self@.slots[i as int] == self.stack.slots@[i as int]@);
                },
                _ => {
                    proof {
                        assert(self@.slots[i as int] == self.stack.slots@[i as int]@);
                        assert(!(self@.slots[i as int] is String));
                        assert(joined(self@.slots, from as int, i + 1) is None);
                        lemma_joined_none(self@.slots, from as int, i + 1, top as int);
                    }
                    return Err(Fault::Type(TypeError::Concat));
                },
            }
            i = i + 1;
        }
        let _ = self.pop(n);
        self.push_string(bytes)
    }

    fn compare(&self, idx1: i32, idx2: i32, op: CampareOperator) -> (r: Result<bool, Fault>)
    {
        let a = match self.value_at(idx1) {
            Some(v) => v,
            None => return Err(Fault::Stack(StackError::OutOfBounds)),
        };
        let b = match self.value_at(idx2) {
            Some(v) => v,
            None => return Err(Fault::Stack(StackError::OutOfBounds)),
        };
        compare_values(&a, &b, op)
    }
}

impl LuaVm for LuaState {
    fn get_pc(&self) -> (r: u32)
    {
        self.pc
    }

    fn add_pc(&mut self, n: i32) -> (r: Result<(), Fault>)
    {
        self.set_pc(self.pc as i64 + n as i64)
    }

    fn fetch(&mut self) -> (r: Result<Instruction, Fault>)
    {
        if self.pc as usize >= self.prototype.code.len() || self.pc == 0xffff_ffff {
            return Err(Fault::Opcode(OpcodeError::BadOperand));
        }
        let instr = self.prototype.code[self.pc as usize];
        self.pc = self.pc + 1;
        Ok(instr)
    }

    fn get_const(&mut self, idx: usize) -> (r: Result<(), Fault>)
    {
        if idx >= self.prototype.constants.len() {
            return Err(Fault::Opcode(OpcodeError::BadOperand));
        }
        let constant = self.prototype.constants[idx].clone();
        self.push(constant)
    }

    fn get_rk(&mut self, rk: i32) -> (r: Result<(), Fault>)
    {
        if rk > 0xff {
            self.get_const((rk % 256) as usize)
        } else {
            self.push_value(rk)
        }
    }

    fn arith(&mut self, op: ArithOp) -> (r: Result<Option<ArithTask>, Fault>)
    {
        if self.stack.top < 2 {
            return Err(Fault::Stack(StackError::Underflow));
        }
        let rhs = self.pop_value();
        let lhs = self.pop_value();
        assert(self@.slots =~= old(self)@.popped(2).slots);
        let task = ArithTask::new(op, lhs, rhs);
        match task.next() {
            Progress::Done(v) => {
                let _ = self.push(v);
                Ok(None)
            },
            Progress::Fail(f) => Err(f),
            Progress::Ask(_) => Ok(Some(task)),
        }
    }
}

/// A value that is put on top and taken off again leaves the state as it was.
pub proof fn lemma_push_pop(s: StateModel, v: ValueModel)
    requires
        s.wf(),
        s.top < s.capacity(),
    ensures
        s.pushed(v).wf(),
        s.pushed(v).at(-1) == v,
        s.pushed(v).popped(1) == s,
{
    assert(s.pushed(v).popped(1).slots =~= s.slots);
}

/// Rotating the values from a valid index to the top by `n` places and back again
/// leaves the slots as they were.
pub proof fn lemma_rotate_back(slots: Seq<ValueModel>, from: int, top: int, n: int)
    requires
        0 <= from < top <= slots.len(),
        -(top - from) <= n <= top - from,
    ensures
        rotated(rotated(slots, from, top, n), from, top, -n) == slots,
{
    assert(rotated(rotated(slots, from, top, n), from, top, -n) =~= slots);
}

/// Every value equals itself, but a NaN.
pub proof fn lemma_compare_reflexive(v: ValueModel)
    ensures
        compared(v, v, CampareOperator::Equal) == Ok::<bool, Fault>(
            !(v is Number && number::nan(v->Number_0)),
        ),
{
}

/// A value that has an order with itself is beside itself in that order, but a NaN.
pub proof fn lemma_order_reflexive(v: ValueModel)
    ensures
        compared(v, v, CampareOperator::LessThen) == Ok::<bool, Fault>(false),
        compared(v, v, CampareOperator::LessEqual) == Ok::<bool, Fault>(
            !(v is Number && number::nan(v->Number_0)),
        ),
{
    if let ValueModel::String(s) = v {
        lemma_bytes_lt_irreflexive(s, 0);
    }
}

/// No byte string comes before itself.
pub proof fn lemma_bytes_lt_irreflexive(s: Seq<u8>, i: int)
    requires
        0 <= i,
    ensures
        !bytes_lt_from(s, s, i),
    decreases s.len() - i,
{
    if i < s.len() {
        lemma_bytes_lt_irreflexive(s, i + 1);
    }
}

/// Where a slot holds no string, no range that ends behind it joins.
pub proof fn lemma_joined_none(slots: Seq<ValueModel>, from: int, mid: int, to: int)
    requires
        from < mid <= to,
        joined(slots, from, mid) is None,
    ensures
        joined(slots, from, to) is None,
    decreases to - mid,
{
    if mid < to {
        lemma_joined_none(slots, from, mid, to - 1);
    }
}

/// Compares two values.
pub fn compare_values(a: &LuaValue, b: &LuaValue, op: CampareOperator) -> (r: Result<bool, Fault>)
    ensures
        r == compared(a@, b@, op),
{
    match op {
        CampareOperator::Equal => Ok(a.equals(b)),
        _ => {
            let defined = match (a, b) {
                (LuaValue::Nil, LuaValue::Nil) => true,
                (LuaValue::Boolean(_), LuaValue::Boolean(_)) => true,
                (LuaValue::Integer(_), LuaValue::Integer(_)) => true,
                (LuaValue::Integer(_), LuaValue::Number(_)) => true,
                (LuaValue::Number(_), LuaValue::Integer(_)) => true,
                (LuaValue::Number(_), LuaValue::Number(_)) => true,
                (LuaValue::String(_), LuaValue::String(_)) => true,
                _ => false,
            };
            if !defined {
                Err(Fault::Type(TypeError::Compare))
            } else {
                Ok(
                    match op {
                        CampareOperator::LessThen => a.less_than(b),
                        CampareOperator::GreatThen => b.less_than(a),
                        CampareOperator::LessEqual => a.less_equal(b),
                        _ => b.less_equal(a),
                    },
                )
            }
        },
    }
}

} // verus!
