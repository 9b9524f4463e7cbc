use vstd::prelude::*;
use super::arith::{ArithTask, FloatAsk, Progress, ProgressModel, TaskModel};
use super::binary_chunk::Prototype;
use super::error::{Fault, OpcodeError, StackError, VmError};
use super::instruction::{execute, executed, field_op, InstructionOperation};
use super::lua_state::{
    compare_values, compared, CampareOperator, LuaApi, LuaState, LuaVm, StateModel,
};
use super::lua_value::{LuaValue, ValueModel};
use super::number;
use super::undump::values_of;

verus! {

// The machine runs one instruction at a time. Arithmetic on numbers is the work of a
// float unit outside this library, so an instruction can end in a question: the step
// returns a ticket, the caller has the float unit answer the question of the ticket,
// and hands ticket and answer back to `resume`, which finishes the instruction or
// asks the next question.

/// What is done with the result of an operation that went to the float unit.
#[derive(Debug, Clone, Copy, PartialEq, Eq, Structural)]
pub enum Resume {
    /// The result is stored in a register.
    Store(i32),
    /// The result is the new counter of a numeric loop: the register of the counter
    /// and the distance back to the start of the body.
    ForLoop(i32, i32),
}

/// An instruction that waits for the float unit: the operation as far as it is known,
/// and what is done with its result.
#[derive(Debug, PartialEq)]
pub struct FloatTicket {
    pub task: ArithTask,
    pub resume: Resume,
}

impl FloatTicket {
    /// The question that the instruction waits for an answer to; `None` for a ticket
    /// whose operation asks nothing.
    pub fn question(&self) -> (r: Option<FloatAsk>)
        ensures
            match r {
                Some(ask) => self.task@.next() == ProgressModel::Ask(ask@),
                None => !(self.task@.next() is Ask),
            },
    {
        match self.task.next() {
            Progress::Ask(ask) => Some(ask),
            _ => None,
        }
    }
}

/// How a step of the machine ends.
#[derive(Debug, PartialEq)]
pub enum Step {
    /// The instruction is done; the next one can run.
    Continue,
    /// The instruction was `RETURN`: the run is over.
    Return,
    /// The instruction waits for the float unit.
    Float(FloatTicket),
}

pub enum StepModel {
    Continue,
    Return,
    Float(TaskModel, Resume),
}

impl View for Step {
    type V = StepModel;

    open spec fn view(&self) -> StepModel {
        match self {
            Step::Continue => StepModel::Continue,
            Step::Return => StepModel::Return,
            Step::Float(ticket) => StepModel::Float(ticket.task@, ticket.resume),
        }
    }
}

/// The state and the step that an instruction ends in, or its fault.
pub type Outcome = Result<(StateModel, StepModel), Fault>;

/// Whether the step of a numeric loop counts upward: an integer or a number that is
/// zero or more does, and so does a step that is no number.
pub open spec fn step_upward(step: ValueModel) -> bool {
    match step {
        ValueModel::Integer(i) => i >= 0,
        ValueModel::Number(n) => number::number_le(0, n),
        _ => true,
    }
}

/// The end of a loop instruction, with the new counter `v`: the counter is stored in
/// register `a`; where it has not passed the limit in register `a + 1`, seen in the
/// direction of the step in register `a + 2`, it is copied to the loop variable in
/// register `a + 3` and the body runs again, `back` instructions before. The four
/// registers must be there.
pub open spec fn loop_end(s: StateModel, a: int, back: int, v: ValueModel) -> Outcome {
    if !(0 <= a && a + 3 < s.top && a + 3 <= i32::MAX) {
        Err(Fault::Stack(StackError::OutOfBounds))
    } else {
        let counted = s.stored(a, v);
        let again = if step_upward(s.at(a + 2)) {
            compared(v, s.at(a + 1), CampareOperator::LessEqual)
        } else {
            compared(s.at(a + 1), v, CampareOperator::LessEqual)
        };
        match again {
            Err(f) => Err(f),
            Ok(false) => Ok((counted, StepModel::Continue)),
            Ok(true) => if !s.in_code(s.pc - back) {
                Err(Fault::Opcode(OpcodeError::BadOperand))
            } else {
                Ok((counted.stored(a + 3, v).at_pc(s.pc - back), StepModel::Continue))
            },
        }
    }
}

/// What is done with the result `v` of an operation.
pub open spec fn finished(s: StateModel, resume: Resume, v: ValueModel) -> Outcome {
    match resume {
        Resume::Store(a) => if !(0 <= a < s.top) {
            Err(Fault::Stack(StackError::OutOfBounds))
        } else {
            Ok((s.stored(a as int, v), StepModel::Continue))
        },
        Resume::ForLoop(a, back) => loop_end(s, a as int, back as int, v),
    }
}

/// An operation brought as far as it goes: with its result the instruction is
/// finished, with its failure the instruction fails, and with a question of the
/// operation the instruction waits.
pub open spec fn settled(s: StateModel, task: TaskModel, resume: Resume) -> Outcome {
    match task.next() {
        ProgressModel::Done(v) => finished(s, resume, v),
        ProgressModel::Fail(f) => Err(f),
        ProgressModel::Ask(_) => Ok((s, StepModel::Float(task, resume))),
    }
}

/// An instruction that waited, finished with the answer of the float unit.
pub open spec fn resumed(s: StateModel, task: TaskModel, resume: Resume, reply: Option<u64>)
    -> Outcome {
    settled(s, task.supplied(reply), resume)
}

/// The call ended as the outcome says: in that state with that step, or with that
/// fault and the state as it was.
pub open spec fn follows(pre: StateModel, post: StateModel, r: Result<Step, Fault>, outcome: Outcome)
    -> bool {
    match r {
        Ok(step) => outcome == Ok::<(StateModel, StepModel), Fault>((post, step@)),
        Err(f) => outcome == Err::<(StateModel, StepModel), Fault>(f) && post == pre,
    }
}

fn step_counts_upward(step: &LuaValue) -> (r: bool)
    ensures
        r == step_upward(step@),
{
    match step {
        LuaValue::Integer(i) => *i >= 0,
        LuaValue::Number(n) => number::less_equal(0, *n),
        _ => true,
    }
}

impl LuaState {
    /// The value of a register.
    pub fn register(&self, r: i32) -> (v: Result<LuaValue, Fault>)
        requires
            self.wf(),
        ensures
            match v {
                Ok(val) => 0 <= r < self@.top && val@ == self@.slots[r as int],
                Err(f) => f == Fault::Stack(StackError::OutOfBounds) && !(0 <= r < self@.top),
            },
    {
        if r < 0 || r as usize >= self.stack.top {
            return Err(Fault::Stack(StackError::OutOfBounds));
        }
        Ok(self.stack.slots[r as usize].clone())
    }

    /// Writes a register.
    pub fn set_register(&mut self, r: i32, val: LuaValue) -> (done: Result<(), Fault>)
        requires
            old(self).wf(),
        ensures
            final(self).wf(),
            match done {
                Ok(_) => 0 <= r < old(self)@.top && final(self)@ == old(self)@.stored(
                    r as int,
                    val@,
                ),
                Err(f) => f == Fault::Stack(StackError::OutOfBounds) && !(0 <= r < old(self)@.top)
                    && final(self)@ == old(self)@,
            },
    {
        if r < 0 || r as usize >= self.stack.top {
            return Err(Fault::Stack(StackError::OutOfBounds));
        }
        self.stack.slots.set(r as usize, val);
        assert(self@.slots =~= old(self)@.stored(r as int, val@).slots);
        Ok(())
    }

    /// Ends a loop instruction with the new counter.
    pub fn end_loop(&mut self, a: i32, back: i32, v: LuaValue) -> (r: Result<Step, Fault>)
        requires
            old(self).wf(),
        ensures
            final(self).wf(),
            final(self)@.code == old(self)@.code,
            final(self)@.constants == old(self)@.constants,
            follows(old(self)@, final(self)@, r, loop_end(old(self)@, a as int, back as int, v@)),
    {
        if a < 0 || a > 0x7fff_fffc || (a + 3) as usize >= self.stack.top {
            return Err(Fault::Stack(StackError::OutOfBounds));
        }
        let limit = self.stack.slots[(a + 1) as usize].clone();
        let upward = step_counts_upward(&self.stack.slots[(a + 2) as usize]);
        let again = if upward {
            compare_values(&v, &limit, CampareOperator::LessEqual)
        } else {
            compare_values(&limit, &v, CampareOperator::LessEqual)
        };
        let again = match again {
            Ok(b) => b,
            Err(f) => return Err(f),
        };
        if again {
            match self.set_pc(self.pc as i64 - back as i64) {
                Ok(_) => {},
                Err(f) => return Err(f),
            }
            let _ = self.set_register(a + 3, v.clone());
        }
        let _ = self.set_register(a, v);
        assert(self@.slots =~= if again {
            old(self)@.stored(a as int, v@).stored(a + 3, v@).slots
        } else {
            old(self)@.stored(a as int, v@).slots
        });
        Ok(Step::Continue)
    }

    /// Does with the result of an operation what the instruction asks for.
    pub fn finish(&mut self, resume: Resume, v: LuaValue) -> (r: Result<Step, Fault>)
        requires
            old(self).wf(),
        ensures
            final(self).wf(),
            final(self)@.code == old(self)@.code,
            final(self)@.constants == old(self)@.constants,
            follows(old(self)@, final(self)@, r, finished(old(self)@, resume, v@)),
    {
        match resume {
            Resume::Store(a) => match self.set_register(a, v) {
                Ok(_) => Ok(Step::Continue),
                Err(f) => Err(f),
            },
            Resume::ForLoop(a, back) => self.end_loop(a, back, v),
        }
    }

    /// Brings an operation as far as it goes without the float unit.
    pub fn settle(&mut self, task: ArithTask, resume: Resume) -> (r: Result<Step, Fault>)
        requires
            old(self).wf(),
        ensures
            final(self).wf(),
            final(self)@.code == old(self)@.code,
            final(self)@.constants == old(self)@.constants,
            follows(old(self)@, final(self)@, r, settled(old(self)@, task@, resume)),
    {
        match task.next() {
            Progress::Done(v) => self.finish(resume, v),
            Progress::Fail(f) => Err(f),
            Progress::Ask(_) => Ok(Step::Float(FloatTicket { task, resume })),
        }
    }
}

/// One step of the machine: the instruction at the position in the code is read and
/// run. A fault comes with the position of the instruction and its opcode number.
pub open spec fn stepped(s: StateModel) -> Result<(StateModel, StepModel), VmError> {
    if !(s.pc < s.code.len() && s.in_code(s.pc + 1)) {
        Err(VmError { fault: Fault::Opcode(OpcodeError::BadOperand), pc: s.pc as u32, op_code: None })
    } else {
        match executed(s.at_pc(s.pc + 1), s.code[s.pc]) {
            Ok(end) => Ok(end),
            Err(fault) => Err(
                VmError { fault, pc: s.pc as u32, op_code: Some(field_op(s.code[s.pc]) as usize) },
            ),
        }
    }
}

/// A run of at most `steps` steps: the state in which it ends, and how. The run goes
/// on while the steps end in `Continue`, and ends with the first step that returns,
/// waits for the float unit, or fails; a step that fails leaves the state as it was. A
/// run that has used up its steps ends in `Continue`.
pub open spec fn ran(s: StateModel, steps: nat) -> (StateModel, Result<StepModel, VmError>)
    decreases steps,
{
    if steps == 0 {
        (s, Ok(StepModel::Continue))
    } else {
        match stepped(s) {
            Ok((next, StepModel::Continue)) => ran(next, (steps - 1) as nat),
            Ok((next, step)) => (next, Ok(step)),
            Err(e) => (s, Err(e)),
        }
    }
}

/// How a call ended, as the model has it.
pub open spec fn ended(r: Result<Step, VmError>) -> Result<StepModel, VmError> {
    match r {
        Ok(step) => Ok(step@),
        Err(e) => Err(e),
    }
}

/// The state in which a function starts: a stack of 8 slots more than the function has
/// registers, all nil, the top above the registers, and the position at the start of
/// the code.
pub open spec fn started(constants: Seq<ValueModel>, code: Seq<u32>, registers: nat)
    -> StateModel {
    StateModel {
        slots: Seq::new(registers + 8, |k: int| ValueModel::Nil),
        top: registers,
        pc: 0,
        constants,
        code,
    }
}

impl LuaState {
    /// Finishes an instruction that waited, with the answer of the float unit to the
    /// question of its ticket.
    pub fn resume(&mut self, ticket: FloatTicket, reply: Option<u64>) -> (r: Result<Step, Fault>)
        requires
            old(self).wf(),
        ensures
            final(self).wf(),
            final(self)@.code == old(self)@.code,
            final(self)@.constants == old(self)@.constants,
            follows(old(self)@, final(self)@, r, resumed(old(self)@, ticket.task@, ticket.resume, reply)),
    {
        let resume = ticket.resume;
        let task = ticket.task.supply(reply);
        self.settle(task, resume)
    }

    /// Runs the instruction at the position in the code.
    pub fn step(&mut self) -> (r: Result<Step, VmError>)
        requires
            old(self).wf(),
        ensures
            final(self).wf(),
            final(self)@.code == old(self)@.code,
            final(self)@.constants == old(self)@.constants,
            match r {
                Ok(step) => stepped(old(self)@) == Ok::<(StateModel, StepModel), VmError>(
                    (final(self)@, step@),
                ),
                Err(e) => stepped(old(self)@) == Err::<(StateModel, StepModel), VmError>(e)
                    && final(self)@ == old(self)@,
            },
    {
        let pc = self.pc;
        let instruction = match self.fetch() {
            Ok(w) => w,
            Err(fault) => return Err(VmError { fault, pc, op_code: None }),
        };
        match execute(instruction, self) {
            Ok(step) => Ok(step),
            Err(fault) => {
                self.pc = pc;
                Err(VmError { fault, pc, op_code: Some(instruction.op_code()) })
            },
        }
    }

    /// Runs at most `max_steps` instructions, up to the first that returns, waits for
    /// the float unit, or fails.
    pub fn run(&mut self, max_steps: u64) -> (r: Result<Step, VmError>)
        requires
            old(self).wf(),
        ensures
            final(self).wf(),
            final(self)@.code == old(self)@.code,
            final(self)@.constants == old(self)@.constants,
            ran(old(self)@, max_steps as nat) == (final(self)@, ended(r)),
    {
        let mut left: u64 = max_steps;
        while left > 0
            invariant
                self.wf(),
                self@.code == old(self)@.code,
                self@.constants == old(self)@.constants,
                ran(old(self)@, max_steps as nat) == ran(self@, left as nat),
            decreases left,
        {
            match self.step() {
                Ok(Step::Continue) => {},
                Ok(other) => {
                    return Ok(other);
                },
                Err(e) => {
                    return Err(e);
                },
            }
            left = left - 1;
        }
        Ok(Step::Continue)
    }
}

/// Starts the main function of a chunk and runs at most `max_steps` instructions of
/// it. Returns the state of the machine with the step that the run ended in.
pub fn load_main(prototype: Prototype, max_steps: u64) -> (r: Result<(LuaState, Step), VmError>)
    ensures
        match r {
            Ok((state, step)) => state.wf() && ran(
                started(
                    values_of(prototype.constants@),
                    prototype.code@,
                    prototype.max_statck_size as nat,
                ),
                max_steps as nat,
            ) == (state@, Ok::<StepModel, VmError>(step@)),
            Err(e) => ran(
                started(
                    values_of(prototype.constants@),
                    prototype.code@,
                    prototype.max_statck_size as nat,
                ),
                max_steps as nat,
            ).1 == Err::<StepModel, VmError>(e),
        },
{
    let n_regs = prototype.max_statck_size;
    let mut state = LuaState::new(n_regs as usize + 8, prototype);
    let _ = state.set_top(n_regs as i32);
    assert(state@.slots =~= Seq::new((n_regs + 8) as nat, |k: int| ValueModel::Nil));
    match state.run(max_steps) {
        Ok(step) => Ok((state, step)),
        Err(e) => Err(e),
    }
}

} // verus!
