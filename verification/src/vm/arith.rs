use vstd::prelude::*;
use super::error::{Fault, TypeError};
use super::lua_value::{copy_bytes, integer_of_text, parse_integer, LuaValue, ValueModel};
use super::number;

verus! {

// Arithmetic on values. Integer arithmetic is done here. Arithmetic on numbers, and the
// reading of a text as a number, is the work of a float unit outside this library: an
// operation that needs it is a task that asks the unit one question at a time and goes
// on with the answer.

/// The arithmetic and bitwise operations.
#[derive(Debug, Clone, Copy, PartialEq, Eq, Structural)]
pub enum ArithOp {
    Add,
    Sub,
    Mul,
    Mod,
    Pow,
    Div,
    IDiv,
    BAnd,
    BOr,
    BXor,
    Shl,
    Shr,
    Unm,
    BNot,
}

/// The operations on two numbers that the float unit performs.
#[derive(Debug, Clone, Copy, PartialEq, Eq, Structural)]
pub enum FloatOp {
    Add,
    Sub,
    Mul,
    /// The remainder of the division.
    Mod,
    Pow,
    Div,
    /// The quotient rounded down to a whole number.
    IDiv,
}

impl ArithOp {
    /// The operation is defined on two integers.
    pub open spec fn on_integers(self) -> bool {
        !(self == ArithOp::Pow || self == ArithOp::Div)
    }

    /// The operation is defined on numbers.
    pub open spec fn on_numbers(self) -> bool {
        self == ArithOp::Add || self == ArithOp::Sub || self == ArithOp::Mul || self
            == ArithOp::Mod || self == ArithOp::Pow || self == ArithOp::Div || self
            == ArithOp::IDiv || self == ArithOp::Unm
    }

    /// The operation of the float unit that does this operation on two numbers.
    pub open spec fn float_op(self) -> FloatOp {
        match self {
            ArithOp::Sub => FloatOp::Sub,
            ArithOp::Mul => FloatOp::Mul,
            ArithOp::Mod => FloatOp::Mod,
            ArithOp::Pow => FloatOp::Pow,
            ArithOp::Div => FloatOp::Div,
            ArithOp::IDiv => FloatOp::IDiv,
            _ => FloatOp::Add,
        }
    }

    pub fn has_integer_form(self) -> (r: bool)
        ensures
            r == self.on_integers(),
    {
        match self {
            ArithOp::Pow => false,
            ArithOp::Div => false,
            _ => true,
        }
    }

    pub fn has_number_form(self) -> (r: bool)
        ensures
            r == self.on_numbers(),
    {
        match self {
            ArithOp::Add => true,
            ArithOp::Sub => true,
            ArithOp::Mul => true,
            ArithOp::Mod => true,
            ArithOp::Pow => true,
            ArithOp::Div => true,
            ArithOp::IDiv => true,
            ArithOp::Unm => true,
            _ => false,
        }
    }

    pub fn to_float_op(self) -> (r: FloatOp)
        ensures
            r == self.float_op(),
    {
        match self {
            ArithOp::Sub => FloatOp::Sub,
            ArithOp::Mul => FloatOp::Mul,
            ArithOp::Mod => FloatOp::Mod,
            ArithOp::Pow => FloatOp::Pow,
            ArithOp::Div => FloatOp::Div,
            ArithOp::IDiv => FloatOp::IDiv,
            _ => FloatOp::Add,
        }
    }
}

/// An integer brought into the 64-bit two's complement range: the one value of that
/// range that differs from `v` by a multiple of 2^64.
pub open spec fn wrap(v: int) -> i64 {
    let m = v % 0x1_0000_0000_0000_0000;
    if m >= 0x8000_0000_0000_0000 {
        (m - 0x1_0000_0000_0000_0000) as i64
    } else {
        m as i64
    }
}

/// The 64 bits of an integer in two's complement.
pub open spec fn pattern(a: i64) -> u64 {
    if a < 0 {
        (a + 0x1_0000_0000_0000_0000) as u64
    } else {
        a as u64
    }
}

/// The integer that 64 bits write in two's complement.
pub open spec fn integer_of_pattern(p: u64) -> i64 {
    if p >= 0x8000_0000_0000_0000 {
        (p - 0x1_0000_0000_0000_0000) as i64
    } else {
        p as i64
    }
}

pub open spec fn magnitude_of(a: int) -> int {
    if a < 0 {
        -a
    } else {
        a
    }
}

/// The quotient of a division that rounds toward zero.
pub open spec fn truncated_quotient(a: int, b: int) -> int {
    if (a >= 0) == (b >= 0) {
        magnitude_of(a) / magnitude_of(b)
    } else {
        -(magnitude_of(a) / magnitude_of(b))
    }
}

/// The remainder of a division that rounds toward zero: it has the sign of `a`.
pub open spec fn truncated_remainder(a: int, b: int) -> int {
    if a >= 0 {
        magnitude_of(a) % magnitude_of(b)
    } else {
        -(magnitude_of(a) % magnitude_of(b))
    }
}

/// The bits of `a` moved `n` places to the left, for `n >= 0`, or `-n` places to the
/// right. Bits that leave the 64 are lost and zeros come in; a move by 64 places or
/// more leaves 0.
pub open spec fn shifted(a: i64, n: int) -> i64 {
    if n <= -64 || n >= 64 {
        0
    } else if n >= 0 {
        integer_of_pattern(pattern(a) << (n as u64))
    } else {
        integer_of_pattern(pattern(a) >> ((-n) as u64))
    }
}

/// The result of an operation on two integers; `None` for a division by zero. The sum,
/// the difference, the product and the negation wrap around; the quotient and the
/// remainder round toward zero. A unary operation reads `a` only.
pub open spec fn integer_result(op: ArithOp, a: i64, b: i64) -> Option<i64> {
    match op {
        ArithOp::Add => Some(wrap(a + b)),
        ArithOp::Sub => Some(wrap(a - b)),
        ArithOp::Mul => Some(wrap(a * b)),
        ArithOp::Mod => if b == 0 {
            None
        } else {
            Some(truncated_remainder(a as int, b as int) as i64)
        },
        ArithOp::IDiv => if b == 0 {
            None
        } else {
            Some(wrap(truncated_quotient(a as int, b as int)))
        },
        ArithOp::BAnd => Some(a & b),
        ArithOp::BOr => Some(a | b),
        ArithOp::BXor => Some(a ^ b),
        ArithOp::Shl => Some(shifted(a, b as int)),
        ArithOp::Shr => Some(shifted(a, -(b as int))),
        ArithOp::Unm => Some(wrap(-(a as int))),
        ArithOp::BNot => Some(!a),
        _ => None,
    }
}

fn to_pattern(a: i64) -> (r: u64)
    ensures
        r == pattern(a),
{
    if a < 0 {
        ((a - i64::MIN) as u64) + 0x8000_0000_0000_0000
    } else {
        a as u64
    }
}

/// The integer that 64 bits write in two's complement.
pub fn from_pattern(p: u64) -> (r: i64)
    ensures
        r == integer_of_pattern(p),
{
    if p >= 0x8000_0000_0000_0000 {
        ((p - 0x8000_0000_0000_0000) as i64) + i64::MIN
    } else {
        p as i64
    }
}

/// Moves the bits of `a` by `n` places: to the left for a positive `n`.
pub fn shift(a: i64, n: i64) -> (r: i64)
    ensures
        r == shifted(a, n as int),
{
    if n <= -64 || n >= 64 {
        0
    } else if n >= 0 {
        from_pattern(to_pattern(a) << (n as u64))
    } else {
        from_pattern(to_pattern(a) >> ((-n) as u64))
    }
}

/// Wrapping a value that is less than 2^64 away from the range moves it by 2^64 at most.
pub proof fn lemma_wrap_near(v: int)
    requires
        -0x1_0000_0000_0000_0000 <= v < 0x1_0000_0000_0000_0000,
    ensures
        wrap(v) == if v > i64::MAX {
            v - 0x1_0000_0000_0000_0000
        } else if v < i64::MIN {
            v + 0x1_0000_0000_0000_0000
        } else {
            v
        },
{
    if v >= 0 {
        assert(v % 0x1_0000_0000_0000_0000 == v);
    } else {
        assert(v % 0x1_0000_0000_0000_0000 == v + 0x1_0000_0000_0000_0000);
    }
}

/// The size of a quotient and of a remainder of natural numbers.
pub proof fn lemma_division_bounds(x: int, d: int)
    requires
        0 <= x,
        1 <= d,
    ensures
        0 <= x / d <= x,
        0 <= x % d < d,
        x % d <= x,
        x == 0 ==> x / d == 0 && x % d == 0,
        d == 1 ==> x / d == x && x % d == 0,
        d >= 2 && x > 0 ==> x / d < x,
{
    assert(0 <= x / d <= x && 0 <= x % d < d && x % d <= x && (x == 0 ==> x / d == 0 && x % d
        == 0) && (d == 1 ==> x / d == x && x % d == 0) && (d >= 2 && x > 0 ==> x / d < x))
        by (nonlinear_arith)
        requires
            0 <= x,
            1 <= d,
    ;
}

/// Does an operation on two integers. `None` is a division by zero, or an operation
/// that has no integer form.
pub fn integer_op(op: ArithOp, a: i64, b: i64) -> (r: Option<i64>)
    ensures
        r == integer_result(op, a, b),
{
    proof {
        lemma_wrap_near(a + b);
        lemma_wrap_near(a - b);
        lemma_wrap_near(-(a as int));
        if b != 0 {
            lemma_division_bounds(magnitude_of(a as int), magnitude_of(b as int));
            lemma_wrap_near(truncated_quotient(a as int, b as int));
            assert((a as int) * -1 == -(a as int));
            assert((b as int) * -1 == -(b as int));
        }
    }
    match op {
        ArithOp::Add => {
            let r = a.wrapping_add(b);
            assert(r == wrap(a + b));
            Some(r)
        },
        ArithOp::Sub => {
            let r = a.wrapping_sub(b);
            assert(r == wrap(a - b));
            Some(r)
        },
        ArithOp::Mul => {
            let r = a.wrapping_mul(b);
            assert(r == wrap(a * b));
            Some(r)
        },
        ArithOp::Mod => {
            if b == 0 {
                None
            } else if b == -1 {
                assert(truncated_remainder(a as int, b as int) == 0);
                Some(0)
            } else {
                let r = a.checked_rem(b);
                assert(r == Some(truncated_remainder(a as int, b as int) as i64));
                r
            }
        },
        ArithOp::IDiv => {
            if b == 0 {
                None
            } else if b == -1 {
                let r = 0i64.wrapping_sub(a);
                assert(truncated_quotient(a as int, b as int) == -(a as int));
                assert(r == wrap(truncated_quotient(a as int, b as int)));
                Some(r)
            } else {
                let r = a.checked_div(b);
                assert(r == Some(wrap(truncated_quotient(a as int, b as int))));
                r
            }
        },
        ArithOp::BAnd => Some(a & b),
        ArithOp::BOr => Some(a | b),
        ArithOp::BXor => Some(a ^ b),
        ArithOp::Shl => Some(shift(a, b)),
        ArithOp::Shr => {
            if b == i64::MIN {
                Some(0)
            } else {
                Some(shift(a, -b))
            }
        },
        ArithOp::Unm => {
            let r = 0i64.wrapping_sub(a);
            assert(r == wrap(-(a as int)));
            Some(r)
        },
        ArithOp::BNot => Some(!a),
        _ => None,
    }
}

/// A question to the float unit.
#[derive(Debug, PartialEq)]
pub enum FloatAsk {
    /// Read the text as a number; the answer is `None` where the text writes none.
    Parse(Vec<u8>),
    /// Apply the operation to the two numbers, given as bit patterns.
    Apply(FloatOp, u64, u64),
}

pub enum AskModel {
    Parse(Seq<u8>),
    Apply(FloatOp, u64, u64),
}

impl View for FloatAsk {
    type V = AskModel;

    open spec fn view(&self) -> AskModel {
        match self {
            FloatAsk::Parse(text) => AskModel::Parse(text@),
            FloatAsk::Apply(op, a, b) => AskModel::Apply(*op, *a, *b),
        }
    }
}

/// Where an operation stands: it has its result, it has failed, or it waits for the
/// answer to a question.
#[derive(Debug, PartialEq)]
pub enum Progress {
    Done(LuaValue),
    Fail(Fault),
    Ask(FloatAsk),
}

pub enum ProgressModel {
    Done(ValueModel),
    Fail(Fault),
    Ask(AskModel),
}

impl View for Progress {
    type V = ProgressModel;

    open spec fn view(&self) -> ProgressModel {
        match self {
            Progress::Done(v) => ProgressModel::Done(v@),
            Progress::Fail(f) => ProgressModel::Fail(*f),
            Progress::Ask(a) => ProgressModel::Ask(a@),
        }
    }
}

/// One operation on two operands, with what the float unit has answered so far: a text
/// that it has read stands as the number in place of the operand, and `applied` holds
/// the result of the operation once the unit has given it. A unary operation has the
/// integer 0 as its second operand.
#[derive(Debug, PartialEq)]
pub struct ArithTask {
    pub op: ArithOp,
    pub lhs: LuaValue,
    pub rhs: LuaValue,
    pub applied: Option<u64>,
}

pub struct TaskModel {
    pub op: ArithOp,
    pub lhs: ValueModel,
    pub rhs: ValueModel,
    pub applied: Option<u64>,
}

impl View for ArithTask {
    type V = TaskModel;

    open spec fn view(&self) -> TaskModel {
        TaskModel { op: self.op, lhs: self.lhs@, rhs: self.rhs@, applied: self.applied }
    }
}

/// An operand on its way into an operation.
pub enum Operand {
    /// The operand as the operation takes it: an integer or a number.
    Ready(ValueModel),
    /// A text that the float unit has to read first.
    Text(Seq<u8>),
    /// A value that converts to no number.
    Bad,
}

/// The operand of an integer operation: an integer is itself, a number is rounded, a
/// text that writes an integer is that integer, any other text goes to the float unit.
pub open spec fn integer_operand(v: ValueModel) -> Operand {
    match v {
        ValueModel::Integer(i) => Operand::Ready(ValueModel::Integer(i)),
        ValueModel::Number(n) => Operand::Ready(ValueModel::Integer(number::integer_of_number(n))),
        ValueModel::String(s) => match integer_of_text(s) {
            Some(i) => Operand::Ready(ValueModel::Integer(i)),
            None => Operand::Text(s),
        },
        _ => Operand::Bad,
    }
}

/// The operand of an operation on numbers: an integer is widened, a number is itself,
/// a text goes to the float unit.
pub open spec fn number_operand(v: ValueModel) -> Operand {
    match v {
        ValueModel::Integer(i) => Operand::Ready(ValueModel::Number(number::number_of_integer(i))),
        ValueModel::Number(n) => Operand::Ready(ValueModel::Number(n)),
        ValueModel::String(s) => Operand::Text(s),
        _ => Operand::Bad,
    }
}

impl TaskModel {
    /// The operation is done on integers: it has no form on numbers, or it has both
    /// forms and both operands are integers.
    pub open spec fn on_integers(self) -> bool {
        !self.op.on_numbers() || (self.op.on_integers() && self.lhs is Integer && self.rhs
            is Integer)
    }

    pub open spec fn operand(self, v: ValueModel) -> Operand {
        if self.on_integers() {
            integer_operand(v)
        } else {
            number_operand(v)
        }
    }

    /// Where the task stands. An operand that converts to no number fails it at once.
    /// A text is sent to the float unit, the left one first. With both operands ready,
    /// an integer operation gives its result or fails on a division by zero, a negation
    /// of a number flips its sign, and any other operation on numbers is sent to the
    /// float unit.
    pub open spec fn next(self) -> ProgressModel {
        let l = self.operand(self.lhs);
        let r = self.operand(self.rhs);
        if let Some(bits) = self.applied {
            ProgressModel::Done(ValueModel::Number(bits))
        } else if l is Bad || r is Bad {
            ProgressModel::Fail(Fault::Type(TypeError::Arithmetic))
        } else if let Operand::Text(s) = l {
            ProgressModel::Ask(AskModel::Parse(s))
        } else if let Operand::Text(s) = r {
            ProgressModel::Ask(AskModel::Parse(s))
        } else {
            match (l, r) {
                (
                    Operand::Ready(ValueModel::Integer(a)),
                    Operand::Ready(ValueModel::Integer(b)),
                ) => match integer_result(self.op, a, b) {
                    Some(v) => ProgressModel::Done(ValueModel::Integer(v)),
                    None => ProgressModel::Fail(Fault::DivisionByZero),
                },
                (
                    Operand::Ready(ValueModel::Number(a)),
                    Operand::Ready(ValueModel::Number(b)),
                ) => if self.op == ArithOp::Unm {
                    ProgressModel::Done(ValueModel::Number(number::negated(a)))
                } else {
                    ProgressModel::Ask(AskModel::Apply(self.op.float_op(), a, b))
                },
                _ => ProgressModel::Fail(Fault::Type(TypeError::Arithmetic)),
            }
        }
    }

    /// The task with the answer of the float unit to its question. A text that was read
    /// is replaced by the number; a text that writes no number is replaced by nil, which
    /// converts to nothing. The result of the operation is kept in `applied`. A task
    /// that asks nothing is unchanged.
    pub open spec fn supplied(self, reply: Option<u64>) -> TaskModel {
        let answer = match reply {
            Some(bits) => ValueModel::Number(bits),
            None => ValueModel::Nil,
        };
        match self.next() {
            ProgressModel::Ask(AskModel::Parse(_)) => if self.operand(self.lhs) is Text {
                TaskModel { lhs: answer, ..self }
            } else {
                TaskModel { rhs: answer, ..self }
            },
            ProgressModel::Ask(AskModel::Apply(_, _, _)) => match reply {
                Some(bits) => TaskModel { applied: Some(bits), ..self },
                None => TaskModel { lhs: ValueModel::Nil, ..self },
            },
            _ => self,
        }
    }
}

/// An operand as it enters an operation, or the note that it is a text to be read, or
/// that it is no number.
enum Entry {
    Integer(i64),
    Number(u64),
    Text,
    Bad,
}

impl ArithTask {
    /// A task for an operation on two operands.
    pub fn new(op: ArithOp, lhs: LuaValue, rhs: LuaValue) -> (r: ArithTask)
        ensures
            r@ == (TaskModel { op, lhs: lhs@, rhs: rhs@, applied: None }),
    {
        ArithTask { op, lhs, rhs, applied: None }
    }

    /// A task for an operation on one operand.
    pub fn unary(op: ArithOp, operand: LuaValue) -> (r: ArithTask)
        ensures
            r@ == (TaskModel {
                op,
                lhs: operand@,
                rhs: ValueModel::Integer(0),
                applied: None,
            }),
    {
        ArithTask { op, lhs: operand, rhs: LuaValue::Integer(0), applied: None }
    }

    fn integer_path(&self) -> (r: bool)
        ensures
            r == self@.on_integers(),
    {
        !self.op.has_number_form() || (self.op.has_integer_form() && self.lhs.is_integer()
            && self.rhs.is_integer())
    }

    fn entry(v: &LuaValue, integers: bool) -> (r: Entry)
        ensures
            match r {
                Entry::Integer(i) => integers && integer_operand(v@) == Operand::Ready(
                    ValueModel::Integer(i),
                ),
                Entry::Number(n) => !integers && number_operand(v@) == Operand::Ready(
                    ValueModel::Number(n),
                ),
                Entry::Text => v@ is String && (if integers {
                    integer_operand(v@)
                } else {
                    number_operand(v@)
                }) == Operand::Text(v@->String_0),
                Entry::Bad => (if integers {
                    integer_operand(v@)
                } else {
                    number_operand(v@)
                }) is Bad,
            },
    {
        if integers {
            match v {
                LuaValue::Integer(i) => Entry::Integer(*i),
                LuaValue::Number(n) => Entry::Integer(number::to_integer(*n)),
                LuaValue::String(s) => match parse_integer(s) {
                    Some(i) => Entry::Integer(i),
                    None => Entry::Text,
                },
                _ => Entry::Bad,
            }
        } else {
            match v {
                LuaValue::Integer(i) => Entry::Number(number::from_integer(*i)),
                LuaValue::Number(n) => Entry::Number(*n),
                LuaValue::String(_) => Entry::Text,
                _ => Entry::Bad,
            }
        }
    }

    fn text_of(v: &LuaValue) -> (r: Vec<u8>)
        requires
            v@ is String,
        ensures
            r@ == v@->String_0,
    {
        match v {
            LuaValue::String(s) => copy_bytes(s),
            _ => Vec::new(),
        }
    }

    /// Where the task stands: its result, its failure, or its question to the float unit.
    pub fn next(&self) -> (r: Progress)
        ensures
            r@ == self@.next(),
    {
        if let Some(bits) = self.applied {
            return Progress::Done(LuaValue::Number(bits));
        }
        let integers = self.integer_path();
        let l = Self::entry(&self.lhs, integers);
        let r = Self::entry(&self.rhs, integers);
        match (l, r) {
            (Entry::Bad, _) => Progress::Fail(Fault::Type(TypeError::Arithmetic)),
            (_, Entry::Bad) => Progress::Fail(Fault::Type(TypeError::Arithmetic)),
            (Entry::Text, _) => Progress::Ask(FloatAsk::Parse(Self::text_of(&self.lhs))),
            (_, Entry::Text) => Progress::Ask(FloatAsk::Parse(Self::text_of(&self.rhs))),
            (Entry::Integer(a), Entry::Integer(b)) => match integer_op(self.op, a, b) {
                Some(v) => Progress::Done(LuaValue::Integer(v)),
                None => Progress::Fail(Fault::DivisionByZero),
            },
            (Entry::Number(a), Entry::Number(b)) => match self.op {
                ArithOp::Unm => Progress::Done(LuaValue::Number(number::negate(a))),
                _ => Progress::Ask(FloatAsk::Apply(self.op.to_float_op(), a, b)),
            },
            _ => Progress::Fail(Fault::Type(TypeError::Arithmetic)),
        }
    }

    /// Takes the answer of the float unit to the question that the task asks.
    pub fn supply(self, reply: Option<u64>) -> (r: ArithTask)
        ensures
            r@ == self@.supplied(reply),
    {
        let answer = match reply {
            Some(bits) => LuaValue::Number(bits),
            None => LuaValue::Nil,
        };
        let integers = self.integer_path();
        match self.next() {
            Progress::Ask(FloatAsk::Parse(_)) => {
                match Self::entry(&self.lhs, integers) {
                    Entry::Text => ArithTask {
                        op: self.op,
                        lhs: answer,
                        rhs: self.rhs,
                        applied: self.applied,
                    },
                    _ => ArithTask {
                        op: self.op,
                        lhs: self.lhs,
                        rhs: answer,
                        applied: self.applied,
                    },
                }
            },
            Progress::Ask(FloatAsk::Apply(_, _, _)) => match reply {
                Some(bits) => ArithTask {
                    op: self.op,
                    lhs: self.lhs,
                    rhs: self.rhs,
                    applied: Some(bits),
                },
                None => ArithTask {
                    op: self.op,
                    lhs: LuaValue::Nil,
                    rhs: self.rhs,
                    applied: self.applied,
                },
            },
            _ => self,
        }
    }
}

/// The sum, the difference and the product of two integers are integers, and they wrap
/// around in 64 bits.
pub proof fn lemma_integer_closure(op: ArithOp, a: i64, b: i64)
    requires
        op == ArithOp::Add || op == ArithOp::Sub || op == ArithOp::Mul,
    ensures
        (TaskModel {
            op,
            lhs: ValueModel::Integer(a),
            rhs: ValueModel::Integer(b),
            applied: None,
        }).next() == ProgressModel::Done(
            ValueModel::Integer(
                wrap(
                    match op {
                        ArithOp::Add => a + b,
                        ArithOp::Sub => a - b,
                        _ => a * b,
                    },
                ),
            ),
        ),
{
}

/// The number that an integer or a number enters an operation on numbers as.
pub open spec fn as_number(v: ValueModel) -> u64 {
    match v {
        ValueModel::Integer(i) => number::number_of_integer(i),
        ValueModel::Number(n) => n,
        _ => 0,
    }
}

/// Where one operand of a sum, a difference, a product, a remainder or a quotient is a
/// number and the other an integer or a number, the operation goes to the float unit
/// with both operands as numbers, and its answer is the result, a number.
pub proof fn lemma_float_promotion(op: ArithOp, lhs: ValueModel, rhs: ValueModel, answer: u64)
    requires
        op == ArithOp::Add || op == ArithOp::Sub || op == ArithOp::Mul || op == ArithOp::Mod
            || op == ArithOp::Div,
        lhs is Integer || lhs is Number,
        rhs is Integer || rhs is Number,
        lhs is Number || rhs is Number,
    ensures
        (TaskModel { op, lhs, rhs, applied: None }).next() == ProgressModel::Ask(
            AskModel::Apply(op.float_op(), as_number(lhs), as_number(rhs)),
        ),
        (TaskModel { op, lhs, rhs, applied: None }).supplied(Some(answer)).next()
            == ProgressModel::Done(ValueModel::Number(answer)),
{
}

/// A power and a quotient are always numbers: the operation goes to the float unit even
/// for two integers, and its answer is the result.
pub proof fn lemma_pow_div_are_numbers(op: ArithOp, lhs: ValueModel, rhs: ValueModel, answer: u64)
    requires
        op == ArithOp::Pow || op == ArithOp::Div,
        lhs is Integer || lhs is Number,
        rhs is Integer || rhs is Number,
    ensures
        (TaskModel { op, lhs, rhs, applied: None }).next() == ProgressModel::Ask(
            AskModel::Apply(op.float_op(), as_number(lhs), as_number(rhs)),
        ),
        (TaskModel { op, lhs, rhs, applied: None }).supplied(Some(answer)).next()
            == ProgressModel::Done(ValueModel::Number(answer)),
{
}

} // verus!
