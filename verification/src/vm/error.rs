use vstd::prelude::*;
use super::op_code::OpCodeEnum;

verus! {

/// Why a byte buffer is no precompiled chunk.
#[derive(Debug, Clone, Copy, PartialEq, Eq, Structural)]
pub enum LoadError {
    /// The buffer does not start with the four signature bytes.
    BadSignature,
    /// The version byte is not that of Lua 5.4.
    BadVersion,
    /// The format byte is not that of the official format.
    BadFormat,
    /// The six bytes that guard against text conversion are damaged.
    Corrupted,
    /// Code words are not 4 bytes wide.
    BadInstructionSize,
    /// Integers are not 8 bytes wide.
    BadIntegerSize,
    /// Numbers are not 8 bytes wide.
    BadNumberSize,
    /// The sample integer reads differently: the chunk has another byte order.
    BadEndianness,
    /// The sample number reads differently: the chunk has another float format.
    BadFloatFormat,
    /// A constant starts with a tag that names no kind of constant.
    UnknownConstantTag(u8),
    /// A variable-length unsigned number exceeds its limit.
    IntegerOverflow,
    /// The buffer ends before the chunk does.
    Truncated,
}

impl LoadError {
    /// A short description of the fault.
    pub fn description(&self) -> (r: &'static str)
        ensures
            r == self.spec_description(),
    {
        match self {
            LoadError::BadSignature => "Not a precompiled chunk!",
            LoadError::BadVersion => "Version mismatch!",
            LoadError::BadFormat => "Format mismatch!",
            LoadError::Corrupted => "corrupted!",
            LoadError::BadInstructionSize => "Instruction size mismatch!",
            LoadError::BadIntegerSize => "Lua Integer size mismatch!",
            LoadError::BadNumberSize => "Lua Number size mismatch!",
            LoadError::BadEndianness => "endianness mismatch!",
            LoadError::BadFloatFormat => "float format mismatch!",
            LoadError::UnknownConstantTag(_) => "unknown value type",
            LoadError::IntegerOverflow => "integer overflow",
            LoadError::Truncated => "truncated chunk",
        }
    }

    pub open spec fn spec_description(&self) -> &'static str {
        match self {
            LoadError::BadSignature => "Not a precompiled chunk!",
            LoadError::BadVersion => "Version mismatch!",
            LoadError::BadFormat => "Format mismatch!",
            LoadError::Corrupted => "corrupted!",
            LoadError::BadInstructionSize => "Instruction size mismatch!",
            LoadError::BadIntegerSize => "Lua Integer size mismatch!",
            LoadError::BadNumberSize => "Lua Number size mismatch!",
            LoadError::BadEndianness => "endianness mismatch!",
            LoadError::BadFloatFormat => "float format mismatch!",
            LoadError::UnknownConstantTag(_) => "unknown value type",
            LoadError::IntegerOverflow => "integer overflow",
            LoadError::Truncated => "truncated chunk",
        }
    }
}

/// A fault of the operand stack.
#[derive(Debug, Clone, Copy, PartialEq, Eq, Structural)]
pub enum StackError {
    /// A push onto a stack whose top is at its capacity.
    Overflow,
    /// A pop from a stack whose top is 0.
    Underflow,
    /// An index outside the slots of the stack.
    OutOfBounds,
}

/// An operation met a value of a kind it is not defined on.
#[derive(Debug, Clone, Copy, PartialEq, Eq, Structural)]
pub enum TypeError {
    /// Arithmetic on a value that converts to no number.
    Arithmetic,
    /// Length of a value that is no string.
    Length,
    /// Concatenation of a value that is no string.
    Concat,
    /// An order comparison of two values that cannot be ordered.
    Compare,
}

/// A fault in a code word.
#[derive(Debug, Clone, Copy, PartialEq, Eq, Structural)]
pub enum OpcodeError {
    /// The opcode number names no operation.
    Unknown,
    /// An operand is out of range: a constant index beyond the constants, a jump or a
    /// fetch beyond the code.
    BadOperand,
}

/// Why an instruction failed.
#[derive(Debug, Clone, Copy, PartialEq, Eq, Structural)]
pub enum Fault {
    Type(TypeError),
    Stack(StackError),
    Opcode(OpcodeError),
    /// Integer division or remainder by zero.
    DivisionByZero,
}

/// The failure of a run: the fault, with the position of the failed instruction in the
/// code and the number of its opcode, or `None` where no instruction could be read.
#[derive(Debug, Clone, Copy, PartialEq, Eq, Structural)]
pub struct VmError {
    pub fault: Fault,
    pub pc: u32,
    pub op_code: Option<usize>,
}

impl VmError {
    /// The name of the operation that failed; the empty name where no instruction
    /// could be read or its opcode number names no operation.
    pub fn op_name(&self) -> (r: &'static str)
        ensures
            r == match self.op_code {
                Some(n) => match OpCodeEnum::spec_from_index(n as int) {
                    Some(op) => op.spec_name(),
                    None => "",
                },
                None => "",
            },
    {
        match self.op_code {
            Some(n) => match OpCodeEnum::from_index(n) {
                Some(op) => op.name(),
                None => "",
            },
            None => "",
        }
    }
}

} // verus!
