use vstd::prelude::*;
use super::linked_list::{items, Link, LinkedList, Node};
use crate::vm::instruction::{abc_value, abc_word, abx_value, abx_word, ax_value, sj_word};
use crate::vm::lua_value::{value_eq, LuaValue, ValueModel};
use crate::vm::op_code::OpCodeEnum;

verus! {

/// Why code cannot be generated.
#[derive(Debug, Clone, Copy, PartialEq, Eq, Structural)]
pub enum CodegenError {
    /// A function or an expression needs more than 255 registers.
    TooManyRegisters,
    /// A register is freed where none is in use.
    NoRegisterInUse,
    /// A `break` outside every loop.
    NotInLoop,
    /// A scope is left where none was entered.
    NoScope,
    /// A jump to or from a place that the code does not have, or too far.
    BadJump,
    /// An operand that the instruction has no room for.
    BadOperand,
    /// A piece of syntax that no code is generated for.
    Unsupported,
}

/// A constant of any kind.
#[derive(Debug, PartialEq)]
pub struct Any {
    pub value: LuaValue,
}

/// A local variable in scope: its name, the level of its scope, its register, and
/// whether an inner function has captured it.
#[derive(Debug, PartialEq)]
pub struct LocalVariableInfo {
    pub name: String,
    pub scope_level: i64,
    pub slot: i64,
    pub captured: bool,
}

/// An upvalue of a function: its name, the register of the local variable of the
/// function around that it captures, or else the index of the upvalue of the function
/// around -- the one that does not apply is -1 --, and its own index.
#[derive(Debug, PartialEq)]
pub struct UpvalueInfo {
    pub name: String,
    pub local_variable_slot: i64,
    pub upvale_index: i64,
    pub index: i64,
}

/// What the generator knows of the function that it generates code for.
pub struct FunctionInfo {
    pub constants: Vec<Any>,
    pub used_regs: i64,
    pub max_regs: i64,
    pub scope_level: i64,
    /// The local variables in scope, the innermost first.
    pub local_variables: LinkedList<LocalVariableInfo>,
    pub parent: Option<Box<FunctionInfo>>,
    pub upvalues: Vec<UpvalueInfo>,
    /// For each scope that is open the places of the breaks that wait for its end, or
    /// `None` for a scope that is no loop.
    pub breaks: Vec<Option<Vec<i64>>>,
    pub instructions: Vec<u32>,
}

impl LocalVariableInfo {
    pub fn new(name: String, scope_level: i64, slot: i64, captured: bool) -> (r:
        LocalVariableInfo)
        ensures
            r == (LocalVariableInfo { name, scope_level, slot, captured }),
    {
        LocalVariableInfo { name, scope_level, slot, captured }
    }

    pub fn copy(&self) -> (r: LocalVariableInfo)
        ensures
            r == *self,
    {
        LocalVariableInfo {
            name: self.name.clone(),
            scope_level: self.scope_level,
            slot: self.slot,
            captured: self.captured,
        }
    }
}

/// A count as a 64-bit integer: a count beyond the largest stands as the largest.
pub open spec fn clamped(n: int) -> i64 {
    if n > i64::MAX {
        i64::MAX
    } else {
        n as i64
    }
}

fn clamp(n: usize) -> (r: i64)
    ensures
        r == clamped(n as int),
        r >= 0,
{
    if n as u64 > 0x7fff_ffff_ffff_ffff {
        0x7fff_ffff_ffff_ffff
    } else {
        n as i64
    }
}

/// The values of a vector of constants.
pub open spec fn constant_values(v: Seq<Any>) -> Seq<ValueModel> {
    v.map_values(|c: Any| c.value@)
}

/// The first place from `from` on where a value equal to `v` stands, or the length of
/// the sequence.
pub open spec fn first_equal(values: Seq<ValueModel>, v: ValueModel, from: int) -> int
    decreases values.len() - from,
{
    if from < 0 || from >= values.len() {
        values.len() as int
    } else if value_eq(values[from], v) {
        from
    } else {
        first_equal(values, v, from + 1)
    }
}

/// The innermost local variable of a name.
pub open spec fn found_local(locals: Seq<LocalVariableInfo>, name: Seq<char>) -> Option<
    LocalVariableInfo,
>
    decreases locals.len(),
{
    if locals.len() == 0 {
        None
    } else if locals[0].name@ == name {
        Some(locals[0])
    } else {
        found_local(locals.skip(1), name)
    }
}

/// The local variables with the innermost one of a name marked as captured.
pub open spec fn captured_marked(locals: Seq<LocalVariableInfo>, name: Seq<char>) -> Seq<
    LocalVariableInfo,
>
    decreases locals.len(),
{
    if locals.len() == 0 {
        locals
    } else if locals[0].name@ == name {
        seq![LocalVariableInfo { captured: true, ..locals[0] }] + locals.skip(1)
    } else {
        seq![locals[0]] + captured_marked(locals.skip(1), name)
    }
}

/// How many local variables at the head of the list belong to scopes above a level.
pub open spec fn inner_count(locals: Seq<LocalVariableInfo>, level: int) -> nat
    decreases locals.len(),
{
    if locals.len() == 0 || locals[0].scope_level <= level {
        0
    } else {
        1 + inner_count(locals.skip(1), level)
    }
}

/// The place of the upvalue of a name from `from` on, or the length of the sequence.
pub open spec fn first_upvalue(upvalues: Seq<UpvalueInfo>, name: Seq<char>, from: int) -> int
    decreases upvalues.len() - from,
{
    if from < 0 || from >= upvalues.len() {
        upvalues.len() as int
    } else if upvalues[from].name@ == name {
        from
    } else {
        first_upvalue(upvalues, name, from + 1)
    }
}

/// The innermost scope that is a loop, counted from the outermost scope, or -1.
pub open spec fn innermost_loop(breaks: Seq<Option<Vec<i64>>>, below: int) -> int
    decreases below,
{
    if below <= 0 || below > breaks.len() {
        -1
    } else if breaks[below - 1] is Some {
        below - 1
    } else {
        innermost_loop(breaks, below - 1)
    }
}

/// The place `x` is among the first `n` places of `pending`.
pub open spec fn listed(pending: Seq<i64>, n: int, x: int) -> bool
    decreases n,
{
    0 < n <= pending.len() && (pending[n - 1] == x || listed(pending, n - 1, x))
}

/// Every place of `pending` is in the code, and the end of the code is no more than
/// the longest jump away.
pub open spec fn places_ok(code_len: int, pending: Seq<i64>) -> bool {
    forall|j: int|
        0 <= j < pending.len() ==> 0 <= #[trigger] pending[j] < code_len && code_len - 1
            - pending[j] <= 16777216
}

/// The code with a jump to its end in each of the first `n` places of `pending`.
pub open spec fn patched_code(code: Seq<u32>, pending: Seq<i64>, n: int) -> Seq<u32> {
    Seq::new(
        code.len(),
        |i: int|
            if listed(pending, n, i) {
                ax_value(56, code.len() - 1 - i + 16777215)
            } else {
                code[i]
            },
    )
}

/// Whether one of the local variables of the scope of `level` at the head of the list
/// is captured.
pub open spec fn scope_captured(locals: Seq<LocalVariableInfo>, level: int) -> bool
    decreases locals.len(),
{
    locals.len() > 0 && locals[0].scope_level == level && (locals[0].captured || scope_captured(
        locals.skip(1),
        level,
    ))
}

/// The lowest register of the local variables of the scope of `level` at the head of
/// the list, or `bound` where all are above it.
pub open spec fn scope_lowest(locals: Seq<LocalVariableInfo>, level: int, bound: i64) -> i64
    decreases locals.len(),
{
    if locals.len() == 0 || locals[0].scope_level != level {
        bound
    } else if locals[0].slot < bound {
        scope_lowest(locals.skip(1), level, locals[0].slot)
    } else {
        scope_lowest(locals.skip(1), level, bound)
    }
}

/// What the search for the upvalue of a name gives: the index of the upvalue that the
/// function has under the name; else, where the function around has a local variable
/// or an upvalue of the name, the index of a new upvalue; else -1.
pub open spec fn upvalue_result(f: FunctionInfo, name: Seq<char>) -> i64
    decreases f,
{
    let at = first_upvalue(f.upvalues@, name, 0);
    if at < f.upvalues@.len() {
        f.upvalues@[at].index
    } else {
        match f.parent {
            None => -1i64,
            Some(parent) => if found_local(parent.local_variables@, name) is Some
                || upvalue_result(*parent, name) >= 0 {
                clamped(f.upvalues@.len() as int)
            } else {
                -1i64
            },
        }
    }
}

/// The upvalues `post` are the upvalues `pre` and one more, with these values.
pub open spec fn one_more_upvalue(
    pre: Seq<UpvalueInfo>,
    post: Seq<UpvalueInfo>,
    name: Seq<char>,
    slot: i64,
    outer: i64,
) -> bool {
    &&& post.len() == pre.len() + 1
    &&& post.take(pre.len() as int) == pre
    &&& post.last().name@ == name
    &&& post.last().local_variable_slot == slot
    &&& post.last().upvale_index == outer
    &&& post.last().index == clamped(pre.len() as int)
}

/// What the search for the upvalue of a name does to the function: nothing where it
/// has the upvalue or nothing around it. Where the function around has a local
/// variable of the name, that variable is marked as captured and the function gets an
/// upvalue for its register. Else the search goes on in the function around, and where
/// that has or gets an upvalue, the function gets an upvalue for it.
pub open spec fn upvalue_searched(pre: FunctionInfo, post: FunctionInfo, name: Seq<char>) -> bool
    decreases pre,
{
    let at = first_upvalue(pre.upvalues@, name, 0);
    if at < pre.upvalues@.len() {
        post == pre
    } else {
        match pre.parent {
            None => post == pre,
            Some(parent) => {
                &&& post.parent is Some
                &&& post == (FunctionInfo { parent: post.parent, upvalues: post.upvalues, ..pre })
                &&& match found_local(parent.local_variables@, name) {
                    Some(info) => {
                        &&& *post.parent->Some_0 == (FunctionInfo {
                            local_variables: post.parent->Some_0.local_variables,
                            ..*parent
                        })
                        &&& post.parent->Some_0.local_variables@ == captured_marked(
                            parent.local_variables@,
                            name,
                        )
                        &&& one_more_upvalue(pre.upvalues@, post.upvalues@, name, info.slot, -1i64)
                    },
                    None => {
                        &&& upvalue_searched(*parent, *post.parent->Some_0, name)
                        &&& if upvalue_result(*parent, name) >= 0 {
                            one_more_upvalue(
                                pre.upvalues@,
                                post.upvalues@,
                                name,
                                -1i64,
                                upvalue_result(*parent, name),
                            )
                        } else {
                            post.upvalues == pre.upvalues
                        }
                    },
                }
            },
        }
    }
}

impl FunctionInfo {
    /// The invariant of the register count: registers in use are among the registers
    /// that the function has, and a function has at most 255.
    pub open spec fn wf(&self) -> bool {
        0 <= self.used_regs <= self.max_regs <= 255
    }

    /// A function info without anything, inside the function of `parent`.
    pub fn new(parent: Option<Box<FunctionInfo>>) -> (r: FunctionInfo)
        ensures
            r.wf(),
            r.used_regs == 0,
            r.max_regs == 0,
            r.scope_level == 0,
            r.constants@.len() == 0,
            r.local_variables@.len() == 0,
            r.upvalues@.len() == 0,
            r.breaks@.len() == 0,
            r.instructions@.len() == 0,
            r.parent == parent,
    {
        FunctionInfo {
            constants: Vec::new(),
            used_regs: 0,
            max_regs: 0,
            scope_level: 0,
            local_variables: LinkedList::new(),
            parent,
            upvalues: Vec::new(),
            breaks: Vec::new(),
            instructions: Vec::new(),
        }
    }

    /// The place of the first constant equal to a value, or the number of constants.
    pub fn find_constant(&self, value: &LuaValue) -> (r: usize)
        ensures
            r == first_equal(constant_values(self.constants@), value@, 0),
            r <= self.constants@.len(),
    {
        let mut i: usize = 0;
        while i < self.constants.len()
            invariant
                i <= self.constants@.len(),
                first_equal(constant_values(self.constants@), value@, 0) == first_equal(
                    constant_values(self.constants@),
                    value@,
                    i as int,
                ),
            decreases self.constants@.len() - i,
        {
            assert(constant_values(self.constants@)[i as int] == self.constants@[i as int].value@);
            if self.constants[i].value.equals(value) {
                return i;
            }
            i = i + 1;
        }
        i
    }

    /// The index of a constant: that of the first constant equal to it, or a new one
    /// at the end of the constants.
    pub fn index_of_constant(&mut self, key: Any) -> (r: i64)
        ensures
            r == clamped(first_equal(constant_values(old(self).constants@), key.value@, 0)),
            first_equal(constant_values(old(self).constants@), key.value@, 0) < old(self).constants@.len()
                ==> *final(self) == *old(self),
            first_equal(constant_values(old(self).constants@), key.value@, 0) >= old(self).constants@.len()
                ==> *final(self) == (FunctionInfo {
                constants: final(self).constants,
                ..*old(self)
            }) && final(self).constants@ == old(self).constants@.push(key),
    {
        let i = self.find_constant(&key.value);
        if i < self.constants.len() {
            return clamp(i);
        }
        self.constants.push(key);
        clamp(i)
    }

    /// Takes a register into use and returns its number.
    pub fn alloc_register(&mut self) -> (r: Result<i64, CodegenError>)
        requires
            old(self).wf(),
        ensures
            final(self).wf(),
            match r {
                Ok(reg) => old(self).used_regs < 255 && reg == old(self).used_regs && *final(self)
                    == (FunctionInfo {
                    used_regs: (old(self).used_regs + 1) as i64,
                    max_regs: if old(self).max_regs > old(self).used_regs {
                        old(self).max_regs
                    } else {
                        (old(self).used_regs + 1) as i64
                    },
                    ..*old(self)
                }),
                Err(e) => e == CodegenError::TooManyRegisters && old(self).used_regs >= 255
                    && *final(self) == *old(self),
            },
    {
        if self.used_regs >= 255 {
            return Err(CodegenError::TooManyRegisters);
        }
        self.used_regs = self.used_regs + 1;
        if self.used_regs > self.max_regs {
            self.max_regs = self.used_regs;
        }
        Ok(self.used_regs - 1)
    }

    /// Takes `n` registers into use and returns the number of the first.
    pub fn alloc_registers(&mut self, n: i64) -> (r: Result<i64, CodegenError>)
        requires
            old(self).wf(),
        ensures
            final(self).wf(),
            match r {
                Ok(reg) => 0 <= n && old(self).used_regs + n <= 255 && reg == old(self).used_regs
                    && *final(self) == (FunctionInfo {
                    used_regs: (old(self).used_regs + n) as i64,
                    max_regs: if old(self).max_regs >= old(self).used_regs + n {
                        old(self).max_regs
                    } else {
                        (old(self).used_regs + n) as i64
                    },
                    ..*old(self)
                }),
                Err(e) => *final(self) == *old(self) && if n < 0 {
                    e == CodegenError::BadOperand
                } else {
                    e == CodegenError::TooManyRegisters && old(self).used_regs + n > 255
                },
            },
    {
        if n < 0 {
            return Err(CodegenError::BadOperand);
        }
        if n > 255 - self.used_regs {
            return Err(CodegenError::TooManyRegisters);
        }
        let first = self.used_regs;
        self.used_regs = self.used_regs + n;
        if self.used_regs > self.max_regs {
            self.max_regs = self.used_regs;
        }
        Ok(first)
    }

    /// Gives the register that was taken last back.
    pub fn free_register(&mut self) -> (r: Result<(), CodegenError>)
        requires
            old(self).wf(),
        ensures
            final(self).wf(),
            match r {
                Ok(_) => old(self).used_regs > 0 && *final(self) == (FunctionInfo {
                    used_regs: (old(self).used_regs - 1) as i64,
                    ..*old(self)
                }),
                Err(e) => e == CodegenError::NoRegisterInUse && old(self).used_regs == 0
                    && *final(self) == *old(self),
            },
    {
        if self.used_regs <= 0 {
            return Err(CodegenError::NoRegisterInUse);
        }
        self.used_regs = self.used_regs - 1;
        Ok(())
    }

    /// Gives the `n` registers that were taken last back.
    pub fn free_registers(&mut self, n: i64) -> (r: Result<(), CodegenError>)
        requires
            old(self).wf(),
        ensures
            final(self).wf(),
            match r {
                Ok(_) => 0 <= n <= old(self).used_regs && *final(self) == (FunctionInfo {
                    used_regs: (old(self).used_regs - n) as i64,
                    ..*old(self)
                }),
                Err(e) => *final(self) == *old(self) && if n < 0 {
                    e == CodegenError::BadOperand
                } else {
                    e == CodegenError::NoRegisterInUse && n > old(self).used_regs
                },
            },
    {
        if n < 0 {
            return Err(CodegenError::BadOperand);
        }
        if n > self.used_regs {
            return Err(CodegenError::NoRegisterInUse);
        }
        self.used_regs = self.used_regs - n;
        Ok(())
    }

    /// Opens a scope; a scope that breaks can leave is a loop.
    pub fn enter_scope(&mut self, breakable: bool)
        requires
            old(self).scope_level < i64::MAX,
        ensures
            final(self).scope_level == old(self).scope_level + 1,
            final(self).breaks@.len() == old(self).breaks@.len() + 1,
            final(self).breaks@.take(old(self).breaks@.len() as int) == old(self).breaks@,
            match final(self).breaks@.last() {
                Some(pending) => breakable && pending@.len() == 0,
                None => !breakable,
            },
            *final(self) == (FunctionInfo {
                scope_level: final(self).scope_level,
                breaks: final(self).breaks,
                ..*old(self)
            }),
    {
        self.scope_level = self.scope_level + 1;
        if breakable {
            self.breaks.push(Some(Vec::new()));
        } else {
            self.breaks.push(None);
        }
        assert(self.breaks@.take(old(self).breaks@.len() as int) =~= old(self).breaks@);
    }

    /// The place of the instruction that was generated last, -1 before the first.
    pub fn pc(&self) -> (r: i64)
        ensures
            r == clamped(self.instructions@.len() as int) - 1,
    {
        clamp(self.instructions.len()) - 1
    }

    /// The innermost local variable of a name.
    pub fn get_lacal_variable_by_name(&self, name: String) -> (r: Option<LocalVariableInfo>)
        ensures
            r == found_local(self.local_variables@, name@),
    {
        find_local(&self.local_variables.head, &name)
    }

    /// The register of the innermost local variable of a name, or -1.
    pub fn slot_of_local_variable(&self, name: String) -> (r: i64)
        ensures
            r == match found_local(self.local_variables@, name@) {
                Some(info) => info.slot,
                None => -1i64,
            },
    {
        match self.get_lacal_variable_by_name(name) {
            Some(info) => info.slot,
            None => -1,
        }
    }

    /// Declares a local variable in the scope that is open: it gets a register of its
    /// own, whose number is returned.
    pub fn add_local_variable(&mut self, name: String) -> (r: Result<i64, CodegenError>)
        requires
            old(self).wf(),
        ensures
            final(self).wf(),
            match r {
                Ok(slot) => old(self).used_regs < 255 && slot == old(self).used_regs
                    && final(self).local_variables@ == seq![
                    LocalVariableInfo {
                        name,
                        scope_level: old(self).scope_level,
                        slot,
                        captured: false,
                    },
                ] + old(self).local_variables@ && *final(self) == (FunctionInfo {
                    used_regs: (old(self).used_regs + 1) as i64,
                    max_regs: if old(self).max_regs > old(self).used_regs {
                        old(self).max_regs
                    } else {
                        (old(self).used_regs + 1) as i64
                    },
                    local_variables: final(self).local_variables,
                    ..*old(self)
                }),
                Err(e) => e == CodegenError::TooManyRegisters && old(self).used_regs >= 255
                    && *final(self) == *old(self),
            },
    {
        let slot = match self.alloc_register() {
            Ok(reg) => reg,
            Err(e) => return Err(e),
        };
        let info = LocalVariableInfo::new(name, self.scope_level, slot, false);
        self.local_variables.push(info);
        Ok(slot)
    }

    /// Takes the innermost local variable out of scope and gives its register back.
    pub fn remove_local_variable(&mut self) -> (r: Result<LocalVariableInfo, CodegenError>)
        requires
            old(self).wf(),
        ensures
            final(self).wf(),
            match r {
                Ok(info) => old(self).local_variables@.len() > 0 && old(self).used_regs > 0
                    && info == old(self).local_variables@[0] && final(self).local_variables@
                    == old(self).local_variables@.skip(1) && *final(self) == (FunctionInfo {
                    used_regs: (old(self).used_regs - 1) as i64,
                    local_variables: final(self).local_variables,
                    ..*old(self)
                }),
                Err(e) => e == CodegenError::NoRegisterInUse && (old(self).local_variables@.len()
                    == 0 || old(self).used_regs == 0) && *final(self) == *old(self),
            },
    {
        if self.used_regs <= 0 {
            return Err(CodegenError::NoRegisterInUse);
        }
        match self.local_variables.pop() {
            None => Err(CodegenError::NoRegisterInUse),
            Some(info) => {
                self.used_regs = self.used_regs - 1;
                Ok(info)
            },
        }
    }

    /// Notes a break at the place `pc` in the innermost loop.
    pub fn add_breack_jump(&mut self, pc: i64) -> (r: Result<(), CodegenError>)
        ensures
            match r {
                Ok(_) => {
                    let at = innermost_loop(old(self).breaks@, old(self).breaks@.len() as int);
                    &&& 0 <= at < old(self).breaks@.len()
                    &&& final(self).breaks@.len() == old(self).breaks@.len()
                    &&& forall|i: int|
                        0 <= i < old(self).breaks@.len() && i != at ==> final(self).breaks@[i]
                            == old(self).breaks@[i]
                    &&& final(self).breaks@[at] is Some
                    &&& final(self).breaks@[at]->Some_0@ == old(self).breaks@[at]->Some_0@.push(pc)
                    &&& *final(self) == (FunctionInfo { breaks: final(self).breaks, ..*old(self) })
                },
                Err(e) => e == CodegenError::NotInLoop && innermost_loop(
                    old(self).breaks@,
                    old(self).breaks@.len() as int,
                ) < 0 && *final(self) == *old(self),
            },
    {
        let mut i: usize = self.breaks.len();
        while i > 0
            invariant
                i <= self.breaks@.len(),
                *self == *old(self),
                innermost_loop(self.breaks@, self.breaks@.len() as int) == innermost_loop(
                    self.breaks@,
                    i as int,
                ),
            decreases i,
        {
            if self.breaks[i - 1].is_some() {
                let mut pending = match self.breaks[i - 1].take() {
                    Some(list) => list,
                    None => Vec::new(),
                };
                pending.push(pc);
                self.breaks.set(i - 1, Some(pending));
                return Ok(());
            }
            i = i - 1;
        }
        Err(CodegenError::NotInLoop)
    }

    /// Closes the scope that was opened last: the breaks that waited for its end become
    /// jumps to the end of the code, and its local variables go out of scope and give
    /// their registers back. Fails, and changes nothing, with `NoScope` where no scope
    /// is open, with `BadJump` where a break has no place in the code, and with
    /// `NoRegisterInUse` where the local variables of the scope are more than the
    /// registers in use.
    pub fn exit_scope(&mut self) -> (r: Result<(), CodegenError>)
        requires
            old(self).wf(),
        ensures
            final(self).wf(),
            match r {
                Ok(_) => {
                    let gone = inner_count(old(self).local_variables@, old(self).scope_level - 1);
                    &&& old(self).breaks@.len() > 0
                    &&& old(self).scope_level > i64::MIN
                    &&& gone <= old(self).used_regs
                    &&& final(self).breaks@ == old(self).breaks@.drop_last()
                    &&& final(self).scope_level == old(self).scope_level - 1
                    &&& final(self).used_regs == old(self).used_regs - gone
                    &&& final(self).local_variables@ == old(self).local_variables@.skip(gone as int)
                    &&& match old(self).breaks@.last() {
                        Some(pending) => places_ok(old(self).instructions@.len() as int, pending@)
                            && final(self).instructions@ == patched_code(
                            old(self).instructions@,
                            pending@,
                            pending@.len() as int,
                        ),
                        None => final(self).instructions@ == old(self).instructions@,
                    }
                    &&& *final(self) == (FunctionInfo {
                        breaks: final(self).breaks,
                        scope_level: final(self).scope_level,
                        used_regs: final(self).used_regs,
                        local_variables: final(self).local_variables,
                        instructions: final(self).instructions,
                        ..*old(self)
                    })
                },
                Err(e) => *final(self) == *old(self)
                    && if old(self).breaks@.len() == 0 || old(self).scope_level == i64::MIN {
                    e == CodegenError::NoScope
                } else if old(self).breaks@.last() is Some && !places_ok(
                    old(self).instructions@.len() as int,
                    old(self).breaks@.last()->Some_0@,
                ) {
                    e == CodegenError::BadJump
                } else {
                    e == CodegenError::NoRegisterInUse && inner_count(
                        old(self).local_variables@,
                        old(self).scope_level - 1,
                    ) > old(self).used_regs
                },
            },
    {
        let scopes = self.breaks.len();
        if scopes == 0 || self.scope_level == i64::MIN {
            return Err(CodegenError::NoScope);
        }
        let code_len = self.instructions.len();
        let valid = match &self.breaks[scopes - 1] {
            Some(pending) => places_valid(code_len, pending),
            None => true,
        };
        if !valid {
            return Err(CodegenError::BadJump);
        }
        let level = self.scope_level - 1;
        let gone = count_inner(&self.local_variables.head, level, self.used_regs);
        if gone > self.used_regs {
            return Err(CodegenError::NoRegisterInUse);
        }
        let closed = self.breaks.pop();
        assert(self.breaks@ =~= old(self).breaks@.drop_last());
        assert(closed == Some(old(self).breaks@.last()));
        if let Some(Some(pending)) = closed {
            let mut j: usize = 0;
            assert(self.instructions@ =~= patched_code(old(self).instructions@, pending@, 0));
            while j < pending.len()
                invariant
                    j <= pending@.len(),
                    old(self).breaks@.len() > 0,
                    code_len == old(self).instructions@.len(),
                    places_ok(code_len as int, pending@),
                    self.instructions@ == patched_code(old(self).instructions@, pending@, j as int),
                    *self == (FunctionInfo {
                        breaks: self.breaks,
                        instructions: self.instructions,
                        ..*old(self)
                    }),
                    self.breaks@ == old(self).breaks@.drop_last(),
                decreases pending@.len() - j,
            {
                let pc = pending[j];
                let sj: i32 = (code_len as u64 - 1 - pc as u64) as i32;
                let word = sj_word(OpCodeEnum::OpJMP, sj);
                self.instructions.set(pc as usize, word);
                j = j + 1;
                assert(self.instructions@ =~= patched_code(
                    old(self).instructions@,
                    pending@,
                    j as int,
                ));
            }
        }
        let ghost code = self.instructions@;
        let ghost scopes_left = self.breaks@;
        let mut k: i64 = 0;
        while k < gone
            invariant
                self.instructions@ == code,
                self.breaks@ == scopes_left,
                0 <= k <= gone <= old(self).used_regs,
                k <= old(self).local_variables@.len(),
                gone == inner_count(old(self).local_variables@, level as int),
                self.local_variables@ == old(self).local_variables@.skip(k as int),
                gone - k == inner_count(self.local_variables@, level as int),
                *self == (FunctionInfo {
                    breaks: self.breaks,
                    instructions: self.instructions,
                    local_variables: self.local_variables,
                    ..*old(self)
                }),
            decreases gone - k,
        {
            let _ = self.local_variables.pop();
            assert(old(self).local_variables@.skip(k as int).skip(1) =~= old(self).local_variables@.skip(k + 1));
            k = k + 1;
        }
        self.used_regs = self.used_regs - gone;
        self.scope_level = level;
        Ok(())
    }

    /// The register from which on upvalues are to be closed where a jump leaves the
    /// scope that is open: one more than the lowest register of the local variables of
    /// the scope where one of them is captured, else 0.
    pub fn get_jump_arg_a(&self) -> (r: i64)
        ensures
            r == if scope_captured(self.local_variables@, self.scope_level as int) {
                let lowest = scope_lowest(
                    self.local_variables@,
                    self.scope_level as int,
                    i64::MAX,
                );
                if lowest < i64::MAX {
                    (lowest + 1) as i64
                } else {
                    lowest
                }
            } else {
                0
            },
    {
        let (captured, lowest) = scan_scope(
            &self.local_variables.head,
            self.scope_level,
            0x7fff_ffff_ffff_ffff,
        );
        if captured {
            if lowest < 0x7fff_ffff_ffff_ffff {
                lowest + 1
            } else {
                lowest
            }
        } else {
            0
        }
    }

    /// The index of the upvalue of a name, which the function gets where it does not
    /// have it and the function around has a local variable or an upvalue of the name;
    /// -1 where the name is nowhere.
    pub fn index_of_upvalue(&mut self, name: String) -> (r: i64)
        ensures
            r == upvalue_result(*old(self), name@),
            upvalue_searched(*old(self), *final(self), name@),
        decreases *old(self),
    {
        let mut i: usize = 0;
        while i < self.upvalues.len()
            invariant
                i <= self.upvalues@.len(),
                *self == *old(self),
                first_upvalue(self.upvalues@, name@, 0) == first_upvalue(
                    self.upvalues@,
                    name@,
                    i as int,
                ),
            decreases self.upvalues@.len() - i,
        {
            if self.upvalues[i].name == name {
                return self.upvalues[i].index;
            }
            i = i + 1;
        }
        let next = clamp(self.upvalues.len());
        let mut parent = match self.parent.take() {
            None => {
                return -1;
            },
            Some(parent) => parent,
        };
        let ghost before = *parent;
        let found = find_local(&parent.local_variables.head, &name);
        let r = match found {
            Some(info) => {
                let chain = parent.local_variables.top();
                parent.local_variables.head = mark_captured(chain, &name);
                self.upvalues.push(
                    UpvalueInfo {
                        name,
                        local_variable_slot: info.slot,
                        upvale_index: -1,
                        index: next,
                    },
                );
                next
            },
            None => {
                let outer = parent.index_of_upvalue(name.clone());
                if outer >= 0 {
                    self.upvalues.push(
                        UpvalueInfo {
                            name,
                            local_variable_slot: -1,
                            upvale_index: outer,
                            index: next,
                        },
                    );
                    next
                } else {
                    -1
                }
            },
        };
        self.parent = Some(parent);
        proof {
            assert(self.upvalues@.take(old(self).upvalues@.len() as int) =~= old(self).upvalues@);
        }
        r
    }

    /// Adds an instruction at the end of the code.
    pub fn emit(&mut self, word: u32)
        ensures
            final(self).instructions@ == old(self).instructions@.push(word),
            *final(self) == (FunctionInfo { instructions: final(self).instructions, ..*old(self) }),
    {
        self.instructions.push(word);
    }

    /// Adds `RETURN A B`: the function returns `r` values from register `a` on, or for
    /// `r == -1` all values from there to the top.
    pub fn emit_return(&mut self, a: i64, r: i64) -> (done: Result<(), CodegenError>)
        ensures
            match done {
                Ok(_) => 0 <= a <= 255 && -1 <= r <= 254
                    && final(self).instructions@
                        == old(self).instructions@.push(abc_value(70, a as int, 0, r + 1, 0))
                    && *final(self)
                    == (FunctionInfo { instructions: final(self).instructions, ..*old(self) }),
                Err(e) => e == CodegenError::BadOperand && !(0 <= a <= 255 && -1 <= r <= 254)
                    && *final(self) == *old(self),
            },
    {
        if a < 0 || a > 255 || r < -1 || r > 254 {
            return Err(CodegenError::BadOperand);
        }
        self.emit(abc_word(OpCodeEnum::OpRETURN, a as u8, false, (r + 1) as u8, 0));
        Ok(())
    }

    /// Adds `LOADNIL A B`: the `n` registers from `arga` on become nil.
    pub fn emit_load_nil(&mut self, arga: i64, n: i64) -> (done: Result<(), CodegenError>)
        ensures
            match done {
                Ok(_) => 0 <= arga <= 255 && 1 <= n <= 256
                    && final(self).instructions@
                        == old(self).instructions@.push(abc_value(8, arga as int, 0, n - 1, 0))
                    && *final(self)
                    == (FunctionInfo { instructions: final(self).instructions, ..*old(self) }),
                Err(e) => e == CodegenError::BadOperand && !(0 <= arga <= 255 && 1 <= n <= 256)
                    && *final(self) == *old(self),
            },
    {
        if arga < 0 || arga > 255 || n < 1 || n > 256 {
            return Err(CodegenError::BadOperand);
        }
        self.emit(abc_word(OpCodeEnum::OpLOADNIL, arga as u8, false, (n - 1) as u8, 0));
        Ok(())
    }

    /// Adds the load of a boolean into register `arga`: true for `b != 0`, else false;
    /// with `c != 0` the load of false skips the next instruction.
    pub fn emit_load_bool(&mut self, arga: i64, b: i64, c: i64) -> (done: Result<
        (),
        CodegenError,
    >)
        ensures
            match done {
                Ok(_) => 0 <= arga <= 255
                    && final(self).instructions@ == old(self).instructions@.push(
                    abc_value(
                        if b != 0 {
                            7
                        } else if c != 0 {
                            6
                        } else {
                            5
                        },
                        arga as int,
                        0,
                        0,
                        0,
                    ),
                ) && *final(self) == (FunctionInfo {
                    instructions: final(self).instructions,
                    ..*old(self)
                }),
                Err(e) => e == CodegenError::BadOperand && !(0 <= arga <= 255) && *final(self)
                    == *old(self),
            },
    {
        if arga < 0 || arga > 255 {
            return Err(CodegenError::BadOperand);
        }
        let op = if b != 0 {
            OpCodeEnum::OpLOADTRUE
        } else if c != 0 {
            OpCodeEnum::OpLFALSESKIP
        } else {
            OpCodeEnum::OpLOADFALSE
        };
        self.emit(abc_word(op, arga as u8, false, 0, 0));
        Ok(())
    }

    /// Adds `LOADK A Bx`: register `arga` becomes the constant, which is added to the
    /// constants where it is not among them. Fails with `BadOperand`, and changes
    /// nothing, for a register that is none or a constant whose index has no room in
    /// the instruction.
    pub fn emit_load_k(&mut self, arga: i64, val: Any) -> (done: Result<(), CodegenError>)
        ensures
            match done {
                Ok(_) => {
                    let index = first_equal(constant_values(old(self).constants@), val.value@, 0);
                    &&& 0 <= arga <= 255
                    &&& index <= 131071
                    &&& final(self).instructions@ == old(self).instructions@.push(
                        abx_value(3, arga as int, index),
                    )
                    &&& final(self).constants@ == if index < old(self).constants@.len() {
                        old(self).constants@
                    } else {
                        old(self).constants@.push(val)
                    }
                    &&& *final(self) == (FunctionInfo {
                        instructions: final(self).instructions,
                        constants: final(self).constants,
                        ..*old(self)
                    })
                },
                Err(e) => e == CodegenError::BadOperand && !(0 <= arga <= 255 && first_equal(
                    constant_values(old(self).constants@),
                    val.value@,
                    0,
                ) <= 131071) && *final(self) == *old(self),
            },
    {
        if arga < 0 || arga > 255 {
            return Err(CodegenError::BadOperand);
        }
        let i = self.find_constant(&val.value);
        if i > 131071 {
            return Err(CodegenError::BadOperand);
        }
        if i == self.constants.len() {
            self.constants.push(val);
        }
        self.emit(abx_word(OpCodeEnum::OpLOADK, arga as u8, i as u32));
        Ok(())
    }
}

/// Whether every place of `pending` is in a code of `code_len` instructions, no more
/// than the longest jump before its end.
pub fn places_valid(code_len: usize, pending: &Vec<i64>) -> (r: bool)
    ensures
        r == places_ok(code_len as int, pending@),
{
    let mut j: usize = 0;
    while j < pending.len()
        invariant
            j <= pending@.len(),
            forall|i: int|
                0 <= i < j ==> 0 <= #[trigger] pending@[i] < code_len && code_len - 1 - pending@[i]
                    <= 16777216,
        decreases pending@.len() - j,
    {
        let pc = pending[j];
        if pc < 0 || pc as u64 >= code_len as u64 || (code_len as u64 - 1 - pc as u64) > 16777216 {
            return false;
        }
        j = j + 1;
    }
    true
}

/// Counts the local variables at the head of a chain that belong to scopes above a
/// level; the count stops above `limit`.
pub fn count_inner(link: &Link<LocalVariableInfo>, level: i64, limit: i64) -> (r: i64)
    requires
        0 <= limit < i64::MAX,
    ensures
        0 <= r <= limit + 1,
        r <= limit ==> r == inner_count(items(*link), level as int),
        r > limit ==> inner_count(items(*link), level as int) > limit,
    decreases *link,
{
    match link {
        None => 0,
        Some(node) => {
            assert(items(*link).skip(1) =~= items(node.next));
            if node.data.scope_level <= level {
                0
            } else if limit == 0 {
                1
            } else {
                1 + count_inner(&node.next, level, limit - 1)
            }
        },
    }
}

/// Looks at the local variables of the scope of a level at the head of a chain:
/// whether one is captured, and the lowest register among them and `bound`.
pub fn scan_scope(link: &Link<LocalVariableInfo>, level: i64, bound: i64) -> (r: (bool, i64))
    ensures
        r.0 == scope_captured(items(*link), level as int),
        r.1 == scope_lowest(items(*link), level as int, bound),
    decreases *link,
{
    match link {
        None => (false, bound),
        Some(node) => {
            assert(items(*link).skip(1) =~= items(node.next));
            if node.data.scope_level != level {
                (false, bound)
            } else {
                let lower = if node.data.slot < bound {
                    node.data.slot
                } else {
                    bound
                };
                let (captured, lowest) = scan_scope(&node.next, level, lower);
                (node.data.captured || captured, lowest)
            }
        },
    }
}

/// Marks the innermost local variable of a name in a chain as captured.
pub fn mark_captured(link: Link<LocalVariableInfo>, name: &String) -> (r: Link<LocalVariableInfo>)
    ensures
        items(r) == captured_marked(items(link), name@),
    decreases link,
{
    match link {
        None => None,
        Some(node) => {
            let node = *node;
            assert(items(link).skip(1) =~= items(node.next));
            if node.data.name == *name {
                let marked = LocalVariableInfo {
                    name: node.data.name,
                    scope_level: node.data.scope_level,
                    slot: node.data.slot,
                    captured: true,
                };
                Some(Box::new(Node { data: marked, next: node.next }))
            } else {
                let rest = mark_captured(node.next, name);
                Some(Box::new(Node { data: node.data, next: rest }))
            }
        },
    }
}

/// Looks the innermost local variable of a name up in a chain.
pub fn find_local(link: &Link<LocalVariableInfo>, name: &String) -> (r: Option<LocalVariableInfo>)
    ensures
        r == found_local(items(*link), name@),
    decreases *link,
{
    match link {
        None => None,
        Some(node) => {
            assert(items(*link).skip(1) =~= items(node.next));
            if node.data.name == *name {
                Some(node.data.copy())
            } else {
                find_local(&node.next, name)
            }
        },
    }
}

} // verus!
