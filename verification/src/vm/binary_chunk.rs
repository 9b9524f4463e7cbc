use vstd::prelude::*;
use super::lua_value::{LuaValue, ValueModel};

verus! {

/// The four bytes that every precompiled chunk starts with: escape, then "Lua".
pub const LUA_SIGNATURE: [u8; 4] = [0x1B, 0x4C, 0x75, 0x61];

/// The version byte of Lua 5.4.
pub const LUAC_VERSION: u8 = 0x54;

/// The format byte of the official format.
pub const LUAC_FORMAT: u8 = 0;

/// The bytes that show whether a chunk went through a text conversion.
pub const LUAC_DATA: [u8; 6] = [0x19, 0x93, 0x0D, 0x0A, 0x1A, 0x0A];

pub const CINT_SIZE: u8 = 4;

pub const CSIZET_SIEZE: u8 = 8;

pub const INSTRUCTION_SIZE: u8 = 4;

pub const LUA_INTEGER_SIZE: u8 = 8;

pub const LUA_NUMBER_SIZE: u8 = 8;

/// The sample integer of the header; its bytes show the byte order.
pub const LUAC_INT: i64 = 0x5678;

/// The sample number of the header, 370.5, as its bit pattern.
pub const LUAC_NUM: u64 = 0x4077_2800_0000_0000;

/// The length of the header in bytes.
pub const HEADER_SIZE: usize = 31;

pub const TAG_NIL: u8 = 0x00;

pub const TAG_FALSE: u8 = 0x01;

pub const TAG_TRUE: u8 = 0x11;

pub const TAG_INTEGER: u8 = 0x03;

pub const TAG_FLOAT: u8 = 0x13;

pub const TAG_SHORT_STRING: u8 = 0x04;

pub const TAG_LONG_STRING: u8 = 0x14;

/// The header of a chunk, field by field.
#[derive(Debug, Clone, Copy, PartialEq, Eq)]
pub struct Header {
    pub signature: [u8; 4],
    pub version: u8,
    pub format: u8,
    pub luac_data: [u8; 6],
    pub instruction_size: u8,
    pub lua_integer_size: u8,
    pub lua_number_size: u8,
    pub luac_int: i64,
    /// The sample number as its bit pattern.
    pub luac_num: u64,
}

/// One absolute line record: the line of the instruction at `pc`.
#[derive(Debug, Clone, Copy, PartialEq, Eq, Structural)]
pub struct AbsoluteLine {
    pub pc: u32,
    pub line: u32,
}

/// Where a closure finds one of its upvalues: in the registers of the function around
/// it or among that function's own upvalues, at which index, and of which kind.
#[derive(Debug, Clone, Copy, PartialEq, Eq, Structural)]
pub struct Upvalue {
    pub instack: u8,
    pub index: u8,
    pub kind: u8,
}

/// The debug record of a local variable: its name and the code range in which it lives.
#[derive(Debug)]
pub struct LocalVariable {
    pub var_name: Vec<u8>,
    pub start_pc: i32,
    pub end_pc: i32,
}

pub struct LocalVariableModel {
    pub var_name: Seq<u8>,
    pub start_pc: i32,
    pub end_pc: i32,
}

impl View for LocalVariable {
    type V = LocalVariableModel;

    open spec fn view(&self) -> LocalVariableModel {
        LocalVariableModel {
            var_name: self.var_name@,
            start_pc: self.start_pc,
            end_pc: self.end_pc,
        }
    }
}

/// One compiled function: its code, its constants and its debug records. The functions
/// defined inside it hang below it, so a chunk is a tree of prototypes.
#[derive(Debug)]
pub struct Prototype {
    pub source: Vec<u8>,
    pub line_defined: i32,
    pub last_line_defined: i32,
    pub num_params: u8,
    pub is_vararg: u8,
    pub max_statck_size: u8,
    pub code: Vec<u32>,
    pub constants: Vec<LuaValue>,
    pub upvalues: Vec<Upvalue>,
    pub prototypes: Vec<Prototype>,
    pub line_info: Vec<u8>,
    pub abs_line_list: Vec<AbsoluteLine>,
    pub local_variable: Vec<LocalVariable>,
    pub upvalue_names: Vec<Vec<u8>>,
}

pub struct PrototypeModel {
    pub source: Seq<u8>,
    pub line_defined: i32,
    pub last_line_defined: i32,
    pub num_params: u8,
    pub is_vararg: u8,
    pub max_statck_size: u8,
    pub code: Seq<u32>,
    pub constants: Seq<ValueModel>,
    pub upvalues: Seq<Upvalue>,
    pub prototypes: Seq<PrototypeModel>,
    pub line_info: Seq<u8>,
    pub abs_line_list: Seq<AbsoluteLine>,
    pub local_variable: Seq<LocalVariableModel>,
    pub upvalue_names: Seq<Seq<u8>>,
}

impl View for Prototype {
    type V = PrototypeModel;

    open spec fn view(&self) -> PrototypeModel
        decreases self, 0nat,
    {
        PrototypeModel {
            source: self.source@,
            line_defined: self.line_defined,
            last_line_defined: self.last_line_defined,
            num_params: self.num_params,
            is_vararg: self.is_vararg,
            max_statck_size: self.max_statck_size,
            code: self.code@,
            constants: self.constants@.map_values(|v: LuaValue| v@),
            upvalues: self.upvalues@,
            prototypes: first_models(self.prototypes, self.prototypes@.len()),
            line_info: self.line_info@,
            abs_line_list: self.abs_line_list@,
            local_variable: self.local_variable@.map_values(|v: LocalVariable| v@),
            upvalue_names: self.upvalue_names@.map_values(|v: Vec<u8>| v@),
        }
    }
}

/// The models of the first `n` functions of a vector.
pub open spec fn first_models(v: Vec<Prototype>, n: nat) -> Seq<PrototypeModel>
    decreases v, n,
{
    if n == 0 || n > v@.len() {
        Seq::<PrototypeModel>::empty()
    } else {
        first_models(v, (n - 1) as nat).push(v@[n - 1]@)
    }
}

/// The models of a vector of functions.
pub open spec fn prototypes_of(v: Seq<Prototype>) -> Seq<PrototypeModel> {
    Seq::new(v.len(), |i: int| v[i]@)
}

/// The models of the first `n` functions, one by one.
pub proof fn lemma_first_models(v: Vec<Prototype>, n: nat)
    requires
        n <= v@.len(),
    ensures
        first_models(v, n) == prototypes_of(v@.take(n as int)),
    decreases n,
{
    if n > 0 {
        lemma_first_models(v, (n - 1) as nat);
        assert(prototypes_of(v@.take(n as int)) =~= prototypes_of(v@.take(n - 1)).push(v@[n - 1]@));
    } else {
        assert(prototypes_of(v@.take(0)) =~= Seq::<PrototypeModel>::empty());
    }
}

/// The model of a function, field by field.
pub proof fn lemma_prototype_view(p: Prototype)
    ensures
        p@.source == p.source@,
        p@.line_defined == p.line_defined,
        p@.last_line_defined == p.last_line_defined,
        p@.num_params == p.num_params,
        p@.is_vararg == p.is_vararg,
        p@.max_statck_size == p.max_statck_size,
        p@.code == p.code@,
        p@.constants == p.constants@.map_values(|v: LuaValue| v@),
        p@.upvalues == p.upvalues@,
        p@.prototypes == prototypes_of(p.prototypes@),
        p@.line_info == p.line_info@,
        p@.abs_line_list == p.abs_line_list@,
        p@.local_variable == p.local_variable@.map_values(|v: LocalVariable| v@),
        p@.upvalue_names == p.upvalue_names@.map_values(|v: Vec<u8>| v@),
{
    lemma_first_models(p.prototypes, p.prototypes@.len());
    assert(p.prototypes@.take(p.prototypes@.len() as int) == p.prototypes@);
}

/// A whole chunk: the header, the number of upvalues of the main function, and the
/// main function.
#[derive(Debug)]
pub struct BinaryChunk {
    pub header: Header,
    pub sized_upvalues: u8,
    pub main_func: Prototype,
}

impl Header {
    /// The header holds what the loader accepts, field by field.
    pub open spec fn is_canonical(&self) -> bool {
        &&& self.signature@ == seq![0x1Bu8, 0x4Cu8, 0x75u8, 0x61u8]
        &&& self.version == 0x54
        &&& self.format == 0
        &&& self.luac_data@ == seq![0x19u8, 0x93u8, 0x0Du8, 0x0Au8, 0x1Au8, 0x0Au8]
        &&& self.instruction_size == 4
        &&& self.lua_integer_size == 8
        &&& self.lua_number_size == 8
        &&& self.luac_int == 0x5678
        &&& self.luac_num == 0x4077_2800_0000_0000
    }

    /// The one header that the loader accepts.
    pub fn canonical() -> (r: Header)
        ensures
            r.is_canonical(),
    {
        let r = Header {
            signature: LUA_SIGNATURE,
            version: LUAC_VERSION,
            format: LUAC_FORMAT,
            luac_data: LUAC_DATA,
            instruction_size: INSTRUCTION_SIZE,
            lua_integer_size: LUA_INTEGER_SIZE,
            lua_number_size: LUA_NUMBER_SIZE,
            luac_int: LUAC_INT,
            luac_num: LUAC_NUM,
        };
        assert(r.signature@ =~= seq![0x1Bu8, 0x4Cu8, 0x75u8, 0x61u8]);
        assert(r.luac_data@ =~= seq![0x19u8, 0x93u8, 0x0Du8, 0x0Au8, 0x1Au8, 0x0Au8]);
        r
    }
}

} // verus!
