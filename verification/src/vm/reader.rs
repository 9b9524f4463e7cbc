use vstd::prelude::*;
use vstd::slice::slice_to_vec;
use super::binary_chunk::{
    prototypes_of, AbsoluteLine, LocalVariable, LocalVariableModel, Prototype, PrototypeModel,
    Upvalue,
};
use super::error::LoadError;
use super::lua_value::{LuaValue, ValueModel};
use super::undump;

verus! {

pub type Unsigned = u64;

/// A cursor over the bytes of a precompiled chunk.
///
/// Every method reads the item at `index` as the format describes it. Where the item is
/// there, the cursor moves behind it and `debug_byte` holds the last byte taken; where
/// it is not, the method returns the fault and the cursor stays as it was.
pub struct LuaChunkReader {
    pub buffer: Vec<u8>,
    pub debug_byte: u8,
    pub index: usize,
}

impl LuaChunkReader {
    /// The cursor after a step from `from` to `to` over the same bytes.
    pub open spec fn moved(self, from: LuaChunkReader, to: int) -> bool {
        &&& self.buffer == from.buffer
        &&& self.index == to
        &&& self.debug_byte == if to > from.index && 0 < to <= from.buffer@.len() {
            from.buffer@[to - 1]
        } else {
            from.debug_byte
        }
    }

    pub fn new(buffer: Vec<u8>) -> (r: LuaChunkReader)
        ensures
            r.buffer == buffer,
            r.index == 0,
            r.debug_byte == 0,
    {
        LuaChunkReader { buffer, index: 0, debug_byte: 0 }
    }

    fn advance(&mut self, next: usize)
        requires
            next <= old(self).buffer@.len(),
        ensures
            final(self).moved(*old(self), next as int),
    {
        if next > self.index && next > 0 {
            self.debug_byte = self.buffer[next - 1];
        }
        self.index = next;
    }

    /// Replaces the bytes by a copy of `buf` and takes the byte at the cursor.
    pub fn read(&mut self, buf: &[u8]) -> (r: Result<u8, LoadError>)
        ensures
            final(self).buffer@ == buf@,
            match r {
                Ok(v) => undump::byte_at(buf@, old(self).index as int)
                    == Ok::<(u8, int), LoadError>(
                    (v, final(self).index as int),
                ) && final(self).debug_byte == v,
                Err(e) => undump::byte_at(buf@, old(self).index as int) == Err::<
                    (u8, int),
                    LoadError,
                >(e) && final(self).index == old(self).index
                    && final(self).debug_byte == old(self).debug_byte,
            },
    {
        self.buffer = slice_to_vec(buf);
        self.read_byte()
    }

    /// Takes the next `n` bytes.
    pub fn read_bytes(&mut self, n: usize) -> (r: Result<Vec<u8>, LoadError>)
        ensures
            match r {
                Ok(v) => old(self).index + n <= old(self).buffer@.len()
                    && v@ == old(self).buffer@.subrange(old(self).index as int, old(self).index + n)
                    && final(self).moved(*old(self), old(self).index + n),
                Err(e) => e == LoadError::Truncated && old(self).index + n > old(self).buffer@.len()
                    && *final(self) == *old(self),
            },
    {
        if self.index > self.buffer.len() || n > self.buffer.len() - self.index {
            return Err(LoadError::Truncated);
        }
        let v = undump::read_bytes(&self.buffer, self.index, n);
        self.advance(self.index + n);
        Ok(v)
    }

    /// Takes the next byte.
    pub fn read_byte(&mut self) -> (r: Result<u8, LoadError>)
        ensures
            match r {
                Ok(v) => undump::byte_at(old(self).buffer@, old(self).index as int) == Ok::<
                    (u8, int),
                    LoadError,
                >((v, final(self).index as int)) && final(self).moved(
                    *old(self),
                    final(self).index as int,
                ),
                Err(e) => undump::byte_at(old(self).buffer@, old(self).index as int) == Err::<
                    (u8, int),
                    LoadError,
                >(e) && *final(self) == *old(self),
            },
    {
        match undump::read_byte(&self.buffer, self.index) {
            Ok((v, next)) => {
                self.advance(next);
                Ok(v)
            },
            Err(e) => Err(e),
        }
    }

    /// Takes a variable-length unsigned number, read under `limit`.
    pub fn read_unsigned(&mut self, limit: u64) -> (r: Result<u64, LoadError>)
        ensures
            match r {
                Ok(v) => undump::unsigned_at(old(self).buffer@, old(self).index as int, limit)
                    == Ok::<
                    (u64, int),
                    LoadError,
                >((v, final(self).index as int)) && final(self).moved(
                    *old(self),
                    final(self).index as int,
                ),
                Err(e) => undump::unsigned_at(old(self).buffer@, old(self).index as int, limit)
                    == Err::<
                    (u64, int),
                    LoadError,
                >(e) && *final(self) == *old(self),
            },
    {
        match undump::read_unsigned(&self.buffer, self.index, limit) {
            Ok((v, next)) => {
                self.advance(next);
                Ok(v)
            },
            Err(e) => Err(e),
        }
    }

    /// Takes a count.
    pub fn read_int(&mut self) -> (r: Result<i32, LoadError>)
        ensures
            match r {
                Ok(v) => undump::int_at(old(self).buffer@, old(self).index as int) == Ok::<
                    (i32, int),
                    LoadError,
                >((v, final(self).index as int)) && final(self).moved(
                    *old(self),
                    final(self).index as int,
                ),
                Err(e) => undump::int_at(old(self).buffer@, old(self).index as int) == Err::<
                    (i32, int),
                    LoadError,
                >(e) && *final(self) == *old(self),
            },
    {
        match undump::read_int(&self.buffer, self.index) {
            Ok((v, next)) => {
                self.advance(next);
                Ok(v)
            },
            Err(e) => Err(e),
        }
    }

    /// Takes a little-endian 32-bit word.
    pub fn read_u32(&mut self) -> (r: Result<u32, LoadError>)
        ensures
            match r {
                Ok(v) => undump::u32_at(old(self).buffer@, old(self).index as int) == Ok::<
                    (u32, int),
                    LoadError,
                >((v, final(self).index as int)) && final(self).moved(
                    *old(self),
                    final(self).index as int,
                ),
                Err(e) => undump::u32_at(old(self).buffer@, old(self).index as int) == Err::<
                    (u32, int),
                    LoadError,
                >(e) && *final(self) == *old(self),
            },
    {
        match undump::read_u32(&self.buffer, self.index) {
            Ok((v, next)) => {
                self.advance(next);
                Ok(v)
            },
            Err(e) => Err(e),
        }
    }

    /// Takes a little-endian 64-bit word.
    pub fn read_uint64(&mut self) -> (r: Result<u64, LoadError>)
        ensures
            match r {
                Ok(v) => undump::u64_at(old(self).buffer@, old(self).index as int) == Ok::<
                    (u64, int),
                    LoadError,
                >((v, final(self).index as int)) && final(self).moved(
                    *old(self),
                    final(self).index as int,
                ),
                Err(e) => undump::u64_at(old(self).buffer@, old(self).index as int) == Err::<
                    (u64, int),
                    LoadError,
                >(e) && *final(self) == *old(self),
            },
    {
        match undump::read_uint64(&self.buffer, self.index) {
            Ok((v, next)) => {
                self.advance(next);
                Ok(v)
            },
            Err(e) => Err(e),
        }
    }

    /// Takes a Lua integer.
    pub fn read_integer(&mut self) -> (r: Result<i64, LoadError>)
        ensures
            match r {
                Ok(v) => undump::integer_at(old(self).buffer@, old(self).index as int) == Ok::<
                    (i64, int),
                    LoadError,
                >((v, final(self).index as int)) && final(self).moved(
                    *old(self),
                    final(self).index as int,
                ),
                Err(e) => undump::integer_at(old(self).buffer@, old(self).index as int) == Err::<
                    (i64, int),
                    LoadError,
                >(e) && *final(self) == *old(self),
            },
    {
        match undump::read_integer(&self.buffer, self.index) {
            Ok((v, next)) => {
                self.advance(next);
                Ok(v)
            },
            Err(e) => Err(e),
        }
    }

    /// Takes a Lua number, as its bit pattern.
    pub fn read_number(&mut self) -> (r: Result<u64, LoadError>)
        ensures
            match r {
                Ok(v) => undump::number_at(old(self).buffer@, old(self).index as int) == Ok::<
                    (u64, int),
                    LoadError,
                >((v, final(self).index as int)) && final(self).moved(
                    *old(self),
                    final(self).index as int,
                ),
                Err(e) => undump::number_at(old(self).buffer@, old(self).index as int) == Err::<
                    (u64, int),
                    LoadError,
                >(e) && *final(self) == *old(self),
            },
    {
        match undump::read_number(&self.buffer, self.index) {
            Ok((v, next)) => {
                self.advance(next);
                Ok(v)
            },
            Err(e) => Err(e),
        }
    }

    /// Takes a size.
    pub fn read_size(&mut self) -> (r: Result<u64, LoadError>)
        ensures
            match r {
                Ok(v) => undump::size_at(old(self).buffer@, old(self).index as int) == Ok::<
                    (u64, int),
                    LoadError,
                >((v, final(self).index as int)) && final(self).moved(
                    *old(self),
                    final(self).index as int,
                ),
                Err(e) => undump::size_at(old(self).buffer@, old(self).index as int) == Err::<
                    (u64, int),
                    LoadError,
                >(e) && *final(self) == *old(self),
            },
    {
        match undump::read_size(&self.buffer, self.index) {
            Ok((v, next)) => {
                self.advance(next);
                Ok(v)
            },
            Err(e) => Err(e),
        }
    }

    /// Takes a string.
    pub fn read_string(&mut self) -> (r: Result<Vec<u8>, LoadError>)
        ensures
            match r {
                Ok(v) => undump::string_at(old(self).buffer@, old(self).index as int) == Ok::<
                    (Seq<u8>, int),
                    LoadError,
                >((v@, final(self).index as int)) && final(self).moved(
                    *old(self),
                    final(self).index as int,
                ),
                Err(e) => undump::string_at(old(self).buffer@, old(self).index as int) == Err::<
                    (Seq<u8>, int),
                    LoadError,
                >(e) && *final(self) == *old(self),
            },
    {
        match undump::read_string(&self.buffer, self.index) {
            Ok((v, next)) => {
                self.advance(next);
                Ok(v)
            },
            Err(e) => Err(e),
        }
    }

    /// Takes the code of a function.
    pub fn read_code(&mut self) -> (r: Result<Vec<u32>, LoadError>)
        ensures
            match r {
                Ok(v) => undump::code_at(old(self).buffer@, old(self).index as int) == Ok::<
                    (Seq<u32>, int),
                    LoadError,
                >((v@, final(self).index as int)) && final(self).moved(
                    *old(self),
                    final(self).index as int,
                ),
                Err(e) => undump::code_at(old(self).buffer@, old(self).index as int) == Err::<
                    (Seq<u32>, int),
                    LoadError,
                >(e) && *final(self) == *old(self),
            },
    {
        match undump::read_code(&self.buffer, self.index) {
            Ok((v, next)) => {
                self.advance(next);
                Ok(v)
            },
            Err(e) => Err(e),
        }
    }

    /// Takes the constants of a function.
    pub fn read_constants(&mut self) -> (r: Result<Vec<LuaValue>, LoadError>)
        ensures
            match r {
                Ok(v) => undump::constants_at(old(self).buffer@, old(self).index as int) == Ok::<
                    (Seq<ValueModel>, int),
                    LoadError,
                >((undump::values_of(v@), final(self).index as int)) && final(self).moved(
                    *old(self),
                    final(self).index as int,
                ),
                Err(e) => undump::constants_at(old(self).buffer@, old(self).index as int) == Err::<
                    (Seq<ValueModel>, int),
                    LoadError,
                >(e) && *final(self) == *old(self),
            },
    {
        match undump::read_constants(&self.buffer, self.index) {
            Ok((v, next)) => {
                self.advance(next);
                Ok(v)
            },
            Err(e) => Err(e),
        }
    }

    /// Takes one constant.
    pub fn read_constant(&mut self) -> (r: Result<LuaValue, LoadError>)
        ensures
            match r {
                Ok(v) => undump::constant_at(old(self).buffer@, old(self).index as int) == Ok::<
                    (ValueModel, int),
                    LoadError,
                >((v@, final(self).index as int)) && final(self).moved(
                    *old(self),
                    final(self).index as int,
                ),
                Err(e) => undump::constant_at(old(self).buffer@, old(self).index as int) == Err::<
                    (ValueModel, int),
                    LoadError,
                >(e) && *final(self) == *old(self),
            },
    {
        match undump::read_constant(&self.buffer, self.index) {
            Ok((v, next)) => {
                self.advance(next);
                Ok(v)
            },
            Err(e) => Err(e),
        }
    }

    /// Takes the upvalue descriptors of a function.
    pub fn read_upvalues(&mut self) -> (r: Result<Vec<Upvalue>, LoadError>)
        ensures
            match r {
                Ok(v) => undump::upvalues_at(old(self).buffer@, old(self).index as int) == Ok::<
                    (Seq<Upvalue>, int),
                    LoadError,
                >((v@, final(self).index as int)) && final(self).moved(
                    *old(self),
                    final(self).index as int,
                ),
                Err(e) => undump::upvalues_at(old(self).buffer@, old(self).index as int) == Err::<
                    (Seq<Upvalue>, int),
                    LoadError,
                >(e) && *final(self) == *old(self),
            },
    {
        match undump::read_upvalues(&self.buffer, self.index) {
            Ok((v, next)) => {
                self.advance(next);
                Ok(v)
            },
            Err(e) => Err(e),
        }
    }

    /// Takes the line deltas of a function.
    pub fn read_line_info(&mut self) -> (r: Result<Vec<u8>, LoadError>)
        ensures
            match r {
                Ok(v) => undump::line_info_at(old(self).buffer@, old(self).index as int) == Ok::<
                    (Seq<u8>, int),
                    LoadError,
                >((v@, final(self).index as int)) && final(self).moved(
                    *old(self),
                    final(self).index as int,
                ),
                Err(e) => undump::line_info_at(old(self).buffer@, old(self).index as int) == Err::<
                    (Seq<u8>, int),
                    LoadError,
                >(e) && *final(self) == *old(self),
            },
    {
        match undump::read_line_info(&self.buffer, self.index) {
            Ok((v, next)) => {
                self.advance(next);
                Ok(v)
            },
            Err(e) => Err(e),
        }
    }

    /// Takes the absolute line records of a function.
    pub fn read_absolute_list(&mut self) -> (r: Result<Vec<AbsoluteLine>, LoadError>)
        ensures
            match r {
                Ok(v) => undump::absolute_list_at(old(self).buffer@, old(self).index as int)
                    == Ok::<
                    (Seq<AbsoluteLine>, int),
                    LoadError,
                >((v@, final(self).index as int)) && final(self).moved(
                    *old(self),
                    final(self).index as int,
                ),
                Err(e) => undump::absolute_list_at(old(self).buffer@, old(self).index as int)
                    == Err::<
                    (Seq<AbsoluteLine>, int),
                    LoadError,
                >(e) && *final(self) == *old(self),
            },
    {
        match undump::read_absolute_list(&self.buffer, self.index) {
            Ok((v, next)) => {
                self.advance(next);
                Ok(v)
            },
            Err(e) => Err(e),
        }
    }

    /// Takes the local variable records of a function.
    pub fn read_local_variables(&mut self) -> (r: Result<Vec<LocalVariable>, LoadError>)
        ensures
            match r {
                Ok(v) => undump::local_variables_at(old(self).buffer@, old(self).index as int)
                    == Ok::<
                    (Seq<LocalVariableModel>, int),
                    LoadError,
                >((undump::locals_of(v@), final(self).index as int)) && final(self).moved(
                    *old(self),
                    final(self).index as int,
                ),
                Err(e) => undump::local_variables_at(old(self).buffer@, old(self).index as int)
                    == Err::<
                    (Seq<LocalVariableModel>, int),
                    LoadError,
                >(e) && *final(self) == *old(self),
            },
    {
        match undump::read_local_variables(&self.buffer, self.index) {
            Ok((v, next)) => {
                self.advance(next);
                Ok(v)
            },
            Err(e) => Err(e),
        }
    }

    /// Takes the upvalue names of a function.
    pub fn read_upvalue_names(&mut self) -> (r: Result<Vec<Vec<u8>>, LoadError>)
        ensures
            match r {
                Ok(v) => undump::upvalue_names_at(old(self).buffer@, old(self).index as int)
                    == Ok::<
                    (Seq<Seq<u8>>, int),
                    LoadError,
                >((undump::names_of(v@), final(self).index as int)) && final(self).moved(
                    *old(self),
                    final(self).index as int,
                ),
                Err(e) => undump::upvalue_names_at(old(self).buffer@, old(self).index as int)
                    == Err::<
                    (Seq<Seq<u8>>, int),
                    LoadError,
                >(e) && *final(self) == *old(self),
            },
    {
        match undump::read_upvalue_names(&self.buffer, self.index) {
            Ok((v, next)) => {
                self.advance(next);
                Ok(v)
            },
            Err(e) => Err(e),
        }
    }

    /// Checks the header and moves behind it.
    pub fn check_header(&mut self) -> (r: Result<(), LoadError>)
        ensures
            match r {
                Ok(_) => undump::header_at(old(self).buffer@, old(self).index as int) == Ok::<
                    int,
                    LoadError,
                >(final(self).index as int) && final(self).index == old(self).index + 31
                    && final(self).moved(*old(self), final(self).index as int),
                Err(e) => undump::header_at(old(self).buffer@, old(self).index as int) == Err::<
                    int,
                    LoadError,
                >(e) && *final(self) == *old(self),
            },
    {
        match undump::check_header(&self.buffer, self.index) {
            Ok(next) => {
                self.advance(next);
                Ok(())
            },
            Err(e) => Err(e),
        }
    }

    /// How many levels of functions can still follow the cursor: one for each byte left.
    pub open spec fn levels_left(self) -> nat {
        if self.index <= self.buffer@.len() {
            (self.buffer@.len() - self.index) as nat
        } else {
            0
        }
    }

    /// Takes a function with all the functions nested in it. `parent_source` is the
    /// source name that a function without one takes over.
    pub fn read_function_prototype(&mut self, parent_source: Vec<u8>) -> (r: Result<
        Prototype,
        LoadError,
    >)
        ensures
            match r {
                Ok(v) => undump::prototype_at(
                    old(self).buffer@,
                    old(self).index as int,
                    parent_source@,
                    old(self).levels_left(),
                ) == Ok::<(PrototypeModel, int), LoadError>((v@, final(self).index as int))
                    && final(self).moved(*old(self), final(self).index as int),
                Err(e) => undump::prototype_at(
                    old(self).buffer@,
                    old(self).index as int,
                    parent_source@,
                    old(self).levels_left(),
                ) == Err::<(PrototypeModel, int), LoadError>(e) && *final(self) == *old(self),
            },
    {
        let depth: usize = if self.index <= self.buffer.len() {
            self.buffer.len() - self.index
        } else {
            0
        };
        match undump::read_prototype(&self.buffer, self.index, &parent_source, depth) {
            Ok((v, next)) => {
                self.advance(next);
                Ok(v)
            },
            Err(e) => Err(e),
        }
    }

    /// Takes a list of nested functions. `parent_source` is the source name of the
    /// function that they are nested in.
    pub fn read_function_prototypes(&mut self, parent_source: Vec<u8>) -> (r: Result<
        Vec<Prototype>,
        LoadError,
    >)
        ensures
            match r {
                Ok(v) => undump::prototypes_at(
                    old(self).buffer@,
                    old(self).index as int,
                    parent_source@,
                    old(self).levels_left(),
                ) == Ok::<(Seq<PrototypeModel>, int), LoadError>(
                    (prototypes_of(v@), final(self).index as int),
                ) && final(self).moved(*old(self), final(self).index as int),
                Err(e) => undump::prototypes_at(
                    old(self).buffer@,
                    old(self).index as int,
                    parent_source@,
                    old(self).levels_left(),
                ) == Err::<(Seq<PrototypeModel>, int), LoadError>(e) && *final(self) == *old(self),
            },
    {
        let depth: usize = if self.index <= self.buffer.len() {
            self.buffer.len() - self.index
        } else {
            0
        };
        match undump::read_prototypes(&self.buffer, self.index, &parent_source, depth) {
            Ok((v, next)) => {
                self.advance(next);
                Ok(v)
            },
            Err(e) => Err(e),
        }
    }
}

} // verus!
