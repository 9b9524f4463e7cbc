use vstd::prelude::*;
use super::binary_chunk::{
    lemma_prototype_view, prototypes_of, AbsoluteLine, BinaryChunk, Header, LocalVariable,
    LocalVariableModel, Prototype, PrototypeModel, Upvalue,
};
use super::error::LoadError;
use super::lua_value::{copy_bytes, LuaValue, ValueModel};

verus! {

// The format of a precompiled chunk, as functions of a byte sequence and a position.
// Each gives the item that starts at the position together with the position after it,
// or the fault that stops the reading.

/// The limit of a count (of instructions, of constants and so on): the largest `i32`.
pub const INT_LIMIT: u64 = 0x7fff_ffff;

/// The limit of a size (of a string): the largest `u64`.
pub const SIZE_LIMIT: u64 = 0xffff_ffff_ffff_ffff;

/// The byte at `pos`.
pub open spec fn byte_at(b: Seq<u8>, pos: int) -> Result<(u8, int), LoadError> {
    if 0 <= pos < b.len() {
        Ok((b[pos], pos + 1))
    } else {
        Err(LoadError::Truncated)
    }
}

/// The rest of a variable-length unsigned number: `acc` holds the 7-bit groups read so
/// far, most significant first. Each byte gives 7 more bits; the byte with its high bit
/// set is the last. Before a group is added the number read so far must be below `cap`.
pub open spec fn unsigned_from(b: Seq<u8>, pos: int, cap: int, acc: int) -> Result<
    (u64, int),
    LoadError,
>
    decreases b.len() - pos,
{
    if pos < 0 || pos >= b.len() {
        Err(LoadError::Truncated)
    } else if acc >= cap {
        Err(LoadError::IntegerOverflow)
    } else {
        let x = acc * 128 + b[pos] % 128;
        if b[pos] >= 128 {
            Ok((x as u64, pos + 1))
        } else {
            unsigned_from(b, pos + 1, cap, x)
        }
    }
}

/// The variable-length unsigned number at `pos`, read under a limit.
pub open spec fn unsigned_at(b: Seq<u8>, pos: int, limit: u64) -> Result<(u64, int), LoadError> {
    unsigned_from(b, pos, limit as int / 128, 0)
}

/// The count at `pos`.
pub open spec fn int_at(b: Seq<u8>, pos: int) -> Result<(i32, int), LoadError> {
    match unsigned_at(b, pos, INT_LIMIT) {
        Ok((x, next)) => Ok((x as i32, next)),
        Err(e) => Err(e),
    }
}

/// The size at `pos`.
pub open spec fn size_at(b: Seq<u8>, pos: int) -> Result<(u64, int), LoadError> {
    unsigned_at(b, pos, SIZE_LIMIT)
}

/// The four bytes at `pos` as a little-endian 32-bit word.
pub open spec fn u32_at(b: Seq<u8>, pos: int) -> Result<(u32, int), LoadError> {
    if 0 <= pos && pos + 4 <= b.len() {
        Ok(
            (
                (b[pos] + 256 * b[pos + 1] + 65536 * b[pos + 2] + 16777216 * b[pos + 3]) as u32,
                pos + 4,
            ),
        )
    } else {
        Err(LoadError::Truncated)
    }
}

/// The eight bytes at `pos` as a little-endian 64-bit word.
pub open spec fn u64_at(b: Seq<u8>, pos: int) -> Result<(u64, int), LoadError> {
    match u32_at(b, pos) {
        Ok((low, mid)) => match u32_at(b, mid) {
            Ok((high, next)) => Ok(((low + 0x1_0000_0000 * high) as u64, next)),
            Err(e) => Err(e),
        },
        Err(e) => Err(e),
    }
}

/// A 64-bit word read as a two's complement integer.
pub open spec fn twos_complement(v: u64) -> i64 {
    if v >= 0x8000_0000_0000_0000 {
        (v - 0x1_0000_0000_0000_0000) as i64
    } else {
        v as i64
    }
}

/// The Lua integer at `pos`: eight bytes, little-endian, two's complement.
pub open spec fn integer_at(b: Seq<u8>, pos: int) -> Result<(i64, int), LoadError> {
    match u64_at(b, pos) {
        Ok((v, next)) => Ok((twos_complement(v), next)),
        Err(e) => Err(e),
    }
}

/// The Lua number at `pos`, as its bit pattern: eight bytes, little-endian.
pub open spec fn number_at(b: Seq<u8>, pos: int) -> Result<(u64, int), LoadError> {
    u64_at(b, pos)
}

/// The string at `pos`: a size, then the bytes. Size 0 stands for the empty string; any
/// other size is the number of bytes plus one.
pub open spec fn string_at(b: Seq<u8>, pos: int) -> Result<(Seq<u8>, int), LoadError> {
    match size_at(b, pos) {
        Ok((size, start)) => if size == 0 {
            Ok((Seq::<u8>::empty(), start))
        } else if start + size - 1 <= b.len() {
            Ok((b.subrange(start, start + size - 1), start + size - 1))
        } else {
            Err(LoadError::Truncated)
        },
        Err(e) => Err(e),
    }
}

/// The constant at `pos`: a tag byte, then what the tag calls for.
pub open spec fn constant_at(b: Seq<u8>, pos: int) -> Result<(ValueModel, int), LoadError> {
    match byte_at(b, pos) {
        Ok((tag, next)) => if tag == 0x00 {
            Ok((ValueModel::Nil, next))
        } else if tag == 0x01 {
            Ok((ValueModel::Boolean(false), next))
        } else if tag == 0x11 {
            Ok((ValueModel::Boolean(true), next))
        } else if tag == 0x03 {
            match integer_at(b, next) {
                Ok((i, after)) => Ok((ValueModel::Integer(i), after)),
                Err(e) => Err(e),
            }
        } else if tag == 0x13 {
            match number_at(b, next) {
                Ok((n, after)) => Ok((ValueModel::Number(n), after)),
                Err(e) => Err(e),
            }
        } else if tag == 0x04 || tag == 0x14 {
            match string_at(b, next) {
                Ok((s, after)) => Ok((ValueModel::String(s), after)),
                Err(e) => Err(e),
            }
        } else {
            Err(LoadError::UnknownConstantTag(tag))
        },
        Err(e) => Err(e),
    }
}

/// The upvalue descriptor at `pos`: three bytes.
pub open spec fn upvalue_at(b: Seq<u8>, pos: int) -> Result<(Upvalue, int), LoadError> {
    match byte_at(b, pos) {
        Ok((instack, next)) => match byte_at(b, next) {
            Ok((index, mid)) => match byte_at(b, mid) {
                Ok((kind, after)) => Ok((Upvalue { instack, index, kind }, after)),
                Err(e) => Err(e),
            },
            Err(e) => Err(e),
        },
        Err(e) => Err(e),
    }
}

/// The absolute line record at `pos`: two 32-bit words.
pub open spec fn absolute_line_at(b: Seq<u8>, pos: int) -> Result<(AbsoluteLine, int), LoadError> {
    match u32_at(b, pos) {
        Ok((pc, next)) => match u32_at(b, next) {
            Ok((line, after)) => Ok((AbsoluteLine { pc, line }, after)),
            Err(e) => Err(e),
        },
        Err(e) => Err(e),
    }
}

/// The local variable record at `pos`: a name and two counts.
pub open spec fn local_variable_at(b: Seq<u8>, pos: int) -> Result<
    (LocalVariableModel, int),
    LoadError,
> {
    match string_at(b, pos) {
        Ok((var_name, next)) => match int_at(b, next) {
            Ok((start_pc, mid)) => match int_at(b, mid) {
                Ok((end_pc, after)) => Ok((LocalVariableModel { var_name, start_pc, end_pc }, after)),
                Err(e) => Err(e),
            },
            Err(e) => Err(e),
        },
        Err(e) => Err(e),
    }
}

/// `remaining` more items, one after the other from `pos` on, added to `acc`.
pub open spec fn items_from<T>(
    item: spec_fn(Seq<u8>, int) -> Result<(T, int), LoadError>,
    b: Seq<u8>,
    pos: int,
    remaining: nat,
    acc: Seq<T>,
) -> Result<(Seq<T>, int), LoadError>
    decreases remaining,
{
    if remaining == 0 {
        Ok((acc, pos))
    } else {
        match item(b, pos) {
            Ok((v, next)) => items_from(item, b, next, (remaining - 1) as nat, acc.push(v)),
            Err(e) => Err(e),
        }
    }
}

/// The list at `pos`: a count, then that many items.
pub open spec fn list_at<T>(
    item: spec_fn(Seq<u8>, int) -> Result<(T, int), LoadError>,
    b: Seq<u8>,
    pos: int,
) -> Result<(Seq<T>, int), LoadError> {
    match int_at(b, pos) {
        Ok((n, start)) => items_from(item, b, start, n as nat, Seq::<T>::empty()),
        Err(e) => Err(e),
    }
}

pub open spec fn byte_reader() -> spec_fn(Seq<u8>, int) -> Result<(u8, int), LoadError> {
    |b: Seq<u8>, pos: int| byte_at(b, pos)
}

pub open spec fn word_reader() -> spec_fn(Seq<u8>, int) -> Result<(u32, int), LoadError> {
    |b: Seq<u8>, pos: int| u32_at(b, pos)
}

pub open spec fn constant_reader() -> spec_fn(Seq<u8>, int) -> Result<(ValueModel, int), LoadError> {
    |b: Seq<u8>, pos: int| constant_at(b, pos)
}

pub open spec fn upvalue_reader() -> spec_fn(Seq<u8>, int) -> Result<(Upvalue, int), LoadError> {
    |b: Seq<u8>, pos: int| upvalue_at(b, pos)
}

pub open spec fn absolute_line_reader() -> spec_fn(Seq<u8>, int) -> Result<
    (AbsoluteLine, int),
    LoadError,
> {
    |b: Seq<u8>, pos: int| absolute_line_at(b, pos)
}

pub open spec fn local_variable_reader() -> spec_fn(Seq<u8>, int) -> Result<
    (LocalVariableModel, int),
    LoadError,
> {
    |b: Seq<u8>, pos: int| local_variable_at(b, pos)
}

pub open spec fn string_reader() -> spec_fn(Seq<u8>, int) -> Result<(Seq<u8>, int), LoadError> {
    |b: Seq<u8>, pos: int| string_at(b, pos)
}

/// The code of a function: a list of 32-bit words.
pub open spec fn code_at(b: Seq<u8>, pos: int) -> Result<(Seq<u32>, int), LoadError> {
    list_at(word_reader(), b, pos)
}

pub open spec fn constants_at(b: Seq<u8>, pos: int) -> Result<(Seq<ValueModel>, int), LoadError> {
    list_at(constant_reader(), b, pos)
}

pub open spec fn upvalues_at(b: Seq<u8>, pos: int) -> Result<(Seq<Upvalue>, int), LoadError> {
    list_at(upvalue_reader(), b, pos)
}

pub open spec fn line_info_at(b: Seq<u8>, pos: int) -> Result<(Seq<u8>, int), LoadError> {
    list_at(byte_reader(), b, pos)
}

pub open spec fn absolute_list_at(b: Seq<u8>, pos: int) -> Result<
    (Seq<AbsoluteLine>, int),
    LoadError,
> {
    list_at(absolute_line_reader(), b, pos)
}

pub open spec fn local_variables_at(b: Seq<u8>, pos: int) -> Result<
    (Seq<LocalVariableModel>, int),
    LoadError,
> {
    list_at(local_variable_reader(), b, pos)
}

pub open spec fn upvalue_names_at(b: Seq<u8>, pos: int) -> Result<(Seq<Seq<u8>>, int), LoadError> {
    list_at(string_reader(), b, pos)
}

/// The values of a vector of constants.
pub open spec fn values_of(v: Seq<LuaValue>) -> Seq<ValueModel> {
    v.map_values(|x: LuaValue| x@)
}

/// The records of a vector of local variables.
pub open spec fn locals_of(v: Seq<LocalVariable>) -> Seq<LocalVariableModel> {
    v.map_values(|x: LocalVariable| x@)
}

/// The byte strings of a vector of names.
pub open spec fn names_of(v: Seq<Vec<u8>>) -> Seq<Seq<u8>> {
    v.map_values(|x: Vec<u8>| x@)
}

pub fn read_byte(b: &Vec<u8>, pos: usize) -> (r: Result<(u8, usize), LoadError>)
    ensures
        match r {
            Ok((v, next)) => byte_at(b@, pos as int)
                == Ok::<(u8, int), LoadError>((v, next as int)),
            Err(e) => byte_at(b@, pos as int) == Err::<(u8, int), LoadError>(e),
        },
{
    if pos < b.len() {
        Ok((b[pos], pos + 1))
    } else {
        Err(LoadError::Truncated)
    }
}

pub fn read_unsigned(b: &Vec<u8>, pos: usize, limit: u64) -> (r: Result<(u64, usize), LoadError>)
    ensures
        match r {
            Ok((v, next)) => unsigned_at(b@, pos as int, limit) == Ok::<(u64, int), LoadError>(
                (v, next as int),
            ) && pos < next <= b@.len() && v as int / 128 < limit as int / 128,
            Err(e) => unsigned_at(b@, pos as int, limit) == Err::<(u64, int), LoadError>(e),
        },
{
    let cap: u64 = limit / 128;
    let mut x: u64 = 0;
    let mut at: usize = pos;
    loop
        invariant
            pos <= at,
            cap == limit / 128,
            unsigned_at(b@, pos as int, limit) == unsigned_from(
                b@,
                at as int,
                cap as int,
                x as int,
            ),
        decreases b@.len() - at,
    {
        if at >= b.len() {
            return Err(LoadError::Truncated);
        }
        if x >= cap {
            return Err(LoadError::IntegerOverflow);
        }
        let byte = b[at];
        let ghost before = x;
        x = x * 128 + (byte % 128) as u64;
        at = at + 1;
        if byte >= 128 {
            assert(x as int / 128 == before as int);
            return Ok((x, at));
        }
    }
}

pub fn read_int(b: &Vec<u8>, pos: usize) -> (r: Result<(i32, usize), LoadError>)
    ensures
        match r {
            Ok((v, next)) => int_at(b@, pos as int) == Ok::<(i32, int), LoadError>((v, next as int))
                && pos < next <= b@.len() && v >= 0,
            Err(e) => int_at(b@, pos as int) == Err::<(i32, int), LoadError>(e),
        },
{
    match read_unsigned(b, pos, INT_LIMIT) {
        Ok((x, next)) => Ok((x as i32, next)),
        Err(e) => Err(e),
    }
}

pub fn read_size(b: &Vec<u8>, pos: usize) -> (r: Result<(u64, usize), LoadError>)
    ensures
        match r {
            Ok((v, next)) => size_at(b@, pos as int)
                == Ok::<(u64, int), LoadError>((v, next as int))
                && pos < next <= b@.len(),
            Err(e) => size_at(b@, pos as int) == Err::<(u64, int), LoadError>(e),
        },
{
    read_unsigned(b, pos, SIZE_LIMIT)
}

pub fn read_u32(b: &Vec<u8>, pos: usize) -> (r: Result<(u32, usize), LoadError>)
    ensures
        match r {
            Ok((v, next)) => u32_at(b@, pos as int) == Ok::<(u32, int), LoadError>((v, next as int))
                && next == pos + 4 && next <= b@.len(),
            Err(e) => u32_at(b@, pos as int) == Err::<(u32, int), LoadError>(e),
        },
{
    if b.len() < 4 || pos > b.len() - 4 {
        return Err(LoadError::Truncated);
    }
    let a1 = b[pos] as u32;
    let a2 = b[pos + 1] as u32;
    let a3 = b[pos + 2] as u32;
    let a4 = b[pos + 3] as u32;
    Ok((a1 + 256 * a2 + 65536 * a3 + 16777216 * a4, pos + 4))
}

pub fn read_uint64(b: &Vec<u8>, pos: usize) -> (r: Result<(u64, usize), LoadError>)
    ensures
        match r {
            Ok((v, next)) => u64_at(b@, pos as int) == Ok::<(u64, int), LoadError>((v, next as int))
                && next == pos + 8 && next <= b@.len(),
            Err(e) => u64_at(b@, pos as int) == Err::<(u64, int), LoadError>(e),
        },
{
    match read_u32(b, pos) {
        Ok((low, mid)) => match read_u32(b, mid) {
            Ok((high, next)) => Ok((low as u64 + 0x1_0000_0000 * (high as u64), next)),
            Err(e) => Err(e),
        },
        Err(e) => Err(e),
    }
}

pub fn read_integer(b: &Vec<u8>, pos: usize) -> (r: Result<(i64, usize), LoadError>)
    ensures
        match r {
            Ok((v, next)) => integer_at(b@, pos as int) == Ok::<(i64, int), LoadError>(
                (v, next as int),
            ) && next == pos + 8 && next <= b@.len(),
            Err(e) => integer_at(b@, pos as int) == Err::<(i64, int), LoadError>(e),
        },
{
    match read_uint64(b, pos) {
        Ok((v, next)) => {
            let i: i64 = if v >= 0x8000_0000_0000_0000 {
                ((v - 0x8000_0000_0000_0000) as i64) + i64::MIN
            } else {
                v as i64
            };
            Ok((i, next))
        },
        Err(e) => Err(e),
    }
}

pub fn read_number(b: &Vec<u8>, pos: usize) -> (r: Result<(u64, usize), LoadError>)
    ensures
        match r {
            Ok((v, next)) => number_at(b@, pos as int) == Ok::<(u64, int), LoadError>(
                (v, next as int),
            ) && next == pos + 8 && next <= b@.len(),
            Err(e) => number_at(b@, pos as int) == Err::<(u64, int), LoadError>(e),
        },
{
    read_uint64(b, pos)
}

/// Copies the `n` bytes from `pos` on.
pub fn read_bytes(b: &Vec<u8>, pos: usize, n: usize) -> (r: Vec<u8>)
    requires
        pos + n <= b@.len(),
    ensures
        r@ == b@.subrange(pos as int, pos + n),
{
    let mut bytes: Vec<u8> = Vec::new();
    let mut i: usize = 0;
    assert(b@.len() == b.len());
    while i < n
        invariant
            i <= n,
            pos + n <= b@.len(),
            pos + n <= usize::MAX,
            bytes@ == b@.subrange(pos as int, pos + i),
        decreases n - i,
    {
        bytes.push(b[pos + i]);
        i = i + 1;
        assert(b@.subrange(pos as int, pos + i) == b@.subrange(pos as int, pos + i - 1).push(
            b@[pos + i - 1],
        ));
    }
    bytes
}

pub fn read_string(b: &Vec<u8>, pos: usize) -> (r: Result<(Vec<u8>, usize), LoadError>)
    ensures
        match r {
            Ok((v, next)) => string_at(b@, pos as int) == Ok::<(Seq<u8>, int), LoadError>(
                (v@, next as int),
            ) && pos < next <= b@.len(),
            Err(e) => string_at(b@, pos as int) == Err::<(Seq<u8>, int), LoadError>(e),
        },
{
    match read_size(b, pos) {
        Ok((size, start)) => {
            if size == 0 {
                let empty: Vec<u8> = Vec::new();
                assert(empty@ == Seq::<u8>::empty());
                Ok((empty, start))
            } else if size - 1 <= (b.len() - start) as u64 {
                let n: usize = (size - 1) as usize;
                Ok((read_bytes(b, start, n), start + n))
            } else {
                Err(LoadError::Truncated)
            }
        },
        Err(e) => Err(e),
    }
}

pub fn read_constant(b: &Vec<u8>, pos: usize) -> (r: Result<(LuaValue, usize), LoadError>)
    ensures
        match r {
            Ok((v, next)) => constant_at(b@, pos as int) == Ok::<(ValueModel, int), LoadError>(
                (v@, next as int),
            ) && pos < next <= b@.len(),
            Err(e) => constant_at(b@, pos as int) == Err::<(ValueModel, int), LoadError>(e),
        },
{
    match read_byte(b, pos) {
        Ok((tag, next)) => {
            if tag == 0x00 {
                Ok((LuaValue::Nil, next))
            } else if tag == 0x01 {
                Ok((LuaValue::Boolean(false), next))
            } else if tag == 0x11 {
                Ok((LuaValue::Boolean(true), next))
            } else if tag == 0x03 {
                match read_integer(b, next) {
                    Ok((i, after)) => Ok((LuaValue::Integer(i), after)),
                    Err(e) => Err(e),
                }
            } else if tag == 0x13 {
                match read_number(b, next) {
                    Ok((n, after)) => Ok((LuaValue::Number(n), after)),
                    Err(e) => Err(e),
                }
            } else if tag == 0x04 || tag == 0x14 {
                match read_string(b, next) {
                    Ok((s, after)) => Ok((LuaValue::String(s), after)),
                    Err(e) => Err(e),
                }
            } else {
                Err(LoadError::UnknownConstantTag(tag))
            }
        },
        Err(e) => Err(e),
    }
}

/// The function at `pos`, with the source name of the function around it, and the
/// functions nested in it. A function whose own source name is empty takes that of
/// the function around it.
///
/// `depth` bounds the nesting: it is 1 for a function without inner functions, and each
/// level inside takes one more. A function takes bytes, so a chunk of n bytes nests
/// fewer than n levels, and the loader starts with the number of bytes that are left.
pub open spec fn prototype_at(b: Seq<u8>, pos: int, parent: Seq<u8>, depth: nat) -> Result<
    (PrototypeModel, int),
    LoadError,
>
    decreases depth, 0nat, 0nat,
{
    if depth == 0 {
        Err(LoadError::Truncated)
    } else {
        match string_at(b, pos) {
            Err(e) => Err(e),
            Ok((name, p1)) => {
                let source = if name.len() == 0 {
                    parent
                } else {
                    name
                };
                match int_at(b, p1) {
                    Err(e) => Err(e),
                    Ok((line_defined, p2)) => match int_at(b, p2) {
                        Err(e) => Err(e),
                        Ok((last_line_defined, p3)) => match byte_at(b, p3) {
                            Err(e) => Err(e),
                            Ok((num_params, p4)) => match byte_at(b, p4) {
                                Err(e) => Err(e),
                                Ok((is_vararg, p5)) => match byte_at(b, p5) {
                                    Err(e) => Err(e),
                                    Ok((max_statck_size, p6)) => match code_at(b, p6) {
                                        Err(e) => Err(e),
                                        Ok((code, p7)) => match constants_at(b, p7) {
                                            Err(e) => Err(e),
                                            Ok((constants, p8)) => match upvalues_at(b, p8) {
                                                Err(e) => Err(e),
                                                Ok((upvalues, p9)) => match prototypes_at(
                                                    b,
                                                    p9,
                                                    source,
                                                    (depth - 1) as nat,
                                                ) {
                                                    Err(e) => Err(e),
                                                    Ok((prototypes, p10)) => match debug_at(b, p10) {
                                                        Err(e) => Err(e),
                                                        Ok((debug, p11)) => Ok(
                                                            (
                                                                PrototypeModel {
                                                                    source,
                                                                    line_defined,
                                                                    last_line_defined,
                                                                    num_params,
                                                                    is_vararg,
                                                                    max_statck_size,
                                                                    code,
                                                                    constants,
                                                                    upvalues,
                                                                    prototypes,
                                                                    line_info: debug.line_info,
                                                                    abs_line_list: debug.abs_line_list,
                                                                    local_variable: debug.local_variable,
                                                                    upvalue_names: debug.upvalue_names,
                                                                },
                                                                p11,
                                                            ),
                                                        ),
                                                    },
                                                },
                                            },
                                        },
                                    },
                                },
                            },
                        },
                    },
                }
            },
        }
    }
}

/// The list of nested functions at `pos`: a count, then that many functions.
pub open spec fn prototypes_at(b: Seq<u8>, pos: int, parent: Seq<u8>, depth: nat) -> Result<
    (Seq<PrototypeModel>, int),
    LoadError,
>
    decreases depth, 2nat, 0nat,
{
    match int_at(b, pos) {
        Ok((n, start)) => prototypes_from(
            b,
            start,
            parent,
            depth,
            n as nat,
            Seq::<PrototypeModel>::empty(),
        ),
        Err(e) => Err(e),
    }
}

/// `remaining` more nested functions, one after the other from `pos` on, added to `acc`.
pub open spec fn prototypes_from(
    b: Seq<u8>,
    pos: int,
    parent: Seq<u8>,
    depth: nat,
    remaining: nat,
    acc: Seq<PrototypeModel>,
) -> Result<(Seq<PrototypeModel>, int), LoadError>
    decreases depth, 1nat, remaining,
{
    if remaining == 0 {
        Ok((acc, pos))
    } else {
        match prototype_at(b, pos, parent, depth) {
            Ok((p, next)) => prototypes_from(
                b,
                next,
                parent,
                depth,
                (remaining - 1) as nat,
                acc.push(p),
            ),
            Err(e) => Err(e),
        }
    }
}

/// The debug records of a function.
pub struct DebugModel {
    pub line_info: Seq<u8>,
    pub abs_line_list: Seq<AbsoluteLine>,
    pub local_variable: Seq<LocalVariableModel>,
    pub upvalue_names: Seq<Seq<u8>>,
}

/// The debug records at `pos`: line deltas, absolute lines, local variables and the
/// names of the upvalues.
pub open spec fn debug_at(b: Seq<u8>, pos: int) -> Result<(DebugModel, int), LoadError> {
    match line_info_at(b, pos) {
        Err(e) => Err(e),
        Ok((line_info, p1)) => match absolute_list_at(b, p1) {
            Err(e) => Err(e),
            Ok((abs_line_list, p2)) => match local_variables_at(b, p2) {
                Err(e) => Err(e),
                Ok((local_variable, p3)) => match upvalue_names_at(b, p3) {
                    Err(e) => Err(e),
                    Ok((upvalue_names, p4)) => Ok(
                        (DebugModel { line_info, abs_line_list, local_variable, upvalue_names }, p4),
                    ),
                },
            },
        },
    }
}

pub fn read_upvalue(b: &Vec<u8>, pos: usize) -> (r: Result<(Upvalue, usize), LoadError>)
    ensures
        match r {
            Ok((v, next)) => upvalue_at(b@, pos as int) == Ok::<(Upvalue, int), LoadError>(
                (v, next as int),
            ) && pos < next <= b@.len(),
            Err(e) => upvalue_at(b@, pos as int) == Err::<(Upvalue, int), LoadError>(e),
        },
{
    match read_byte(b, pos) {
        Ok((instack, next)) => match read_byte(b, next) {
            Ok((index, mid)) => match read_byte(b, mid) {
                Ok((kind, after)) => Ok((Upvalue { instack, index, kind }, after)),
                Err(e) => Err(e),
            },
            Err(e) => Err(e),
        },
        Err(e) => Err(e),
    }
}

pub fn read_absolute_line(b: &Vec<u8>, pos: usize) -> (r: Result<(AbsoluteLine, usize), LoadError>)
    ensures
        match r {
            Ok((v, next)) => absolute_line_at(b@, pos as int) == Ok::<
                (AbsoluteLine, int),
                LoadError,
            >((v, next as int)) && pos < next <= b@.len(),
            Err(e) => absolute_line_at(b@, pos as int) == Err::<(AbsoluteLine, int), LoadError>(e),
        },
{
    match read_u32(b, pos) {
        Ok((pc, next)) => match read_u32(b, next) {
            Ok((line, after)) => Ok((AbsoluteLine { pc, line }, after)),
            Err(e) => Err(e),
        },
        Err(e) => Err(e),
    }
}

pub fn read_local_variable(b: &Vec<u8>, pos: usize) -> (r: Result<
    (LocalVariable, usize),
    LoadError,
>)
    ensures
        match r {
            Ok((v, next)) => local_variable_at(b@, pos as int) == Ok::<
                (LocalVariableModel, int),
                LoadError,
            >((v@, next as int)) && pos < next <= b@.len(),
            Err(e) => local_variable_at(b@, pos as int) == Err::<
                (LocalVariableModel, int),
                LoadError,
            >(e),
        },
{
    match read_string(b, pos) {
        Ok((var_name, next)) => match read_int(b, next) {
            Ok((start_pc, mid)) => match read_int(b, mid) {
                Ok((end_pc, after)) => Ok((LocalVariable { var_name, start_pc, end_pc }, after)),
                Err(e) => Err(e),
            },
            Err(e) => Err(e),
        },
        Err(e) => Err(e),
    }
}

pub fn read_code(b: &Vec<u8>, pos: usize) -> (r: Result<(Vec<u32>, usize), LoadError>)
    ensures
        match r {
            Ok((v, next)) => code_at(b@, pos as int) == Ok::<(Seq<u32>, int), LoadError>(
                (v@, next as int),
            ) && pos < next <= b@.len(),
            Err(e) => code_at(b@, pos as int) == Err::<(Seq<u32>, int), LoadError>(e),
        },
{
    let (n, start) = match read_int(b, pos) {
        Ok(found) => found,
        Err(e) => return Err(e),
    };
    let mut items: Vec<u32> = Vec::new();
    let mut at: usize = start;
    let mut i: i32 = 0;
    assert(items@ =~= Seq::<u32>::empty());
    while i < n
        invariant
            0 <= i <= n,
            pos < at <= b@.len(),
            code_at(b@, pos as int) == items_from(
                word_reader(),
                b@,
                at as int,
                (n - i) as nat,
                items@,
            ),
        decreases n - i,
    {
        match read_u32(b, at) {
            Ok((v, next)) => {
                proof {
                    assert(items@.push(v) =~= items@.push(v));
                }
                items.push(v);
                at = next;
            },
            Err(e) => {
                return Err(e);
            },
        }
        i = i + 1;
    }
    Ok((items, at))
}

pub fn read_constants(b: &Vec<u8>, pos: usize) -> (r: Result<(Vec<LuaValue>, usize), LoadError>)
    ensures
        match r {
            Ok((v, next)) => constants_at(b@, pos as int)
                == Ok::<(Seq<ValueModel>, int), LoadError>(
                (values_of(v@), next as int),
            ) && pos < next <= b@.len(),
            Err(e) => constants_at(b@, pos as int) == Err::<(Seq<ValueModel>, int), LoadError>(e),
        },
{
    let (n, start) = match read_int(b, pos) {
        Ok(found) => found,
        Err(e) => return Err(e),
    };
    let mut items: Vec<LuaValue> = Vec::new();
    let mut at: usize = start;
    let mut i: i32 = 0;
    assert(values_of(items@) =~= Seq::<ValueModel>::empty());
    while i < n
        invariant
            0 <= i <= n,
            pos < at <= b@.len(),
            constants_at(b@, pos as int) == items_from(
                constant_reader(),
                b@,
                at as int,
                (n - i) as nat,
                values_of(items@),
            ),
        decreases n - i,
    {
        match read_constant(b, at) {
            Ok((v, next)) => {
                proof {
                    assert(values_of(items@.push(v)) =~= values_of(items@).push(v@));
                }
                items.push(v);
                at = next;
            },
            Err(e) => {
                return Err(e);
            },
        }
        i = i + 1;
    }
    Ok((items, at))
}

pub fn read_upvalues(b: &Vec<u8>, pos: usize) -> (r: Result<(Vec<Upvalue>, usize), LoadError>)
    ensures
        match r {
            Ok((v, next)) => upvalues_at(b@, pos as int) == Ok::<(Seq<Upvalue>, int), LoadError>(
                (v@, next as int),
            ) && pos < next <= b@.len(),
            Err(e) => upvalues_at(b@, pos as int) == Err::<(Seq<Upvalue>, int), LoadError>(e),
        },
{
    let (n, start) = match read_int(b, pos) {
        Ok(found) => found,
        Err(e) => return Err(e),
    };
    let mut items: Vec<Upvalue> = Vec::new();
    let mut at: usize = start;
    let mut i: i32 = 0;
    assert(items@ =~= Seq::<Upvalue>::empty());
    while i < n
        invariant
            0 <= i <= n,
            pos < at <= b@.len(),
            upvalues_at(b@, pos as int) == items_from(
                upvalue_reader(),
                b@,
                at as int,
                (n - i) as nat,
                items@,
            ),
        decreases n - i,
    {
        match read_upvalue(b, at) {
            Ok((v, next)) => {
                proof {
                    assert(items@.push(v) =~= items@.push(v));
                }
                items.push(v);
                at = next;
            },
            Err(e) => {
                return Err(e);
            },
        }
        i = i + 1;
    }
    Ok((items, at))
}

pub fn read_line_info(b: &Vec<u8>, pos: usize) -> (r: Result<(Vec<u8>, usize), LoadError>)
    ensures
        match r {
            Ok((v, next)) => line_info_at(b@, pos as int) == Ok::<(Seq<u8>, int), LoadError>(
                (v@, next as int),
            ) && pos < next <= b@.len(),
            Err(e) => line_info_at(b@, pos as int) == Err::<(Seq<u8>, int), LoadError>(e),
        },
{
    let (n, start) = match read_int(b, pos) {
        Ok(found) => found,
        Err(e) => return Err(e),
    };
    let mut items: Vec<u8> = Vec::new();
    let mut at: usize = start;
    let mut i: i32 = 0;
    assert(items@ =~= Seq::<u8>::empty());
    while i < n
        invariant
            0 <= i <= n,
            pos < at <= b@.len(),
            line_info_at(b@, pos as int) == items_from(
                byte_reader(),
                b@,
                at as int,
                (n - i) as nat,
                items@,
            ),
        decreases n - i,
    {
        match read_byte(b, at) {
            Ok((v, next)) => {
                proof {
                    assert(items@.push(v) =~= items@.push(v));
                }
                items.push(v);
                at = next;
            },
            Err(e) => {
                return Err(e);
            },
        }
        i = i + 1;
    }
    Ok((items, at))
}

pub fn read_absolute_list(b: &Vec<u8>, pos: usize) -> (r: Result<(Vec<AbsoluteLine>, usize), LoadError>)
    ensures
        match r {
            Ok((v, next)) => absolute_list_at(b@, pos as int)
                == Ok::<(Seq<AbsoluteLine>, int), LoadError>(
                (v@, next as int),
            ) && pos < next <= b@.len(),
            Err(e) => absolute_list_at(b@, pos as int)
                == Err::<(Seq<AbsoluteLine>, int), LoadError>(e),
        },
{
    let (n, start) = match read_int(b, pos) {
        Ok(found) => found,
        Err(e) => return Err(e),
    };
    let mut items: Vec<AbsoluteLine> = Vec::new();
    let mut at: usize = start;
    let mut i: i32 = 0;
    assert(items@ =~= Seq::<AbsoluteLine>::empty());
    while i < n
        invariant
            0 <= i <= n,
            pos < at <= b@.len(),
            absolute_list_at(b@, pos as int) == items_from(
                absolute_line_reader(),
                b@,
                at as int,
                (n - i) as nat,
                items@,
            ),
        decreases n - i,
    {
        match read_absolute_line(b, at) {
            Ok((v, next)) => {
                proof {
                    assert(items@.push(v) =~= items@.push(v));
                }
                items.push(v);
                at = next;
            },
            Err(e) => {
                return Err(e);
            },
        }
        i = i + 1;
    }
    Ok((items, at))
}

pub fn read_local_variables(b: &Vec<u8>, pos: usize) -> (r: Result<(Vec<LocalVariable>, usize), LoadError>)
    ensures
        match r {
            Ok((v, next)) => local_variables_at(b@, pos as int)
                == Ok::<(Seq<LocalVariableModel>, int), LoadError>(
                (locals_of(v@), next as int),
            ) && pos < next <= b@.len(),
            Err(e) => local_variables_at(b@, pos as int)
                == Err::<(Seq<LocalVariableModel>, int), LoadError>(e),
        },
{
    let (n, start) = match read_int(b, pos) {
        Ok(found) => found,
        Err(e) => return Err(e),
    };
    let mut items: Vec<LocalVariable> = Vec::new();
    let mut at: usize = start;
    let mut i: i32 = 0;
    assert(locals_of(items@) =~= Seq::<LocalVariableModel>::empty());
    while i < n
        invariant
            0 <= i <= n,
            pos < at <= b@.len(),
            local_variables_at(b@, pos as int) == items_from(
                local_variable_reader(),
                b@,
                at as int,
                (n - i) as nat,
                locals_of(items@),
            ),
        decreases n - i,
    {
        match read_local_variable(b, at) {
            Ok((v, next)) => {
                proof {
                    assert(locals_of(items@.push(v)) =~= locals_of(items@).push(v@));
                }
                items.push(v);
                at = next;
            },
            Err(e) => {
                return Err(e);
            },
        }
        i = i + 1;
    }
    Ok((items, at))
}

pub fn read_upvalue_names(b: &Vec<u8>, pos: usize) -> (r: Result<(Vec<Vec<u8>>, usize), LoadError>)
    ensures
        match r {
            Ok((v, next)) => upvalue_names_at(b@, pos as int)
                == Ok::<(Seq<Seq<u8>>, int), LoadError>(
                (names_of(v@), next as int),
            ) && pos < next <= b@.len(),
            Err(e) => upvalue_names_at(b@, pos as int) == Err::<(Seq<Seq<u8>>, int), LoadError>(e),
        },
{
    let (n, start) = match read_int(b, pos) {
        Ok(found) => found,
        Err(e) => return Err(e),
    };
    let mut items: Vec<Vec<u8>> = Vec::new();
    let mut at: usize = start;
    let mut i: i32 = 0;
    assert(names_of(items@) =~= Seq::<Seq<u8>>::empty());
    while i < n
        invariant
            0 <= i <= n,
            pos < at <= b@.len(),
            upvalue_names_at(b@, pos as int) == items_from(
                string_reader(),
                b@,
                at as int,
                (n - i) as nat,
                names_of(items@),
            ),
        decreases n - i,
    {
        match read_string(b, at) {
            Ok((v, next)) => {
                proof {
                    assert(names_of(items@.push(v)) =~= names_of(items@).push(v@));
                }
                items.push(v);
                at = next;
            },
            Err(e) => {
                return Err(e);
            },
        }
        i = i + 1;
    }
    Ok((items, at))
}

/// The debug records of a function, as read.
pub struct DebugRecords {
    pub line_info: Vec<u8>,
    pub abs_line_list: Vec<AbsoluteLine>,
    pub local_variable: Vec<LocalVariable>,
    pub upvalue_names: Vec<Vec<u8>>,
}

impl View for DebugRecords {
    type V = DebugModel;

    open spec fn view(&self) -> DebugModel {
        DebugModel {
            line_info: self.line_info@,
            abs_line_list: self.abs_line_list@,
            local_variable: locals_of(self.local_variable@),
            upvalue_names: names_of(self.upvalue_names@),
        }
    }
}

pub fn read_debug(b: &Vec<u8>, pos: usize) -> (r: Result<(DebugRecords, usize), LoadError>)
    ensures
        match r {
            Ok((v, next)) => debug_at(b@, pos as int) == Ok::<(DebugModel, int), LoadError>(
                (v@, next as int),
            ) && pos < next <= b@.len(),
            Err(e) => debug_at(b@, pos as int) == Err::<(DebugModel, int), LoadError>(e),
        },
{
    let (line_info, p1) = match read_line_info(b, pos) {
        Ok(found) => found,
        Err(e) => return Err(e),
    };
    let (abs_line_list, p2) = match read_absolute_list(b, p1) {
        Ok(found) => found,
        Err(e) => return Err(e),
    };
    let (local_variable, p3) = match read_local_variables(b, p2) {
        Ok(found) => found,
        Err(e) => return Err(e),
    };
    let (upvalue_names, p4) = match read_upvalue_names(b, p3) {
        Ok(found) => found,
        Err(e) => return Err(e),
    };
    Ok((DebugRecords { line_info, abs_line_list, local_variable, upvalue_names }, p4))
}

/// Reads the function at `pos` and the functions nested in it, at most `depth` levels.
pub fn read_prototype(b: &Vec<u8>, pos: usize, parent: &Vec<u8>, depth: usize) -> (r: Result<
    (Prototype, usize),
    LoadError,
>)
    ensures
        match r {
            Ok((v, next)) => prototype_at(b@, pos as int, parent@, depth as nat) == Ok::<
                (PrototypeModel, int),
                LoadError,
            >((v@, next as int)) && pos < next <= b@.len(),
            Err(e) => prototype_at(b@, pos as int, parent@, depth as nat) == Err::<
                (PrototypeModel, int),
                LoadError,
            >(e),
        },
    decreases depth, 0nat,
{
    if depth == 0 {
        return Err(LoadError::Truncated);
    }
    let (name, p1) = match read_string(b, pos) {
        Ok(found) => found,
        Err(e) => return Err(e),
    };
    let source = if name.len() == 0 {
        copy_bytes(parent)
    } else {
        name
    };
    let (line_defined, p2) = match read_int(b, p1) {
        Ok(found) => found,
        Err(e) => return Err(e),
    };
    let (last_line_defined, p3) = match read_int(b, p2) {
        Ok(found) => found,
        Err(e) => return Err(e),
    };
    let (num_params, p4) = match read_byte(b, p3) {
        Ok(found) => found,
        Err(e) => return Err(e),
    };
    let (is_vararg, p5) = match read_byte(b, p4) {
        Ok(found) => found,
        Err(e) => return Err(e),
    };
    let (max_statck_size, p6) = match read_byte(b, p5) {
        Ok(found) => found,
        Err(e) => return Err(e),
    };
    let (code, p7) = match read_code(b, p6) {
        Ok(found) => found,
        Err(e) => return Err(e),
    };
    let (constants, p8) = match read_constants(b, p7) {
        Ok(found) => found,
        Err(e) => return Err(e),
    };
    let (upvalues, p9) = match read_upvalues(b, p8) {
        Ok(found) => found,
        Err(e) => return Err(e),
    };
    let (prototypes, p10) = match read_prototypes(b, p9, &source, depth - 1) {
        Ok(found) => found,
        Err(e) => return Err(e),
    };
    let (debug, p11) = match read_debug(b, p10) {
        Ok(found) => found,
        Err(e) => return Err(e),
    };
    let proto = Prototype {
        source,
        line_defined,
        last_line_defined,
        num_params,
        is_vararg,
        max_statck_size,
        code,
        constants,
        upvalues,
        prototypes,
        line_info: debug.line_info,
        abs_line_list: debug.abs_line_list,
        local_variable: debug.local_variable,
        upvalue_names: debug.upvalue_names,
    };
    proof {
        lemma_prototype_view(proto);
        assert(proto@.constants =~= values_of(proto.constants@));
        assert(proto@.local_variable =~= locals_of(proto.local_variable@));
        assert(proto@.upvalue_names =~= names_of(proto.upvalue_names@));
    }
    Ok((proto, p11))
}

/// Reads the list of nested functions at `pos`, each at most `depth` levels deep.
pub fn read_prototypes(b: &Vec<u8>, pos: usize, parent: &Vec<u8>, depth: usize) -> (r: Result<
    (Vec<Prototype>, usize),
    LoadError,
>)
    ensures
        match r {
            Ok((v, next)) => prototypes_at(b@, pos as int, parent@, depth as nat) == Ok::<
                (Seq<PrototypeModel>, int),
                LoadError,
            >((prototypes_of(v@), next as int)) && pos < next <= b@.len(),
            Err(e) => prototypes_at(b@, pos as int, parent@, depth as nat) == Err::<
                (Seq<PrototypeModel>, int),
                LoadError,
            >(e),
        },
    decreases depth, 1nat,
{
    let (n, start) = match read_int(b, pos) {
        Ok(found) => found,
        Err(e) => return Err(e),
    };
    let mut items: Vec<Prototype> = Vec::new();
    let mut at: usize = start;
    let mut i: i32 = 0;
    assert(prototypes_of(items@) =~= Seq::<PrototypeModel>::empty());
    while i < n
        invariant
            0 <= i <= n,
            pos < at <= b@.len(),
            prototypes_at(b@, pos as int, parent@, depth as nat) == prototypes_from(
                b@,
                at as int,
                parent@,
                depth as nat,
                (n - i) as nat,
                prototypes_of(items@),
            ),
        decreases n - i,
    {
        match read_prototype(b, at, parent, depth) {
            Ok((v, next)) => {
                proof {
                    assert(prototypes_of(items@.push(v)) =~= prototypes_of(items@).push(v@));
                }
                items.push(v);
                at = next;
            },
            Err(e) => {
                return Err(e);
            },
        }
        i = i + 1;
    }
    Ok((items, at))
}

/// The 31 bytes of the one header that the loader accepts.
pub open spec fn header_bytes() -> Seq<u8> {
    seq![
        0x1Bu8, 0x4Cu8, 0x75u8, 0x61u8, 0x54u8, 0x00u8, 0x19u8, 0x93u8, 0x0Du8, 0x0Au8, 0x1Au8,
        0x0Au8, 0x04u8, 0x08u8, 0x08u8, 0x78u8, 0x56u8, 0x00u8, 0x00u8, 0x00u8, 0x00u8, 0x00u8,
        0x00u8, 0x00u8, 0x00u8, 0x00u8, 0x00u8, 0x00u8, 0x28u8, 0x77u8, 0x40u8,
    ]
}

/// The four signature bytes stand at `pos`.
pub open spec fn signature_at(b: Seq<u8>, pos: int) -> bool {
    b[pos] == 0x1B && b[pos + 1] == 0x4C && b[pos + 2] == 0x75 && b[pos + 3] == 0x61
}

/// The six conversion guard bytes stand at `pos`.
pub open spec fn guard_at(b: Seq<u8>, pos: int) -> bool {
    b[pos] == 0x19 && b[pos + 1] == 0x93 && b[pos + 2] == 0x0D && b[pos + 3] == 0x0A && b[pos
        + 4] == 0x1A && b[pos + 5] == 0x0A
}

/// The check of the header at `pos`: the position after the header, or the first fault.
/// The fields are checked in their order, and a field that the buffer ends in is
/// `Truncated`.
pub open spec fn header_at(b: Seq<u8>, pos: int) -> Result<int, LoadError> {
    if pos < 0 || pos + 4 > b.len() {
        Err(LoadError::Truncated)
    } else if !signature_at(b, pos) {
        Err(LoadError::BadSignature)
    } else if pos + 5 > b.len() {
        Err(LoadError::Truncated)
    } else if b[pos + 4] != 0x54 {
        Err(LoadError::BadVersion)
    } else if pos + 6 > b.len() {
        Err(LoadError::Truncated)
    } else if b[pos + 5] != 0 {
        Err(LoadError::BadFormat)
    } else if pos + 12 > b.len() {
        Err(LoadError::Truncated)
    } else if !guard_at(b, pos + 6) {
        Err(LoadError::Corrupted)
    } else if pos + 13 > b.len() {
        Err(LoadError::Truncated)
    } else if b[pos + 12] != 4 {
        Err(LoadError::BadInstructionSize)
    } else if pos + 14 > b.len() {
        Err(LoadError::Truncated)
    } else if b[pos + 13] != 8 {
        Err(LoadError::BadIntegerSize)
    } else if pos + 15 > b.len() {
        Err(LoadError::Truncated)
    } else if b[pos + 14] != 8 {
        Err(LoadError::BadNumberSize)
    } else {
        match integer_at(b, pos + 15) {
            Err(e) => Err(e),
            Ok((i, mid)) => if i != 0x5678 {
                Err(LoadError::BadEndianness)
            } else {
                match number_at(b, mid) {
                    Err(e) => Err(e),
                    Ok((n, next)) => if n != 0x4077_2800_0000_0000 {
                        Err(LoadError::BadFloatFormat)
                    } else {
                        Ok(next)
                    },
                }
            },
        }
    }
}

/// Checks the header at `pos` and returns the position after it.
pub fn check_header(b: &Vec<u8>, pos: usize) -> (r: Result<usize, LoadError>)
    ensures
        match r {
            Ok(next) => header_at(b@, pos as int) == Ok::<int, LoadError>(next as int) && next
                == pos + 31 && next <= b@.len(),
            Err(e) => header_at(b@, pos as int) == Err::<int, LoadError>(e),
        },
{
    if pos > b.len() {
        return Err(LoadError::Truncated);
    }
    let left: usize = b.len() - pos;
    if left < 4 {
        return Err(LoadError::Truncated);
    }
    if !(b[pos] == 0x1B && b[pos + 1] == 0x4C && b[pos + 2] == 0x75 && b[pos + 3] == 0x61) {
        return Err(LoadError::BadSignature);
    }
    if left < 5 {
        return Err(LoadError::Truncated);
    }
    if b[pos + 4] != 0x54 {
        return Err(LoadError::BadVersion);
    }
    if left < 6 {
        return Err(LoadError::Truncated);
    }
    if b[pos + 5] != 0 {
        return Err(LoadError::BadFormat);
    }
    if left < 12 {
        return Err(LoadError::Truncated);
    }
    if !(b[pos + 6] == 0x19 && b[pos + 7] == 0x93 && b[pos + 8] == 0x0D && b[pos + 9] == 0x0A
        && b[pos + 10] == 0x1A && b[pos + 11] == 0x0A) {
        return Err(LoadError::Corrupted);
    }
    if left < 13 {
        return Err(LoadError::Truncated);
    }
    if b[pos + 12] != 4 {
        return Err(LoadError::BadInstructionSize);
    }
    if left < 14 {
        return Err(LoadError::Truncated);
    }
    if b[pos + 13] != 8 {
        return Err(LoadError::BadIntegerSize);
    }
    if left < 15 {
        return Err(LoadError::Truncated);
    }
    if b[pos + 14] != 8 {
        return Err(LoadError::BadNumberSize);
    }
    let (i, mid) = match read_integer(b, pos + 15) {
        Ok(found) => found,
        Err(e) => return Err(e),
    };
    if i != 0x5678 {
        return Err(LoadError::BadEndianness);
    }
    let (n, next) = match read_number(b, mid) {
        Ok(found) => found,
        Err(e) => return Err(e),
    };
    if n != 0x4077_2800_0000_0000 {
        return Err(LoadError::BadFloatFormat);
    }
    Ok(next)
}

/// The bytes of the header.
pub fn write_header() -> (r: Vec<u8>)
    ensures
        r@ == header_bytes(),
{
    let r: Vec<u8> = vec![
        0x1B, 0x4C, 0x75, 0x61, 0x54, 0x00, 0x19, 0x93, 0x0D, 0x0A, 0x1A, 0x0A, 0x04, 0x08, 0x08,
        0x78, 0x56, 0x00, 0x00, 0x00, 0x00, 0x00, 0x00, 0x00, 0x00, 0x00, 0x00, 0x00, 0x28, 0x77,
        0x40,
    ];
    assert(r@ =~= header_bytes());
    r
}

/// A buffer that starts with the header passes the check, whatever follows: the check
/// ends at position 31.
pub proof fn lemma_header_round_trip(rest: Seq<u8>)
    ensures
        header_bytes().len() == 31,
        header_at(header_bytes() + rest, 0) == Ok::<int, LoadError>(31),
{
    let b = header_bytes() + rest;
    assert(header_bytes().len() == 31);
    assert forall|i: int| 0 <= i < 31 implies b[i] == header_bytes()[i] by {}
    assert(signature_at(b, 0));
    assert(guard_at(b, 6));
    assert(u32_at(b, 15) == Ok::<(u32, int), LoadError>((0x5678u32, 19)));
    assert(u32_at(b, 19) == Ok::<(u32, int), LoadError>((0u32, 23)));
    assert(u64_at(b, 15) == Ok::<(u64, int), LoadError>((0x5678u64, 23)));
    assert(u32_at(b, 23) == Ok::<(u32, int), LoadError>((0u32, 27)));
    assert(u32_at(b, 27) == Ok::<(u32, int), LoadError>((0x4077_2800u32, 31)));
    assert(u64_at(b, 23) == Ok::<(u64, int), LoadError>((0x4077_2800_0000_0000u64, 31)));
}

/// The 7-bit groups of `x`, most significant first, without the last one.
pub open spec fn leading_groups(x: nat) -> Seq<u8>
    decreases x,
{
    if x == 0 {
        Seq::<u8>::empty()
    } else {
        leading_groups(x / 128).push((x % 128) as u8)
    }
}

/// The bytes of a variable-length unsigned number: its 7-bit groups, most significant
/// first, the last one with the high bit set.
pub open spec fn unsigned_bytes(x: nat) -> Seq<u8> {
    leading_groups(x / 128).push((x % 128 + 128) as u8)
}

/// The bytes of a string: its length plus one as a size, then the bytes.
pub open spec fn string_bytes(s: Seq<u8>) -> Seq<u8> {
    unsigned_bytes(s.len() + 1) + s
}

fn push_groups(out: &mut Vec<u8>, x: u64)
    ensures
        final(out)@ == old(out)@ + leading_groups(x as nat),
    decreases x,
{
    if x != 0 {
        push_groups(out, x / 128);
        out.push((x % 128) as u8);
        assert(out@ =~= old(out)@ + leading_groups(x as nat));
    } else {
        assert(out@ =~= old(out)@ + leading_groups(0));
    }
}

/// Writes a variable-length unsigned number at the end of `out`.
pub fn write_unsigned(out: &mut Vec<u8>, x: u64)
    ensures
        final(out)@ == old(out)@ + unsigned_bytes(x as nat),
{
    push_groups(out, x / 128);
    out.push((x % 128 + 128) as u8);
    assert(out@ =~= old(out)@ + unsigned_bytes(x as nat));
}

/// Writes a string at the end of `out`: its size, then its bytes.
pub fn write_string(out: &mut Vec<u8>, s: &Vec<u8>)
    requires
        s@.len() < u64::MAX,
    ensures
        final(out)@ == old(out)@ + string_bytes(s@),
{
    write_unsigned(out, s.len() as u64 + 1);
    let ghost sized = out@;
    let mut i: usize = 0;
    while i < s.len()
        invariant
            i <= s.len(),
            out@ == sized + s@.take(i as int),
        decreases s.len() - i,
    {
        out.push(s[i]);
        i = i + 1;
        assert(s@.take(i as int) == s@.take(i - 1).push(s@[i - 1]));
        assert(out@ =~= sized + s@.take(i as int));
    }
    assert(s@.take(s.len() as int) == s@);
    assert(out@ =~= old(out)@ + string_bytes(s@));
}

/// Reading the groups of `y` that were written without the end mark: from the number
/// `0` the reader arrives at `y`, just behind the groups.
proof fn lemma_leading_groups_read(pre: Seq<u8>, y: nat, tail: Seq<u8>, cap: int)
    requires
        y < cap,
    ensures
        unsigned_from(pre + leading_groups(y) + tail, pre.len() as int, cap, 0) == unsigned_from(
            pre + leading_groups(y) + tail,
            (pre.len() + leading_groups(y).len()) as int,
            cap,
            y as int,
        ),
    decreases y,
{
    let b = pre + leading_groups(y) + tail;
    if y > 0 {
        let groups = leading_groups(y / 128);
        let last = seq![(y % 128) as u8];
        assert(leading_groups(y) =~= groups + last);
        assert(b =~= pre + groups + (last + tail));
        lemma_leading_groups_read(pre, y / 128, last + tail, cap);
        let at = (pre.len() + groups.len()) as int;
        assert(b[at] == (y % 128) as u8);
        assert(leading_groups(y).len() == groups.len() + 1);
        assert(tail.len() >= 0);
        assert(at < b.len());
    }
}

/// A number that was written is read back, wherever it stands: for every `x` whose
/// groups but the last stay below the limit's, reading the bytes of `x` under that
/// limit gives `x` and the position after those bytes.
pub proof fn lemma_unsigned_round_trip(pre: Seq<u8>, x: nat, rest: Seq<u8>, limit: u64)
    requires
        x / 128 < limit as int / 128,
    ensures
        unsigned_at(pre + unsigned_bytes(x) + rest, pre.len() as int, limit) == Ok::<
            (u64, int),
            LoadError,
        >((x as u64, (pre.len() + unsigned_bytes(x).len()) as int)),
        x <= u64::MAX,
{
    let b = pre + unsigned_bytes(x) + rest;
    let groups = leading_groups(x / 128);
    let last = seq![(x % 128 + 128) as u8];
    assert(unsigned_bytes(x) =~= groups + last);
    assert(b =~= pre + groups + (last + rest));
    lemma_leading_groups_read(pre, x / 128, last + rest, limit as int / 128);
    let at = (pre.len() + groups.len()) as int;
    assert(b[at] == (x % 128 + 128) as u8);
    assert(at < b.len());
}

/// Every number below 2^56 is read back under the limit of sizes.
pub proof fn lemma_unsigned_round_trip_56(x: nat, rest: Seq<u8>)
    requires
        x < 0x100_0000_0000_0000,
    ensures
        unsigned_at(unsigned_bytes(x) + rest, 0, SIZE_LIMIT) == Ok::<(u64, int), LoadError>(
            (x as u64, unsigned_bytes(x).len() as int),
        ),
{
    lemma_unsigned_round_trip(Seq::<u8>::empty(), x, rest, SIZE_LIMIT);
    assert(Seq::<u8>::empty() + unsigned_bytes(x) + rest =~= unsigned_bytes(x) + rest);
}

/// A string that was written is read back, wherever it stands.
pub proof fn lemma_string_round_trip(pre: Seq<u8>, s: Seq<u8>, rest: Seq<u8>)
    requires
        s.len() < 0x1_0000_0000,
    ensures
        string_at(pre + string_bytes(s) + rest, pre.len() as int) == Ok::<
            (Seq<u8>, int),
            LoadError,
        >((s, (pre.len() + string_bytes(s).len()) as int)),
{
    let b = pre + string_bytes(s) + rest;
    let size = unsigned_bytes(s.len() + 1);
    assert(b =~= pre + size + (s + rest));
    lemma_unsigned_round_trip(pre, s.len() + 1, s + rest, SIZE_LIMIT);
    let start = (pre.len() + size.len()) as int;
    assert(b.subrange(start, start + s.len()) =~= s);
}

/// The chunk that a buffer holds: the header, one byte with the number of upvalues of
/// the main function, and the main function, whose source name has nothing to fall
/// back on. What follows the main function is not looked at.
pub open spec fn chunk_at(b: Seq<u8>) -> Result<(u8, PrototypeModel), LoadError> {
    match header_at(b, 0) {
        Err(e) => Err(e),
        Ok(start) => match byte_at(b, start) {
            Err(e) => Err(e),
            Ok((sized_upvalues, at)) => match prototype_at(
                b,
                at,
                Seq::<u8>::empty(),
                (b.len() - at) as nat,
            ) {
                Err(e) => Err(e),
                Ok((main_func, _)) => Ok((sized_upvalues, main_func)),
            },
        },
    }
}

/// Loads a precompiled chunk from a buffer.
pub fn undump(b: &Vec<u8>) -> (r: Result<BinaryChunk, LoadError>)
    ensures
        match r {
            Ok(chunk) => chunk_at(b@) == Ok::<(u8, PrototypeModel), LoadError>(
                (chunk.sized_upvalues, chunk.main_func@),
            ) && chunk.header.is_canonical(),
            Err(e) => chunk_at(b@) == Err::<(u8, PrototypeModel), LoadError>(e),
        },
{
    let start = match check_header(b, 0) {
        Ok(found) => found,
        Err(e) => return Err(e),
    };
    let (sized_upvalues, at) = match read_byte(b, start) {
        Ok(found) => found,
        Err(e) => return Err(e),
    };
    let no_source: Vec<u8> = Vec::new();
    assert(no_source@ =~= Seq::<u8>::empty());
    let (main_func, _) = match read_prototype(b, at, &no_source, b.len() - at) {
        Ok(found) => found,
        Err(e) => return Err(e),
    };
    Ok(BinaryChunk { header: Header::canonical(), sized_upvalues, main_func })
}

} // verus!
