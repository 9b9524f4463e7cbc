use crescent::vm::binary_chunk::{Header, Prototype, HEADER_SIZE, LUAC_NUM};
use crescent::vm::error::LoadError;
use crescent::vm::lua_value::LuaValue;
use crescent::vm::reader::LuaChunkReader;
use crescent::vm::undump::{
    check_header, read_string, read_unsigned, undump, write_header, write_string, write_unsigned,
    INT_LIMIT, SIZE_LIMIT,
};

fn fn_test_bytes() -> [u8; 3] {
    [1, 2, 5]
}

fn header() -> Vec<u8> {
    vec![
        0x1B, 0x4C, 0x75, 0x61, 0x54, 0x00, 0x19, 0x93, 0x0D, 0x0A, 0x1A, 0x0A, 0x04, 0x08, 0x08,
        0x78, 0x56, 0x00, 0x00, 0x00, 0x00, 0x00, 0x00, 0x00, 0x00, 0x00, 0x00, 0x00, 0x28, 0x77,
        0x40,
    ]
}

fn declare_a_variable() -> Vec<u8> {
    vec![
        0x1B, 0x4C, 0x75, 0x61, 0x54, 0x00, 0x19, 0x93, 0x0D, 0x0A, 0x1A, 0x0A, 0x04, 0x08, 0x08,
        0x78, 0x56, 0x00, 0x00, 0x00, 0x00, 0x00, 0x00, 0x00, 0x00, 0x00, 0x00, 0x00, 0x28, 0x77,
        0x40, 0x01, 0x87, 0x40, 0x61, 0x2E, 0x6C, 0x75, 0x61, 0x80, 0x80, 0x00, 0x01, 0x02, 0x83,
        0x51, 0x00, 0x00, 0x00, 0x08, 0x00, 0x00, 0x00, 0xC6, 0x00, 0x01, 0x01, 0x80, 0x81, 0x01,
        0x00, 0x00, 0x80, 0x83, 0x01, 0x00, 0x00, 0x80, 0x81, 0x82, 0x61, 0x82, 0x83, 0x81, 0x85,
        0x5F, 0x45, 0x4E, 0x56,
    ]
}

fn hello_word_program() -> Vec<u8> {
    vec![
        0x1B, 0x4C, 0x75, 0x61, // magic number ==> .Lua
        0x54, // lua version
        0x00, // format
        0x19, 0x93, 0x0D, 0x0A, 0x1A, 0x0A, // 1993 CR NL SUB NL
        0x04, // instruction size
        0x08, // integer size
        0x08, // number size
        0x78, 0x56, 0x00, 0x00, 0x00, 0x00, 0x00, 0x00, // lua int 0x5678
        0x00, 0x00, 0x00, 0x00, 0x00, 0x28, 0x77, 0x40, // lua number 370.5
        0x01, // upvalues of the main function
        0x92, 0x40, 0x2E, 0x2F, // @./
        // helle_word.lua
        0x68, 0x65, 0x6C, 0x6C, 0x6F, 0x5F, 0x77, 0x6F, 0x72, 0x64, 0x2E, 0x6C, 0x75, 0x61,
        0x80, // line define
        0x80, // last line defined
        0x00, // num params
        0x01, // is_vararg
        0x02, // max stack size
        0x85, // count of codes
        // 5 instructions
        0x51, 0x00, 0x00, 0x00, 0x0B, 0x00, 0x00, 0x00, 0x83, 0x80, 0x00, 0x00, 0x44, 0x00, 0x02,
        0x01, 0x46, 0x00, 0x01, 0x01, 0x82, // count of constant
        0x04, 0x86, 0x70, 0x72, 0x69, 0x6E, 0x74, 0x04, // print
        0x8C, 0x48, 0x65, 0x6C, 0x6C, 0x6F, 0x2C, 0x20, 0x4C, 0x75, 0x61, 0x21,
        0x81, // count of upvalue
        0x01, // instack
        0x00, 0x00, // index and kind
        0x80, // function prototype count
        0x85, // count of line info
        0x01, 0x00, 0x00, 0x00, 0x00, // list of line info
        0x80, // absolute line count
        0x80, // local variable count
        0x81, // upvalue name count
        0x85, 0x5F, 0x45, 0x4E, 0x56, // _ENV
    ]
}

fn echo_function_program() -> Vec<u8> {
    vec![
        0x1B, 0x4C, 0x75, 0x61, 0x54, 0x00, 0x19, 0x93, 0x0D, 0x0A, 0x1A, 0x0A, 0x04, 0x08, 0x08,
        0x78, 0x56, 0x00, 0x00, 0x00, 0x00, 0x00, 0x00, 0x00, 0x00, 0x00, 0x00, 0x00, 0x28, 0x77,
        0x40, 0x01, 0x90, 0x40, 0x68, 0x65, 0x6C, 0x6C, 0x6F, 0x5F, 0x77, 0x6F, 0x72, 0x64, 0x2E,
        0x6C, 0x75, 0x61, // main function
        0x80, 0x80, 0x00, 0x01, 0x02, 0x87, // instructions
        0x51, 0x00, 0x00, 0x00, 0x4F, 0x00, 0x00, 0x00, 0x0F, 0x00, 0x00, 0x00, 0x0B, 0x00, 0x00,
        0x00, 0x83, 0x80, 0x00, 0x00, 0x44, 0x00, 0x02, 0x01, 0x46, 0x00, 0x01, 0x01, 0x82, 0x04,
        0x85, 0x65, 0x63, 0x68, 0x6F, 0x04, 0x84, 0x4C, 0x75, 0x61, 0x81, 0x01, 0x00, 0x00,
        // function prototype start
        0x81, 0x80, 0x81, 0x83, 0x01, 0x00, 0x03, 0x86, // constants
        0x8B, 0x00, 0x00, 0x00, 0x03, 0x81, 0x00, 0x00, 0x22, 0x01, 0x02, 0x00, 0x2E, 0x01, 0x00,
        0x06, 0xC4, 0x00, 0x02, 0x01, 0xC7, 0x00, 0x01, 0x00, 0x82, 0x04, // type string
        0x86, // string len 6
        0x70, 0x72, 0x69, 0x6E, 0x74, // print
        0x04, 0x88, // string 4
        0x48, 0x65, 0x6C, 0x6C, 0x6F, // hello
        0x2C, 0x20, 0x81, // upvalue count 2
        0x00, 0x00, 0x00,
        // ======== inner prototype end ========
        // function prototype 0
        0x80, 0x86, // line info
        0x01, 0x00, 0x00, 0x00, 0x00, 0x01, 0x80, // abs line info
        0x81, // local variable 1
        0x85, 0x6E, 0x61, 0x6D, 0x65, // name
        0x80, // start pc
        0x86, // end pc
        0x81, // up names 1
        0x85, // string len 5
        0x5F, 0x45, 0x4E, 0x56,
        // ======== inner prototype end ========
        // rest prototype defintion
        0x87, 0x01, 0x02, 0xFE, 0x04, 0x00, 0x00, 0x00, 0x80, 0x80, 0x81, 0x85, 0x5F, 0x45, 0x4E,
        0x56,
    ]
}

fn read_main(bytes: Vec<u8>) -> Prototype {
    let mut reader = LuaChunkReader::new(bytes);
    reader.check_header().unwrap();
    reader.read_byte().unwrap();
    reader.read_function_prototype(Vec::new()).unwrap()
}

#[test]
fn fn_test() {
    let a = fn_test_bytes();
    assert_eq!(a.len(), 3);
}

#[test]
fn reader_test_declare_a_variable() {
    let proto = read_main(declare_a_variable());
    println!("{:#?}", proto);
    assert_eq!(proto.source, b"@a.lua".to_vec());
    assert_eq!(proto.max_statck_size, 2);
    assert_eq!(proto.code, vec![81, 8, 16842950]);
    assert_eq!(proto.constants.len(), 0);
    assert_eq!(proto.upvalues.len(), 1);
    assert_eq!(proto.upvalues[0].instack, 1);
    assert_eq!(proto.upvalues[0].index, 0);
    assert_eq!(proto.upvalues[0].kind, 0);
    assert_eq!(proto.line_info, vec![1, 0, 0]);
    assert_eq!(proto.local_variable.len(), 1);
    assert_eq!(proto.local_variable[0].var_name, b"a".to_vec());
    assert_eq!(proto.local_variable[0].start_pc, 2);
    assert_eq!(proto.local_variable[0].end_pc, 3);
    assert_eq!(proto.upvalue_names, vec![b"_ENV".to_vec()]);
}

#[test]
fn test_hello_word_program() {
    let mut reader = LuaChunkReader::new(hello_word_program());
    reader.check_header().unwrap();
    reader.read_byte().unwrap();
    let proto = reader.read_function_prototype(Vec::new()).unwrap();
    println!("{:?}", proto);
    assert_eq!(proto.source, b"@./hello_word.lua".to_vec());
    assert_eq!(proto.is_vararg, 1);
    match proto.constants.get(0).unwrap() {
        LuaValue::String(str) => assert_eq!(str, &b"print".to_vec()),
        _ => panic!("not print string"),
    }
    assert_eq!(proto.upvalue_names[0], b"_ENV".to_vec());
    assert_eq!(proto.constants[1], LuaValue::String(b"Hello, Lua!".to_vec()));
    assert_eq!(proto.code.len(), 5);
    assert_eq!(reader.index, reader.buffer.len());
    assert_eq!(reader.debug_byte, 0x56);
}

#[test]
fn test_echo_function() {
    let proto = read_main(echo_function_program());
    println!("{:#?}", proto);
    assert_eq!(proto.source, b"@hello_word.lua".to_vec());
    assert_eq!(proto.code.len(), 7);
    assert_eq!(proto.prototypes.len(), 1);
    let inner = &proto.prototypes[0];
    // an inner function without a source name takes that of the function around it
    assert_eq!(inner.source, b"@hello_word.lua".to_vec());
    assert_eq!(inner.line_defined, 1);
    assert_eq!(inner.last_line_defined, 3);
    assert_eq!(inner.num_params, 1);
    assert_eq!(inner.max_statck_size, 3);
    assert_eq!(inner.code.len(), 6);
    assert_eq!(inner.constants[0], LuaValue::String(b"print".to_vec()));
    assert_eq!(inner.constants[1], LuaValue::String(b"Hello, ".to_vec()));
    assert_eq!(inner.local_variable[0].var_name, b"name".to_vec());
    assert_eq!(inner.local_variable[0].end_pc, 6);
    assert_eq!(inner.line_info, vec![1, 0, 0, 0, 0, 1]);
    assert_eq!(proto.line_info, vec![1, 2, 0xFE, 4, 0, 0, 0]);
    assert_eq!(proto.constants[0], LuaValue::String(b"echo".to_vec()));
}

#[test]
fn test_read_size() {
    let proto = read_main(vec![
        0x1B, 0x4C, 0x75, 0x61, 0x54, 0x00, 0x19, 0x93, 0x0D, 0x0A, 0x1A, 0x0A, 0x04, 0x08, 0x08,
        0x78, 0x56, 0x00, 0x00, 0x00, 0x00, 0x00, 0x00, 0x00, 0x00, 0x00, 0x00, 0x00, 0x28, 0x77,
        0x40, 0x01, 0x87, 0x40, 0x61, 0x2E, 0x6C, 0x75, 0x61, 0x80, 0x80, 0x00, 0x01, 0x03, 0x87,
        0x51, 0x00, 0x00, 0x00, 0x01, 0x00, 0x00, 0x80, 0x81, 0x80, 0x00, 0x80, 0x08, 0x01, 0x00,
        0x00, 0x22, 0x01, 0x00, 0x01, 0x2E, 0x00, 0x01, 0x06, 0xC6, 0x01, 0x01, 0x01, 0x80, 0x81,
        0x01, 0x00, 0x00, 0x80, 0x87, 0x01, 0x00, 0x00, 0x00, 0x00, 0x00, 0x00, 0x80, 0x83, 0x82,
        0x61, 0x84, 0x87, 0x82, 0x62, 0x84, 0x87, 0x82, 0x63, 0x84, 0x87, 0x81, 0x85, 0x5F, 0x45,
        0x4E, 0x56,
    ]);
    println!("{:#?}", proto);
    assert_eq!(proto.code.len(), 7);
    assert_eq!(proto.max_statck_size, 3);
    assert_eq!(proto.local_variable.len(), 3);
    assert_eq!(proto.local_variable[2].var_name, b"c".to_vec());
    assert_eq!(proto.local_variable[2].start_pc, 4);
    assert_eq!(proto.local_variable[2].end_pc, 7);
}

#[test]
fn test_header_round_trip() {
    let written = write_header();
    assert_eq!(written, header());
    assert_eq!(written.len(), HEADER_SIZE);
    assert_eq!(check_header(&written, 0), Ok(31));
    let mut reader = LuaChunkReader::new(written);
    assert_eq!(reader.check_header(), Ok(()));
    assert_eq!(reader.index, 31);
    assert_eq!(reader.debug_byte, 0x40);
    assert_eq!(LUAC_NUM, 370.5f64.to_bits());
    assert_eq!(Header::canonical().luac_num, 370.5f64.to_bits());
    assert_eq!(Header::canonical().luac_int, 0x5678);
}

#[test]
fn test_header_faults() {
    let cases: [(usize, u8, LoadError); 9] = [
        (0, 0x1C, LoadError::BadSignature),
        (4, 0x53, LoadError::BadVersion),
        (5, 0x01, LoadError::BadFormat),
        (8, 0x0A, LoadError::Corrupted),
        (12, 0x08, LoadError::BadInstructionSize),
        (13, 0x04, LoadError::BadIntegerSize),
        (14, 0x04, LoadError::BadNumberSize),
        (16, 0x57, LoadError::BadEndianness),
        (30, 0x41, LoadError::BadFloatFormat),
    ];
    for (at, byte, fault) in cases {
        let mut bytes = header();
        bytes[at] = byte;
        assert_eq!(check_header(&bytes, 0), Err(fault));
        let mut reader = LuaChunkReader::new(bytes);
        assert_eq!(reader.check_header(), Err(fault));
        assert_eq!(reader.index, 0);
    }
    for cut in 0..31 {
        let bytes: Vec<u8> = header()[..cut].to_vec();
        assert_eq!(check_header(&bytes, 0), Err(LoadError::Truncated));
    }
    assert_eq!(LoadError::BadSignature.description(), "Not a precompiled chunk!");
    assert_eq!(LoadError::BadFloatFormat.description(), "float format mismatch!");
}

#[test]
fn test_variable_unsigned() {
    for x in [0u64, 1, 127, 128, 129, 16383, 16384, 0x5678, u32::MAX as u64, (1 << 56) - 1] {
        let mut bytes = Vec::new();
        write_unsigned(&mut bytes, x);
        let n = bytes.len();
        bytes.push(0x55);
        assert_eq!(read_unsigned(&bytes, 0, SIZE_LIMIT), Ok((x, n)));
    }
    let mut bytes = Vec::new();
    write_unsigned(&mut bytes, 0);
    assert_eq!(bytes, vec![0x80]);
    bytes.clear();
    write_unsigned(&mut bytes, 18);
    assert_eq!(bytes, vec![0x92]);
    bytes.clear();
    write_unsigned(&mut bytes, 300);
    assert_eq!(bytes, vec![0x02, 0xAC]);
    assert_eq!(read_unsigned(&Vec::new(), 0, SIZE_LIMIT), Err(LoadError::Truncated));
    assert_eq!(read_unsigned(&vec![0x01, 0x02], 0, SIZE_LIMIT), Err(LoadError::Truncated));
    // a count stops where its groups but the last reach those of the limit
    let mut big = Vec::new();
    write_unsigned(&mut big, 1 << 31);
    assert_eq!(read_unsigned(&big, 0, INT_LIMIT), Err(LoadError::IntegerOverflow));
    let mut over = Vec::new();
    write_unsigned(&mut over, 2147483520);
    assert_eq!(read_unsigned(&over, 0, INT_LIMIT), Err(LoadError::IntegerOverflow));
    let mut most = Vec::new();
    write_unsigned(&mut most, 2147483519);
    assert_eq!(read_unsigned(&most, 0, INT_LIMIT), Ok((2147483519, 5)));
    let mut reader = LuaChunkReader::new(big);
    assert_eq!(reader.read_int(), Err(LoadError::IntegerOverflow));
    assert_eq!(reader.index, 0);
    assert_eq!(reader.read_size(), Ok(1 << 31));
}

#[test]
fn test_string_round_trip() {
    for s in [&b""[..], &b"a"[..], &b"@./hello_word.lua"[..], &[0u8, 255, 128, 10][..]] {
        let mut bytes = vec![7u8];
        write_string(&mut bytes, &s.to_vec());
        let n = bytes.len();
        bytes.push(0x99);
        assert_eq!(read_string(&bytes, 1), Ok((s.to_vec(), n)));
    }
    let long: Vec<u8> = (0..1000).map(|i| (i % 251) as u8).collect();
    let mut bytes = Vec::new();
    write_string(&mut bytes, &long);
    assert_eq!(bytes.len(), 1002);
    assert_eq!(read_string(&bytes, 0), Ok((long, 1002)));
    // size 0 is the empty string too
    assert_eq!(read_string(&vec![0x80], 0), Ok((Vec::new(), 1)));
    assert_eq!(read_string(&vec![0x83, b'a'], 0), Err(LoadError::Truncated));
}

#[test]
fn test_reader_primitives() {
    let mut reader = LuaChunkReader::new(vec![
        0x2A, 0x78, 0x56, 0x34, 0x12, 0xFF, 0xFF, 0xFF, 0xFF, 0xFF, 0xFF, 0xFF, 0xFF, 0x00, 0x00,
        0x00, 0x00, 0x00, 0x28, 0x77, 0x40, 0x01, 0x02, 0x03,
    ]);
    assert_eq!(reader.read_byte(), Ok(0x2A));
    assert_eq!(reader.debug_byte, 0x2A);
    assert_eq!(reader.read_u32(), Ok(0x12345678));
    assert_eq!(reader.read_integer(), Ok(-1));
    assert_eq!(reader.read_number(), Ok(370.5f64.to_bits()));
    assert_eq!(reader.read_bytes(2), Ok(vec![1, 2]));
    assert_eq!(reader.read_uint64(), Err(LoadError::Truncated));
    assert_eq!(reader.index, 23);
    assert_eq!(reader.read_bytes(2), Err(LoadError::Truncated));
    assert_eq!(reader.read_byte(), Ok(3));
    assert_eq!(reader.read_byte(), Err(LoadError::Truncated));
    assert_eq!(reader.read(&[9, 9, 9]), Err(LoadError::Truncated));
    assert_eq!(reader.buffer, vec![9, 9, 9]);
}

#[test]
fn test_read_constants() {
    let mut reader = LuaChunkReader::new(vec![
        0x86, 0x00, 0x01, 0x11, 0x03, 0xFE, 0xFF, 0xFF, 0xFF, 0xFF, 0xFF, 0xFF, 0xFF, 0x13, 0x00,
        0x00, 0x00, 0x00, 0x00, 0x00, 0xF0, 0x3F, 0x14, 0x83, b'h', b'i', 0x05,
    ]);
    assert_eq!(
        reader.read_constants(),
        Ok(vec![
            LuaValue::Nil,
            LuaValue::Boolean(false),
            LuaValue::Boolean(true),
            LuaValue::Integer(-2),
            LuaValue::Number(1.0f64.to_bits()),
            LuaValue::String(b"hi".to_vec()),
        ])
    );
    assert_eq!(reader.read_constant(), Err(LoadError::UnknownConstantTag(5)));
    let mut short = LuaChunkReader::new(vec![0x82, 0x00]);
    assert_eq!(short.read_constants(), Err(LoadError::Truncated));
    assert_eq!(short.index, 0);
}

#[test]
fn test_read_lists() {
    let mut reader = LuaChunkReader::new(vec![
        0x82, 0x01, 0x00, 0x00, 0x00, 0x02, 0x00, 0x00, 0x00, // code
        0x82, 0x01, 0x02, 0x00, 0x00, 0x03, 0x01, // upvalues
        0x83, 0x07, 0x08, 0x09, // line info
        0x81, 0x05, 0x00, 0x00, 0x00, 0x06, 0x00, 0x00, 0x00, // absolute lines
        0x81, 0x82, b'v', 0x81, 0x84, // locals
        0x82, 0x82, b'a', 0x80, // names
        0x80, // no functions
    ]);
    assert_eq!(reader.read_code(), Ok(vec![1, 2]));
    let upvalues = reader.read_upvalues().unwrap();
    assert_eq!(upvalues.len(), 2);
    assert_eq!((upvalues[0].instack, upvalues[0].index, upvalues[0].kind), (1, 2, 0));
    assert_eq!((upvalues[1].instack, upvalues[1].index, upvalues[1].kind), (0, 3, 1));
    assert_eq!(reader.read_line_info(), Ok(vec![7, 8, 9]));
    let lines = reader.read_absolute_list().unwrap();
    assert_eq!((lines[0].pc, lines[0].line), (5, 6));
    let locals = reader.read_local_variables().unwrap();
    assert_eq!(locals[0].var_name, b"v".to_vec());
    assert_eq!((locals[0].start_pc, locals[0].end_pc), (1, 4));
    assert_eq!(reader.read_upvalue_names(), Ok(vec![b"a".to_vec(), Vec::new()]));
    assert_eq!(reader.read_function_prototypes(Vec::new()).unwrap().len(), 0);
    assert_eq!(reader.index, reader.buffer.len());
}

#[test]
fn test_undump() {
    let chunk = undump(&hello_word_program()).unwrap();
    assert_eq!(chunk.sized_upvalues, 1);
    assert_eq!(chunk.header, Header::canonical());
    assert_eq!(chunk.main_func.source, b"@./hello_word.lua".to_vec());
    let mut cut = hello_word_program();
    cut.pop();
    assert!(matches!(undump(&cut), Err(LoadError::Truncated)));
    assert!(matches!(undump(&header()), Err(LoadError::Truncated)));
    assert!(matches!(undump(&vec![0x1B, b'L', b'u', b'b']), Err(LoadError::BadSignature)));
    let inner = undump(&echo_function_program()).unwrap();
    assert_eq!(inner.main_func.prototypes.len(), 1);
}
