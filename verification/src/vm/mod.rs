pub mod arith;
pub mod binary_chunk;
pub mod error;
pub mod instruction;
pub mod lua_stack;
pub mod lua_state;
pub mod lua_value;
pub mod lua_vm;
pub mod number;
pub mod op_code;
pub mod reader;
pub mod undump;
