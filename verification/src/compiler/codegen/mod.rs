pub mod codegen_block;
pub mod function_info;
pub mod linked_list;
