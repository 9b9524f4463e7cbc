pub mod ast;
pub mod codegen;
pub mod lexer;
pub mod parser;
