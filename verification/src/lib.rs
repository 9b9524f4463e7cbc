pub mod compiler;
pub mod lexer;
pub mod vm;
