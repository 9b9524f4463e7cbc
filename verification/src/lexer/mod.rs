pub mod chunk_stream;
pub mod lexer;
pub mod utils;
