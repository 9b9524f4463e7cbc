pub mod grammar;
pub mod parse;
pub mod parse_expression;
pub mod parse_statement;
pub mod parse_table_constructor_expression;
pub mod parser;
