pub mod block;
pub mod expression;
pub mod node;
pub mod statement;
