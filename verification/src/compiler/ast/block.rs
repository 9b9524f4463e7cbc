use vstd::prelude::*;
use super::expression::{first_expressions, Expression, ExpressionModel};
use super::statement::{
    first_statements, lemma_statements_push, statements_of, Statement, StatementModel,
};

verus! {

/// A block: statements in their order, and the expressions of its `return`, if it has
/// one.
#[derive(Debug, PartialEq)]
pub struct Block {
    pub statements: Vec<Statement>,
    pub return_expression: Vec<Expression>,
}

pub struct BlockModel {
    pub statements: Seq<StatementModel>,
    pub return_expression: Seq<ExpressionModel>,
}

impl View for Block {
    type V = BlockModel;

    open spec fn view(&self) -> BlockModel
        decreases self, 0nat,
    {
        BlockModel {
            statements: first_statements(self.statements, self.statements@.len()),
            return_expression: first_expressions(
                self.return_expression,
                self.return_expression@.len(),
            ),
        }
    }
}

impl Block {
    /// The block without statements.
    pub fn empty() -> (r: Block)
        ensures
            r@ == (BlockModel {
                statements: Seq::<StatementModel>::empty(),
                return_expression: Seq::<ExpressionModel>::empty(),
            }),
    {
        Block { statements: Vec::new(), return_expression: Vec::new() }
    }

    /// The block of one statement.
    pub fn only(statement: Statement) -> (r: Block)
        ensures
            r@ == (BlockModel {
                statements: seq![statement@],
                return_expression: Seq::<ExpressionModel>::empty(),
            }),
    {
        let mut statements: Vec<Statement> = Vec::new();
        let ghost before = statements;
        statements.push(statement);
        proof {
            lemma_statements_push(before, statements, statement);
            assert(statements_of(before).push(statement@) =~= seq![statement@]);
        }
        Block { statements, return_expression: Vec::new() }
    }
}

} // verus!
