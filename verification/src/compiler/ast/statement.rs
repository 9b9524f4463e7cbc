use vstd::prelude::*;
use super::block::{Block, BlockModel};
use super::expression::{expressions_of, names_of, Expression, ExpressionModel};

verus! {

/// A statement.
#[derive(Debug, PartialEq)]
pub enum Statement {
    EmptyStatement,
    BreakStatement,
    LabelStatement(String),
    GotoStatement(String),
    DotStatement(Block),
    WhileStatement(WhileStatement),
    RepeatStatement(RepeatStatement),
    IfStatement(IfStatement),
    ForStatement(ForStatement),
    ForInStatement(ForInStatement),
    LocalVarDeclareStatement(LocalVarDeclareStatement),
    AssignStatement(AssignStatement),
    LocalFunctionDefinedStatement(LocalFunctionDefinedStatement),
    FunctionCallStatement(Expression),
}

#[derive(Debug, PartialEq)]
pub struct WhileStatement {
    pub condition: Expression,
    pub block: Block,
}

#[derive(Debug, PartialEq)]
pub struct RepeatStatement {
    pub condition: Expression,
    pub block: Block,
}

#[derive(Debug, PartialEq)]
pub struct IfStatement {
    pub condition: Expression,
    pub then_block: Block,
    pub else_block: Block,
}

/// A numeric loop: the variable with its first value, the limit, the step and the
/// body. A loop without a step has the empty expression as its step.
#[derive(Debug, PartialEq)]
pub struct ForStatement {
    pub initial: Expression,
    pub condition: Expression,
    pub increment: Expression,
    pub block: Block,
}

/// A loop over what an iterator gives: the variables, the expressions that give the
/// iterator, and the body.
#[derive(Debug, PartialEq)]
pub struct ForInStatement {
    pub name_list: Vec<String>,
    pub exp_list: Vec<Expression>,
    pub block: Block,
}

#[derive(Debug, PartialEq)]
pub struct LocalVarDeclareStatement {
    pub name_list: Vec<String>,
    pub exp_list: Vec<Expression>,
}

#[derive(Debug, PartialEq)]
pub struct AssignStatement {
    pub var_list: Vec<Expression>,
    pub exp_list: Vec<Expression>,
}

#[derive(Debug, PartialEq)]
pub struct LocalFunctionDefinedStatement {
    pub name: String,
    pub exp: Expression,
}

pub enum StatementModel {
    Empty,
    Break,
    Label(Seq<char>),
    Goto(Seq<char>),
    Do(BlockModel),
    While(ExpressionModel, BlockModel),
    Repeat(ExpressionModel, BlockModel),
    If(ExpressionModel, BlockModel, BlockModel),
    For(ExpressionModel, ExpressionModel, ExpressionModel, BlockModel),
    ForIn(Seq<Seq<char>>, Seq<ExpressionModel>, BlockModel),
    Local(Seq<Seq<char>>, Seq<ExpressionModel>),
    Assign(Seq<ExpressionModel>, Seq<ExpressionModel>),
    LocalFunction(Seq<char>, ExpressionModel),
    Call(ExpressionModel),
}

/// The models of the first `n` statements of a vector.
pub open spec fn first_statements(v: Vec<Statement>, n: nat) -> Seq<StatementModel>
    decreases v, n,
{
    if n == 0 || n > v@.len() {
        Seq::<StatementModel>::empty()
    } else {
        first_statements(v, (n - 1) as nat).push(v@[n - 1]@)
    }
}

/// The models of a vector of statements.
pub open spec fn statements_of(v: Vec<Statement>) -> Seq<StatementModel> {
    first_statements(v, v@.len())
}

impl View for Statement {
    type V = StatementModel;

    open spec fn view(&self) -> StatementModel
        decreases self, 0nat,
    {
        match self {
            Statement::EmptyStatement => StatementModel::Empty,
            Statement::BreakStatement => StatementModel::Break,
            Statement::LabelStatement(s) => StatementModel::Label(s@),
            Statement::GotoStatement(s) => StatementModel::Goto(s@),
            Statement::DotStatement(b) => StatementModel::Do(b@),
            Statement::WhileStatement(s) => StatementModel::While(s.condition@, s.block@),
            Statement::RepeatStatement(s) => StatementModel::Repeat(s.condition@, s.block@),
            Statement::IfStatement(s) => StatementModel::If(
                s.condition@,
                s.then_block@,
                s.else_block@,
            ),
            Statement::ForStatement(s) => StatementModel::For(
                s.initial@,
                s.condition@,
                s.increment@,
                s.block@,
            ),
            Statement::ForInStatement(s) => StatementModel::ForIn(
                names_of(s.name_list@),
                super::expression::first_expressions(s.exp_list, s.exp_list@.len()),
                s.block@,
            ),
            Statement::LocalVarDeclareStatement(s) => StatementModel::Local(
                names_of(s.name_list@),
                super::expression::first_expressions(s.exp_list, s.exp_list@.len()),
            ),
            Statement::AssignStatement(s) => StatementModel::Assign(
                super::expression::first_expressions(s.var_list, s.var_list@.len()),
                super::expression::first_expressions(s.exp_list, s.exp_list@.len()),
            ),
            Statement::LocalFunctionDefinedStatement(s) => StatementModel::LocalFunction(
                s.name@,
                s.exp@,
            ),
            Statement::FunctionCallStatement(e) => StatementModel::Call(e@),
        }
    }
}

/// The models of the first statements depend on those statements only.
pub proof fn lemma_first_statements_same(v: Vec<Statement>, w: Vec<Statement>, n: nat)
    requires
        n <= v@.len(),
        n <= w@.len(),
        forall|i: int| 0 <= i < n ==> v@[i] == w@[i],
    ensures
        first_statements(v, n) == first_statements(w, n),
    decreases n,
{
    if n > 0 {
        lemma_first_statements_same(v, w, (n - 1) as nat);
    }
}

/// The models of a vector that has grown by one statement.
pub proof fn lemma_statements_push(v: Vec<Statement>, w: Vec<Statement>, s: Statement)
    requires
        w@ == v@.push(s),
    ensures
        statements_of(w) == statements_of(v).push(s@),
{
    lemma_first_statements_same(v, w, v@.len());
}

impl Statement {
    pub fn while_statement(condition: Expression, block: Block) -> (r: Statement)
        ensures
            r@ == StatementModel::While(condition@, block@),
    {
        Statement::WhileStatement(WhileStatement { condition, block })
    }

    pub fn repeat_statement(condition: Expression, block: Block) -> (r: Statement)
        ensures
            r@ == StatementModel::Repeat(condition@, block@),
    {
        Statement::RepeatStatement(RepeatStatement { condition, block })
    }

    pub fn if_statement(condition: Expression, then_block: Block, else_block: Block) -> (r:
        Statement)
        ensures
            r@ == StatementModel::If(condition@, then_block@, else_block@),
    {
        Statement::IfStatement(IfStatement { condition, then_block, else_block })
    }

    pub fn for_statement(
        initial: Expression,
        condition: Expression,
        increment: Expression,
        block: Block,
    ) -> (r: Statement)
        ensures
            r@ == StatementModel::For(initial@, condition@, increment@, block@),
    {
        Statement::ForStatement(ForStatement { initial, condition, increment, block })
    }

    pub fn for_in_statement(name_list: Vec<String>, exp_list: Vec<Expression>, block: Block) -> (r:
        Statement)
        ensures
            r@ == StatementModel::ForIn(names_of(name_list@), expressions_of(exp_list), block@),
    {
        Statement::ForInStatement(ForInStatement { name_list, exp_list, block })
    }

    pub fn function_call_statement(call: Expression) -> (r: Statement)
        ensures
            r@ == StatementModel::Call(call@),
    {
        Statement::FunctionCallStatement(call)
    }

    pub fn local_var_declare_statement(name_list: Vec<String>, exp_list: Vec<Expression>) -> (r:
        Statement)
        ensures
            r@ == StatementModel::Local(names_of(name_list@), expressions_of(exp_list)),
    {
        Statement::LocalVarDeclareStatement(LocalVarDeclareStatement { name_list, exp_list })
    }

    pub fn assign_statement(var_list: Vec<Expression>, exp_list: Vec<Expression>) -> (r: Statement)
        ensures
            r@ == StatementModel::Assign(expressions_of(var_list), expressions_of(exp_list)),
    {
        Statement::AssignStatement(AssignStatement { var_list, exp_list })
    }

    pub fn local_function_defined_statement(name: String, exp: Expression) -> (r: Statement)
        ensures
            r@ == StatementModel::LocalFunction(name@, exp@),
    {
        Statement::LocalFunctionDefinedStatement(LocalFunctionDefinedStatement { name, exp })
    }
}

} // verus!
