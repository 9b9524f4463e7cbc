use vstd::prelude::*;
use super::block::{Block, BlockModel};

verus! {

/// An expression.
#[derive(Debug, PartialEq)]
pub enum Expression {
    EmptyExpression,
    NilExpression,
    TrueExpression,
    FalseExpression,
    VarargExpression,
    IntegerExpression(i64),
    /// A numeral that writes no integer, as it stands in the text.
    FloatExpresion(String),
    StringExpression(String),
    NameString(String),
    UnaryExpression(UnaryExpression),
    BinaryExpression(BinaryExpression),
    ConcatExpression(ConcatExpression),
    TableConstructorExpression(TableConstructorExpression),
    FunctionDefinedExpression(FunctionDefinedExpression),
    ParenthesisExpression(ParenthesisExpression),
    TableAccessExpression(TableAccessExpression),
    FunctionCallExpression(FunctionCallExpression),
}

#[derive(Debug, PartialEq)]
pub struct UnaryExpression {
    pub operator: String,
    pub exp: Box<Expression>,
}

#[derive(Debug, PartialEq)]
pub struct BinaryExpression {
    pub operator: String,
    pub exp_l: Box<Expression>,
    pub exp_r: Box<Expression>,
}

#[derive(Debug, PartialEq)]
pub struct ConcatExpression {
    pub exps: Vec<Expression>,
}

/// A table constructor: the keys and the values of its fields, field by field. A field
/// without a key has the nil expression as its key.
#[derive(Debug, PartialEq)]
pub struct TableConstructorExpression {
    pub key_exps: Vec<Expression>,
    pub value_exps: Vec<Expression>,
}

#[derive(Debug, PartialEq)]
pub struct FunctionDefinedExpression {
    pub param_list: Vec<String>,
    pub is_vararg: bool,
    pub block: Block,
}

#[derive(Debug, PartialEq)]
pub struct ParenthesisExpression {
    pub exp: Box<Expression>,
}

#[derive(Debug, PartialEq)]
pub struct TableAccessExpression {
    pub prefix_exp: Box<Expression>,
    pub key_exp: Box<Expression>,
}

/// A call: the called expression, the name of the method (empty for a plain call) and
/// the arguments.
#[derive(Debug, PartialEq)]
pub struct FunctionCallExpression {
    pub prefix_exp: Box<Expression>,
    pub name_exp: Box<Expression>,
    pub args: Vec<Expression>,
}

/// What an expression stands for: the same tree with texts and lists as sequences.
pub enum ExpressionModel {
    Empty,
    Nil,
    True,
    False,
    Vararg,
    Integer(i64),
    Float(Seq<char>),
    String(Seq<char>),
    Name(Seq<char>),
    Unary(Seq<char>, Box<ExpressionModel>),
    Binary(Seq<char>, Box<ExpressionModel>, Box<ExpressionModel>),
    Concat(Seq<ExpressionModel>),
    Table(Seq<ExpressionModel>, Seq<ExpressionModel>),
    Function(Seq<Seq<char>>, bool, Box<BlockModel>),
    Parenthesis(Box<ExpressionModel>),
    Access(Box<ExpressionModel>, Box<ExpressionModel>),
    Call(Box<ExpressionModel>, Box<ExpressionModel>, Seq<ExpressionModel>),
}

/// The texts of a vector of names.
pub open spec fn names_of(v: Seq<String>) -> Seq<Seq<char>> {
    v.map_values(|s: String| s@)
}

/// The models of the first `n` expressions of a vector.
pub open spec fn first_expressions(v: Vec<Expression>, n: nat) -> Seq<ExpressionModel>
    decreases v, n,
{
    if n == 0 || n > v@.len() {
        Seq::<ExpressionModel>::empty()
    } else {
        first_expressions(v, (n - 1) as nat).push(v@[n - 1]@)
    }
}

/// The models of a vector of expressions.
pub open spec fn expressions_of(v: Vec<Expression>) -> Seq<ExpressionModel> {
    first_expressions(v, v@.len())
}

impl View for Expression {
    type V = ExpressionModel;

    open spec fn view(&self) -> ExpressionModel
        decreases self, 0nat,
    {
        match self {
            Expression::EmptyExpression => ExpressionModel::Empty,
            Expression::NilExpression => ExpressionModel::Nil,
            Expression::TrueExpression => ExpressionModel::True,
            Expression::FalseExpression => ExpressionModel::False,
            Expression::VarargExpression => ExpressionModel::Vararg,
            Expression::IntegerExpression(i) => ExpressionModel::Integer(*i),
            Expression::FloatExpresion(s) => ExpressionModel::Float(s@),
            Expression::StringExpression(s) => ExpressionModel::String(s@),
            Expression::NameString(s) => ExpressionModel::Name(s@),
            Expression::UnaryExpression(e) => ExpressionModel::Unary(
                e.operator@,
                Box::new((*e.exp)@),
            ),
            Expression::BinaryExpression(e) => ExpressionModel::Binary(
                e.operator@,
                Box::new((*e.exp_l)@),
                Box::new((*e.exp_r)@),
            ),
            Expression::ConcatExpression(e) => ExpressionModel::Concat(
                first_expressions(e.exps, e.exps@.len()),
            ),
            Expression::TableConstructorExpression(e) => ExpressionModel::Table(
                first_expressions(e.key_exps, e.key_exps@.len()),
                first_expressions(e.value_exps, e.value_exps@.len()),
            ),
            Expression::FunctionDefinedExpression(e) => ExpressionModel::Function(
                names_of(e.param_list@),
                e.is_vararg,
                Box::new(e.block@),
            ),
            Expression::ParenthesisExpression(e) => ExpressionModel::Parenthesis(
                Box::new((*e.exp)@),
            ),
            Expression::TableAccessExpression(e) => ExpressionModel::Access(
                Box::new((*e.prefix_exp)@),
                Box::new((*e.key_exp)@),
            ),
            Expression::FunctionCallExpression(e) => ExpressionModel::Call(
                Box::new((*e.prefix_exp)@),
                Box::new((*e.name_exp)@),
                first_expressions(e.args, e.args@.len()),
            ),
        }
    }
}

/// The models of a vector that has grown by one expression.
pub proof fn lemma_expressions_push(v: Vec<Expression>, w: Vec<Expression>, e: Expression)
    requires
        w@ == v@.push(e),
    ensures
        expressions_of(w) == expressions_of(v).push(e@),
{
    lemma_first_expressions_same(v, w, v@.len());
}

/// The models of the first expressions depend on those expressions only.
pub proof fn lemma_first_expressions_same(v: Vec<Expression>, w: Vec<Expression>, n: nat)
    requires
        n <= v@.len(),
        n <= w@.len(),
        forall|i: int| 0 <= i < n ==> v@[i] == w@[i],
    ensures
        first_expressions(v, n) == first_expressions(w, n),
    decreases n,
{
    if n > 0 {
        lemma_first_expressions_same(v, w, (n - 1) as nat);
    }
}

/// The models of a vector of expressions, one by one.
pub proof fn lemma_expressions_index(v: Vec<Expression>)
    ensures
        expressions_of(v).len() == v@.len(),
        forall|i: int| 0 <= i < v@.len() ==> #[trigger] expressions_of(v)[i] == v@[i]@,
{
    lemma_first_expressions_index(v, v@.len());
}

pub proof fn lemma_first_expressions_index(v: Vec<Expression>, n: nat)
    requires
        n <= v@.len(),
    ensures
        first_expressions(v, n).len() == n,
        forall|i: int| 0 <= i < n ==> #[trigger] first_expressions(v, n)[i] == v@[i]@,
    decreases n,
{
    if n > 0 {
        lemma_first_expressions_index(v, (n - 1) as nat);
        assert(first_expressions(v, n) == first_expressions(v, (n - 1) as nat).push(v@[n - 1]@));
    }
}

impl Expression {
    pub fn integet_expresion(value: i64) -> (r: Expression)
        ensures
            r@ == ExpressionModel::Integer(value),
    {
        Expression::IntegerExpression(value)
    }

    pub fn unary_expression(operator: String, exp: Expression) -> (r: Expression)
        ensures
            r@ == ExpressionModel::Unary(operator@, Box::new(exp@)),
    {
        Expression::UnaryExpression(UnaryExpression { operator, exp: Box::new(exp) })
    }

    pub fn binary_expression(operator: String, exp_l: Expression, exp_r: Expression) -> (r:
        Expression)
        ensures
            r@ == ExpressionModel::Binary(operator@, Box::new(exp_l@), Box::new(exp_r@)),
    {
        Expression::BinaryExpression(
            BinaryExpression { operator, exp_l: Box::new(exp_l), exp_r: Box::new(exp_r) },
        )
    }

    pub fn concat_expresion(exps: Vec<Expression>) -> (r: Expression)
        ensures
            r@ == ExpressionModel::Concat(expressions_of(exps)),
    {
        Expression::ConcatExpression(ConcatExpression { exps })
    }

    pub fn function_defined_expression(param_list: Vec<String>, is_vararg: bool, block: Block) -> (r:
        Expression)
        ensures
            r@ == ExpressionModel::Function(names_of(param_list@), is_vararg, Box::new(block@)),
    {
        Expression::FunctionDefinedExpression(
            FunctionDefinedExpression { param_list, is_vararg, block },
        )
    }

    pub fn function_call_expression(
        prefix_exp: Expression,
        name_exp: Expression,
        args: Vec<Expression>,
    ) -> (r: Expression)
        ensures
            r@ == ExpressionModel::Call(
                Box::new(prefix_exp@),
                Box::new(name_exp@),
                expressions_of(args),
            ),
    {
        Expression::FunctionCallExpression(
            FunctionCallExpression {
                prefix_exp: Box::new(prefix_exp),
                name_exp: Box::new(name_exp),
                args,
            },
        )
    }

    pub fn parenthesis_expression(exp: Expression) -> (r: Expression)
        ensures
            r@ == ExpressionModel::Parenthesis(Box::new(exp@)),
    {
        Expression::ParenthesisExpression(ParenthesisExpression { exp: Box::new(exp) })
    }

    pub fn table_access_expression(prefix_exp: Expression, key_exp: Expression) -> (r: Expression)
        ensures
            r@ == ExpressionModel::Access(Box::new(prefix_exp@), Box::new(key_exp@)),
    {
        Expression::TableAccessExpression(
            TableAccessExpression { prefix_exp: Box::new(prefix_exp), key_exp: Box::new(key_exp) },
        )
    }

    pub fn table_constructor_expression(key_exps: Vec<Expression>, value_exps: Vec<Expression>) -> (r:
        Expression)
        ensures
            r@ == ExpressionModel::Table(expressions_of(key_exps), expressions_of(value_exps)),
    {
        Expression::TableConstructorExpression(TableConstructorExpression { key_exps, value_exps })
    }
}

} // verus!
