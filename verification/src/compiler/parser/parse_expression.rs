use vstd::prelude::*;
use super::grammar::{
    expression_at, expression_list_at, function_body_at, prefix_at, ParseError, MAX_DEPTH,
};
use super::parse::{expression_level, expression_list, function_body, prefix_expression};
use crate::compiler::ast::expression::{expressions_of, Expression, ExpressionModel};
use crate::lexer::lexer::Lexer;

verus! {

/// Takes a list of expressions: one or more, separated by commas.
pub fn parse_expression_list(lexer: &mut Lexer) -> (r: Result<Vec<Expression>, ParseError>)
    requires
        old(lexer).wf(),
    ensures
        match r {
            Ok(v) => expression_list_at(old(lexer).stream.chunk@, old(lexer).stream.index as nat, MAX_DEPTH as nat)
                == Ok::<(Seq<ExpressionModel>, nat), ParseError>(
                (expressions_of(v), final(lexer).stream.index as nat),
            ) && final(lexer).moved(*old(lexer), final(lexer).stream.index as int)
                && final(lexer).wf(),
            Err(e) => expression_list_at(old(lexer).stream.chunk@, old(lexer).stream.index as nat, MAX_DEPTH as nat)
                == Err::<(Seq<ExpressionModel>, nat), ParseError>(e)
                && *final(lexer) == *old(lexer),
        },
{
    match expression_list(&lexer.stream.chunk, lexer.stream.index, MAX_DEPTH) {
        Ok((v, next)) => {
            lexer.advance_to(next);
            Ok(v)
        },
        Err(e) => Err(e),
    }
}

/// Takes an expression.
pub fn parse_expression(lexer: &mut Lexer) -> (r: Result<Expression, ParseError>)
    requires
        old(lexer).wf(),
    ensures
        match r {
            Ok(v) => expression_at(old(lexer).stream.chunk@, old(lexer).stream.index as nat, MAX_DEPTH as nat)
                == Ok::<(ExpressionModel, nat), ParseError>(
                (v@, final(lexer).stream.index as nat),
            ) && final(lexer).moved(*old(lexer), final(lexer).stream.index as int)
                && final(lexer).wf(),
            Err(e) => expression_at(old(lexer).stream.chunk@, old(lexer).stream.index as nat, MAX_DEPTH as nat)
                == Err::<(ExpressionModel, nat), ParseError>(e)
                && *final(lexer) == *old(lexer),
        },
{
    match expression_level(&lexer.stream.chunk, lexer.stream.index, 10, MAX_DEPTH) {
        Ok((v, next)) => {
            lexer.advance_to(next);
            Ok(v)
        },
        Err(e) => Err(e),
    }
}

/// Takes the body of a function, behind the keyword `function`.
pub fn parse_function_defined_expression(lexer: &mut Lexer) -> (r: Result<Expression, ParseError>)
    requires
        old(lexer).wf(),
    ensures
        match r {
            Ok(v) => function_body_at(old(lexer).stream.chunk@, old(lexer).stream.index as nat, MAX_DEPTH as nat)
                == Ok::<(ExpressionModel, nat), ParseError>(
                (v@, final(lexer).stream.index as nat),
            ) && final(lexer).moved(*old(lexer), final(lexer).stream.index as int)
                && final(lexer).wf(),
            Err(e) => function_body_at(old(lexer).stream.chunk@, old(lexer).stream.index as nat, MAX_DEPTH as nat)
                == Err::<(ExpressionModel, nat), ParseError>(e)
                && *final(lexer) == *old(lexer),
        },
{
    match function_body(&lexer.stream.chunk, lexer.stream.index, MAX_DEPTH) {
        Ok((v, next)) => {
            lexer.advance_to(next);
            Ok(v)
        },
        Err(e) => Err(e),
    }
}

/// Takes a prefix expression: a name or an expression in parentheses with the
/// indexings and calls behind it.
pub fn parse_prefix_expression(lexer: &mut Lexer) -> (r: Result<Expression, ParseError>)
    requires
        old(lexer).wf(),
    ensures
        match r {
            Ok(v) => prefix_at(old(lexer).stream.chunk@, old(lexer).stream.index as nat, MAX_DEPTH as nat)
                == Ok::<(ExpressionModel, nat), ParseError>(
                (v@, final(lexer).stream.index as nat),
            ) && final(lexer).moved(*old(lexer), final(lexer).stream.index as int)
                && final(lexer).wf(),
            Err(e) => prefix_at(old(lexer).stream.chunk@, old(lexer).stream.index as nat, MAX_DEPTH as nat)
                == Err::<(ExpressionModel, nat), ParseError>(e)
                && *final(lexer) == *old(lexer),
        },
{
    match prefix_expression(&lexer.stream.chunk, lexer.stream.index, MAX_DEPTH) {
        Ok((v, next)) => {
            lexer.advance_to(next);
            Ok(v)
        },
        Err(e) => Err(e),
    }
}

} // verus!
