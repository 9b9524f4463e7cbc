use vstd::prelude::*;
use super::grammar::{field_at, fields_from, table_at, ParseError, MAX_DEPTH};
use super::parse::{field, field_list, table_constructor};
use crate::compiler::ast::expression::{expressions_of, Expression, ExpressionModel};
use crate::lexer::lexer::Lexer;

verus! {

/// Takes a table constructor.
pub fn parse_table_constructor_expression(lexer: &mut Lexer) -> (r: Result<Expression, ParseError>)
    requires
        old(lexer).wf(),
    ensures
        match r {
            Ok(v) => table_at(old(lexer).stream.chunk@, old(lexer).stream.index as nat, MAX_DEPTH as nat)
                == Ok::<(ExpressionModel, nat), ParseError>(
                (v@, final(lexer).stream.index as nat),
            ) && final(lexer).moved(*old(lexer), final(lexer).stream.index as int)
                && final(lexer).wf(),
            Err(e) => table_at(old(lexer).stream.chunk@, old(lexer).stream.index as nat, MAX_DEPTH as nat)
                == Err::<(ExpressionModel, nat), ParseError>(e)
                && *final(lexer) == *old(lexer),
        },
{
    match table_constructor(&lexer.stream.chunk, lexer.stream.index, MAX_DEPTH) {
        Ok((v, next)) => {
            lexer.advance_to(next);
            Ok(v)
        },
        Err(e) => Err(e),
    }
}

/// Takes the fields of a table constructor, up to its closing brace: the keys
/// and the values.
pub fn parse_field_list(lexer: &mut Lexer) -> (r: Result<(Vec<Expression>, Vec<Expression>), ParseError>)
    requires
        old(lexer).wf(),
    ensures
        match r {
            Ok(v) => fields_from(
                old(lexer).stream.chunk@, old(lexer).stream.index as nat,
                Seq::<ExpressionModel>::empty(),
                Seq::<ExpressionModel>::empty(),
                MAX_DEPTH as nat,
            ) == Ok::<((Seq<ExpressionModel>, Seq<ExpressionModel>), nat), ParseError>(
                ((expressions_of(v.0), expressions_of(v.1)), final(lexer).stream.index as nat),
            ) && final(lexer).moved(*old(lexer), final(lexer).stream.index as int)
                && final(lexer).wf(),
            Err(e) => fields_from(
                old(lexer).stream.chunk@, old(lexer).stream.index as nat,
                Seq::<ExpressionModel>::empty(),
                Seq::<ExpressionModel>::empty(),
                MAX_DEPTH as nat,
            ) == Err::<((Seq<ExpressionModel>, Seq<ExpressionModel>), nat), ParseError>(e)
                && *final(lexer) == *old(lexer),
        },
{
    match field_list(&lexer.stream.chunk, lexer.stream.index, MAX_DEPTH) {
        Ok((v, next)) => {
            lexer.advance_to(next);
            Ok(v)
        },
        Err(e) => Err(e),
    }
}

/// Takes one field of a table constructor: its key and its value.
pub fn parse_field(lexer: &mut Lexer) -> (r: Result<(Expression, Expression), ParseError>)
    requires
        old(lexer).wf(),
    ensures
        match r {
            Ok(v) => field_at(old(lexer).stream.chunk@, old(lexer).stream.index as nat, MAX_DEPTH as nat)
                == Ok::<((ExpressionModel, ExpressionModel), nat), ParseError>(
                ((v.0@, v.1@), final(lexer).stream.index as nat),
            ) && final(lexer).moved(*old(lexer), final(lexer).stream.index as int)
                && final(lexer).wf(),
            Err(e) => field_at(old(lexer).stream.chunk@, old(lexer).stream.index as nat, MAX_DEPTH as nat)
                == Err::<((ExpressionModel, ExpressionModel), nat), ParseError>(e)
                && *final(lexer) == *old(lexer),
        },
{
    match field(&lexer.stream.chunk, lexer.stream.index, MAX_DEPTH) {
        Ok((v, next)) => {
            lexer.advance_to(next);
            Ok(v)
        },
        Err(e) => Err(e),
    }
}

} // verus!
