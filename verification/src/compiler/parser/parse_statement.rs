use vstd::prelude::*;
use super::grammar::{statement_at, ParseError, MAX_DEPTH};
use super::parse::{statement};
use crate::compiler::ast::statement::{Statement, StatementModel};
use crate::lexer::lexer::Lexer;

verus! {

/// Takes a statement.
pub fn parse_statement(lexer: &mut Lexer) -> (r: Result<Statement, ParseError>)
    requires
        old(lexer).wf(),
    ensures
        match r {
            Ok(v) => statement_at(old(lexer).stream.chunk@, old(lexer).stream.index as nat, MAX_DEPTH as nat)
                == Ok::<(StatementModel, nat), ParseError>(
                (v@, final(lexer).stream.index as nat),
            ) && final(lexer).moved(*old(lexer), final(lexer).stream.index as int)
                && final(lexer).wf(),
            Err(e) => statement_at(old(lexer).stream.chunk@, old(lexer).stream.index as nat, MAX_DEPTH as nat)
                == Err::<(StatementModel, nat), ParseError>(e)
                && *final(lexer) == *old(lexer),
        },
{
    match statement(&lexer.stream.chunk, lexer.stream.index, MAX_DEPTH) {
        Ok((v, next)) => {
            lexer.advance_to(next);
            Ok(v)
        },
        Err(e) => Err(e),
    }
}

} // verus!
