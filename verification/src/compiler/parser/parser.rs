use vstd::prelude::*;
use super::grammar::{block_at, chunk_at, ParseError, MAX_DEPTH};
use super::parse::{block, expect};
use crate::compiler::ast::block::{Block, BlockModel};
use crate::compiler::lexer::token::TokenType;
use crate::lexer::chunk_stream::chars_of;
use crate::lexer::lexer::Lexer;

verus! {

/// Takes a block: statements up to a token that ends a block, with the return
/// of the block.
pub fn parse_block(lexer: &mut Lexer) -> (r: Result<Block, ParseError>)
    requires
        old(lexer).wf(),
    ensures
        match r {
            Ok(v) => block_at(old(lexer).stream.chunk@, old(lexer).stream.index as nat, MAX_DEPTH as nat)
                == Ok::<(BlockModel, nat), ParseError>(
                (v@, final(lexer).stream.index as nat),
            ) && final(lexer).moved(*old(lexer), final(lexer).stream.index as int)
                && final(lexer).wf(),
            Err(e) => block_at(old(lexer).stream.chunk@, old(lexer).stream.index as nat, MAX_DEPTH as nat)
                == Err::<(BlockModel, nat), ParseError>(e)
                && *final(lexer) == *old(lexer),
        },
{
    match block(&lexer.stream.chunk, lexer.stream.index, MAX_DEPTH) {
        Ok((v, next)) => {
            lexer.advance_to(next);
            Ok(v)
        },
        Err(e) => Err(e),
    }
}

/// Reads a whole program: a block that the text ends behind.
pub fn parse_chunk(text: &str) -> (r: Result<Block, ParseError>)
    ensures
        match r {
            Ok(v) => chunk_at(text@, MAX_DEPTH as nat) == Ok::<BlockModel, ParseError>(v@),
            Err(e) => chunk_at(text@, MAX_DEPTH as nat) == Err::<BlockModel, ParseError>(e),
        },
{
    let chunk = chars_of(text);
    let (program, end) = match block(&chunk, 0, MAX_DEPTH) {
        Ok(found) => found,
        Err(e) => return Err(e),
    };
    match expect(&chunk, end, TokenType::Eof) {
        Ok(_) => Ok(program),
        Err(e) => Err(e),
    }
}

} // verus!
