use vstd::prelude::*;
use super::grammar::{
    args_at, listed_args_at, binary_level, binary_tail, block_at, block_end, closed_block_at, concat_tail,
    decimal_digits, digit_value, expected, expression_list_at, expression_list_tail, field_at,
    field_separator, fields_from, for_rest_at, function_body_at, function_name_tail, if_rest_at,
    later, level_at, lexed, name_at, names_tail, numeral, numeral_value, params_from, pow_at,
    prefix_at, primary_at, remaining, return_at, statement_at, statements_from, suffixes_from,
    table_at, unary_at, unary_operator, variables_tail, ParseError,
};
use crate::compiler::ast::block::{Block, BlockModel};
use crate::compiler::ast::expression::{
    expressions_of, lemma_expressions_index, lemma_expressions_push, names_of, Expression,
    ExpressionModel,
};
use crate::compiler::ast::statement::{
    lemma_statements_push, statements_of, Statement, StatementModel,
};
use crate::compiler::lexer::token::{Token, TokenModel, TokenType};
use crate::lexer::lexer::{
    lemma_number_token, lemma_run_end_bounds, lemma_token_advances, run, scan_token, text_of,
    CharClass,
};
use crate::vm::arith::from_pattern;

verus! {

// The parser: for each function of the grammar a function that reads the same piece of
// syntax from the characters of a text.

/// Reads the token at `pos`.
pub fn lex(chunk: &Vec<char>, pos: usize) -> (r: Result<(Token, usize), ParseError>)
    requires
        pos <= chunk@.len(),
    ensures
        match r {
            Ok((v, next)) => lexed(chunk@, pos as nat) == Ok::<(TokenModel, nat), ParseError>(
                (v@, next as nat),
            ) && pos <= next <= chunk@.len() && (v.kind != TokenType::Eof ==> pos < next),
            Err(e) => lexed(chunk@, pos as nat) == Err::<(TokenModel, nat), ParseError>(e),
        },
{
    proof {
        reveal(lexed);
        lemma_token_advances(chunk@, pos as int);
    }
    match scan_token(chunk, pos) {
        Ok(found) => Ok(found),
        Err(e) => Err(ParseError::Lex(e)),
    }
}

/// Passes over the token at `pos`, which must be of the given kind.
pub fn expect(chunk: &Vec<char>, pos: usize, kind: TokenType) -> (r: Result<usize, ParseError>)
    requires
        pos <= chunk@.len(),
    ensures
        match r {
            Ok(next) => expected(chunk@, pos as nat, kind) == Ok::<nat, ParseError>(next as nat)
                && pos <= next <= chunk@.len() && (kind != TokenType::Eof ==> pos < next),
            Err(e) => expected(chunk@, pos as nat, kind) == Err::<nat, ParseError>(e),
        },
{
    match lex(chunk, pos) {
        Err(e) => Err(e),
        Ok((token, next)) => if token.kind == kind {
            Ok(next)
        } else {
            Err(ParseError::UnexpectedToken(token.kind))
        },
    }
}

/// Reads the name at `pos`.
pub fn read_name(chunk: &Vec<char>, pos: usize) -> (r: Result<(String, usize), ParseError>)
    requires
        pos <= chunk@.len(),
    ensures
        match r {
            Ok((v, next)) => name_at(chunk@, pos as nat) == Ok::<(Seq<char>, nat), ParseError>(
                (v@, next as nat),
            ) && pos < next <= chunk@.len(),
            Err(e) => name_at(chunk@, pos as nat) == Err::<(Seq<char>, nat), ParseError>(e),
        },
{
    match lex(chunk, pos) {
        Err(e) => Err(e),
        Ok((token, next)) => if token.kind == TokenType::Identifier {
            Ok((token.value, next))
        } else {
            Err(ParseError::UnexpectedToken(token.kind))
        },
    }
}

pub fn binary_level_of(kind: TokenType) -> (r: usize)
    ensures
        r == binary_level(kind),
        r <= 10,
{
    match kind {
        TokenType::OperatorMultiply => 1,
        TokenType::OperatorDivide => 1,
        TokenType::OperatorMod => 1,
        TokenType::OperatorIDivide => 1,
        TokenType::OperatorPlus => 2,
        TokenType::OperatorMinus => 2,
        TokenType::OperatorConcat => 3,
        TokenType::OperatorShl => 4,
        TokenType::OperatorShr => 4,
        TokenType::OperatorBand => 5,
        TokenType::OperatorWave => 6,
        TokenType::OperatorBor => 7,
        TokenType::OperatorLt => 8,
        TokenType::OperatorGt => 8,
        TokenType::OperatorLe => 8,
        TokenType::OperatorGe => 8,
        TokenType::OperatorNotEqual => 8,
        TokenType::OperatorEq => 8,
        TokenType::OperatorAnd => 9,
        TokenType::OperatorOr => 10,
        _ => 0,
    }
}

pub fn is_unary_operator(kind: TokenType) -> (r: bool)
    ensures
        r == unary_operator(kind),
{
    match kind {
        TokenType::OperatorNot => true,
        TokenType::OperatorMinus => true,
        TokenType::OperatorLen => true,
        TokenType::OperatorWave => true,
        _ => false,
    }
}

pub fn is_block_end(kind: TokenType) -> (r: bool)
    ensures
        r == block_end(kind),
{
    match kind {
        TokenType::KeywrodReturn => true,
        TokenType::Eof => true,
        TokenType::KeywrodEnd => true,
        TokenType::KeywrodElse => true,
        TokenType::KeywrodElseIf => true,
        TokenType::KeywrodUntil => true,
        _ => false,
    }
}

fn digit_of(c: char) -> (r: u64)
    ensures
        r == digit_value(c),
        r < 16,
{
    if c >= '0' && c <= '9' {
        (c as u32 - 48) as u64
    } else if c >= 'a' && c <= 'f' {
        (c as u32 - 87) as u64
    } else if c >= 'A' && c <= 'F' {
        (c as u32 - 55) as u64
    } else {
        0
    }
}

/// Decimal digits write no negative number, and more digits write no smaller one.
pub proof fn lemma_numeral_grows(text: Seq<char>, i: int)
    requires
        0 <= i <= text.len(),
        decimal_digits(text),
    ensures
        0 <= numeral_value(text.take(i), 10) <= numeral_value(text, 10),
    decreases text.len() - i,
{
    lemma_numeral_nonnegative(text.take(i));
    if i < text.len() {
        lemma_numeral_grows(text, i + 1);
        assert(text.take(i + 1).drop_last() == text.take(i));
    } else {
        assert(text.take(i) == text);
    }
}

pub proof fn lemma_numeral_nonnegative(text: Seq<char>)
    requires
        decimal_digits(text),
    ensures
        0 <= numeral_value(text, 10),
    decreases text.len(),
{
    if text.len() > 0 {
        lemma_numeral_nonnegative(text.drop_last());
    }
}

/// The expression that the numeral in the characters `from .. to` writes.
pub fn numeral_of(chunk: &Vec<char>, from: usize, to: usize) -> (r: Expression)
    requires
        from <= to <= chunk@.len(),
    ensures
        r@ == numeral(chunk@.subrange(from as int, to as int)),
{
    let ghost text = chunk@.subrange(from as int, to as int);
    if to - from >= 2 && chunk[from] == '0' && chunk[from + 1] == 'x' {
        let ghost digits = text.skip(2);
        let mut acc: u64 = 0;
        let mut i: usize = from + 2;
        let ghost mut q: int = 0;
        assert(digits.take(0) =~= Seq::<char>::empty());
        while i < to
            invariant
                from + 2 <= i <= to <= chunk@.len(),
                digits == chunk@.subrange(from as int, to as int).skip(2),
                numeral_value(digits.take(i - from - 2), 16) == q * 0x1_0000_0000_0000_0000 + acc,
            decreases to - i,
        {
            let d = digit_of(chunk[i]);
            proof {
                assert(digits.take(i - from - 1).drop_last() =~= digits.take(i - from - 2));
                assert(digits.take(i - from - 1).last() == chunk@[i as int]);
                q = q * 16 + acc as int / 0x1000_0000_0000_0000;
            }
            acc = (acc % 0x1000_0000_0000_0000) * 16 + d;
            i = i + 1;
        }
        proof {
            assert(digits.take(to - from - 2) =~= digits);
            assert((q * 0x1_0000_0000_0000_0000 + acc) % 0x1_0000_0000_0000_0000 == acc)
                by (nonlinear_arith)
                requires
                    0 <= acc < 0x1_0000_0000_0000_0000,
            ;
        }
        Expression::IntegerExpression(from_pattern(acc))
    } else {
        let mut acc: i64 = 0;
        let mut i: usize = from;
        assert(text.take(0) =~= Seq::<char>::empty());
        while i < to
            invariant
                from <= i <= to <= chunk@.len(),
                text == chunk@.subrange(from as int, to as int),
                !(text.len() >= 2 && text[0] == '0' && text[1] == 'x'),
                decimal_digits(text.take(i - from)),
                numeral_value(text.take(i - from), 10) == acc,
                0 <= acc,
            decreases to - i,
        {
            let c = chunk[i];
            assert(text[i - from] == c);
            assert(text.take(i - from + 1).drop_last() =~= text.take(i - from));
            if c < '0' || c > '9' {
                return Expression::FloatExpresion(text_of(chunk, from, to));
            }
            let d = digit_of(c) as i64;
            if acc > (i64::MAX - d) / 10 {
                proof {
                    if decimal_digits(text) {
                        lemma_numeral_grows(text, i - from + 1);
                    }
                }
                return Expression::FloatExpresion(text_of(chunk, from, to));
            }
            acc = acc * 10 + d;
            i = i + 1;
        }
        assert(text.take(to - from) =~= text);
        Expression::IntegerExpression(acc)
    }
}

/// The expression that the numeral writes which is the token at `pos`.
fn numeral_at(chunk: &Vec<char>, pos: usize, Ghost(token): Ghost<TokenModel>, next: usize) -> (r:
    Expression)
    requires
        pos <= chunk@.len(),
        lexed(chunk@, pos as nat) == Ok::<(TokenModel, nat), ParseError>((token, next as nat)),
        token.kind == TokenType::Number,
    ensures
        r@ == numeral(token.value),
{
    let start = run(chunk, pos, CharClass::Whitespace);
    proof {
        reveal(lexed);
        lemma_token_advances(chunk@, pos as int);
        lemma_run_end_bounds(chunk@, pos as int, CharClass::Whitespace);
        lemma_number_token(chunk@, pos as int);
    }
    numeral_of(chunk, start, next)
}

fn latest(p: usize, q: usize) -> (r: usize)
    ensures
        r == later(p as nat, q as nat),
        r >= p,
        r >= q,
{
    if q >= p {
        q
    } else {
        p
    }
}

fn no_expressions() -> (r: Vec<Expression>)
    ensures
        expressions_of(r) == Seq::<ExpressionModel>::empty(),
{
    Vec::new()
}

fn one_expression(e: Expression) -> (r: Vec<Expression>)
    ensures
        expressions_of(r) == seq![e@],
        r@.len() == 1,
{
    let mut items: Vec<Expression> = Vec::new();
    let ghost before = items;
    items.push(e);
    proof {
        lemma_expressions_push(before, items, e);
        assert(expressions_of(before).push(e@) =~= seq![e@]);
    }
    items
}

fn no_statements() -> (r: Vec<Statement>)
    ensures
        statements_of(r) == Seq::<StatementModel>::empty(),
{
    Vec::new()
}

/// Reads an expression down to the binary operators of a level.
pub fn expression_level(chunk: &Vec<char>, pos: usize, level: usize, depth: usize) -> (r: Result<
    (Expression, usize),
    ParseError,
>)
    requires
        pos <= chunk@.len(),
        level <= 10,
    ensures
        match r {
            Ok((v, next)) => level_at(chunk@, pos as nat, level as nat, depth as nat) == Ok::<
                (ExpressionModel, nat),
                ParseError,
            >((v@, next as nat)) && pos <= next <= chunk@.len(),
            Err(e) => level_at(chunk@, pos as nat, level as nat, depth as nat) == Err::<
                (ExpressionModel, nat),
                ParseError,
            >(e),
        },
    decreases depth, 2 * level + 6, remaining(chunk@, pos as nat),
{
    if level == 0 {
        return unary_expression(chunk, pos, depth);
    }
    let (first, start) = match expression_level(chunk, pos, level - 1, depth) {
        Ok(found) => found,
        Err(e) => return Err(e),
    };
    if level == 3 {
        let mut items = one_expression(first);
        let mut at: usize = start;
        loop
            invariant
                pos <= at <= chunk@.len(),
                items@.len() >= 1,
                level == 3,
                level_at(chunk@, pos as nat, 3, depth as nat) == concat_tail(
                    chunk@,
                    at as nat,
                    expressions_of(items),
                    depth as nat,
                ),
            decreases chunk@.len() - at,
        {
            let (token, p1) = match lex(chunk, at) {
                Ok(found) => found,
                Err(e) => return Err(e),
            };
            if token.kind != TokenType::OperatorConcat {
                proof {
                    lemma_expressions_index(items);
                }
                if items.len() == 1 {
                    let only = items.pop().unwrap();
                    return Ok((only, at));
                }
                return Ok((Expression::concat_expresion(items), at));
            }
            let (right, p2) = match expression_level(chunk, p1, 2, depth) {
                Ok(found) => found,
                Err(e) => return Err(e),
            };
            let ghost before = items;
            items.push(right);
            proof {
                lemma_expressions_push(before, items, right);
            }
            at = p2;
        }
    } else {
        let mut left = first;
        let mut at: usize = start;
        loop
            invariant
                pos <= at <= chunk@.len(),
                1 <= level <= 10,
                level != 3,
                level_at(chunk@, pos as nat, level as nat, depth as nat) == binary_tail(
                    chunk@,
                    at as nat,
                    level as nat,
                    left@,
                    depth as nat,
                ),
            decreases chunk@.len() - at,
        {
            let (token, p1) = match lex(chunk, at) {
                Ok(found) => found,
                Err(e) => return Err(e),
            };
            if binary_level_of(token.kind) != level {
                return Ok((left, at));
            }
            let (right, p2) = match expression_level(chunk, p1, level - 1, depth) {
                Ok(found) => found,
                Err(e) => return Err(e),
            };
            left = Expression::binary_expression(token.value, left, right);
            at = p2;
        }
    }
}

/// Reads an expression down to the unary operators.
pub fn unary_expression(chunk: &Vec<char>, pos: usize, depth: usize) -> (r: Result<
    (Expression, usize),
    ParseError,
>)
    requires
        pos <= chunk@.len(),
    ensures
        match r {
            Ok((v, next)) => unary_at(chunk@, pos as nat, depth as nat)
                == Ok::<(ExpressionModel, nat), ParseError>(
                (v@, next as nat),
            ) && pos <= next <= chunk@.len(),
            Err(e) => unary_at(chunk@, pos as nat, depth as nat)
                == Err::<(ExpressionModel, nat), ParseError>(e),
        },
    decreases depth, 5nat, remaining(chunk@, pos as nat),
{
    let (token, p1) = match lex(chunk, pos) {
        Ok(found) => found,
        Err(e) => return Err(e),
    };
    if is_unary_operator(token.kind) {
        match unary_expression(chunk, p1, depth) {
            Ok((operand, next)) => Ok((Expression::unary_expression(token.value, operand), next)),
            Err(e) => Err(e),
        }
    } else {
        pow_expression(chunk, pos, depth)
    }
}

/// Reads an expression down to `^`.
pub fn pow_expression(chunk: &Vec<char>, pos: usize, depth: usize) -> (r: Result<
    (Expression, usize),
    ParseError,
>)
    requires
        pos <= chunk@.len(),
    ensures
        match r {
            Ok((v, next)) => pow_at(chunk@, pos as nat, depth as nat)
                == Ok::<(ExpressionModel, nat), ParseError>(
                (v@, next as nat),
            ) && pos <= next <= chunk@.len(),
            Err(e) => pow_at(chunk@, pos as nat, depth as nat)
                == Err::<(ExpressionModel, nat), ParseError>(e),
        },
    decreases depth, 4nat, remaining(chunk@, pos as nat),
{
    let (base, next) = match primary_expression(chunk, pos, depth) {
        Ok(found) => found,
        Err(e) => return Err(e),
    };
    let (token, p1) = match lex(chunk, next) {
        Ok(found) => found,
        Err(e) => return Err(e),
    };
    if token.kind != TokenType::OperatorPow {
        return Ok((base, next));
    }
    if depth == 0 {
        return Err(ParseError::TooDeep);
    }
    match unary_expression(chunk, p1, depth - 1) {
        Ok((exponent, end)) => Ok((Expression::binary_expression(token.value, base, exponent), end)),
        Err(e) => Err(e),
    }
}

/// Reads a primary expression.
pub fn primary_expression(chunk: &Vec<char>, pos: usize, depth: usize) -> (r: Result<
    (Expression, usize),
    ParseError,
>)
    requires
        pos <= chunk@.len(),
    ensures
        match r {
            Ok((v, next)) => primary_at(chunk@, pos as nat, depth as nat)
                == Ok::<(ExpressionModel, nat), ParseError>(
                (v@, next as nat),
            ) && pos <= next <= chunk@.len(),
            Err(e) => primary_at(chunk@, pos as nat, depth as nat)
                == Err::<(ExpressionModel, nat), ParseError>(e),
        },
    decreases depth, 3nat, remaining(chunk@, pos as nat),
{
    let (token, p1) = match lex(chunk, pos) {
        Ok(found) => found,
        Err(e) => return Err(e),
    };
    match token.kind {
        TokenType::Vararg => Ok((Expression::VarargExpression, p1)),
        TokenType::KeywrodNil => Ok((Expression::NilExpression, p1)),
        TokenType::KeywrodTrue => Ok((Expression::TrueExpression, p1)),
        TokenType::KeywrodFalse => Ok((Expression::FalseExpression, p1)),
        TokenType::String => Ok((Expression::StringExpression(token.value), p1)),
        TokenType::Number => Ok((numeral_at(chunk, pos, Ghost(token@), p1), p1)),
        TokenType::SeparatorOpenBrace => {
            if depth == 0 {
                Err(ParseError::TooDeep)
            } else {
                table_constructor(chunk, pos, depth - 1)
            }
        },
        TokenType::KeywrodFunction => {
            if depth == 0 {
                Err(ParseError::TooDeep)
            } else {
                function_body(chunk, p1, depth - 1)
            }
        },
        _ => prefix_expression(chunk, pos, depth),
    }
}

/// Reads a prefix expression.
pub fn prefix_expression(chunk: &Vec<char>, pos: usize, depth: usize) -> (r: Result<
    (Expression, usize),
    ParseError,
>)
    requires
        pos <= chunk@.len(),
    ensures
        match r {
            Ok((v, next)) => prefix_at(chunk@, pos as nat, depth as nat)
                == Ok::<(ExpressionModel, nat), ParseError>(
                (v@, next as nat),
            ) && pos <= next <= chunk@.len(),
            Err(e) => prefix_at(chunk@, pos as nat, depth as nat)
                == Err::<(ExpressionModel, nat), ParseError>(e),
        },
    decreases depth, 2nat, remaining(chunk@, pos as nat),
{
    let (token, p1) = match lex(chunk, pos) {
        Ok(found) => found,
        Err(e) => return Err(e),
    };
    if token.kind == TokenType::Identifier {
        suffixes(chunk, p1, Expression::NameString(token.value), depth)
    } else if token.kind == TokenType::SeparatorOpenParenthesis {
        if depth == 0 {
            return Err(ParseError::TooDeep);
        }
        let (inner, p2) = match expression_level(chunk, p1, 10, depth - 1) {
            Ok(found) => found,
            Err(e) => return Err(e),
        };
        let p3 = match expect(chunk, p2, TokenType::SeparatorCloseParenthesis) {
            Ok(found) => found,
            Err(e) => return Err(e),
        };
        suffixes(chunk, p3, Expression::parenthesis_expression(inner), depth)
    } else {
        Err(ParseError::UnexpectedToken(token.kind))
    }
}

/// Reads the indexings and calls behind a prefix expression.
pub fn suffixes(chunk: &Vec<char>, pos: usize, prefix: Expression, depth: usize) -> (r: Result<
    (Expression, usize),
    ParseError,
>)
    requires
        pos <= chunk@.len(),
    ensures
        match r {
            Ok((v, next)) => suffixes_from(chunk@, pos as nat, prefix@, depth as nat)
                == Ok::<(ExpressionModel, nat), ParseError>(
                (v@, next as nat),
            ) && pos <= next <= chunk@.len(),
            Err(e) => suffixes_from(chunk@, pos as nat, prefix@, depth as nat)
                == Err::<(ExpressionModel, nat), ParseError>(e),
        },
    decreases depth, 1nat, remaining(chunk@, pos as nat),
{
    let mut exp = prefix;
    let mut at: usize = pos;
    loop
        invariant
            pos <= at <= chunk@.len(),
            suffixes_from(chunk@, pos as nat, prefix@, depth as nat) == suffixes_from(
                chunk@,
                at as nat,
                exp@,
                depth as nat,
            ),
        decreases chunk@.len() - at,
    {
        let (token, p1) = match lex(chunk, at) {
            Ok(found) => found,
            Err(e) => return Err(e),
        };
        if token.kind == TokenType::SeparatorDot {
            let (name, p2) = match read_name(chunk, p1) {
                Ok(found) => found,
                Err(e) => return Err(e),
            };
            exp = Expression::table_access_expression(exp, Expression::StringExpression(name));
            at = p2;
        } else if depth == 0 && (token.kind == TokenType::SeparatorOpenBracket || token.kind
            == TokenType::SeparatorColon || token.kind == TokenType::SeparatorOpenParenthesis
            || token.kind == TokenType::SeparatorOpenBrace || token.kind == TokenType::String) {
            return Err(ParseError::TooDeep);
        } else if token.kind == TokenType::SeparatorOpenBracket {
            let (key, p2) = match expression_level(chunk, p1, 10, depth - 1) {
                Ok(found) => found,
                Err(e) => return Err(e),
            };
            let p3 = match expect(chunk, p2, TokenType::SeparatorCloseBracket) {
                Ok(found) => found,
                Err(e) => return Err(e),
            };
            exp = Expression::table_access_expression(exp, key);
            at = p3;
        } else if token.kind == TokenType::SeparatorColon {
            let (name, p2) = match read_name(chunk, p1) {
                Ok(found) => found,
                Err(e) => return Err(e),
            };
            let (args, p3) = match arguments(chunk, p2, depth - 1) {
                Ok(found) => found,
                Err(e) => return Err(e),
            };
            exp = Expression::function_call_expression(exp, Expression::StringExpression(name), args);
            at = p3;
        } else if token.kind == TokenType::SeparatorOpenParenthesis || token.kind
            == TokenType::SeparatorOpenBrace || token.kind == TokenType::String {
            let (args, p3) = match arguments(chunk, at, depth - 1) {
                Ok(found) => found,
                Err(e) => return Err(e),
            };
            let plain = String::new();
            exp = Expression::function_call_expression(
                exp,
                Expression::StringExpression(plain),
                args,
            );
            at = latest(p1, p3);
        } else {
            return Ok((exp, at));
        }
    }
}

/// Reads the arguments of a call behind the opening parenthesis.
pub fn listed_arguments(chunk: &Vec<char>, pos: usize, depth: usize) -> (r: Result<
    (Vec<Expression>, usize),
    ParseError,
>)
    requires
        pos <= chunk@.len(),
    ensures
        match r {
            Ok((v, next)) => listed_args_at(chunk@, pos as nat, depth as nat) == Ok::<
                (Seq<ExpressionModel>, nat),
                ParseError,
            >((expressions_of(v), next as nat)) && pos < next <= chunk@.len(),
            Err(e) => listed_args_at(chunk@, pos as nat, depth as nat) == Err::<
                (Seq<ExpressionModel>, nat),
                ParseError,
            >(e),
        },
    decreases depth, 66nat, remaining(chunk@, pos as nat),
{
    let (first, p2) = match lex(chunk, pos) {
        Ok(found) => found,
        Err(e) => return Err(e),
    };
    if first.kind == TokenType::SeparatorCloseParenthesis {
        return Ok((no_expressions(), p2));
    }
    let (args, p3) = match expression_list(chunk, pos, depth) {
        Ok(found) => found,
        Err(e) => return Err(e),
    };
    match expect(chunk, p3, TokenType::SeparatorCloseParenthesis) {
        Ok(end) => Ok((args, end)),
        Err(e) => Err(e),
    }
}

/// Reads the arguments of a call.
pub fn arguments(chunk: &Vec<char>, pos: usize, depth: usize) -> (r: Result<
    (Vec<Expression>, usize),
    ParseError,
>)
    requires
        pos <= chunk@.len(),
    ensures
        match r {
            Ok((v, next)) => args_at(chunk@, pos as nat, depth as nat) == Ok::<
                (Seq<ExpressionModel>, nat),
                ParseError,
            >((expressions_of(v), next as nat)) && pos <= next <= chunk@.len(),
            Err(e) => args_at(chunk@, pos as nat, depth as nat) == Err::<
                (Seq<ExpressionModel>, nat),
                ParseError,
            >(e),
        },
    decreases depth, 67nat, remaining(chunk@, pos as nat),
{
    let (token, p1) = match lex(chunk, pos) {
        Ok(found) => found,
        Err(e) => return Err(e),
    };
    if token.kind == TokenType::String {
        Ok((one_expression(Expression::StringExpression(token.value)), p1))
    } else if token.kind == TokenType::SeparatorOpenBrace {
        let (table, next) = match table_constructor(chunk, pos, depth) {
            Ok(found) => found,
            Err(e) => return Err(e),
        };
        Ok((one_expression(table), next))
    } else if token.kind == TokenType::SeparatorOpenParenthesis {
        listed_arguments(chunk, p1, depth)
    } else {
        Err(ParseError::UnexpectedToken(token.kind))
    }
}

/// Reads a list of expressions.
pub fn expression_list(chunk: &Vec<char>, pos: usize, depth: usize) -> (r: Result<
    (Vec<Expression>, usize),
    ParseError,
>)
    requires
        pos <= chunk@.len(),
    ensures
        match r {
            Ok((v, next)) => expression_list_at(chunk@, pos as nat, depth as nat) == Ok::<
                (Seq<ExpressionModel>, nat),
                ParseError,
            >((expressions_of(v), next as nat)) && pos <= next <= chunk@.len(),
            Err(e) => expression_list_at(chunk@, pos as nat, depth as nat) == Err::<
                (Seq<ExpressionModel>, nat),
                ParseError,
            >(e),
        },
    decreases depth, 60nat, remaining(chunk@, pos as nat),
{
    let (first, start) = match expression_level(chunk, pos, 10, depth) {
        Ok(found) => found,
        Err(e) => return Err(e),
    };
    let mut items = one_expression(first);
    let mut at: usize = start;
    loop
        invariant
            pos <= at <= chunk@.len(),
            expression_list_at(chunk@, pos as nat, depth as nat) == expression_list_tail(
                chunk@,
                at as nat,
                expressions_of(items),
                depth as nat,
            ),
        decreases chunk@.len() - at,
    {
        let (token, p1) = match lex(chunk, at) {
            Ok(found) => found,
            Err(e) => return Err(e),
        };
        if token.kind != TokenType::SeparetorComma {
            return Ok((items, at));
        }
        let (item, p2) = match expression_level(chunk, p1, 10, depth) {
            Ok(found) => found,
            Err(e) => return Err(e),
        };
        let ghost before = items;
        items.push(item);
        proof {
            lemma_expressions_push(before, items, item);
        }
        at = p2;
    }
}

/// Reads a table constructor.
pub fn table_constructor(chunk: &Vec<char>, pos: usize, depth: usize) -> (r: Result<
    (Expression, usize),
    ParseError,
>)
    requires
        pos <= chunk@.len(),
    ensures
        match r {
            Ok((v, next)) => table_at(chunk@, pos as nat, depth as nat)
                == Ok::<(ExpressionModel, nat), ParseError>(
                (v@, next as nat),
            ) && pos <= next <= chunk@.len(),
            Err(e) => table_at(chunk@, pos as nat, depth as nat)
                == Err::<(ExpressionModel, nat), ParseError>(e),
        },
    decreases depth, 65nat, remaining(chunk@, pos as nat),
{
    let p1 = match expect(chunk, pos, TokenType::SeparatorOpenBrace) {
        Ok(found) => found,
        Err(e) => return Err(e),
    };
    let ((key_exps, value_exps), p2) = match field_list(chunk, p1, depth) {
        Ok(found) => found,
        Err(e) => return Err(e),
    };
    match expect(chunk, p2, TokenType::SeparatorCloseBrace) {
        Ok(end) => Ok((Expression::table_constructor_expression(key_exps, value_exps), end)),
        Err(e) => Err(e),
    }
}

/// Reads the fields of a table constructor.
pub fn field_list(chunk: &Vec<char>, pos: usize, depth: usize) -> (r: Result<
    ((Vec<Expression>, Vec<Expression>), usize),
    ParseError,
>)
    requires
        pos <= chunk@.len(),
    ensures
        match r {
            Ok((v, next)) => fields_from(
                chunk@,
                pos as nat,
                Seq::<ExpressionModel>::empty(),
                Seq::<ExpressionModel>::empty(),
                depth as nat,
            ) == Ok::<((Seq<ExpressionModel>, Seq<ExpressionModel>), nat), ParseError>(
                ((expressions_of(v.0), expressions_of(v.1)), next as nat),
            ) && pos <= next <= chunk@.len(),
            Err(e) => fields_from(
                chunk@,
                pos as nat,
                Seq::<ExpressionModel>::empty(),
                Seq::<ExpressionModel>::empty(),
                depth as nat,
            ) == Err::<((Seq<ExpressionModel>, Seq<ExpressionModel>), nat), ParseError>(e),
        },
    decreases depth, 64nat, remaining(chunk@, pos as nat),
{
    let mut keys = no_expressions();
    let mut values = no_expressions();
    let mut at: usize = pos;
    loop
        invariant
            pos <= at <= chunk@.len(),
            fields_from(
                chunk@,
                pos as nat,
                Seq::<ExpressionModel>::empty(),
                Seq::<ExpressionModel>::empty(),
                depth as nat,
            ) == fields_from(
                chunk@,
                at as nat,
                expressions_of(keys),
                expressions_of(values),
                depth as nat,
            ),
        decreases chunk@.len() - at,
    {
        let (token, p1) = match lex(chunk, at) {
            Ok(found) => found,
            Err(e) => return Err(e),
        };
        if token.kind == TokenType::SeparatorCloseBrace {
            return Ok(((keys, values), at));
        }
        if token.kind == TokenType::Eof {
            return Err(ParseError::UnexpectedToken(TokenType::Eof));
        }
        let ((key, value), p2) = match field(chunk, at, depth) {
            Ok(found) => found,
            Err(e) => return Err(e),
        };
        let (separator, p3) = match lex(chunk, p2) {
            Ok(found) => found,
            Err(e) => return Err(e),
        };
        let ghost keys_before = keys;
        let ghost values_before = values;
        keys.push(key);
        values.push(value);
        proof {
            lemma_expressions_push(keys_before, keys, key);
            lemma_expressions_push(values_before, values, value);
        }
        if !is_field_separator(&separator) {
            return Ok(((keys, values), p2));
        }
        at = latest(p1, p3);
    }
}

/// Reads one field of a table constructor.
pub fn field(chunk: &Vec<char>, pos: usize, depth: usize) -> (r: Result<
    ((Expression, Expression), usize),
    ParseError,
>)
    requires
        pos <= chunk@.len(),
    ensures
        match r {
            Ok((v, next)) => field_at(chunk@, pos as nat, depth as nat) == Ok::<
                ((ExpressionModel, ExpressionModel), nat),
                ParseError,
            >(((v.0@, v.1@), next as nat)) && pos <= next <= chunk@.len(),
            Err(e) => field_at(chunk@, pos as nat, depth as nat) == Err::<
                ((ExpressionModel, ExpressionModel), nat),
                ParseError,
            >(e),
        },
    decreases depth, 63nat, remaining(chunk@, pos as nat),
{
    let (token, p1) = match lex(chunk, pos) {
        Ok(found) => found,
        Err(e) => return Err(e),
    };
    if token.kind == TokenType::SeparatorOpenBracket {
        let (key, p2) = match expression_level(chunk, p1, 10, depth) {
            Ok(found) => found,
            Err(e) => return Err(e),
        };
        let p3 = match expect(chunk, p2, TokenType::SeparatorCloseBracket) {
            Ok(found) => found,
            Err(e) => return Err(e),
        };
        let p4 = match expect(chunk, p3, TokenType::OperatorAssign) {
            Ok(found) => found,
            Err(e) => return Err(e),
        };
        match expression_level(chunk, p4, 10, depth) {
            Ok((value, end)) => Ok(((key, value), end)),
            Err(e) => Err(e),
        }
    } else {
        if token.kind == TokenType::Identifier {
            match expect(chunk, p1, TokenType::OperatorAssign) {
                Ok(p2) => {
                    return match expression_level(chunk, p2, 10, depth) {
                        Ok((value, end)) => Ok(
                            ((Expression::StringExpression(token.value), value), end),
                        ),
                        Err(e) => Err(e),
                    };
                },
                Err(_) => {},
            }
        }
        match expression_level(chunk, pos, 10, depth) {
            Ok((value, end)) => Ok(((Expression::NilExpression, value), end)),
            Err(e) => Err(e),
        }
    }
}

/// Whether a token separates the fields of a table constructor.
pub fn is_field_separator(token: &Token) -> (r: bool)
    ensures
        r == field_separator(token.kind),
{
    match token.kind {
        TokenType::SeparetorComma => true,
        TokenType::SeparatorSemicolon => true,
        _ => false,
    }
}

/// Reads the parameters of a function.
pub fn parameter_list(chunk: &Vec<char>, pos: usize) -> (r: Result<
    ((Vec<String>, bool), usize),
    ParseError,
>)
    requires
        pos <= chunk@.len(),
    ensures
        match r {
            Ok((v, next)) => params_from(chunk@, pos as nat, Seq::<Seq<char>>::empty()) == Ok::<
                ((Seq<Seq<char>>, bool), nat),
                ParseError,
            >(((names_of(v.0@), v.1), next as nat)) && pos <= next <= chunk@.len(),
            Err(e) => params_from(chunk@, pos as nat, Seq::<Seq<char>>::empty()) == Err::<
                ((Seq<Seq<char>>, bool), nat),
                ParseError,
            >(e),
        },
{
    let mut names: Vec<String> = Vec::new();
    let mut at: usize = pos;
    proof {
        assert(names_of(names@) =~= Seq::<Seq<char>>::empty());
    }
    loop
        invariant
            pos <= at <= chunk@.len(),
            params_from(chunk@, pos as nat, Seq::<Seq<char>>::empty()) == params_from(
                chunk@,
                at as nat,
                names_of(names@),
            ),
        decreases chunk@.len() - at,
    {
        let (token, p1) = match lex(chunk, at) {
            Ok(found) => found,
            Err(e) => return Err(e),
        };
        if token.kind == TokenType::Vararg {
            return Ok(((names, true), p1));
        }
        if token.kind != TokenType::Identifier {
            return Err(ParseError::UnexpectedToken(token.kind));
        }
        let (comma, p2) = match lex(chunk, p1) {
            Ok(found) => found,
            Err(e) => return Err(e),
        };
        proof {
            assert(names_of(names@.push(token.value)) =~= names_of(names@).push(token.value@));
        }
        names.push(token.value);
        if comma.kind != TokenType::SeparetorComma {
            return Ok(((names, false), p1));
        }
        at = p2;
    }
}

/// Reads the body of a function, behind the keyword.
pub fn function_body(chunk: &Vec<char>, pos: usize, depth: usize) -> (r: Result<
    (Expression, usize),
    ParseError,
>)
    requires
        pos <= chunk@.len(),
    ensures
        match r {
            Ok((v, next)) => function_body_at(chunk@, pos as nat, depth as nat)
                == Ok::<(ExpressionModel, nat), ParseError>(
                (v@, next as nat),
            ) && pos <= next <= chunk@.len(),
            Err(e) => function_body_at(chunk@, pos as nat, depth as nat)
                == Err::<(ExpressionModel, nat), ParseError>(e),
        },
    decreases depth, 68nat, remaining(chunk@, pos as nat),
{
    let p1 = match expect(chunk, pos, TokenType::SeparatorOpenParenthesis) {
        Ok(found) => found,
        Err(e) => return Err(e),
    };
    let ((names, is_vararg), p2) = match expect(chunk, p1, TokenType::SeparatorCloseParenthesis) {
        Ok(_) => {
            let none: Vec<String> = Vec::new();
            proof {
                assert(names_of(none@) =~= Seq::<Seq<char>>::empty());
            }
            ((none, false), p1)
        },
        Err(_) => match parameter_list(chunk, p1) {
            Ok(found) => found,
            Err(e) => return Err(e),
        },
    };
    let p3 = match expect(chunk, p2, TokenType::SeparatorCloseParenthesis) {
        Ok(found) => found,
        Err(e) => return Err(e),
    };
    if depth == 0 {
        return Err(ParseError::TooDeep);
    }
    let (body, p4) = match block(chunk, p3, depth - 1) {
        Ok(found) => found,
        Err(e) => return Err(e),
    };
    match expect(chunk, p4, TokenType::KeywrodEnd) {
        Ok(end) => Ok((Expression::function_defined_expression(names, is_vararg, body), end)),
        Err(e) => Err(e),
    }
}

/// Reads the names behind a first name, each behind a comma.
pub fn name_list(chunk: &Vec<char>, pos: usize, first: String) -> (r: Result<
    (Vec<String>, usize),
    ParseError,
>)
    requires
        pos <= chunk@.len(),
    ensures
        match r {
            Ok((v, next)) => names_tail(chunk@, pos as nat, seq![first@]) == Ok::<
                (Seq<Seq<char>>, nat),
                ParseError,
            >((names_of(v@), next as nat)) && pos <= next <= chunk@.len(),
            Err(e) => names_tail(chunk@, pos as nat, seq![first@]) == Err::<
                (Seq<Seq<char>>, nat),
                ParseError,
            >(e),
        },
{
    let mut names: Vec<String> = Vec::new();
    proof {
        assert(names_of(names@.push(first)) =~= seq![first@]);
    }
    names.push(first);
    let mut at: usize = pos;
    loop
        invariant
            pos <= at <= chunk@.len(),
            names_tail(chunk@, pos as nat, seq![first@]) == names_tail(
                chunk@,
                at as nat,
                names_of(names@),
            ),
        decreases chunk@.len() - at,
    {
        let (token, p1) = match lex(chunk, at) {
            Ok(found) => found,
            Err(e) => return Err(e),
        };
        if token.kind != TokenType::SeparetorComma {
            return Ok((names, at));
        }
        let (name, p2) = match read_name(chunk, p1) {
            Ok(found) => found,
            Err(e) => return Err(e),
        };
        proof {
            assert(names_of(names@.push(name)) =~= names_of(names@).push(name@));
        }
        names.push(name);
        at = p2;
    }
}

/// Reads a block.
pub fn block(chunk: &Vec<char>, pos: usize, depth: usize) -> (r: Result<(Block, usize), ParseError>)
    requires
        pos <= chunk@.len(),
    ensures
        match r {
            Ok((v, next)) => block_at(chunk@, pos as nat, depth as nat)
                == Ok::<(BlockModel, nat), ParseError>(
                (v@, next as nat),
            ) && pos <= next <= chunk@.len(),
            Err(e) => block_at(chunk@, pos as nat, depth as nat)
                == Err::<(BlockModel, nat), ParseError>(e),
        },
    decreases depth, 90nat, remaining(chunk@, pos as nat),
{
    let (statements, p1) = match statements(chunk, pos, depth) {
        Ok(found) => found,
        Err(e) => return Err(e),
    };
    match return_expressions(chunk, p1, depth) {
        Ok((return_expression, end)) => Ok((Block { statements, return_expression }, end)),
        Err(e) => Err(e),
    }
}

/// Reads the statements of a block.
pub fn statements(chunk: &Vec<char>, pos: usize, depth: usize) -> (r: Result<
    (Vec<Statement>, usize),
    ParseError,
>)
    requires
        pos <= chunk@.len(),
    ensures
        match r {
            Ok((v, next)) => statements_from(
                chunk@,
                pos as nat,
                Seq::<StatementModel>::empty(),
                depth as nat,
            ) == Ok::<(Seq<StatementModel>, nat), ParseError>((statements_of(v), next as nat))
                && pos <= next <= chunk@.len(),
            Err(e) => statements_from(
                chunk@,
                pos as nat,
                Seq::<StatementModel>::empty(),
                depth as nat,
            ) == Err::<(Seq<StatementModel>, nat), ParseError>(e),
        },
    decreases depth, 89nat, remaining(chunk@, pos as nat),
{
    let mut items = no_statements();
    let mut at: usize = pos;
    loop
        invariant
            pos <= at <= chunk@.len(),
            statements_from(chunk@, pos as nat, Seq::<StatementModel>::empty(), depth as nat)
                == statements_from(chunk@, at as nat, statements_of(items), depth as nat),
        decreases chunk@.len() - at,
    {
        let (token, p1) = match lex(chunk, at) {
            Ok(found) => found,
            Err(e) => return Err(e),
        };
        if is_block_end(token.kind) {
            return Ok((items, at));
        }
        let (item, p2) = match statement(chunk, at, depth) {
            Ok(found) => found,
            Err(e) => return Err(e),
        };
        let ghost before = items;
        items.push(item);
        proof {
            lemma_statements_push(before, items, item);
        }
        at = latest(p1, p2);
    }
}

/// Reads the return of a block, if it has one.
pub fn return_expressions(chunk: &Vec<char>, pos: usize, depth: usize) -> (r: Result<
    (Vec<Expression>, usize),
    ParseError,
>)
    requires
        pos <= chunk@.len(),
    ensures
        match r {
            Ok((v, next)) => return_at(chunk@, pos as nat, depth as nat) == Ok::<
                (Seq<ExpressionModel>, nat),
                ParseError,
            >((expressions_of(v), next as nat)) && pos <= next <= chunk@.len(),
            Err(e) => return_at(chunk@, pos as nat, depth as nat) == Err::<
                (Seq<ExpressionModel>, nat),
                ParseError,
            >(e),
        },
    decreases depth, 88nat, remaining(chunk@, pos as nat),
{
    let none = no_expressions();
    let (token, p1) = match lex(chunk, pos) {
        Ok(found) => found,
        Err(e) => return Err(e),
    };
    if token.kind != TokenType::KeywrodReturn {
        return Ok((none, pos));
    }
    let (first, p2) = match lex(chunk, p1) {
        Ok(found) => found,
        Err(e) => return Err(e),
    };
    if first.kind == TokenType::SeparatorSemicolon {
        return Ok((none, p2));
    }
    if is_block_end(first.kind) {
        return Ok((none, p1));
    }
    let (values, p3) = match expression_list(chunk, p1, depth) {
        Ok(found) => found,
        Err(e) => return Err(e),
    };
    let (last, p4) = match lex(chunk, p3) {
        Ok(found) => found,
        Err(e) => return Err(e),
    };
    if last.kind == TokenType::SeparatorSemicolon {
        Ok((values, p4))
    } else {
        Ok((values, p3))
    }
}

/// Reads a nested block and the keyword that closes it.
pub fn closed_block(chunk: &Vec<char>, pos: usize, closing: TokenType, depth: usize) -> (r: Result<
    (Block, usize),
    ParseError,
>)
    requires
        pos <= chunk@.len(),
    ensures
        match r {
            Ok((v, next)) => closed_block_at(chunk@, pos as nat, closing, depth as nat)
                == Ok::<(BlockModel, nat), ParseError>(
                (v@, next as nat),
            ) && pos <= next <= chunk@.len(),
            Err(e) => closed_block_at(chunk@, pos as nat, closing, depth as nat)
                == Err::<(BlockModel, nat), ParseError>(e),
        },
    decreases depth, 70nat, remaining(chunk@, pos as nat),
{
    if depth == 0 {
        return Err(ParseError::TooDeep);
    }
    let (body, p1) = match block(chunk, pos, depth - 1) {
        Ok(found) => found,
        Err(e) => return Err(e),
    };
    match expect(chunk, p1, closing) {
        Ok(end) => Ok((body, end)),
        Err(e) => Err(e),
    }
}

/// Reads the rest of an `if`, behind `if` or `elseif`.
pub fn if_rest(chunk: &Vec<char>, pos: usize, depth: usize) -> (r: Result<
    (Statement, usize),
    ParseError,
>)
    requires
        pos <= chunk@.len(),
    ensures
        match r {
            Ok((v, next)) => if_rest_at(chunk@, pos as nat, depth as nat)
                == Ok::<(StatementModel, nat), ParseError>(
                (v@, next as nat),
            ) && pos <= next <= chunk@.len(),
            Err(e) => if_rest_at(chunk@, pos as nat, depth as nat)
                == Err::<(StatementModel, nat), ParseError>(e),
        },
    decreases depth, 78nat, remaining(chunk@, pos as nat),
{
    let (condition, p1) = match expression_level(chunk, pos, 10, depth) {
        Ok(found) => found,
        Err(e) => return Err(e),
    };
    let p2 = match expect(chunk, p1, TokenType::KeywrodThen) {
        Ok(found) => found,
        Err(e) => return Err(e),
    };
    if depth == 0 {
        return Err(ParseError::TooDeep);
    }
    let (then_block, p3) = match block(chunk, p2, depth - 1) {
        Ok(found) => found,
        Err(e) => return Err(e),
    };
    let (token, p4) = match lex(chunk, p3) {
        Ok(found) => found,
        Err(e) => return Err(e),
    };
    if token.kind == TokenType::KeywrodElseIf {
        let (nested, end) = match if_rest(chunk, p4, depth - 1) {
            Ok(found) => found,
            Err(e) => return Err(e),
        };
        Ok((Statement::if_statement(condition, then_block, Block::only(nested)), end))
    } else if token.kind == TokenType::KeywrodElse {
        match closed_block(chunk, p4, TokenType::KeywrodEnd, depth) {
            Ok((else_block, end)) => Ok(
                (Statement::if_statement(condition, then_block, else_block), end),
            ),
            Err(e) => Err(e),
        }
    } else if token.kind == TokenType::KeywrodEnd {
        Ok((Statement::if_statement(condition, then_block, Block::empty()), p4))
    } else {
        Err(ParseError::UnexpectedToken(token.kind))
    }
}

/// Reads the rest of a `for`, behind the keyword.
pub fn for_rest(chunk: &Vec<char>, pos: usize, depth: usize) -> (r: Result<
    (Statement, usize),
    ParseError,
>)
    requires
        pos <= chunk@.len(),
    ensures
        match r {
            Ok((v, next)) => for_rest_at(chunk@, pos as nat, depth as nat)
                == Ok::<(StatementModel, nat), ParseError>(
                (v@, next as nat),
            ) && pos <= next <= chunk@.len(),
            Err(e) => for_rest_at(chunk@, pos as nat, depth as nat)
                == Err::<(StatementModel, nat), ParseError>(e),
        },
    decreases depth, 77nat, remaining(chunk@, pos as nat),
{
    let (name, p1) = match read_name(chunk, pos) {
        Ok(found) => found,
        Err(e) => return Err(e),
    };
    let (token, p2) = match lex(chunk, p1) {
        Ok(found) => found,
        Err(e) => return Err(e),
    };
    if token.kind == TokenType::OperatorAssign {
        let (first, p3) = match expression_level(chunk, p2, 10, depth) {
            Ok(found) => found,
            Err(e) => return Err(e),
        };
        let p4 = match expect(chunk, p3, TokenType::SeparetorComma) {
            Ok(found) => found,
            Err(e) => return Err(e),
        };
        let (limit, p5) = match expression_level(chunk, p4, 10, depth) {
            Ok(found) => found,
            Err(e) => return Err(e),
        };
        let (increment, p6) = match expect(chunk, p5, TokenType::SeparetorComma) {
            Ok(behind) => match expression_level(chunk, behind, 10, depth) {
                Ok(found) => found,
                Err(e) => return Err(e),
            },
            Err(_) => (Expression::EmptyExpression, p5),
        };
        let p7 = match expect(chunk, p6, TokenType::KeywrodDo) {
            Ok(found) => found,
            Err(e) => return Err(e),
        };
        match closed_block(chunk, p7, TokenType::KeywrodEnd, depth) {
            Ok((body, end)) => Ok(
                (
                    Statement::for_statement(
                        Expression::binary_expression(
                            token.value,
                            Expression::NameString(name),
                            first,
                        ),
                        limit,
                        increment,
                        body,
                    ),
                    end,
                ),
            ),
            Err(e) => Err(e),
        }
    } else {
        let (names, p3) = match name_list(chunk, p1, name) {
            Ok(found) => found,
            Err(e) => return Err(e),
        };
        let p4 = match expect(chunk, p3, TokenType::KeywrodIn) {
            Ok(found) => found,
            Err(e) => return Err(e),
        };
        let (values, p5) = match expression_list(chunk, p4, depth) {
            Ok(found) => found,
            Err(e) => return Err(e),
        };
        let p6 = match expect(chunk, p5, TokenType::KeywrodDo) {
            Ok(found) => found,
            Err(e) => return Err(e),
        };
        match closed_block(chunk, p6, TokenType::KeywrodEnd, depth) {
            Ok((body, end)) => Ok((Statement::for_in_statement(names, values, body), end)),
            Err(e) => Err(e),
        }
    }
}

/// Reads the rest of the name of a function in a function statement.
pub fn function_name(chunk: &Vec<char>, pos: usize, first: Expression) -> (r: Result<
    (Expression, usize),
    ParseError,
>)
    requires
        pos <= chunk@.len(),
    ensures
        match r {
            Ok((v, next)) => function_name_tail(chunk@, pos as nat, first@)
                == Ok::<(ExpressionModel, nat), ParseError>(
                (v@, next as nat),
            ) && pos <= next <= chunk@.len(),
            Err(e) => function_name_tail(chunk@, pos as nat, first@)
                == Err::<(ExpressionModel, nat), ParseError>(e),
        },
{
    let mut exp = first;
    let mut at: usize = pos;
    loop
        invariant
            pos <= at <= chunk@.len(),
            function_name_tail(chunk@, pos as nat, first@) == function_name_tail(
                chunk@,
                at as nat,
                exp@,
            ),
        decreases chunk@.len() - at,
    {
        let (token, p1) = match lex(chunk, at) {
            Ok(found) => found,
            Err(e) => return Err(e),
        };
        if token.kind != TokenType::SeparatorDot && token.kind != TokenType::SeparatorColon {
            return Ok((exp, at));
        }
        let (name, p2) = match read_name(chunk, p1) {
            Ok(found) => found,
            Err(e) => return Err(e),
        };
        exp = Expression::table_access_expression(exp, Expression::StringExpression(name));
        if token.kind == TokenType::SeparatorColon {
            return Ok((exp, p2));
        }
        at = p2;
    }
}

/// Reads the variables of an assignment behind the first.
pub fn variable_list(chunk: &Vec<char>, pos: usize, first: Expression, depth: usize) -> (r: Result<
    (Vec<Expression>, usize),
    ParseError,
>)
    requires
        pos <= chunk@.len(),
    ensures
        match r {
            Ok((v, next)) => variables_tail(chunk@, pos as nat, seq![first@], depth as nat) == Ok::<
                (Seq<ExpressionModel>, nat),
                ParseError,
            >((expressions_of(v), next as nat)) && pos <= next <= chunk@.len(),
            Err(e) => variables_tail(chunk@, pos as nat, seq![first@], depth as nat) == Err::<
                (Seq<ExpressionModel>, nat),
                ParseError,
            >(e),
        },
    decreases depth, 76nat, remaining(chunk@, pos as nat),
{
    let mut items = one_expression(first);
    let mut at: usize = pos;
    loop
        invariant
            pos <= at <= chunk@.len(),
            variables_tail(chunk@, pos as nat, seq![first@], depth as nat) == variables_tail(
                chunk@,
                at as nat,
                expressions_of(items),
                depth as nat,
            ),
        decreases chunk@.len() - at,
    {
        let (token, p1) = match lex(chunk, at) {
            Ok(found) => found,
            Err(e) => return Err(e),
        };
        if token.kind != TokenType::SeparetorComma {
            return Ok((items, at));
        }
        let (item, p2) = match prefix_expression(chunk, p1, depth) {
            Ok(found) => found,
            Err(e) => return Err(e),
        };
        let ghost before = items;
        items.push(item);
        proof {
            lemma_expressions_push(before, items, item);
        }
        at = p2;
    }
}

fn is_call(e: &Expression) -> (r: bool)
    ensures
        r == (e@ is Call),
{
    match e {
        Expression::FunctionCallExpression(_) => true,
        _ => false,
    }
}

/// Reads a statement.
pub fn statement(chunk: &Vec<char>, pos: usize, depth: usize) -> (r: Result<
    (Statement, usize),
    ParseError,
>)
    requires
        pos <= chunk@.len(),
    ensures
        match r {
            Ok((v, next)) => statement_at(chunk@, pos as nat, depth as nat)
                == Ok::<(StatementModel, nat), ParseError>(
                (v@, next as nat),
            ) && pos <= next <= chunk@.len(),
            Err(e) => statement_at(chunk@, pos as nat, depth as nat)
                == Err::<(StatementModel, nat), ParseError>(e),
        },
    decreases depth, 80nat, remaining(chunk@, pos as nat),
{
    let (token, p1) = match lex(chunk, pos) {
        Ok(found) => found,
        Err(e) => return Err(e),
    };
    match token.kind {
        TokenType::SeparatorSemicolon => Ok((Statement::EmptyStatement, p1)),
        TokenType::KeywrodBreak => Ok((Statement::BreakStatement, p1)),
        TokenType::SeparatorLabel => {
            let (name, p2) = match read_name(chunk, p1) {
                Ok(found) => found,
                Err(e) => return Err(e),
            };
            match expect(chunk, p2, TokenType::SeparatorLabel) {
                Ok(end) => Ok((Statement::LabelStatement(name), end)),
                Err(e) => Err(e),
            }
        },
        TokenType::KeywrodGoto => match read_name(chunk, p1) {
            Ok((name, end)) => Ok((Statement::GotoStatement(name), end)),
            Err(e) => Err(e),
        },
        TokenType::KeywrodDo => match closed_block(chunk, p1, TokenType::KeywrodEnd, depth) {
            Ok((body, end)) => Ok((Statement::DotStatement(body), end)),
            Err(e) => Err(e),
        },
        TokenType::KeywrodWhile => {
            let (condition, p2) = match expression_level(chunk, p1, 10, depth) {
                Ok(found) => found,
                Err(e) => return Err(e),
            };
            let p3 = match expect(chunk, p2, TokenType::KeywrodDo) {
                Ok(found) => found,
                Err(e) => return Err(e),
            };
            match closed_block(chunk, p3, TokenType::KeywrodEnd, depth) {
                Ok((body, end)) => Ok((Statement::while_statement(condition, body), end)),
                Err(e) => Err(e),
            }
        },
        TokenType::KeywrodRepeat => {
            let (body, p2) = match closed_block(chunk, p1, TokenType::KeywrodUntil, depth) {
                Ok(found) => found,
                Err(e) => return Err(e),
            };
            match expression_level(chunk, p2, 10, depth) {
                Ok((condition, end)) => Ok((Statement::repeat_statement(condition, body), end)),
                Err(e) => Err(e),
            }
        },
        TokenType::KeywrodIf => if_rest(chunk, p1, depth),
        TokenType::KeywrodFor => for_rest(chunk, p1, depth),
        TokenType::KeywrodFunction => {
            let (name, p2) = match read_name(chunk, p1) {
                Ok(found) => found,
                Err(e) => return Err(e),
            };
            let (target, p3) = match function_name(chunk, p2, Expression::NameString(name)) {
                Ok(found) => found,
                Err(e) => return Err(e),
            };
            match function_body(chunk, p3, depth) {
                Ok((body, end)) => Ok(
                    (Statement::assign_statement(one_expression(target), one_expression(body)), end),
                ),
                Err(e) => Err(e),
            }
        },
        TokenType::KeywrodLocal => {
            let (second, p2) = match lex(chunk, p1) {
                Ok(found) => found,
                Err(e) => return Err(e),
            };
            if second.kind == TokenType::KeywrodFunction {
                let (name, p3) = match read_name(chunk, p2) {
                    Ok(found) => found,
                    Err(e) => return Err(e),
                };
                match function_body(chunk, p3, depth) {
                    Ok((body, end)) => Ok(
                        (Statement::local_function_defined_statement(name, body), end),
                    ),
                    Err(e) => Err(e),
                }
            } else {
                let (name, p3) = match read_name(chunk, p1) {
                    Ok(found) => found,
                    Err(e) => return Err(e),
                };
                let (names, p4) = match name_list(chunk, p3, name) {
                    Ok(found) => found,
                    Err(e) => return Err(e),
                };
                match expect(chunk, p4, TokenType::OperatorAssign) {
                    Ok(p5) => match expression_list(chunk, p5, depth) {
                        Ok((values, end)) => Ok(
                            (Statement::local_var_declare_statement(names, values), end),
                        ),
                        Err(e) => Err(e),
                    },
                    Err(_) => Ok(
                        (Statement::local_var_declare_statement(names, no_expressions()), p4),
                    ),
                }
            }
        },
        _ => {
            let (first, p2) = match prefix_expression(chunk, pos, depth) {
                Ok(found) => found,
                Err(e) => return Err(e),
            };
            let (follow, p3) = match lex(chunk, p2) {
                Ok(found) => found,
                Err(e) => return Err(e),
            };
            if follow.kind == TokenType::OperatorAssign || follow.kind
                == TokenType::SeparetorComma {
                let (variables, p4) = match variable_list(chunk, p2, first, depth) {
                    Ok(found) => found,
                    Err(e) => return Err(e),
                };
                let p5 = match expect(chunk, p4, TokenType::OperatorAssign) {
                    Ok(found) => found,
                    Err(e) => return Err(e),
                };
                match expression_list(chunk, p5, depth) {
                    Ok((values, end)) => Ok((Statement::assign_statement(variables, values), end)),
                    Err(e) => Err(e),
                }
            } else if is_call(&first) {
                Ok((Statement::function_call_statement(first), p2))
            } else {
                Err(ParseError::UnexpectedToken(follow.kind))
            }
        },
    }
}

} // verus!
