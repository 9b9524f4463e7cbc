use vstd::prelude::*;
use crate::compiler::ast::block::BlockModel;
use crate::compiler::ast::expression::ExpressionModel;
use crate::compiler::ast::statement::StatementModel;
use crate::compiler::lexer::token::{TokenModel, TokenType};
use crate::lexer::lexer::{lemma_token_advances, token_at, LexError};
use crate::vm::arith::wrap;

verus! {

// The grammar, as functions of a text and a position in it. Each gives the piece of
// syntax that starts at the position together with the position behind it, or the
// fault that stops the parsing. `depth` is the number of levels of nesting that may
// still follow.

/// Why a text is no program.
#[derive(Debug, Clone, Copy, PartialEq, Eq, Structural)]
pub enum ParseError {
    /// The text has no next token.
    Lex(LexError),
    /// A token of this kind stands where the grammar has no use for it.
    UnexpectedToken(TokenType),
    /// The text nests deeper than the parser follows.
    TooDeep,
}

/// How many levels of nesting the parser follows.
pub const MAX_DEPTH: usize = 200;

pub type Parsed<T> = Result<(T, nat), ParseError>;

/// The characters left from `pos` on.
pub open spec fn remaining(chunk: Seq<char>, pos: nat) -> nat {
    if pos < chunk.len() {
        (chunk.len() - pos) as nat
    } else {
        0
    }
}

/// The later of two positions.
pub open spec fn later(p: nat, q: nat) -> nat {
    if q >= p {
        q
    } else {
        p
    }
}

/// The token at `pos`.
#[verifier::opaque]
pub open spec fn lexed(chunk: Seq<char>, pos: nat) -> Parsed<TokenModel> {
    match token_at(chunk, pos as int) {
        Ok((token, next)) => Ok((token, next as nat)),
        Err(e) => Err(ParseError::Lex(e)),
    }
}

/// A token does not end before the place where the scan for it started; every token
/// but the end token takes at least one character and ends within the text.
pub proof fn lemma_lexed_advances(chunk: Seq<char>, pos: nat)
    ensures
        match lexed(chunk, pos) {
            Ok((token, next)) => pos <= next && (pos <= chunk.len() ==> next <= chunk.len())
                && (token.kind != TokenType::Eof ==> pos < next <= chunk.len()),
            Err(_) => true,
        },
{
    reveal(lexed);
    lemma_token_advances(chunk, pos as int);
}

/// The position behind the token at `pos`, which must be of the given kind.
pub open spec fn expected(chunk: Seq<char>, pos: nat, kind: TokenType) -> Result<nat, ParseError> {
    match lexed(chunk, pos) {
        Err(e) => Err(e),
        Ok((token, next)) => if token.kind == kind {
            Ok(next)
        } else {
            Err(ParseError::UnexpectedToken(token.kind))
        },
    }
}

/// The name at `pos`.
pub open spec fn name_at(chunk: Seq<char>, pos: nat) -> Parsed<Seq<char>> {
    match lexed(chunk, pos) {
        Err(e) => Err(e),
        Ok((token, next)) => if token.kind == TokenType::Identifier {
            Ok((token.value, next))
        } else {
            Err(ParseError::UnexpectedToken(token.kind))
        },
    }
}

/// The level of a binary operator, from 1 for the operators that bind most to 10 for
/// `or`; 0 for a token that is no binary operator.
pub open spec fn binary_level(kind: TokenType) -> nat {
    match kind {
        TokenType::OperatorMultiply
        | TokenType::OperatorDivide
        | TokenType::OperatorMod
        | TokenType::OperatorIDivide => 1,
        TokenType::OperatorPlus | TokenType::OperatorMinus => 2,
        TokenType::OperatorConcat => 3,
        TokenType::OperatorShl | TokenType::OperatorShr => 4,
        TokenType::OperatorBand => 5,
        TokenType::OperatorWave => 6,
        TokenType::OperatorBor => 7,
        TokenType::OperatorLt
        | TokenType::OperatorGt
        | TokenType::OperatorLe
        | TokenType::OperatorGe
        | TokenType::OperatorNotEqual
        | TokenType::OperatorEq => 8,
        TokenType::OperatorAnd => 9,
        TokenType::OperatorOr => 10,
        _ => 0,
    }
}

/// The token is a unary operator: `not`, `-`, `#` or `~`.
pub open spec fn unary_operator(kind: TokenType) -> bool {
    kind == TokenType::OperatorNot || kind == TokenType::OperatorMinus || kind
        == TokenType::OperatorLen || kind == TokenType::OperatorWave
}

/// The token ends a block.
pub open spec fn block_end(kind: TokenType) -> bool {
    kind == TokenType::KeywrodReturn || kind == TokenType::Eof || kind == TokenType::KeywrodEnd
        || kind == TokenType::KeywrodElse || kind == TokenType::KeywrodElseIf || kind
        == TokenType::KeywrodUntil
}

/// The token separates the fields of a table constructor.
pub open spec fn field_separator(kind: TokenType) -> bool {
    kind == TokenType::SeparetorComma || kind == TokenType::SeparatorSemicolon
}

/// The value of a digit, decimal or hexadecimal.
pub open spec fn digit_value(c: char) -> int {
    if '0' <= c <= '9' {
        c as int - 48
    } else if 'a' <= c <= 'f' {
        c as int - 87
    } else if 'A' <= c <= 'F' {
        c as int - 55
    } else {
        0
    }
}

/// The number that digits write in a base.
pub open spec fn numeral_value(text: Seq<char>, base: int) -> int
    decreases text.len(),
{
    if text.len() == 0 {
        0
    } else {
        numeral_value(text.drop_last(), base) * base + digit_value(text.last())
    }
}

/// Every character is a decimal digit.
pub open spec fn decimal_digits(text: Seq<char>) -> bool {
    forall|i: int| 0 <= i < text.len() ==> '0' <= #[trigger] text[i] <= '9'
}

/// The expression that a numeral writes. Behind `0x` stand hexadecimal digits, whose
/// value wraps around in 64 bits. Decimal digits alone write an integer where it fits
/// in 64 bits. Every other numeral is kept as it stands.
pub open spec fn numeral(text: Seq<char>) -> ExpressionModel {
    if text.len() >= 2 && text[0] == '0' && text[1] == 'x' {
        ExpressionModel::Integer(wrap(numeral_value(text.skip(2), 16)))
    } else if decimal_digits(text) && numeral_value(text, 10) <= i64::MAX {
        ExpressionModel::Integer(numeral_value(text, 10) as i64)
    } else {
        ExpressionModel::Float(text)
    }
}

/// The expression at `pos`, down to the binary operators of `level`: operands of the
/// level below, joined from the left by the operators of the level; the operands of
/// `..` are gathered in one list. Level 0 is the level of the unary operators.
pub open spec fn level_at(chunk: Seq<char>, pos: nat, level: nat, depth: nat) -> Parsed<
    ExpressionModel,
>
    decreases depth, 2 * level + 6, remaining(chunk, pos),
{
    if level == 0 {
        unary_at(chunk, pos, depth)
    } else {
        match level_at(chunk, pos, (level - 1) as nat, depth) {
            Err(e) => Err(e),
            Ok((left, next)) => if level == 3 {
                concat_tail(chunk, next, seq![left], depth)
            } else {
                binary_tail(chunk, next, level, left, depth)
            },
        }
    }
}

/// The rest of a chain of binary operators of one level, with what stands left of it.
pub open spec fn binary_tail(
    chunk: Seq<char>,
    pos: nat,
    level: nat,
    left: ExpressionModel,
    depth: nat,
) -> Parsed<ExpressionModel>
    decreases depth, 2 * level + 5, remaining(chunk, pos),
{
    match lexed(chunk, pos) {
        Err(e) => Err(e),
        Ok((token, p1)) => if level == 0 || binary_level(token.kind) != level {
            Ok((left, pos))
        } else {
            match level_at(chunk, p1, (level - 1) as nat, depth) {
                Err(e) => Err(e),
                Ok((right, p2)) => {
                    proof {
                        lemma_lexed_advances(chunk, pos);
                    }
                    binary_tail(
                        chunk,
                        later(p1, p2),
                        level,
                        ExpressionModel::Binary(token.value, Box::new(left), Box::new(right)),
                        depth,
                    )
                },
            }
        },
    }
}

/// The rest of a chain of `..`, with the operands before it. One operand alone is
/// itself; two or more make a concatenation.
pub open spec fn concat_tail(
    chunk: Seq<char>,
    pos: nat,
    items: Seq<ExpressionModel>,
    depth: nat,
) -> Parsed<ExpressionModel>
    decreases depth, 11nat, remaining(chunk, pos),
{
    match lexed(chunk, pos) {
        Err(e) => Err(e),
        Ok((token, p1)) => if token.kind != TokenType::OperatorConcat {
            if items.len() == 1 {
                Ok((items[0], pos))
            } else {
                Ok((ExpressionModel::Concat(items), pos))
            }
        } else {
            match level_at(chunk, p1, 2, depth) {
                Err(e) => Err(e),
                Ok((right, p2)) => {
                    proof {
                        lemma_lexed_advances(chunk, pos);
                    }
                    concat_tail(chunk, later(p1, p2), items.push(right), depth)
                },
            }
        },
    }
}

/// The expression at `pos`, down to the unary operators: any number of them, then an
/// operand that may be a power.
pub open spec fn unary_at(chunk: Seq<char>, pos: nat, depth: nat) -> Parsed<ExpressionModel>
    decreases depth, 5nat, remaining(chunk, pos),
{
    match lexed(chunk, pos) {
        Err(e) => Err(e),
        Ok((token, p1)) => if unary_operator(token.kind) {
            proof {
                lemma_lexed_advances(chunk, pos);
            }
            match unary_at(chunk, p1, depth) {
                Err(e) => Err(e),
                Ok((operand, next)) => Ok(
                    (ExpressionModel::Unary(token.value, Box::new(operand)), next),
                ),
            }
        } else {
            pow_at(chunk, pos, depth)
        },
    }
}

/// The expression at `pos`, down to `^`: a primary expression, and behind `^` the
/// exponent, which binds to the right and may have unary operators.
pub open spec fn pow_at(chunk: Seq<char>, pos: nat, depth: nat) -> Parsed<ExpressionModel>
    decreases depth, 4nat, remaining(chunk, pos),
{
    match primary_at(chunk, pos, depth) {
        Err(e) => Err(e),
        Ok((base, next)) => match lexed(chunk, next) {
            Err(e) => Err(e),
            Ok((token, p1)) => if token.kind != TokenType::OperatorPow {
                Ok((base, next))
            } else if depth == 0 {
                Err(ParseError::TooDeep)
            } else {
                match unary_at(chunk, p1, (depth - 1) as nat) {
                    Err(e) => Err(e),
                    Ok((exponent, end)) => Ok(
                        (
                            ExpressionModel::Binary(
                                token.value,
                                Box::new(base),
                                Box::new(exponent),
                            ),
                            end,
                        ),
                    ),
                }
            },
        },
    }
}

/// The primary expression at `pos`: a literal, a table constructor, a function, or a
/// prefix expression.
pub open spec fn primary_at(chunk: Seq<char>, pos: nat, depth: nat) -> Parsed<ExpressionModel>
    decreases depth, 3nat, remaining(chunk, pos),
{
    match lexed(chunk, pos) {
        Err(e) => Err(e),
        Ok((token, p1)) => match token.kind {
            TokenType::Vararg => Ok((ExpressionModel::Vararg, p1)),
            TokenType::KeywrodNil => Ok((ExpressionModel::Nil, p1)),
            TokenType::KeywrodTrue => Ok((ExpressionModel::True, p1)),
            TokenType::KeywrodFalse => Ok((ExpressionModel::False, p1)),
            TokenType::String => Ok((ExpressionModel::String(token.value), p1)),
            TokenType::Number => Ok((numeral(token.value), p1)),
            TokenType::SeparatorOpenBrace => if depth == 0 {
                Err(ParseError::TooDeep)
            } else {
                table_at(chunk, pos, (depth - 1) as nat)
            },
            TokenType::KeywrodFunction => if depth == 0 {
                Err(ParseError::TooDeep)
            } else {
                function_body_at(chunk, p1, (depth - 1) as nat)
            },
            _ => prefix_at(chunk, pos, depth),
        },
    }
}

/// The prefix expression at `pos`: a name or an expression in parentheses, and behind
/// it any number of indexings and calls.
pub open spec fn prefix_at(chunk: Seq<char>, pos: nat, depth: nat) -> Parsed<ExpressionModel>
    decreases depth, 2nat, remaining(chunk, pos),
{
    match lexed(chunk, pos) {
        Err(e) => Err(e),
        Ok((token, p1)) => if token.kind == TokenType::Identifier {
            suffixes_from(chunk, p1, ExpressionModel::Name(token.value), depth)
        } else if token.kind == TokenType::SeparatorOpenParenthesis {
            if depth == 0 {
                Err(ParseError::TooDeep)
            } else {
                match level_at(chunk, p1, 10, (depth - 1) as nat) {
                    Err(e) => Err(e),
                    Ok((inner, p2)) => match expected(
                        chunk,
                        p2,
                        TokenType::SeparatorCloseParenthesis,
                    ) {
                        Err(e) => Err(e),
                        Ok(p3) => suffixes_from(
                            chunk,
                            p3,
                            ExpressionModel::Parenthesis(Box::new(inner)),
                            depth,
                        ),
                    },
                }
            }
        } else {
            Err(ParseError::UnexpectedToken(token.kind))
        },
    }
}

/// The indexings and calls from `pos` on, applied one after the other to what stands
/// before them: `[key]`, `.name`, arguments, and `:name` with arguments.
pub open spec fn suffixes_from(chunk: Seq<char>, pos: nat, prefix: ExpressionModel, depth: nat)
    -> Parsed<ExpressionModel>
    decreases depth, 1nat, remaining(chunk, pos),
{
    match lexed(chunk, pos) {
        Err(e) => Err(e),
        Ok((token, p1)) => {
            proof {
                lemma_lexed_advances(chunk, pos);
            }
            if token.kind == TokenType::SeparatorDot {
                match name_at(chunk, p1) {
                    Err(e) => Err(e),
                    Ok((name, p2)) => suffixes_from(
                        chunk,
                        later(p1, p2),
                        ExpressionModel::Access(
                            Box::new(prefix),
                            Box::new(ExpressionModel::String(name)),
                        ),
                        depth,
                    ),
                }
            } else if depth == 0 && (token.kind == TokenType::SeparatorOpenBracket || token.kind
                == TokenType::SeparatorColon || token.kind == TokenType::SeparatorOpenParenthesis
                || token.kind == TokenType::SeparatorOpenBrace || token.kind
                == TokenType::String) {
                Err(ParseError::TooDeep)
            } else if token.kind == TokenType::SeparatorOpenBracket {
                match level_at(chunk, p1, 10, (depth - 1) as nat) {
                    Err(e) => Err(e),
                    Ok((key, p2)) => match expected(chunk, p2, TokenType::SeparatorCloseBracket) {
                        Err(e) => Err(e),
                        Ok(p3) => suffixes_from(
                            chunk,
                            later(p1, p3),
                            ExpressionModel::Access(Box::new(prefix), Box::new(key)),
                            depth,
                        ),
                    },
                }
            } else if token.kind == TokenType::SeparatorColon {
                match name_at(chunk, p1) {
                    Err(e) => Err(e),
                    Ok((name, p2)) => match args_at(chunk, p2, (depth - 1) as nat) {
                        Err(e) => Err(e),
                        Ok((args, p3)) => suffixes_from(
                            chunk,
                            later(p1, p3),
                            ExpressionModel::Call(
                                Box::new(prefix),
                                Box::new(ExpressionModel::String(name)),
                                args,
                            ),
                            depth,
                        ),
                    },
                }
            } else if token.kind == TokenType::SeparatorOpenParenthesis || token.kind
                == TokenType::SeparatorOpenBrace || token.kind == TokenType::String {
                match args_at(chunk, pos, (depth - 1) as nat) {
                    Err(e) => Err(e),
                    Ok((args, p3)) => suffixes_from(
                        chunk,
                        later(p1, p3),
                        ExpressionModel::Call(
                            Box::new(prefix),
                            Box::new(ExpressionModel::String(Seq::<char>::empty())),
                            args,
                        ),
                        depth,
                    ),
                }
            } else {
                Ok((prefix, pos))
            }
        },
    }
}

/// The arguments of a call at `pos`: expressions in parentheses, one table
/// constructor, or one string.
pub open spec fn args_at(chunk: Seq<char>, pos: nat, depth: nat) -> Parsed<Seq<ExpressionModel>>
    decreases depth, 67nat, remaining(chunk, pos),
{
    match lexed(chunk, pos) {
        Err(e) => Err(e),
        Ok((token, p1)) => if token.kind == TokenType::String {
            Ok((seq![ExpressionModel::String(token.value)], p1))
        } else if token.kind == TokenType::SeparatorOpenBrace {
            match table_at(chunk, pos, depth) {
                Err(e) => Err(e),
                Ok((table, next)) => Ok((seq![table], next)),
            }
        } else if token.kind == TokenType::SeparatorOpenParenthesis {
            listed_args_at(chunk, p1, depth)
        } else {
            Err(ParseError::UnexpectedToken(token.kind))
        },
    }
}

/// The arguments of a call behind the opening parenthesis: the closing parenthesis at
/// once, or a list of expressions and the closing parenthesis.
pub open spec fn listed_args_at(chunk: Seq<char>, pos: nat, depth: nat) -> Parsed<
    Seq<ExpressionModel>,
>
    decreases depth, 66nat, remaining(chunk, pos),
{
    match lexed(chunk, pos) {
        Err(e) => Err(e),
        Ok((first, p2)) => if first.kind == TokenType::SeparatorCloseParenthesis {
            Ok((Seq::<ExpressionModel>::empty(), p2))
        } else {
            match expression_list_at(chunk, pos, depth) {
                Err(e) => Err(e),
                Ok((args, p3)) => match expected(chunk, p3, TokenType::SeparatorCloseParenthesis) {
                    Err(e) => Err(e),
                    Ok(end) => Ok((args, end)),
                },
            }
        },
    }
}

/// The list of expressions at `pos`: one or more, separated by commas.
pub open spec fn expression_list_at(chunk: Seq<char>, pos: nat, depth: nat) -> Parsed<
    Seq<ExpressionModel>,
>
    decreases depth, 60nat, remaining(chunk, pos),
{
    match level_at(chunk, pos, 10, depth) {
        Err(e) => Err(e),
        Ok((first, next)) => expression_list_tail(chunk, next, seq![first], depth),
    }
}

/// The rest of a list of expressions, with the expressions before it.
pub open spec fn expression_list_tail(
    chunk: Seq<char>,
    pos: nat,
    items: Seq<ExpressionModel>,
    depth: nat,
) -> Parsed<Seq<ExpressionModel>>
    decreases depth, 59nat, remaining(chunk, pos),
{
    match lexed(chunk, pos) {
        Err(e) => Err(e),
        Ok((token, p1)) => if token.kind != TokenType::SeparetorComma {
            Ok((items, pos))
        } else {
            match level_at(chunk, p1, 10, depth) {
                Err(e) => Err(e),
                Ok((item, p2)) => {
                    proof {
                        lemma_lexed_advances(chunk, pos);
                    }
                    expression_list_tail(chunk, later(p1, p2), items.push(item), depth)
                },
            }
        },
    }
}

/// The table constructor at `pos`: fields in braces.
pub open spec fn table_at(chunk: Seq<char>, pos: nat, depth: nat) -> Parsed<ExpressionModel>
    decreases depth, 65nat, remaining(chunk, pos),
{
    match expected(chunk, pos, TokenType::SeparatorOpenBrace) {
        Err(e) => Err(e),
        Ok(p1) => match fields_from(
            chunk,
            p1,
            Seq::<ExpressionModel>::empty(),
            Seq::<ExpressionModel>::empty(),
            depth,
        ) {
            Err(e) => Err(e),
            Ok(((keys, values), p2)) => match expected(chunk, p2, TokenType::SeparatorCloseBrace) {
                Err(e) => Err(e),
                Ok(end) => Ok((ExpressionModel::Table(keys, values), end)),
            },
        },
    }
}

/// The fields of a table constructor from `pos` on, with the fields before them: each
/// field is followed by a separator or by the closing brace.
pub open spec fn fields_from(
    chunk: Seq<char>,
    pos: nat,
    keys: Seq<ExpressionModel>,
    values: Seq<ExpressionModel>,
    depth: nat,
) -> Parsed<(Seq<ExpressionModel>, Seq<ExpressionModel>)>
    decreases depth, 64nat, remaining(chunk, pos),
{
    match lexed(chunk, pos) {
        Err(e) => Err(e),
        Ok((token, p1)) => if token.kind == TokenType::SeparatorCloseBrace {
            Ok(((keys, values), pos))
        } else if token.kind == TokenType::Eof {
            Err(ParseError::UnexpectedToken(TokenType::Eof))
        } else {
            match field_at(chunk, pos, depth) {
                Err(e) => Err(e),
                Ok(((key, value), p2)) => match lexed(chunk, p2) {
                    Err(e) => Err(e),
                    Ok((separator, p3)) => {
                        proof {
                            lemma_lexed_advances(chunk, pos);
                        }
                        if field_separator(separator.kind) {
                            fields_from(
                                chunk,
                                later(p1, p3),
                                keys.push(key),
                                values.push(value),
                                depth,
                            )
                        } else {
                            Ok(((keys.push(key), values.push(value)), p2))
                        }
                    },
                },
            }
        },
    }
}

/// The field at `pos`: `[key] = value`, `name = value`, or a value alone, which has
/// the nil expression as its key.
pub open spec fn field_at(chunk: Seq<char>, pos: nat, depth: nat) -> Parsed<
    (ExpressionModel, ExpressionModel),
>
    decreases depth, 63nat, remaining(chunk, pos),
{
    match lexed(chunk, pos) {
        Err(e) => Err(e),
        Ok((token, p1)) => if token.kind == TokenType::SeparatorOpenBracket {
            match level_at(chunk, p1, 10, depth) {
                Err(e) => Err(e),
                Ok((key, p2)) => match expected(chunk, p2, TokenType::SeparatorCloseBracket) {
                    Err(e) => Err(e),
                    Ok(p3) => match expected(chunk, p3, TokenType::OperatorAssign) {
                        Err(e) => Err(e),
                        Ok(p4) => match level_at(chunk, p4, 10, depth) {
                            Err(e) => Err(e),
                            Ok((value, end)) => Ok(((key, value), end)),
                        },
                    },
                },
            }
        } else if token.kind == TokenType::Identifier && expected(
            chunk,
            p1,
            TokenType::OperatorAssign,
        ) is Ok {
            match level_at(chunk, expected(chunk, p1, TokenType::OperatorAssign)->Ok_0, 10, depth) {
                Err(e) => Err(e),
                Ok((value, end)) => Ok(((ExpressionModel::String(token.value), value), end)),
            }
        } else {
            match level_at(chunk, pos, 10, depth) {
                Err(e) => Err(e),
                Ok((value, end)) => Ok(((ExpressionModel::Nil, value), end)),
            }
        },
    }
}

/// The parameters of a function from `pos` on, with the names before them: names
/// separated by commas, the last of which may be `...`.
pub open spec fn params_from(chunk: Seq<char>, pos: nat, names: Seq<Seq<char>>) -> Parsed<
    (Seq<Seq<char>>, bool),
>
    decreases remaining(chunk, pos),
{
    match lexed(chunk, pos) {
        Err(e) => Err(e),
        Ok((token, p1)) => if token.kind == TokenType::Vararg {
            Ok(((names, true), p1))
        } else if token.kind == TokenType::Identifier {
            match lexed(chunk, p1) {
                Err(e) => Err(e),
                Ok((comma, p2)) => {
                    proof {
                        lemma_lexed_advances(chunk, pos);
                    }
                    if comma.kind == TokenType::SeparetorComma {
                        params_from(chunk, later(p1, p2), names.push(token.value))
                    } else {
                        Ok(((names.push(token.value), false), p1))
                    }
                },
            }
        } else {
            Err(ParseError::UnexpectedToken(token.kind))
        },
    }
}

/// The body of a function at `pos`, behind the keyword: parameters in parentheses, a
/// block, and `end`.
pub open spec fn function_body_at(chunk: Seq<char>, pos: nat, depth: nat) -> Parsed<
    ExpressionModel,
>
    decreases depth, 68nat, remaining(chunk, pos),
{
    match expected(chunk, pos, TokenType::SeparatorOpenParenthesis) {
        Err(e) => Err(e),
        Ok(p1) => {
            let params = if expected(chunk, p1, TokenType::SeparatorCloseParenthesis) is Ok {
                Ok(((Seq::<Seq<char>>::empty(), false), p1))
            } else {
                params_from(chunk, p1, Seq::<Seq<char>>::empty())
            };
            match params {
                Err(e) => Err(e),
                Ok(((names, is_vararg), p2)) => match expected(
                    chunk,
                    p2,
                    TokenType::SeparatorCloseParenthesis,
                ) {
                    Err(e) => Err(e),
                    Ok(p3) => if depth == 0 {
                        Err(ParseError::TooDeep)
                    } else {
                        match block_at(chunk, p3, (depth - 1) as nat) {
                            Err(e) => Err(e),
                            Ok((block, p4)) => match expected(chunk, p4, TokenType::KeywrodEnd) {
                                Err(e) => Err(e),
                                Ok(end) => Ok(
                                    (
                                        ExpressionModel::Function(names, is_vararg, Box::new(block)),
                                        end,
                                    ),
                                ),
                            },
                        }
                    },
                },
            }
        },
    }
}

/// The names from `pos` on, with the names before them: each behind a comma.
pub open spec fn names_tail(chunk: Seq<char>, pos: nat, names: Seq<Seq<char>>) -> Parsed<
    Seq<Seq<char>>,
>
    decreases remaining(chunk, pos),
{
    match lexed(chunk, pos) {
        Err(e) => Err(e),
        Ok((token, p1)) => if token.kind != TokenType::SeparetorComma {
            Ok((names, pos))
        } else {
            match name_at(chunk, p1) {
                Err(e) => Err(e),
                Ok((name, p2)) => {
                    proof {
                        lemma_lexed_advances(chunk, pos);
                    }
                    names_tail(chunk, later(p1, p2), names.push(name))
                },
            }
        },
    }
}

/// The block at `pos`: statements up to a token that ends a block, and behind
/// `return` the expressions of the return, with at most one semicolon.
pub open spec fn block_at(chunk: Seq<char>, pos: nat, depth: nat) -> Parsed<BlockModel>
    decreases depth, 90nat, remaining(chunk, pos),
{
    match statements_from(chunk, pos, Seq::<StatementModel>::empty(), depth) {
        Err(e) => Err(e),
        Ok((statements, p1)) => match return_at(chunk, p1, depth) {
            Err(e) => Err(e),
            Ok((return_expression, end)) => Ok((BlockModel { statements, return_expression }, end)),
        },
    }
}

/// The statements from `pos` on, with the statements before them.
pub open spec fn statements_from(
    chunk: Seq<char>,
    pos: nat,
    statements: Seq<StatementModel>,
    depth: nat,
) -> Parsed<Seq<StatementModel>>
    decreases depth, 89nat, remaining(chunk, pos),
{
    match lexed(chunk, pos) {
        Err(e) => Err(e),
        Ok((token, p1)) => if block_end(token.kind) {
            Ok((statements, pos))
        } else {
            match statement_at(chunk, pos, depth) {
                Err(e) => Err(e),
                Ok((statement, p2)) => {
                    proof {
                        lemma_lexed_advances(chunk, pos);
                    }
                    statements_from(chunk, later(p1, p2), statements.push(statement), depth)
                },
            }
        },
    }
}

/// The return at `pos`, if there is one: the expressions behind `return`, none where
/// a token that ends a block or a semicolon follows at once.
pub open spec fn return_at(chunk: Seq<char>, pos: nat, depth: nat) -> Parsed<Seq<ExpressionModel>>
    decreases depth, 88nat, remaining(chunk, pos),
{
    match lexed(chunk, pos) {
        Err(e) => Err(e),
        Ok((token, p1)) => if token.kind != TokenType::KeywrodReturn {
            Ok((Seq::<ExpressionModel>::empty(), pos))
        } else {
            match lexed(chunk, p1) {
                Err(e) => Err(e),
                Ok((first, p2)) => if first.kind == TokenType::SeparatorSemicolon {
                    Ok((Seq::<ExpressionModel>::empty(), p2))
                } else if block_end(first.kind) {
                    Ok((Seq::<ExpressionModel>::empty(), p1))
                } else {
                    match expression_list_at(chunk, p1, depth) {
                        Err(e) => Err(e),
                        Ok((values, p3)) => match lexed(chunk, p3) {
                            Err(e) => Err(e),
                            Ok((last, p4)) => if last.kind == TokenType::SeparatorSemicolon {
                                Ok((values, p4))
                            } else {
                                Ok((values, p3))
                            },
                        },
                    }
                },
            }
        },
    }
}

/// The nested block at `pos` and the keyword that closes it.
pub open spec fn closed_block_at(chunk: Seq<char>, pos: nat, closing: TokenType, depth: nat)
    -> Parsed<BlockModel>
    decreases depth, 70nat, remaining(chunk, pos),
{
    if depth == 0 {
        Err(ParseError::TooDeep)
    } else {
        match block_at(chunk, pos, (depth - 1) as nat) {
            Err(e) => Err(e),
            Ok((block, p1)) => match expected(chunk, p1, closing) {
                Err(e) => Err(e),
                Ok(end) => Ok((block, end)),
            },
        }
    }
}

/// The rest of an `if` at `pos`, behind `if` or `elseif`: the condition, `then`, a
/// block, and then `end`, or `else` with a block and `end`, or `elseif` with the rest
/// of an `if`, which makes the only statement of the else block.
pub open spec fn if_rest_at(chunk: Seq<char>, pos: nat, depth: nat) -> Parsed<StatementModel>
    decreases depth, 78nat, remaining(chunk, pos),
{
    let none = BlockModel {
        statements: Seq::<StatementModel>::empty(),
        return_expression: Seq::<ExpressionModel>::empty(),
    };
    match level_at(chunk, pos, 10, depth) {
        Err(e) => Err(e),
        Ok((condition, p1)) => match expected(chunk, p1, TokenType::KeywrodThen) {
            Err(e) => Err(e),
            Ok(p2) => if depth == 0 {
                Err(ParseError::TooDeep)
            } else {
                match block_at(chunk, p2, (depth - 1) as nat) {
                    Err(e) => Err(e),
                    Ok((then_block, p3)) => match lexed(chunk, p3) {
                        Err(e) => Err(e),
                        Ok((token, p4)) => if token.kind == TokenType::KeywrodElseIf {
                            match if_rest_at(chunk, p4, (depth - 1) as nat) {
                                Err(e) => Err(e),
                                Ok((nested, end)) => Ok(
                                    (
                                        StatementModel::If(
                                            condition,
                                            then_block,
                                            BlockModel {
                                                statements: seq![nested],
                                                return_expression: Seq::<ExpressionModel>::empty(),
                                            },
                                        ),
                                        end,
                                    ),
                                ),
                            }
                        } else if token.kind == TokenType::KeywrodElse {
                            match closed_block_at(chunk, p4, TokenType::KeywrodEnd, depth) {
                                Err(e) => Err(e),
                                Ok((else_block, end)) => Ok(
                                    (StatementModel::If(condition, then_block, else_block), end),
                                ),
                            }
                        } else if token.kind == TokenType::KeywrodEnd {
                            Ok((StatementModel::If(condition, then_block, none), p4))
                        } else {
                            Err(ParseError::UnexpectedToken(token.kind))
                        },
                    },
                }
            },
        },
    }
}

/// The rest of a `for` at `pos`, behind the keyword: a numeric loop, `name = first,
/// limit` with an optional step, or a loop over an iterator, `names in expressions`;
/// then `do`, a block and `end`.
pub open spec fn for_rest_at(chunk: Seq<char>, pos: nat, depth: nat) -> Parsed<StatementModel>
    decreases depth, 77nat, remaining(chunk, pos),
{
    match name_at(chunk, pos) {
        Err(e) => Err(e),
        Ok((name, p1)) => match lexed(chunk, p1) {
            Err(e) => Err(e),
            Ok((token, p2)) => if token.kind == TokenType::OperatorAssign {
                match level_at(chunk, p2, 10, depth) {
                    Err(e) => Err(e),
                    Ok((first, p3)) => match expected(chunk, p3, TokenType::SeparetorComma) {
                        Err(e) => Err(e),
                        Ok(p4) => match level_at(chunk, p4, 10, depth) {
                            Err(e) => Err(e),
                            Ok((limit, p5)) => {
                                let step = if expected(chunk, p5, TokenType::SeparetorComma) is Ok {
                                    level_at(
                                        chunk,
                                        expected(chunk, p5, TokenType::SeparetorComma)->Ok_0,
                                        10,
                                        depth,
                                    )
                                } else {
                                    Ok((ExpressionModel::Empty, p5))
                                };
                                match step {
                                    Err(e) => Err(e),
                                    Ok((increment, p6)) => match expected(
                                        chunk,
                                        p6,
                                        TokenType::KeywrodDo,
                                    ) {
                                        Err(e) => Err(e),
                                        Ok(p7) => match closed_block_at(
                                            chunk,
                                            p7,
                                            TokenType::KeywrodEnd,
                                            depth,
                                        ) {
                                            Err(e) => Err(e),
                                            Ok((block, end)) => Ok(
                                                (
                                                    StatementModel::For(
                                                        ExpressionModel::Binary(
                                                            token.value,
                                                            Box::new(ExpressionModel::Name(name)),
                                                            Box::new(first),
                                                        ),
                                                        limit,
                                                        increment,
                                                        block,
                                                    ),
                                                    end,
                                                ),
                                            ),
                                        },
                                    },
                                }
                            },
                        },
                    },
                }
            } else {
                match names_tail(chunk, p1, seq![name]) {
                    Err(e) => Err(e),
                    Ok((names, p3)) => match expected(chunk, p3, TokenType::KeywrodIn) {
                        Err(e) => Err(e),
                        Ok(p4) => match expression_list_at(chunk, p4, depth) {
                            Err(e) => Err(e),
                            Ok((values, p5)) => match expected(chunk, p5, TokenType::KeywrodDo) {
                                Err(e) => Err(e),
                                Ok(p6) => match closed_block_at(
                                    chunk,
                                    p6,
                                    TokenType::KeywrodEnd,
                                    depth,
                                ) {
                                    Err(e) => Err(e),
                                    Ok((block, end)) => Ok(
                                        (StatementModel::ForIn(names, values, block), end),
                                    ),
                                },
                            },
                        },
                    },
                }
            },
        },
    }
}

/// The name of a function in a function statement from `pos` on, with what stands
/// before: fields behind `.` and at last a method behind `:`.
pub open spec fn function_name_tail(chunk: Seq<char>, pos: nat, prefix: ExpressionModel) -> Parsed<
    ExpressionModel,
>
    decreases remaining(chunk, pos),
{
    match lexed(chunk, pos) {
        Err(e) => Err(e),
        Ok((token, p1)) => if token.kind == TokenType::SeparatorDot || token.kind
            == TokenType::SeparatorColon {
            match name_at(chunk, p1) {
                Err(e) => Err(e),
                Ok((name, p2)) => {
                    proof {
                        lemma_lexed_advances(chunk, pos);
                    }
                    let field = ExpressionModel::Access(
                        Box::new(prefix),
                        Box::new(ExpressionModel::String(name)),
                    );
                    if token.kind == TokenType::SeparatorColon {
                        Ok((field, p2))
                    } else {
                        function_name_tail(chunk, later(p1, p2), field)
                    }
                },
            }
        } else {
            Ok((prefix, pos))
        },
    }
}

/// The rest of a list of assigned variables from `pos` on, with the variables before:
/// each behind a comma.
pub open spec fn variables_tail(
    chunk: Seq<char>,
    pos: nat,
    variables: Seq<ExpressionModel>,
    depth: nat,
) -> Parsed<Seq<ExpressionModel>>
    decreases depth, 76nat, remaining(chunk, pos),
{
    match lexed(chunk, pos) {
        Err(e) => Err(e),
        Ok((token, p1)) => if token.kind != TokenType::SeparetorComma {
            Ok((variables, pos))
        } else {
            match prefix_at(chunk, p1, depth) {
                Err(e) => Err(e),
                Ok((variable, p2)) => {
                    proof {
                        lemma_lexed_advances(chunk, pos);
                    }
                    variables_tail(chunk, later(p1, p2), variables.push(variable), depth)
                },
            }
        },
    }
}

/// The statement at `pos`.
pub open spec fn statement_at(chunk: Seq<char>, pos: nat, depth: nat) -> Parsed<StatementModel>
    decreases depth, 80nat, remaining(chunk, pos),
{
    match lexed(chunk, pos) {
        Err(e) => Err(e),
        Ok((token, p1)) => match token.kind {
            TokenType::SeparatorSemicolon => Ok((StatementModel::Empty, p1)),
            TokenType::KeywrodBreak => Ok((StatementModel::Break, p1)),
            TokenType::SeparatorLabel => match name_at(chunk, p1) {
                Err(e) => Err(e),
                Ok((name, p2)) => match expected(chunk, p2, TokenType::SeparatorLabel) {
                    Err(e) => Err(e),
                    Ok(end) => Ok((StatementModel::Label(name), end)),
                },
            },
            TokenType::KeywrodGoto => match name_at(chunk, p1) {
                Err(e) => Err(e),
                Ok((name, end)) => Ok((StatementModel::Goto(name), end)),
            },
            TokenType::KeywrodDo => match closed_block_at(
                chunk,
                p1,
                TokenType::KeywrodEnd,
                depth,
            ) {
                Err(e) => Err(e),
                Ok((block, end)) => Ok((StatementModel::Do(block), end)),
            },
            TokenType::KeywrodWhile => match level_at(chunk, p1, 10, depth) {
                Err(e) => Err(e),
                Ok((condition, p2)) => match expected(chunk, p2, TokenType::KeywrodDo) {
                    Err(e) => Err(e),
                    Ok(p3) => match closed_block_at(chunk, p3, TokenType::KeywrodEnd, depth) {
                        Err(e) => Err(e),
                        Ok((block, end)) => Ok((StatementModel::While(condition, block), end)),
                    },
                },
            },
            TokenType::KeywrodRepeat => match closed_block_at(
                chunk,
                p1,
                TokenType::KeywrodUntil,
                depth,
            ) {
                Err(e) => Err(e),
                Ok((block, p2)) => match level_at(chunk, p2, 10, depth) {
                    Err(e) => Err(e),
                    Ok((condition, end)) => Ok((StatementModel::Repeat(condition, block), end)),
                },
            },
            TokenType::KeywrodIf => if_rest_at(chunk, p1, depth),
            TokenType::KeywrodFor => for_rest_at(chunk, p1, depth),
            TokenType::KeywrodFunction => match name_at(chunk, p1) {
                Err(e) => Err(e),
                Ok((name, p2)) => match function_name_tail(
                    chunk,
                    p2,
                    ExpressionModel::Name(name),
                ) {
                    Err(e) => Err(e),
                    Ok((target, p3)) => match function_body_at(chunk, p3, depth) {
                        Err(e) => Err(e),
                        Ok((body, end)) => Ok(
                            (StatementModel::Assign(seq![target], seq![body]), end),
                        ),
                    },
                },
            },
            TokenType::KeywrodLocal => match lexed(chunk, p1) {
                Err(e) => Err(e),
                Ok((second, p2)) => if second.kind == TokenType::KeywrodFunction {
                    match name_at(chunk, p2) {
                        Err(e) => Err(e),
                        Ok((name, p3)) => match function_body_at(chunk, p3, depth) {
                            Err(e) => Err(e),
                            Ok((body, end)) => Ok((StatementModel::LocalFunction(name, body), end)),
                        },
                    }
                } else {
                    match name_at(chunk, p1) {
                        Err(e) => Err(e),
                        Ok((name, p3)) => match names_tail(chunk, p3, seq![name]) {
                            Err(e) => Err(e),
                            Ok((names, p4)) => if expected(chunk, p4, TokenType::OperatorAssign)
                                is Ok {
                                match expression_list_at(
                                    chunk,
                                    expected(chunk, p4, TokenType::OperatorAssign)->Ok_0,
                                    depth,
                                ) {
                                    Err(e) => Err(e),
                                    Ok((values, end)) => Ok(
                                        (StatementModel::Local(names, values), end),
                                    ),
                                }
                            } else {
                                Ok(
                                    (
                                        StatementModel::Local(
                                            names,
                                            Seq::<ExpressionModel>::empty(),
                                        ),
                                        p4,
                                    ),
                                )
                            },
                        },
                    }
                },
            },
            _ => match prefix_at(chunk, pos, depth) {
                Err(e) => Err(e),
                Ok((first, p2)) => match lexed(chunk, p2) {
                    Err(e) => Err(e),
                    Ok((follow, p3)) => if follow.kind == TokenType::OperatorAssign || follow.kind
                        == TokenType::SeparetorComma {
                        match variables_tail(chunk, p2, seq![first], depth) {
                            Err(e) => Err(e),
                            Ok((variables, p4)) => match expected(
                                chunk,
                                p4,
                                TokenType::OperatorAssign,
                            ) {
                                Err(e) => Err(e),
                                Ok(p5) => match expression_list_at(chunk, p5, depth) {
                                    Err(e) => Err(e),
                                    Ok((values, end)) => Ok(
                                        (StatementModel::Assign(variables, values), end),
                                    ),
                                },
                            },
                        }
                    } else if first is Call {
                        Ok((StatementModel::Call(first), p2))
                    } else {
                        Err(ParseError::UnexpectedToken(follow.kind))
                    },
                },
            },
        },
    }
}

/// The expression at `pos`.
pub open spec fn expression_at(chunk: Seq<char>, pos: nat, depth: nat) -> Parsed<ExpressionModel> {
    level_at(chunk, pos, 10, depth)
}

/// The program that a text writes: a block that the text ends behind.
pub open spec fn chunk_at(chunk: Seq<char>, depth: nat) -> Result<BlockModel, ParseError> {
    match block_at(chunk, 0, depth) {
        Err(e) => Err(e),
        Ok((block, p1)) => match expected(chunk, p1, TokenType::Eof) {
            Err(e) => Err(e),
            Ok(_) => Ok(block),
        },
    }
}

} // verus!
