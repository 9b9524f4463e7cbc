use vstd::prelude::*;

verus! {

/// The kinds of tokens.
#[derive(PartialEq, Eq, Debug, Copy, Clone, Structural)]
pub enum TokenType {
    Eof,
    Vararg,
    SeparatorSemicolon,
    SeparetorComma,
    SeparatorDot,
    SeparatorColon,
    SeparatorLabel,
    SeparatorOpenParenthesis,
    SeparatorCloseParenthesis,
    SeparatorOpenBracket,
    SeparatorCloseBracket,
    SeparatorOpenBrace,
    SeparatorCloseBrace,
    OperatorAssign,
    OperatorMinus,
    OperatorWave,
    OperatorPlus,
    OperatorMultiply,
    OperatorDivide,
    OperatorIDivide,
    OperatorPow,
    OperatorMod,
    OperatorBand,
    OperatorBor,
    OperatorLen,
    OperatorShr,
    OperatorShl,
    OperatorConcat,
    OperatorLt,
    OperatorLe,
    OperatorGt,
    OperatorGe,
    OperatorEq,
    OperatorAnd,
    OperatorOr,
    OperatorNot,
    OperatorNotEqual,
    KeywrodBreak,
    KeywrodDo,
    KeywrodElse,
    KeywrodElseIf,
    KeywrodEnd,
    KeywrodFalse,
    KeywrodFor,
    KeywrodFunction,
    KeywrodGoto,
    KeywrodIf,
    KeywrodIn,
    KeywrodLocal,
    KeywrodNil,
    KeywrodRepeat,
    KeywrodReturn,
    KeywrodThen,
    KeywrodTrue,
    KeywrodUntil,
    KeywrodWhile,
    Identifier,
    Number,
    String,
    OperatorUnm,
    OperatorSub,
    OperatorBxor,
    OperatorBnot,
}

/// One token: its kind and its text.
#[derive(PartialEq, Debug, Clone)]
pub struct Token {
    pub kind: TokenType,
    pub value: String,
}

pub struct TokenModel {
    pub kind: TokenType,
    pub value: Seq<char>,
}

impl View for Token {
    type V = TokenModel;

    open spec fn view(&self) -> TokenModel {
        TokenModel { kind: self.kind, value: self.value@ }
    }
}

/// The text of a token of a kind that has one text only; the empty text for the end
/// of the input and for the kinds whose text varies.
pub open spec fn fixed_text(kind: TokenType) -> Seq<char> {
    match kind {
        TokenType::SeparatorSemicolon => ";"@,
        TokenType::SeparetorComma => ","@,
        TokenType::Vararg => "..."@,
        TokenType::OperatorConcat => ".."@,
        TokenType::SeparatorDot => "."@,
        TokenType::SeparatorColon => ":"@,
        TokenType::SeparatorLabel => "::"@,
        TokenType::SeparatorOpenParenthesis => "("@,
        TokenType::SeparatorCloseParenthesis => ")"@,
        TokenType::SeparatorOpenBracket => "["@,
        TokenType::SeparatorCloseBracket => "]"@,
        TokenType::SeparatorOpenBrace => "{"@,
        TokenType::SeparatorCloseBrace => "}"@,
        TokenType::OperatorAssign => "="@,
        TokenType::OperatorEq => "=="@,
        TokenType::OperatorPlus => "+"@,
        TokenType::OperatorMinus => "-"@,
        TokenType::OperatorMultiply => "*"@,
        TokenType::OperatorDivide => "/"@,
        TokenType::OperatorIDivide => "//"@,
        TokenType::OperatorPow => "^"@,
        TokenType::OperatorMod => "%"@,
        TokenType::OperatorBand => "&"@,
        TokenType::OperatorBor => "|"@,
        TokenType::OperatorLen => "#"@,
        TokenType::OperatorWave => "~"@,
        TokenType::OperatorNotEqual => "~="@,
        TokenType::OperatorGt => ">"@,
        TokenType::OperatorGe => ">="@,
        TokenType::OperatorShr => ">>"@,
        TokenType::OperatorLt => "<"@,
        TokenType::OperatorLe => "<="@,
        TokenType::OperatorShl => "<<"@,
        TokenType::OperatorAnd => "and"@,
        TokenType::OperatorOr => "or"@,
        TokenType::OperatorNot => "not"@,
        TokenType::KeywrodBreak => "break"@,
        TokenType::KeywrodDo => "do"@,
        TokenType::KeywrodElse => "else"@,
        TokenType::KeywrodElseIf => "elseif"@,
        TokenType::KeywrodEnd => "end"@,
        TokenType::KeywrodFalse => "false"@,
        TokenType::KeywrodFor => "for"@,
        TokenType::KeywrodFunction => "function"@,
        TokenType::KeywrodGoto => "goto"@,
        TokenType::KeywrodIf => "if"@,
        TokenType::KeywrodIn => "in"@,
        TokenType::KeywrodLocal => "local"@,
        TokenType::KeywrodNil => "nil"@,
        TokenType::KeywrodRepeat => "repeat"@,
        TokenType::KeywrodReturn => "return"@,
        TokenType::KeywrodThen => "then"@,
        TokenType::KeywrodTrue => "true"@,
        TokenType::KeywrodUntil => "until"@,
        TokenType::KeywrodWhile => "while"@,
        _ => ""@,
    }
}

/// The token of a kind that has one text only.
pub open spec fn fixed(kind: TokenType) -> TokenModel {
    TokenModel { kind, value: fixed_text(kind) }
}

impl Token {
    pub fn eof_token() -> (r: Token)
        ensures
            r@ == fixed(TokenType::Eof),
    {
        Token { kind: TokenType::Eof, value: String::from_str("") }
    }

    pub fn semi_token() -> (r: Token)
        ensures
            r@ == fixed(TokenType::SeparatorSemicolon),
    {
        Token { kind: TokenType::SeparatorSemicolon, value: String::from_str(";") }
    }

    pub fn comma_token() -> (r: Token)
        ensures
            r@ == fixed(TokenType::SeparetorComma),
    {
        Token { kind: TokenType::SeparetorComma, value: String::from_str(",") }
    }

    pub fn vararg_token() -> (r: Token)
        ensures
            r@ == fixed(TokenType::Vararg),
    {
        Token { kind: TokenType::Vararg, value: String::from_str("...") }
    }

    pub fn concat_token() -> (r: Token)
        ensures
            r@ == fixed(TokenType::OperatorConcat),
    {
        Token { kind: TokenType::OperatorConcat, value: String::from_str("..") }
    }

    pub fn dot_token() -> (r: Token)
        ensures
            r@ == fixed(TokenType::SeparatorDot),
    {
        Token { kind: TokenType::SeparatorDot, value: String::from_str(".") }
    }

    pub fn colon_token() -> (r: Token)
        ensures
            r@ == fixed(TokenType::SeparatorColon),
    {
        Token { kind: TokenType::SeparatorColon, value: String::from_str(":") }
    }

    pub fn label_token() -> (r: Token)
        ensures
            r@ == fixed(TokenType::SeparatorLabel),
    {
        Token { kind: TokenType::SeparatorLabel, value: String::from_str("::") }
    }

    pub fn open_paren_token() -> (r: Token)
        ensures
            r@ == fixed(TokenType::SeparatorOpenParenthesis),
    {
        Token { kind: TokenType::SeparatorOpenParenthesis, value: String::from_str("(") }
    }

    pub fn close_paren_token() -> (r: Token)
        ensures
            r@ == fixed(TokenType::SeparatorCloseParenthesis),
    {
        Token { kind: TokenType::SeparatorCloseParenthesis, value: String::from_str(")") }
    }

    pub fn open_bracket_token() -> (r: Token)
        ensures
            r@ == fixed(TokenType::SeparatorOpenBracket),
    {
        Token { kind: TokenType::SeparatorOpenBracket, value: String::from_str("[") }
    }

    pub fn close_bracket_token() -> (r: Token)
        ensures
            r@ == fixed(TokenType::SeparatorCloseBracket),
    {
        Token { kind: TokenType::SeparatorCloseBracket, value: String::from_str("]") }
    }

    pub fn open_brace_token() -> (r: Token)
        ensures
            r@ == fixed(TokenType::SeparatorOpenBrace),
    {
        Token { kind: TokenType::SeparatorOpenBrace, value: String::from_str("{") }
    }

    pub fn close_brace_token() -> (r: Token)
        ensures
            r@ == fixed(TokenType::SeparatorCloseBrace),
    {
        Token { kind: TokenType::SeparatorCloseBrace, value: String::from_str("}") }
    }

    pub fn assign_token() -> (r: Token)
        ensures
            r@ == fixed(TokenType::OperatorAssign),
    {
        Token { kind: TokenType::OperatorAssign, value: String::from_str("=") }
    }

    pub fn equal_token() -> (r: Token)
        ensures
            r@ == fixed(TokenType::OperatorEq),
    {
        Token { kind: TokenType::OperatorEq, value: String::from_str("==") }
    }

    pub fn plus_token() -> (r: Token)
        ensures
            r@ == fixed(TokenType::OperatorPlus),
    {
        Token { kind: TokenType::OperatorPlus, value: String::from_str("+") }
    }

    pub fn minus_token() -> (r: Token)
        ensures
            r@ == fixed(TokenType::OperatorMinus),
    {
        Token { kind: TokenType::OperatorMinus, value: String::from_str("-") }
    }

    pub fn mul_token() -> (r: Token)
        ensures
            r@ == fixed(TokenType::OperatorMultiply),
    {
        Token { kind: TokenType::OperatorMultiply, value: String::from_str("*") }
    }

    pub fn div_token() -> (r: Token)
        ensures
            r@ == fixed(TokenType::OperatorDivide),
    {
        Token { kind: TokenType::OperatorDivide, value: String::from_str("/") }
    }

    pub fn idiv_token() -> (r: Token)
        ensures
            r@ == fixed(TokenType::OperatorIDivide),
    {
        Token { kind: TokenType::OperatorIDivide, value: String::from_str("//") }
    }

    pub fn pow_token() -> (r: Token)
        ensures
            r@ == fixed(TokenType::OperatorPow),
    {
        Token { kind: TokenType::OperatorPow, value: String::from_str("^") }
    }

    pub fn mod_token() -> (r: Token)
        ensures
            r@ == fixed(TokenType::OperatorMod),
    {
        Token { kind: TokenType::OperatorMod, value: String::from_str("%") }
    }

    pub fn band_token() -> (r: Token)
        ensures
            r@ == fixed(TokenType::OperatorBand),
    {
        Token { kind: TokenType::OperatorBand, value: String::from_str("&") }
    }

    pub fn bor_token() -> (r: Token)
        ensures
            r@ == fixed(TokenType::OperatorBor),
    {
        Token { kind: TokenType::OperatorBor, value: String::from_str("|") }
    }

    pub fn len_token() -> (r: Token)
        ensures
            r@ == fixed(TokenType::OperatorLen),
    {
        Token { kind: TokenType::OperatorLen, value: String::from_str("#") }
    }

    pub fn wave_token() -> (r: Token)
        ensures
            r@ == fixed(TokenType::OperatorWave),
    {
        Token { kind: TokenType::OperatorWave, value: String::from_str("~") }
    }

    pub fn not_eqaul_token() -> (r: Token)
        ensures
            r@ == fixed(TokenType::OperatorNotEqual),
    {
        Token { kind: TokenType::OperatorNotEqual, value: String::from_str("~=") }
    }

    pub fn gt_token() -> (r: Token)
        ensures
            r@ == fixed(TokenType::OperatorGt),
    {
        Token { kind: TokenType::OperatorGt, value: String::from_str(">") }
    }

    pub fn ge_token() -> (r: Token)
        ensures
            r@ == fixed(TokenType::OperatorGe),
    {
        Token { kind: TokenType::OperatorGe, value: String::from_str(">=") }
    }

    pub fn shr_token() -> (r: Token)
        ensures
            r@ == fixed(TokenType::OperatorShr),
    {
        Token { kind: TokenType::OperatorShr, value: String::from_str(">>") }
    }

    pub fn lt_token() -> (r: Token)
        ensures
            r@ == fixed(TokenType::OperatorLt),
    {
        Token { kind: TokenType::OperatorLt, value: String::from_str("<") }
    }

    pub fn le_token() -> (r: Token)
        ensures
            r@ == fixed(TokenType::OperatorLe),
    {
        Token { kind: TokenType::OperatorLe, value: String::from_str("<=") }
    }

    pub fn shl_token() -> (r: Token)
        ensures
            r@ == fixed(TokenType::OperatorShl),
    {
        Token { kind: TokenType::OperatorShl, value: String::from_str("<<") }
    }

    pub fn and_token() -> (r: Token)
        ensures
            r@ == fixed(TokenType::OperatorAnd),
    {
        Token { kind: TokenType::OperatorAnd, value: String::from_str("and") }
    }

    pub fn or_token() -> (r: Token)
        ensures
            r@ == fixed(TokenType::OperatorOr),
    {
        Token { kind: TokenType::OperatorOr, value: String::from_str("or") }
    }

    pub fn not_token() -> (r: Token)
        ensures
            r@ == fixed(TokenType::OperatorNot),
    {
        Token { kind: TokenType::OperatorNot, value: String::from_str("not") }
    }

    pub fn break_token() -> (r: Token)
        ensures
            r@ == fixed(TokenType::KeywrodBreak),
    {
        Token { kind: TokenType::KeywrodBreak, value: String::from_str("break") }
    }

    pub fn do_token() -> (r: Token)
        ensures
            r@ == fixed(TokenType::KeywrodDo),
    {
        Token { kind: TokenType::KeywrodDo, value: String::from_str("do") }
    }

    pub fn else_token() -> (r: Token)
        ensures
            r@ == fixed(TokenType::KeywrodElse),
    {
        Token { kind: TokenType::KeywrodElse, value: String::from_str("else") }
    }

    pub fn elseif_token() -> (r: Token)
        ensures
            r@ == fixed(TokenType::KeywrodElseIf),
    {
        Token { kind: TokenType::KeywrodElseIf, value: String::from_str("elseif") }
    }

    pub fn end_token() -> (r: Token)
        ensures
            r@ == fixed(TokenType::KeywrodEnd),
    {
        Token { kind: TokenType::KeywrodEnd, value: String::from_str("end") }
    }

    pub fn false_token() -> (r: Token)
        ensures
            r@ == fixed(TokenType::KeywrodFalse),
    {
        Token { kind: TokenType::KeywrodFalse, value: String::from_str("false") }
    }

    pub fn for_token() -> (r: Token)
        ensures
            r@ == fixed(TokenType::KeywrodFor),
    {
        Token { kind: TokenType::KeywrodFor, value: String::from_str("for") }
    }

    pub fn function_token() -> (r: Token)
        ensures
            r@ == fixed(TokenType::KeywrodFunction),
    {
        Token { kind: TokenType::KeywrodFunction, value: String::from_str("function") }
    }

    pub fn goto_token() -> (r: Token)
        ensures
            r@ == fixed(TokenType::KeywrodGoto),
    {
        Token { kind: TokenType::KeywrodGoto, value: String::from_str("goto") }
    }

    pub fn if_token() -> (r: Token)
        ensures
            r@ == fixed(TokenType::KeywrodIf),
    {
        Token { kind: TokenType::KeywrodIf, value: String::from_str("if") }
    }

    pub fn in_token() -> (r: Token)
        ensures
            r@ == fixed(TokenType::KeywrodIn),
    {
        Token { kind: TokenType::KeywrodIn, value: String::from_str("in") }
    }

    pub fn local_token() -> (r: Token)
        ensures
            r@ == fixed(TokenType::KeywrodLocal),
    {
        Token { kind: TokenType::KeywrodLocal, value: String::from_str("local") }
    }

    pub fn nil_token() -> (r: Token)
        ensures
            r@ == fixed(TokenType::KeywrodNil),
    {
        Token { kind: TokenType::KeywrodNil, value: String::from_str("nil") }
    }

    pub fn repeat_token() -> (r: Token)
        ensures
            r@ == fixed(TokenType::KeywrodRepeat),
    {
        Token { kind: TokenType::KeywrodRepeat, value: String::from_str("repeat") }
    }

    pub fn return_token() -> (r: Token)
        ensures
            r@ == fixed(TokenType::KeywrodReturn),
    {
        Token { kind: TokenType::KeywrodReturn, value: String::from_str("return") }
    }

    pub fn then_token() -> (r: Token)
        ensures
            r@ == fixed(TokenType::KeywrodThen),
    {
        Token { kind: TokenType::KeywrodThen, value: String::from_str("then") }
    }

    pub fn true_token() -> (r: Token)
        ensures
            r@ == fixed(TokenType::KeywrodTrue),
    {
        Token { kind: TokenType::KeywrodTrue, value: String::from_str("true") }
    }

    pub fn until_token() -> (r: Token)
        ensures
            r@ == fixed(TokenType::KeywrodUntil),
    {
        Token { kind: TokenType::KeywrodUntil, value: String::from_str("until") }
    }

    pub fn while_token() -> (r: Token)
        ensures
            r@ == fixed(TokenType::KeywrodWhile),
    {
        Token { kind: TokenType::KeywrodWhile, value: String::from_str("while") }
    }

    /// The token of a kind that has one text only; for any other kind the token of that
    /// kind with the empty text.
    pub fn of_kind(kind: TokenType) -> (r: Token)
        ensures
            r@ == fixed(kind),
    {
        match kind {
            TokenType::SeparatorSemicolon => Token::semi_token(),
            TokenType::SeparetorComma => Token::comma_token(),
            TokenType::Vararg => Token::vararg_token(),
            TokenType::OperatorConcat => Token::concat_token(),
            TokenType::SeparatorDot => Token::dot_token(),
            TokenType::SeparatorColon => Token::colon_token(),
            TokenType::SeparatorLabel => Token::label_token(),
            TokenType::SeparatorOpenParenthesis => Token::open_paren_token(),
            TokenType::SeparatorCloseParenthesis => Token::close_paren_token(),
            TokenType::SeparatorOpenBracket => Token::open_bracket_token(),
            TokenType::SeparatorCloseBracket => Token::close_bracket_token(),
            TokenType::SeparatorOpenBrace => Token::open_brace_token(),
            TokenType::SeparatorCloseBrace => Token::close_brace_token(),
            TokenType::OperatorAssign => Token::assign_token(),
            TokenType::OperatorEq => Token::equal_token(),
            TokenType::OperatorPlus => Token::plus_token(),
            TokenType::OperatorMinus => Token::minus_token(),
            TokenType::OperatorMultiply => Token::mul_token(),
            TokenType::OperatorDivide => Token::div_token(),
            TokenType::OperatorIDivide => Token::idiv_token(),
            TokenType::OperatorPow => Token::pow_token(),
            TokenType::OperatorMod => Token::mod_token(),
            TokenType::OperatorBand => Token::band_token(),
            TokenType::OperatorBor => Token::bor_token(),
            TokenType::OperatorLen => Token::len_token(),
            TokenType::OperatorWave => Token::wave_token(),
            TokenType::OperatorNotEqual => Token::not_eqaul_token(),
            TokenType::OperatorGt => Token::gt_token(),
            TokenType::OperatorGe => Token::ge_token(),
            TokenType::OperatorShr => Token::shr_token(),
            TokenType::OperatorLt => Token::lt_token(),
            TokenType::OperatorLe => Token::le_token(),
            TokenType::OperatorShl => Token::shl_token(),
            TokenType::OperatorAnd => Token::and_token(),
            TokenType::OperatorOr => Token::or_token(),
            TokenType::OperatorNot => Token::not_token(),
            TokenType::KeywrodBreak => Token::break_token(),
            TokenType::KeywrodDo => Token::do_token(),
            TokenType::KeywrodElse => Token::else_token(),
            TokenType::KeywrodElseIf => Token::elseif_token(),
            TokenType::KeywrodEnd => Token::end_token(),
            TokenType::KeywrodFalse => Token::false_token(),
            TokenType::KeywrodFor => Token::for_token(),
            TokenType::KeywrodFunction => Token::function_token(),
            TokenType::KeywrodGoto => Token::goto_token(),
            TokenType::KeywrodIf => Token::if_token(),
            TokenType::KeywrodIn => Token::in_token(),
            TokenType::KeywrodLocal => Token::local_token(),
            TokenType::KeywrodNil => Token::nil_token(),
            TokenType::KeywrodRepeat => Token::repeat_token(),
            TokenType::KeywrodReturn => Token::return_token(),
            TokenType::KeywrodThen => Token::then_token(),
            TokenType::KeywrodTrue => Token::true_token(),
            TokenType::KeywrodUntil => Token::until_token(),
            TokenType::KeywrodWhile => Token::while_token(),
            _ => Token { kind, value: String::from_str("") },
        }
    }

    pub fn string_token(value: &str) -> (r: Token)
        ensures
            r@ == (TokenModel { kind: TokenType::String, value: value@ }),
    {
        Token { kind: TokenType::String, value: String::from_str(value) }
    }

    pub fn number_token(value: &str) -> (r: Token)
        ensures
            r@ == (TokenModel { kind: TokenType::Number, value: value@ }),
    {
        Token { kind: TokenType::Number, value: String::from_str(value) }
    }

    pub fn identifier_token(value: &str) -> (r: Token)
        ensures
            r@ == (TokenModel { kind: TokenType::Identifier, value: value@ }),
    {
        Token { kind: TokenType::Identifier, value: String::from_str(value) }
    }

}

} // verus!
