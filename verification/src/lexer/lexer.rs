use vstd::prelude::*;
use super::chunk_stream::{position_after, ChunkStream};
use super::utils::{digit, hex_digit, is_digit, is_hex_digit, is_letter, is_whitespace, letter, whitespace};
use crate::compiler::lexer::token::{fixed, Token, TokenModel, TokenType};

verus! {

/// Why a text has no next token.
#[derive(Debug, Clone, Copy, PartialEq, Eq, Structural)]
pub enum LexError {
    /// A character that starts no token.
    UnexpectedCharacter(char),
    /// A quoted string that the line or the text ends in.
    UnfinishedString,
    /// A long string without its closing brackets.
    UnfinishedLongString,
    /// An opening bracket with `=` behind it that opens no long string.
    InvalidLongStringDelimiter,
}

/// The classes of characters that the scanner reads runs of.
#[derive(Debug, Clone, Copy, PartialEq, Eq, Structural)]
pub enum CharClass {
    Whitespace,
    Digit,
    HexDigit,
    /// The characters of a name after its first: letters, digits and `_`.
    Word,
    /// The character `=`.
    Equals,
}

pub open spec fn in_class(class: CharClass, c: char) -> bool {
    match class {
        CharClass::Whitespace => whitespace(c),
        CharClass::Digit => digit(c),
        CharClass::HexDigit => hex_digit(c),
        CharClass::Word => letter(c) || digit(c) || c == '_',
        CharClass::Equals => c == '=',
    }
}

/// The end of the run of characters of a class that starts at `i`: the first position
/// from `i` on that holds no character of the class, or the end of the text.
pub open spec fn run_end(chunk: Seq<char>, i: int, class: CharClass) -> int
    decreases chunk.len() - i,
{
    if i < 0 || i >= chunk.len() || !in_class(class, chunk[i]) {
        i
    } else {
        run_end(chunk, i + 1, class)
    }
}

/// The character at `i`, or the character 0 behind the end of the text.
pub open spec fn char_at(chunk: Seq<char>, i: int) -> char {
    if 0 <= i < chunk.len() {
        chunk[i]
    } else {
        '\0'
    }
}

/// The end of a quoted string whose first character is at `i`: the first position from
/// `i` on that holds the quote or a line feed, or the end of the text.
pub open spec fn quote_end(chunk: Seq<char>, i: int, quote: char) -> int
    decreases chunk.len() - i,
{
    if i < 0 || i >= chunk.len() || chunk[i] == quote || chunk[i] == '\n' {
        i
    } else {
        quote_end(chunk, i + 1, quote)
    }
}

/// A long string of level `n` closes at `p`: there stand `]`, then `n` times `=`,
/// then `]`.
pub open spec fn closes_at(chunk: Seq<char>, p: int, n: int) -> bool {
    &&& 0 <= p
    &&& p + n + 1 < chunk.len()
    &&& chunk[p] == ']'
    &&& run_end(chunk, p + 1, CharClass::Equals) >= p + 1 + n
    &&& chunk[p + 1 + n] == ']'
}

/// The first position from `p` on at which a long string of level `n` closes.
pub open spec fn first_close(chunk: Seq<char>, p: int, n: int) -> Option<int>
    decreases chunk.len() - p,
{
    if p < 0 || p >= chunk.len() {
        None
    } else if closes_at(chunk, p, n) {
        Some(p)
    } else {
        first_close(chunk, p + 1, n)
    }
}

/// The quoted string that starts with its quote at `i`: the characters up to the next
/// such quote, as they stand. A line feed or the end of the text before the quote is
/// a fault.
pub open spec fn short_string_at(chunk: Seq<char>, i: int) -> Result<(TokenModel, int), LexError> {
    let end = quote_end(chunk, i + 1, chunk[i]);
    if end < chunk.len() && chunk[end] == chunk[i] {
        Ok((TokenModel { kind: TokenType::String, value: chunk.subrange(i + 1, end) }, end + 1))
    } else {
        Err(LexError::UnfinishedString)
    }
}

/// The long string that starts with its opening bracket at `i`: `[`, any number of
/// `=`, `[`, then the characters up to the first closing `]`, as many `=`, `]`.
pub open spec fn long_string_at(chunk: Seq<char>, i: int) -> Result<(TokenModel, int), LexError> {
    let open = run_end(chunk, i + 1, CharClass::Equals);
    let level = open - (i + 1);
    if char_at(chunk, open) != '[' {
        Err(LexError::InvalidLongStringDelimiter)
    } else {
        match first_close(chunk, open + 1, level) {
            Some(p) => Ok(
                (
                    TokenModel { kind: TokenType::String, value: chunk.subrange(open + 1, p) },
                    p + level + 2,
                ),
            ),
            None => Err(LexError::UnfinishedLongString),
        }
    }
}

/// The end of the number that starts with a digit at `i`: digits with at most one
/// fraction, or `0x` and hexadecimal digits.
pub open spec fn number_end(chunk: Seq<char>, i: int) -> int {
    let second = char_at(chunk, i + 1);
    if digit(second) || second == '.' {
        let whole = run_end(chunk, i + 1, CharClass::Digit);
        if char_at(chunk, whole) == '.' {
            run_end(chunk, whole + 1, CharClass::Digit)
        } else {
            whole
        }
    } else if second == 'x' && chunk[i] == '0' {
        run_end(chunk, i + 2, CharClass::HexDigit)
    } else {
        i + 1
    }
}

/// The kind of a word: that of the keyword or of the word operator that it writes,
/// else a name.
pub open spec fn word_kind(text: Seq<char>) -> TokenType {
    if text == "and"@ {
        TokenType::OperatorAnd
    } else if text == "break"@ {
        TokenType::KeywrodBreak
    } else if text == "do"@ {
        TokenType::KeywrodDo
    } else if text == "else"@ {
        TokenType::KeywrodElse
    } else if text == "elseif"@ {
        TokenType::KeywrodElseIf
    } else if text == "end"@ {
        TokenType::KeywrodEnd
    } else if text == "false"@ {
        TokenType::KeywrodFalse
    } else if text == "for"@ {
        TokenType::KeywrodFor
    } else if text == "function"@ {
        TokenType::KeywrodFunction
    } else if text == "goto"@ {
        TokenType::KeywrodGoto
    } else if text == "if"@ {
        TokenType::KeywrodIf
    } else if text == "in"@ {
        TokenType::KeywrodIn
    } else if text == "local"@ {
        TokenType::KeywrodLocal
    } else if text == "nil"@ {
        TokenType::KeywrodNil
    } else if text == "not"@ {
        TokenType::OperatorNot
    } else if text == "or"@ {
        TokenType::OperatorOr
    } else if text == "repeat"@ {
        TokenType::KeywrodRepeat
    } else if text == "return"@ {
        TokenType::KeywrodReturn
    } else if text == "then"@ {
        TokenType::KeywrodThen
    } else if text == "true"@ {
        TokenType::KeywrodTrue
    } else if text == "until"@ {
        TokenType::KeywrodUntil
    } else if text == "while"@ {
        TokenType::KeywrodWhile
    } else {
        TokenType::Identifier
    }
}

/// The operator or separator that the characters `c`, `c1`, `c2` start with, and the
/// number of characters that it takes; `None` where they start with none. The longest
/// one is taken. An opening bracket is not among them: it may open a long string.
pub open spec fn operator_of(c: char, c1: char, c2: char) -> Option<(TokenType, int)> {
    if c == '.' {
        if c1 == '.' {
            if c2 == '.' {
                Some((TokenType::Vararg, 3))
            } else {
                Some((TokenType::OperatorConcat, 2))
            }
        } else {
            Some((TokenType::SeparatorDot, 1))
        }
    } else if c == ';' {
        Some((TokenType::SeparatorSemicolon, 1))
    } else if c == ',' {
        Some((TokenType::SeparetorComma, 1))
    } else if c == '(' {
        Some((TokenType::SeparatorOpenParenthesis, 1))
    } else if c == ')' {
        Some((TokenType::SeparatorCloseParenthesis, 1))
    } else if c == ']' {
        Some((TokenType::SeparatorCloseBracket, 1))
    } else if c == '{' {
        Some((TokenType::SeparatorOpenBrace, 1))
    } else if c == '}' {
        Some((TokenType::SeparatorCloseBrace, 1))
    } else if c == '+' {
        Some((TokenType::OperatorPlus, 1))
    } else if c == '-' {
        Some((TokenType::OperatorMinus, 1))
    } else if c == '*' {
        Some((TokenType::OperatorMultiply, 1))
    } else if c == '^' {
        Some((TokenType::OperatorPow, 1))
    } else if c == '%' {
        Some((TokenType::OperatorMod, 1))
    } else if c == '&' {
        Some((TokenType::OperatorBand, 1))
    } else if c == '|' {
        Some((TokenType::OperatorBor, 1))
    } else if c == '#' {
        Some((TokenType::OperatorLen, 1))
    } else if c == ':' {
        if c1 == ':' {
            Some((TokenType::SeparatorLabel, 2))
        } else {
            Some((TokenType::SeparatorColon, 1))
        }
    } else if c == '/' {
        if c1 == '/' {
            Some((TokenType::OperatorIDivide, 2))
        } else {
            Some((TokenType::OperatorDivide, 1))
        }
    } else if c == '~' {
        if c1 == '=' {
            Some((TokenType::OperatorNotEqual, 2))
        } else {
            Some((TokenType::OperatorWave, 1))
        }
    } else if c == '=' {
        if c1 == '=' {
            Some((TokenType::OperatorEq, 2))
        } else {
            Some((TokenType::OperatorAssign, 1))
        }
    } else if c == '<' {
        if c1 == '=' {
            Some((TokenType::OperatorLe, 2))
        } else if c1 == '<' {
            Some((TokenType::OperatorShl, 2))
        } else {
            Some((TokenType::OperatorLt, 1))
        }
    } else if c == '>' {
        if c1 == '=' {
            Some((TokenType::OperatorGe, 2))
        } else if c1 == '>' {
            Some((TokenType::OperatorShr, 2))
        } else {
            Some((TokenType::OperatorGt, 1))
        }
    } else {
        None
    }
}

/// The token that starts at `i`, a position that holds a character which is no white
/// space, with the position behind the token.
pub open spec fn lexeme_at(chunk: Seq<char>, i: int) -> Result<(TokenModel, int), LexError> {
    let c = chunk[i];
    let c1 = char_at(chunk, i + 1);
    let c2 = char_at(chunk, i + 2);
    if let Some((kind, width)) = operator_of(c, c1, c2) {
        Ok((fixed(kind), i + width))
    } else if c == '[' {
        if c1 == '[' || c1 == '=' {
            long_string_at(chunk, i)
        } else {
            Ok((fixed(TokenType::SeparatorOpenBracket), i + 1))
        }
    } else if c == '\'' || c == '"' {
        short_string_at(chunk, i)
    } else if digit(c) {
        Ok(
            (
                TokenModel {
                    kind: TokenType::Number,
                    value: chunk.subrange(i, number_end(chunk, i)),
                },
                number_end(chunk, i),
            ),
        )
    } else if letter(c) || c == '_' {
        let end = run_end(chunk, i + 1, CharClass::Word);
        Ok((TokenModel { kind: word_kind(chunk.subrange(i, end)), value: chunk.subrange(i, end) }, end))
    } else {
        Err(LexError::UnexpectedCharacter(c))
    }
}

/// The next token from `from` on: white space is passed over; at the end of the text
/// the token is the end token.
pub open spec fn token_at(chunk: Seq<char>, from: int) -> Result<(TokenModel, int), LexError> {
    let i = run_end(chunk, from, CharClass::Whitespace);
    if i >= chunk.len() {
        Ok((fixed(TokenType::Eof), i))
    } else {
        lexeme_at(chunk, i)
    }
}

/// A run never goes back and never leaves the text.
pub proof fn lemma_run_end_bounds(chunk: Seq<char>, i: int, class: CharClass)
    requires
        0 <= i <= chunk.len(),
    ensures
        i <= run_end(chunk, i, class) <= chunk.len(),
    decreases chunk.len() - i,
{
    if i < chunk.len() && in_class(class, chunk[i]) {
        lemma_run_end_bounds(chunk, i + 1, class);
    }
}

/// The end of a quoted string is not before its start and not behind the text.
pub proof fn lemma_quote_end_bounds(chunk: Seq<char>, i: int, quote: char)
    requires
        0 <= i <= chunk.len(),
    ensures
        i <= quote_end(chunk, i, quote) <= chunk.len(),
    decreases chunk.len() - i,
{
    if i < chunk.len() && chunk[i] != quote && chunk[i] != '\n' {
        lemma_quote_end_bounds(chunk, i + 1, quote);
    }
}

/// Where a long string closes, it closes within the text, not before the start of the
/// search.
pub proof fn lemma_first_close_bounds(chunk: Seq<char>, p: int, n: int)
    requires
        0 <= p,
        0 <= n,
    ensures
        first_close(chunk, p, n) is Some ==> p <= first_close(chunk, p, n)->Some_0
            && first_close(chunk, p, n)->Some_0 + n + 2 <= chunk.len(),
    decreases chunk.len() - p,
{
    if p < chunk.len() && !closes_at(chunk, p, n) {
        lemma_first_close_bounds(chunk, p + 1, n);
    }
}

/// A token does not end before the place where the scan for it started; every token
/// but the end token takes at least one character and ends within the text.
pub proof fn lemma_token_advances(chunk: Seq<char>, pos: int)
    requires
        0 <= pos,
    ensures
        match token_at(chunk, pos) {
            Ok((token, next)) => pos <= next && (pos <= chunk.len() ==> next <= chunk.len())
                && (token.kind != TokenType::Eof ==> pos < next <= chunk.len()),
            Err(_) => true,
        },
{
    let i = run_end(chunk, pos, CharClass::Whitespace);
    if pos <= chunk.len() {
        lemma_run_end_bounds(chunk, pos, CharClass::Whitespace);
    }
    if i < chunk.len() {
        let c = chunk[i];
        let c1 = char_at(chunk, i + 1);
        let c2 = char_at(chunk, i + 2);
        lemma_run_end_bounds(chunk, i + 1, CharClass::Equals);
        lemma_run_end_bounds(chunk, i + 1, CharClass::Digit);
        lemma_run_end_bounds(chunk, i + 1, CharClass::Word);
        lemma_quote_end_bounds(chunk, i + 1, c);
        let open = run_end(chunk, i + 1, CharClass::Equals);
        lemma_first_close_bounds(chunk, open + 1, open - (i + 1));
        if char_at(chunk, i + 1) == 'x' {
            lemma_run_end_bounds(chunk, i + 2, CharClass::HexDigit);
        }
        let whole = run_end(chunk, i + 1, CharClass::Digit);
        if char_at(chunk, whole) == '.' {
            lemma_run_end_bounds(chunk, whole + 1, CharClass::Digit);
        }
        match operator_of(c, c1, c2) {
            Some((kind, width)) => {
                assert(1 <= width <= 3);
                assert(width >= 2 ==> c1 != '\0');
                assert(width >= 3 ==> c2 != '\0');
                assert(kind != TokenType::Eof);
            },
            None => {},
        }
    }
}

/// A run ends at the end of the text or before a character that is not of its class.
pub proof fn lemma_run_end_stops(chunk: Seq<char>, i: int, class: CharClass)
    requires
        0 <= i <= chunk.len(),
    ensures
        run_end(chunk, i, class) >= chunk.len() || !in_class(
            class,
            chunk[run_end(chunk, i, class)],
        ),
        run_end(chunk, run_end(chunk, i, class), class) == run_end(chunk, i, class),
    decreases chunk.len() - i,
{
    if i < chunk.len() && in_class(class, chunk[i]) {
        lemma_run_end_stops(chunk, i + 1, class);
    }
}

/// A number token starts with a digit behind the white space and holds the characters
/// from there to its end.
pub proof fn lemma_number_token(chunk: Seq<char>, pos: int)
    requires
        0 <= pos <= chunk.len(),
        token_at(chunk, pos) is Ok,
        token_at(chunk, pos)->Ok_0.0.kind == TokenType::Number,
    ensures
        run_end(chunk, pos, CharClass::Whitespace) < token_at(chunk, pos)->Ok_0.1 <= chunk.len(),
        token_at(chunk, pos)->Ok_0.0.value == chunk.subrange(
            run_end(chunk, pos, CharClass::Whitespace),
            token_at(chunk, pos)->Ok_0.1,
        ),
{
    let i = run_end(chunk, pos, CharClass::Whitespace);
    lemma_run_end_bounds(chunk, pos, CharClass::Whitespace);
    lemma_run_end_stops(chunk, pos, CharClass::Whitespace);
    lemma_token_advances(chunk, pos);
    assert(i < chunk.len());
    assert(token_at(chunk, i) == token_at(chunk, pos));
    lemma_token_advances(chunk, i);
    let c = chunk[i];
    let c1 = char_at(chunk, i + 1);
    let c2 = char_at(chunk, i + 2);
    match operator_of(c, c1, c2) {
        Some((kind, width)) => {
            assert(kind != TokenType::Number);
        },
        None => {
            if c == '[' {
            } else if c == '\'' || c == '"' {
            } else if digit(c) {
            } else if letter(c) || c == '_' {
                let end = run_end(chunk, i + 1, CharClass::Word);
                assert(word_kind(chunk.subrange(i, end)) != TokenType::Number);
            }
        },
    }
}

fn in_class_exec(class: CharClass, c: char) -> (r: bool)
    ensures
        r == in_class(class, c),
{
    match class {
        CharClass::Whitespace => is_whitespace(c),
        CharClass::Digit => is_digit(c),
        CharClass::HexDigit => is_hex_digit(c),
        CharClass::Word => is_letter(c) || is_digit(c) || c == '_',
        CharClass::Equals => c == '=',
    }
}

/// Finds the end of the run of characters of a class that starts at `from`.
pub fn run(chunk: &Vec<char>, from: usize, class: CharClass) -> (r: usize)
    ensures
        r == run_end(chunk@, from as int, class),
        from <= r,
        from <= chunk@.len() ==> r <= chunk@.len(),
{
    let mut i: usize = from;
    while i < chunk.len() && in_class_exec(class, chunk[i])
        invariant
            from <= i,
            from <= chunk@.len() ==> i <= chunk@.len(),
            run_end(chunk@, from as int, class) == run_end(chunk@, i as int, class),
        decreases chunk@.len() - i,
    {
        i = i + 1;
    }
    i
}

fn peek_ahead(chunk: &Vec<char>, i: usize, ahead: usize) -> (c: char)
    ensures
        c == char_at(chunk@, i + ahead),
{
    if i < chunk.len() && ahead < chunk.len() - i {
        chunk[i + ahead]
    } else {
        '\0'
    }
}

fn peek_at(chunk: &Vec<char>, i: usize) -> (c: char)
    ensures
        c == char_at(chunk@, i as int),
{
    if i < chunk.len() {
        chunk[i]
    } else {
        '\0'
    }
}

/// `String::push`: the character is added at the end of the string.
#[verifier::external_body]
fn push_char(s: &mut String, c: char)
    ensures
        final(s)@ == old(s)@.push(c),
{
    s.push(c)
}

/// The characters `from .. to` of a text as a string.
pub fn text_of(chunk: &Vec<char>, from: usize, to: usize) -> (r: String)
    requires
        from <= to <= chunk@.len(),
    ensures
        r@ == chunk@.subrange(from as int, to as int),
{
    let mut text = String::new();
    let mut i: usize = from;
    assert(text@ =~= chunk@.subrange(from as int, from as int));
    while i < to
        invariant
            from <= i <= to <= chunk@.len(),
            text@ == chunk@.subrange(from as int, i as int),
        decreases to - i,
    {
        push_char(&mut text, chunk[i]);
        i = i + 1;
        assert(text@ =~= chunk@.subrange(from as int, i as int));
    }
    text
}

fn is_text(s: &String, literal: &str) -> (r: bool)
    ensures
        r == (s@ == literal@),
{
    let other = String::from_str(literal);
    *s == other
}

fn kind_of_word(text: &String) -> (r: TokenType)
    ensures
        r == word_kind(text@),
{
    if is_text(text, "and") {
        TokenType::OperatorAnd
    } else if is_text(text, "break") {
        TokenType::KeywrodBreak
    } else if is_text(text, "do") {
        TokenType::KeywrodDo
    } else if is_text(text, "else") {
        TokenType::KeywrodElse
    } else if is_text(text, "elseif") {
        TokenType::KeywrodElseIf
    } else if is_text(text, "end") {
        TokenType::KeywrodEnd
    } else if is_text(text, "false") {
        TokenType::KeywrodFalse
    } else if is_text(text, "for") {
        TokenType::KeywrodFor
    } else if is_text(text, "function") {
        TokenType::KeywrodFunction
    } else if is_text(text, "goto") {
        TokenType::KeywrodGoto
    } else if is_text(text, "if") {
        TokenType::KeywrodIf
    } else if is_text(text, "in") {
        TokenType::KeywrodIn
    } else if is_text(text, "local") {
        TokenType::KeywrodLocal
    } else if is_text(text, "nil") {
        TokenType::KeywrodNil
    } else if is_text(text, "not") {
        TokenType::OperatorNot
    } else if is_text(text, "or") {
        TokenType::OperatorOr
    } else if is_text(text, "repeat") {
        TokenType::KeywrodRepeat
    } else if is_text(text, "return") {
        TokenType::KeywrodReturn
    } else if is_text(text, "then") {
        TokenType::KeywrodThen
    } else if is_text(text, "true") {
        TokenType::KeywrodTrue
    } else if is_text(text, "until") {
        TokenType::KeywrodUntil
    } else if is_text(text, "while") {
        TokenType::KeywrodWhile
    } else {
        TokenType::Identifier
    }
}

fn scan_short_string(chunk: &Vec<char>, i: usize) -> (r: Result<(Token, usize), LexError>)
    requires
        i < chunk@.len(),
    ensures
        match r {
            Ok((token, next)) => short_string_at(chunk@, i as int) == Ok::<
                (TokenModel, int),
                LexError,
            >((token@, next as int)) && i < next <= chunk@.len(),
            Err(e) => short_string_at(chunk@, i as int) == Err::<(TokenModel, int), LexError>(e),
        },
{
    let _ = chunk.len();
    let quote = chunk[i];
    let mut end: usize = i + 1;
    while end < chunk.len() && chunk[end] != quote && chunk[end] != '\n'
        invariant
            i < end <= chunk@.len(),
            quote_end(chunk@, i + 1, quote) == quote_end(chunk@, end as int, quote),
        decreases chunk@.len() - end,
    {
        end = end + 1;
    }
    if end < chunk.len() && chunk[end] == quote {
        Ok((Token { kind: TokenType::String, value: text_of(chunk, i + 1, end) }, end + 1))
    } else {
        Err(LexError::UnfinishedString)
    }
}

fn closes(chunk: &Vec<char>, p: usize, n: usize) -> (r: bool)
    requires
        p < chunk@.len(),
    ensures
        r == closes_at(chunk@, p as int, n as int),
{
    if chunk[p] != ']' {
        return false;
    }
    if n >= chunk.len() - p - 1 {
        return false;
    }
    let equals = run(chunk, p + 1, CharClass::Equals);
    equals >= p + 1 + n && chunk[p + 1 + n] == ']'
}

fn scan_long_string(chunk: &Vec<char>, i: usize) -> (r: Result<(Token, usize), LexError>)
    requires
        i < chunk@.len(),
    ensures
        match r {
            Ok((token, next)) => long_string_at(chunk@, i as int) == Ok::<
                (TokenModel, int),
                LexError,
            >((token@, next as int)) && i < next <= chunk@.len(),
            Err(e) => long_string_at(chunk@, i as int) == Err::<(TokenModel, int), LexError>(e),
        },
{
    let _ = chunk.len();
    let open = run(chunk, i + 1, CharClass::Equals);
    let level: usize = open - (i + 1);
    if peek_at(chunk, open) != '[' {
        return Err(LexError::InvalidLongStringDelimiter);
    }
    let start: usize = open + 1;
    let mut p: usize = start;
    while p < chunk.len()
        invariant
            start <= p <= chunk@.len(),
            i < chunk@.len(),
            start == open + 1,
            level == open - (i + 1),
            open == run_end(chunk@, i + 1, CharClass::Equals),
            char_at(chunk@, open as int) == '[',
            first_close(chunk@, start as int, level as int) == first_close(
                chunk@,
                p as int,
                level as int,
            ),
        decreases chunk@.len() - p,
    {
        if closes(chunk, p, level) {
            assert(first_close(chunk@, p as int, level as int) == Some(p as int));
            return Ok(
                (Token { kind: TokenType::String, value: text_of(chunk, start, p) }, p + level + 2),
            );
        }
        p = p + 1;
    }
    Err(LexError::UnfinishedLongString)
}

fn scan_number(chunk: &Vec<char>, i: usize) -> (r: usize)
    requires
        i < chunk@.len(),
    ensures
        r == number_end(chunk@, i as int),
        i < r <= chunk@.len(),
{
    let _ = chunk.len();
    let second = peek_ahead(chunk, i, 1);
    if is_digit(second) || second == '.' {
        let whole = run(chunk, i + 1, CharClass::Digit);
        if peek_at(chunk, whole) == '.' {
            run(chunk, whole + 1, CharClass::Digit)
        } else {
            whole
        }
    } else if second == 'x' && chunk[i] == '0' {
        run(chunk, i + 2, CharClass::HexDigit)
    } else {
        i + 1
    }
}

fn operator(c: char, c1: char, c2: char) -> (r: Option<(TokenType, usize)>)
    ensures
        match r {
            Some((kind, width)) => operator_of(c, c1, c2) == Some((kind, width as int)) && 1
                <= width <= 3 && (width >= 2 ==> c1 != '\0') && (width >= 3 ==> c2 != '\0'),
            None => operator_of(c, c1, c2) is None,
        },
{
    if c == '.' {
        if c1 == '.' {
            if c2 == '.' {
                Some((TokenType::Vararg, 3))
            } else {
                Some((TokenType::OperatorConcat, 2))
            }
        } else {
            Some((TokenType::SeparatorDot, 1))
        }
    } else if c == ';' {
        Some((TokenType::SeparatorSemicolon, 1))
    } else if c == ',' {
        Some((TokenType::SeparetorComma, 1))
    } else if c == '(' {
        Some((TokenType::SeparatorOpenParenthesis, 1))
    } else if c == ')' {
        Some((TokenType::SeparatorCloseParenthesis, 1))
    } else if c == ']' {
        Some((TokenType::SeparatorCloseBracket, 1))
    } else if c == '{' {
        Some((TokenType::SeparatorOpenBrace, 1))
    } else if c == '}' {
        Some((TokenType::SeparatorCloseBrace, 1))
    } else if c == '+' {
        Some((TokenType::OperatorPlus, 1))
    } else if c == '-' {
        Some((TokenType::OperatorMinus, 1))
    } else if c == '*' {
        Some((TokenType::OperatorMultiply, 1))
    } else if c == '^' {
        Some((TokenType::OperatorPow, 1))
    } else if c == '%' {
        Some((TokenType::OperatorMod, 1))
    } else if c == '&' {
        Some((TokenType::OperatorBand, 1))
    } else if c == '|' {
        Some((TokenType::OperatorBor, 1))
    } else if c == '#' {
        Some((TokenType::OperatorLen, 1))
    } else if c == ':' {
        if c1 == ':' {
            Some((TokenType::SeparatorLabel, 2))
        } else {
            Some((TokenType::SeparatorColon, 1))
        }
    } else if c == '/' {
        if c1 == '/' {
            Some((TokenType::OperatorIDivide, 2))
        } else {
            Some((TokenType::OperatorDivide, 1))
        }
    } else if c == '~' {
        if c1 == '=' {
            Some((TokenType::OperatorNotEqual, 2))
        } else {
            Some((TokenType::OperatorWave, 1))
        }
    } else if c == '=' {
        if c1 == '=' {
            Some((TokenType::OperatorEq, 2))
        } else {
            Some((TokenType::OperatorAssign, 1))
        }
    } else if c == '<' {
        if c1 == '=' {
            Some((TokenType::OperatorLe, 2))
        } else if c1 == '<' {
            Some((TokenType::OperatorShl, 2))
        } else {
            Some((TokenType::OperatorLt, 1))
        }
    } else if c == '>' {
        if c1 == '=' {
            Some((TokenType::OperatorGe, 2))
        } else if c1 == '>' {
            Some((TokenType::OperatorShr, 2))
        } else {
            Some((TokenType::OperatorGt, 1))
        }
    } else {
        None
    }
}

/// Reads the token that starts at `i`, a position that holds a character.
pub fn scan_lexeme(chunk: &Vec<char>, i: usize) -> (r: Result<(Token, usize), LexError>)
    requires
        i < chunk@.len(),
    ensures
        match r {
            Ok((token, next)) => lexeme_at(chunk@, i as int) == Ok::<(TokenModel, int), LexError>(
                (token@, next as int),
            ) && i < next <= chunk@.len(),
            Err(e) => lexeme_at(chunk@, i as int) == Err::<(TokenModel, int), LexError>(e),
        },
{
    let _ = chunk.len();
    let c = chunk[i];
    let c1 = peek_ahead(chunk, i, 1);
    let c2 = peek_ahead(chunk, i, 2);
    if let Some((kind, width)) = operator(c, c1, c2) {
        Ok((Token::of_kind(kind), i + width))
    } else if c == '[' {
        if c1 == '[' || c1 == '=' {
            scan_long_string(chunk, i)
        } else {
            Ok((Token::open_bracket_token(), i + 1))
        }
    } else if c == '\'' || c == '"' {
        scan_short_string(chunk, i)
    } else if is_digit(c) {
        let end = scan_number(chunk, i);
        Ok((Token { kind: TokenType::Number, value: text_of(chunk, i, end) }, end))
    } else if is_letter(c) || c == '_' {
        let end = run(chunk, i + 1, CharClass::Word);
        let text = text_of(chunk, i, end);
        let kind = kind_of_word(&text);
        Ok((Token { kind, value: text }, end))
    } else {
        Err(LexError::UnexpectedCharacter(c))
    }
}

/// Reads the next token from `from` on.
pub fn scan_token(chunk: &Vec<char>, from: usize) -> (r: Result<(Token, usize), LexError>)
    requires
        from <= chunk@.len(),
    ensures
        match r {
            Ok((token, next)) => token_at(chunk@, from as int) == Ok::<(TokenModel, int), LexError>(
                (token@, next as int),
            ) && from <= next <= chunk@.len(),
            Err(e) => token_at(chunk@, from as int) == Err::<(TokenModel, int), LexError>(e),
        },
{
    let i = run(chunk, from, CharClass::Whitespace);
    if i >= chunk.len() {
        Ok((Token::eof_token(), i))
    } else {
        scan_lexeme(chunk, i)
    }
}

/// The scanner: a stream of characters that is read token by token.
pub struct Lexer {
    pub stream: ChunkStream,
}

impl Lexer {
    /// The cursor is within the text.
    pub open spec fn wf(&self) -> bool {
        self.stream.index <= self.stream.chunk@.len()
    }

    /// The stream after the cursor has moved from where it is in `start` to `to`: the
    /// same text, and the line and the column as the characters passed make them.
    pub open spec fn moved(&self, start: Lexer, to: int) -> bool {
        &&& self.stream.chunk == start.stream.chunk
        &&& self.stream.chunk_name == start.stream.chunk_name
        &&& self.stream.index == to
        &&& (self.stream.line, self.stream.column) == position_after(
            start.stream.line,
            start.stream.column,
            start.stream.chunk@,
            start.stream.index as int,
            to,
        )
    }

    pub fn new(stream: ChunkStream) -> (r: Lexer)
        ensures
            r.stream == stream,
    {
        Lexer { stream }
    }

    /// A scanner at the start of a text.
    pub fn create(chunk_name: &str, chunk: &str) -> (r: Lexer)
        ensures
            r.wf(),
            r.stream.chunk_name@ == chunk_name@,
            r.stream.chunk@ == chunk@,
            r.stream.line == 1,
            r.stream.column == 0,
            r.stream.index == 0,
    {
        Lexer { stream: ChunkStream::new(chunk_name, chunk) }
    }

    /// Moves the cursor forward to `to`.
    pub fn advance_to(&mut self, to: usize)
        requires
            old(self).stream.index <= to <= old(self).stream.chunk@.len(),
        ensures
            final(self).moved(*old(self), to as int),
    {
        while self.stream.index < to
            invariant
                old(self).stream.index <= self.stream.index <= to <= self.stream.chunk@.len(),
                self.moved(*old(self), self.stream.index as int),
            decreases to - self.stream.index,
        {
            let _ = self.stream.next();
        }
    }

    /// Takes what a scan has found: the cursor moves behind it.
    fn take(&mut self, found: Result<(Token, usize), LexError>, Ghost(model): Ghost<
        Result<(TokenModel, int), LexError>,
    >) -> (r: Result<Token, LexError>)
        requires
            match found {
                Ok((token, next)) => model == Ok::<(TokenModel, int), LexError>(
                    (token@, next as int),
                ) && old(self).stream.index <= next <= old(self).stream.chunk@.len(),
                Err(e) => model == Err::<(TokenModel, int), LexError>(e),
            },
        ensures
            match r {
                Ok(token) => model is Ok && token@ == model->Ok_0.0 && final(self).moved(
                    *old(self),
                    model->Ok_0.1,
                ) && final(self).wf(),
                Err(e) => model == Err::<(TokenModel, int), LexError>(e) && *final(self) == *old(
                    self,
                ),
            },
    {
        match found {
            Ok((token, next)) => {
                self.advance_to(next);
                Ok(token)
            },
            Err(e) => Err(e),
        }
    }

    /// The next token, without taking it.
    pub fn peek_token(&self) -> (r: Result<Token, LexError>)
        requires
            self.wf(),
        ensures
            match r {
                Ok(token) => token_at(self.stream.chunk@, self.stream.index as int) is Ok
                    && token@ == token_at(self.stream.chunk@, self.stream.index as int)->Ok_0.0,
                Err(e) => token_at(self.stream.chunk@, self.stream.index as int) == Err::<
                    (TokenModel, int),
                    LexError,
                >(e),
            },
    {
        match scan_token(&self.stream.chunk, self.stream.index) {
            Ok((token, _)) => Ok(token),
            Err(e) => Err(e),
        }
    }

    /// Takes the next token. On a fault nothing is taken.
    pub fn next_token(&mut self) -> (r: Result<Token, LexError>)
        requires
            old(self).wf(),
        ensures
            match r {
                Ok(token) => token_at(old(self).stream.chunk@, old(self).stream.index as int)
                    is Ok && token@ == token_at(
                    old(self).stream.chunk@,
                    old(self).stream.index as int,
                )->Ok_0.0 && final(self).moved(
                    *old(self),
                    token_at(old(self).stream.chunk@, old(self).stream.index as int)->Ok_0.1,
                ) && final(self).wf(),
                Err(e) => token_at(old(self).stream.chunk@, old(self).stream.index as int)
                    == Err::<(TokenModel, int), LexError>(e) && *final(self) == *old(self),
            },
    {
        let found = scan_token(&self.stream.chunk, self.stream.index);
        self.take(found, Ghost(token_at(self.stream.chunk@, self.stream.index as int)))
    }

    /// Takes the long string that starts under the cursor.
    pub fn parse_long_string(&mut self) -> (r: Result<Token, LexError>)
        requires
            old(self).wf(),
            !old(self).stream.at_end(),
        ensures
            match r {
                Ok(token) => long_string_at(old(self).stream.chunk@, old(self).stream.index as int)
                    is Ok && token@ == long_string_at(
                    old(self).stream.chunk@,
                    old(self).stream.index as int,
                )->Ok_0.0 && final(self).moved(
                    *old(self),
                    long_string_at(old(self).stream.chunk@, old(self).stream.index as int)->Ok_0.1,
                ) && final(self).wf(),
                Err(e) => long_string_at(old(self).stream.chunk@, old(self).stream.index as int)
                    == Err::<(TokenModel, int), LexError>(e) && *final(self) == *old(self),
            },
    {
        let found = scan_long_string(&self.stream.chunk, self.stream.index);
        self.take(found, Ghost(long_string_at(self.stream.chunk@, self.stream.index as int)))
    }

    /// Takes the quoted string that starts under the cursor.
    pub fn parse_short_string(&mut self) -> (r: Result<Token, LexError>)
        requires
            old(self).wf(),
            !old(self).stream.at_end(),
        ensures
            match r {
                Ok(token) => short_string_at(
                    old(self).stream.chunk@,
                    old(self).stream.index as int,
                ) is Ok && token@ == short_string_at(
                    old(self).stream.chunk@,
                    old(self).stream.index as int,
                )->Ok_0.0 && final(self).moved(
                    *old(self),
                    short_string_at(old(self).stream.chunk@, old(self).stream.index as int)->Ok_0.1,
                ) && final(self).wf(),
                Err(e) => short_string_at(old(self).stream.chunk@, old(self).stream.index as int)
                    == Err::<(TokenModel, int), LexError>(e) && *final(self) == *old(self),
            },
    {
        let found = scan_short_string(&self.stream.chunk, self.stream.index);
        self.take(found, Ghost(short_string_at(self.stream.chunk@, self.stream.index as int)))
    }

    /// Takes the number that starts under the cursor.
    pub fn parse_number(&mut self) -> (r: Token)
        requires
            old(self).wf(),
            !old(self).stream.at_end(),
        ensures
            r@ == (TokenModel {
                kind: TokenType::Number,
                value: old(self).stream.chunk@.subrange(
                    old(self).stream.index as int,
                    number_end(old(self).stream.chunk@, old(self).stream.index as int),
                ),
            }),
            final(self).moved(
                *old(self),
                number_end(old(self).stream.chunk@, old(self).stream.index as int),
            ),
            final(self).wf(),
    {
        let end = scan_number(&self.stream.chunk, self.stream.index);
        let token = Token {
            kind: TokenType::Number,
            value: text_of(&self.stream.chunk, self.stream.index, end),
        };
        self.advance_to(end);
        token
    }

    /// Takes the word that starts under the cursor: a keyword, a word operator or a
    /// name.
    pub fn parse_identifier(&mut self) -> (r: Token)
        requires
            old(self).wf(),
            !old(self).stream.at_end(),
        ensures
            r@.value == old(self).stream.chunk@.subrange(
                old(self).stream.index as int,
                run_end(old(self).stream.chunk@, old(self).stream.index + 1, CharClass::Word),
            ),
            r@.kind == word_kind(r@.value),
            final(self).moved(
                *old(self),
                run_end(old(self).stream.chunk@, old(self).stream.index + 1, CharClass::Word),
            ),
            final(self).wf(),
    {
        let _ = self.stream.chunk.len();
        let end = run(&self.stream.chunk, self.stream.index + 1, CharClass::Word);
        let text = text_of(&self.stream.chunk, self.stream.index, end);
        let kind = kind_of_word(&text);
        self.advance_to(end);
        Token { kind, value: text }
    }

    /// Takes the character under the cursor where it is `target_char`, and says
    /// whether it was.
    pub fn skip_specific_char(&mut self, target_char: char) -> (r: bool)
        requires
            old(self).wf(),
        ensures
            r == (!old(self).stream.at_end() && old(self).stream.current() == target_char),
            r ==> final(self).moved(*old(self), old(self).stream.index + 1) && final(self).wf(),
            !r ==> *final(self) == *old(self),
    {
        if !self.stream.eof() && self.stream.peek() == target_char {
            let _ = self.stream.chunk.len();
            self.advance_to(self.stream.index + 1);
            true
        } else {
            false
        }
    }

    /// Moves the cursor over white space.
    pub fn skip_white_space(&mut self)
        requires
            old(self).wf(),
        ensures
            final(self).moved(
                *old(self),
                run_end(
                    old(self).stream.chunk@,
                    old(self).stream.index as int,
                    CharClass::Whitespace,
                ),
            ),
            final(self).wf(),
    {
        let end = run(&self.stream.chunk, self.stream.index, CharClass::Whitespace);
        self.advance_to(end);
    }

    pub fn eof(&self) -> (r: bool)
        ensures
            r == self.stream.at_end(),
    {
        self.stream.eof()
    }
}

} // verus!
