use crescent::compiler::lexer::token::{Token, TokenType};
use crescent::lexer::chunk_stream::ChunkStream;
use crescent::lexer::lexer::{LexError, Lexer};
use crescent::lexer::utils::{is_digit, is_hex_digit, is_letter, is_whitespace};

fn lexer_over(text: &str) -> Lexer {
    Lexer {
        stream: ChunkStream {
            chunk_name: String::from("test.lua"),
            chunk: String::from(text).chars().collect(),
            line: 1,
            column: 0,
            index: 0,
        },
    }
}

#[test]
fn test_chuck_steam() {
    let mut chunk_stream = ChunkStream::new("test.lua", "line1\nline2");

    assert_eq!(chunk_stream.next(), 'l');
    assert_eq!(chunk_stream.line, 1);
    assert_eq!(chunk_stream.column, 1);
    assert_eq!(chunk_stream.index, 1);
    chunk_stream.next(); // eat i
    chunk_stream.next(); // eat n
    chunk_stream.next(); // eat e
    chunk_stream.next(); // eat 1
    chunk_stream.next(); // eat \n

    assert_eq!(chunk_stream.next(), 'l');
    assert_eq!(chunk_stream.line, 2);
    assert_eq!(chunk_stream.column, 1);
    assert_eq!(chunk_stream.index, 7);
    assert_eq!(chunk_stream.eof(), false);

    chunk_stream.next(); // eat i
    chunk_stream.next(); // eat n
    chunk_stream.next(); // eat e
    chunk_stream.next(); // eat 2

    assert_eq!(chunk_stream.next(), '\0');
    assert_eq!(chunk_stream.eof(), true);
}

#[test]
fn test_chunk_stream_peeks() {
    let mut stream = ChunkStream::new("test.lua", "ab");
    assert_eq!(stream.peek(), 'a');
    assert_eq!(stream.peek2(), 'b');
    stream.next();
    assert_eq!(stream.peek(), 'b');
    assert_eq!(stream.peek2(), '\0');
    stream.next();
    assert_eq!(stream.peek(), '\0');
    assert_eq!(stream.peek2(), '\0');
    assert_eq!(stream.index, 2);
    stream.next();
    assert_eq!(stream.index, 2);
}

#[test]
fn test_get_position() {
    let mut stream = ChunkStream::new("test.lua", "a\nbc");
    assert_eq!(stream.get_position(), "line: +1, cloumn: +0");
    stream.next();
    stream.next();
    stream.next();
    assert_eq!(stream.get_position(), "line: +2, cloumn: +1");
    stream.line = -12;
    stream.column = 1050;
    assert_eq!(stream.get_position(), "line: -12, cloumn: +1050");
    stream.line = i32::MIN;
    stream.column = i32::MAX;
    assert_eq!(stream.get_position(), format!("line: {:+}, cloumn: {:+}", i32::MIN, i32::MAX));
}

#[test]
fn test_parse_long_string() {
    let mut lexer = Lexer {
        stream: ChunkStream {
            chunk_name: String::from("test.lua"),
            chunk: String::from("[[line 1\nline 2]]").chars().collect(),
            line: 1,
            column: 0,
            index: 0,
        },
    };

    assert_eq!(lexer.next_token().unwrap(), Token::string_token("line 1\nline 2"));
}

#[test]
fn test_parse_long_string_with_level() {
    let mut lexer = lexer_over("[==[a]]b]=]c]==] x");
    assert_eq!(lexer.next_token().unwrap(), Token::string_token("a]]b]=]c"));
    assert_eq!(lexer.stream.index, 16);
    assert_eq!(lexer.next_token().unwrap(), Token::identifier_token("x"));
    assert_eq!(lexer.next_token().unwrap(), Token::eof_token());
}

#[test]
fn test_long_string_faults() {
    let mut lexer = lexer_over("[[never closed]");
    assert_eq!(lexer.next_token(), Err(LexError::UnfinishedLongString));
    assert_eq!(lexer.stream.index, 0);
    let mut lexer = lexer_over("[=x");
    assert_eq!(lexer.next_token(), Err(LexError::InvalidLongStringDelimiter));
    let mut lexer = lexer_over("[x]");
    assert_eq!(lexer.next_token().unwrap(), Token::open_bracket_token());
    assert_eq!(lexer.next_token().unwrap(), Token::identifier_token("x"));
    assert_eq!(lexer.next_token().unwrap(), Token::close_bracket_token());
}

#[test]
fn test_parse_short_string() {
    let mut lexer = Lexer {
        stream: ChunkStream {
            chunk_name: String::from("test.lua"),
            chunk: String::from("'short string'\n\"long string\"")
                .chars()
                .collect(),
            line: 1,
            column: 0,
            index: 0,
        },
    };

    assert_eq!(lexer.next_token().unwrap(), Token::string_token("short string"));
    assert_eq!(lexer.next_token().unwrap(), Token::string_token("long string"));
}

#[test]
fn test_short_string_faults() {
    let mut lexer = lexer_over("'line\nbreak'");
    assert_eq!(lexer.next_token(), Err(LexError::UnfinishedString));
    let mut lexer = lexer_over("\"no end");
    assert_eq!(lexer.next_token(), Err(LexError::UnfinishedString));
    let mut lexer = lexer_over("'it\"s'");
    assert_eq!(lexer.next_token().unwrap(), Token::string_token("it\"s"));
}

#[test]
fn test_unexpected_character() {
    let mut lexer = lexer_over("  @");
    assert_eq!(lexer.next_token(), Err(LexError::UnexpectedCharacter('@')));
    let mut lexer = lexer_over("\t");
    assert_eq!(lexer.next_token(), Err(LexError::UnexpectedCharacter('\t')));
}

#[test]
fn test_parse_oparetor() {
    let mut lexer = Lexer {
        stream: ChunkStream {
            chunk_name: String::from("test.lua"),
            chunk: String::from("+-*/^%&|#~~=>=>>><=<<<").chars().collect(),
            line: 1,
            column: 0,
            index: 0,
        },
    };

    assert_eq!(lexer.next_token().unwrap(), Token::plus_token());
    assert_eq!(lexer.next_token().unwrap(), Token::minus_token());
    assert_eq!(lexer.next_token().unwrap(), Token::mul_token());
    assert_eq!(lexer.next_token().unwrap(), Token::div_token());
    assert_eq!(lexer.next_token().unwrap(), Token::pow_token());
    assert_eq!(lexer.next_token().unwrap(), Token::mod_token());
    assert_eq!(lexer.next_token().unwrap(), Token::band_token());
    assert_eq!(lexer.next_token().unwrap(), Token::bor_token());
    assert_eq!(lexer.next_token().unwrap(), Token::len_token());
    assert_eq!(lexer.next_token().unwrap(), Token::wave_token());
    assert_eq!(lexer.next_token().unwrap(), Token::not_eqaul_token());
    assert_eq!(lexer.next_token().unwrap(), Token::ge_token());
    assert_eq!(lexer.next_token().unwrap(), Token::shr_token());
    assert_eq!(lexer.next_token().unwrap(), Token::gt_token());
    assert_eq!(lexer.next_token().unwrap(), Token::le_token());
    assert_eq!(lexer.next_token().unwrap(), Token::shl_token());
    assert_eq!(lexer.next_token().unwrap(), Token::lt_token());
}

#[test]
fn test_parse_separators() {
    let mut lexer = lexer_over("; , . : :: ( ) [ ] { } = == // .. ...");
    assert_eq!(lexer.next_token().unwrap(), Token::semi_token());
    assert_eq!(lexer.next_token().unwrap(), Token::comma_token());
    assert_eq!(lexer.next_token().unwrap(), Token::dot_token());
    assert_eq!(lexer.next_token().unwrap(), Token::colon_token());
    assert_eq!(lexer.next_token().unwrap(), Token::label_token());
    assert_eq!(lexer.next_token().unwrap(), Token::open_paren_token());
    assert_eq!(lexer.next_token().unwrap(), Token::close_paren_token());
    assert_eq!(lexer.next_token().unwrap(), Token::open_bracket_token());
    assert_eq!(lexer.next_token().unwrap(), Token::close_bracket_token());
    assert_eq!(lexer.next_token().unwrap(), Token::open_brace_token());
    assert_eq!(lexer.next_token().unwrap(), Token::close_brace_token());
    assert_eq!(lexer.next_token().unwrap(), Token::assign_token());
    assert_eq!(lexer.next_token().unwrap(), Token::equal_token());
    assert_eq!(lexer.next_token().unwrap(), Token::idiv_token());
    assert_eq!(lexer.next_token().unwrap(), Token::concat_token());
    assert_eq!(lexer.next_token().unwrap(), Token::vararg_token());
    assert_eq!(lexer.next_token().unwrap(), Token::eof_token());
    assert_eq!(lexer.next_token().unwrap(), Token::eof_token());
    assert!(lexer.eof());
}

#[test]
fn test_token_kinds_and_texts() {
    assert_eq!(Token::eof_token().kind, TokenType::Eof);
    assert_eq!(Token::eof_token().value, "");
    assert_eq!(Token::open_bracket_token().kind, TokenType::SeparatorOpenBracket);
    assert_eq!(Token::open_paren_token().kind, TokenType::SeparatorOpenParenthesis);
    assert_eq!(Token::equal_token().kind, TokenType::OperatorEq);
    assert_eq!(Token::equal_token().value, "==");
    assert_eq!(Token::assign_token().kind, TokenType::OperatorAssign);
    assert_eq!(Token::elseif_token().value, "elseif");
    assert_eq!(Token::of_kind(TokenType::OperatorShl), Token::shl_token());
    assert_eq!(Token::of_kind(TokenType::KeywrodWhile), Token::while_token());
    assert_eq!(Token::of_kind(TokenType::Identifier).value, "");
    assert_eq!(Token::number_token("12").kind, TokenType::Number);
    assert_eq!(Token::identifier_token("x").kind, TokenType::Identifier);
    assert_eq!(Token::string_token("s").kind, TokenType::String);
    assert_ne!(Token::string_token("1"), Token::number_token("1"));
}

#[test]
fn test_parse_digit() {
    let mut lexer = Lexer {
        stream: ChunkStream {
            chunk_name: String::from("test.lua"),
            chunk: String::from("0 3 345 0xff 0xBEBADA 3.0 3.1416")
                .chars()
                .collect(),
            line: 1,
            column: 0,
            index: 0,
        },
    };

    assert_eq!(lexer.next_token().unwrap(), Token::number_token("0"));
    assert_eq!(lexer.next_token().unwrap(), Token::number_token("3"));
    assert_eq!(lexer.next_token().unwrap(), Token::number_token("345"));
    assert_eq!(lexer.next_token().unwrap(), Token::number_token("0xff"));
    assert_eq!(lexer.next_token().unwrap(), Token::number_token("0xBEBADA"));
    assert_eq!(lexer.next_token().unwrap(), Token::number_token("3.0"));
    assert_eq!(lexer.next_token().unwrap(), Token::number_token("3.1416"));
}

#[test]
fn test_parse_identifier() {
    let mut lexer = Lexer {
        stream: ChunkStream {
            chunk_name: String::from("test.lua"),
            chunk: String::from("if true then else end function() end")
                .chars()
                .collect(),
            line: 1,
            column: 0,
            index: 0,
        },
    };

    assert_eq!(lexer.next_token().unwrap(), Token::if_token());
    assert_eq!(lexer.next_token().unwrap(), Token::true_token());
    assert_eq!(lexer.next_token().unwrap(), Token::then_token());
    assert_eq!(lexer.next_token().unwrap(), Token::else_token());
    assert_eq!(lexer.next_token().unwrap(), Token::end_token());
    assert_eq!(lexer.next_token().unwrap(), Token::function_token());
    assert_eq!(lexer.next_token().unwrap(), Token::open_paren_token());
    assert_eq!(lexer.next_token().unwrap(), Token::close_paren_token());
    assert_eq!(lexer.next_token().unwrap(), Token::end_token());
}

#[test]
fn test_parse_keywords_and_names() {
    let mut lexer = lexer_over(
        "and break do elseif false for goto in local nil not or repeat return until while _x1 iff a-b",
    );
    assert_eq!(lexer.next_token().unwrap(), Token::and_token());
    assert_eq!(lexer.next_token().unwrap(), Token::break_token());
    assert_eq!(lexer.next_token().unwrap(), Token::do_token());
    assert_eq!(lexer.next_token().unwrap(), Token::elseif_token());
    assert_eq!(lexer.next_token().unwrap(), Token::false_token());
    assert_eq!(lexer.next_token().unwrap(), Token::for_token());
    assert_eq!(lexer.next_token().unwrap(), Token::goto_token());
    assert_eq!(lexer.next_token().unwrap(), Token::in_token());
    assert_eq!(lexer.next_token().unwrap(), Token::local_token());
    assert_eq!(lexer.next_token().unwrap(), Token::nil_token());
    assert_eq!(lexer.next_token().unwrap(), Token::not_token());
    assert_eq!(lexer.next_token().unwrap(), Token::or_token());
    assert_eq!(lexer.next_token().unwrap(), Token::repeat_token());
    assert_eq!(lexer.next_token().unwrap(), Token::return_token());
    assert_eq!(lexer.next_token().unwrap(), Token::until_token());
    assert_eq!(lexer.next_token().unwrap(), Token::while_token());
    assert_eq!(lexer.next_token().unwrap(), Token::identifier_token("_x1"));
    assert_eq!(lexer.next_token().unwrap(), Token::identifier_token("iff"));
    assert_eq!(lexer.next_token().unwrap(), Token::identifier_token("a"));
    assert_eq!(lexer.next_token().unwrap(), Token::minus_token());
    assert_eq!(lexer.next_token().unwrap(), Token::identifier_token("b"));
}

#[test]
fn test_peek_token_takes_nothing() {
    let mut lexer = lexer_over("  local x");
    assert_eq!(lexer.peek_token().unwrap(), Token::local_token());
    assert_eq!(lexer.stream.index, 0);
    assert_eq!(lexer.next_token().unwrap(), Token::local_token());
    assert_eq!(lexer.stream.index, 7);
    assert_eq!(lexer.stream.column, 7);
    assert_eq!(lexer.peek_token().unwrap(), Token::identifier_token("x"));
}

#[test]
fn test_lexer_tracks_lines() {
    let mut lexer = lexer_over("a\n\n  b");
    lexer.next_token().unwrap();
    assert_eq!((lexer.stream.line, lexer.stream.column), (1, 1));
    lexer.next_token().unwrap();
    assert_eq!((lexer.stream.line, lexer.stream.column), (3, 3));
}

#[test]
fn test_lexer_parts() {
    let mut lexer = lexer_over("  12.5abc 'q' [[w]]");
    lexer.skip_white_space();
    assert_eq!(lexer.stream.index, 2);
    assert_eq!(lexer.parse_number(), Token::number_token("12.5"));
    assert_eq!(lexer.parse_identifier(), Token::identifier_token("abc"));
    assert!(!lexer.skip_specific_char('x'));
    assert!(lexer.skip_specific_char(' '));
    assert_eq!(lexer.parse_short_string().unwrap(), Token::string_token("q"));
    lexer.skip_white_space();
    assert_eq!(lexer.parse_long_string().unwrap(), Token::string_token("w"));
    assert!(lexer.eof());
    assert!(!lexer.skip_specific_char('\0'));
}

#[test]
fn test_is_whitespace() {
    assert!(!is_whitespace('\t'));
    assert!(is_whitespace('\n'));
    assert!(is_whitespace(' '));
    assert!(!is_whitespace('a'));
    assert!(is_whitespace('\r'));
}

#[test]
fn test_is_digit() {
    assert!(is_digit('0'));
    assert!(is_digit('9'));
    assert!(is_digit('5'));
    assert!(!is_digit('a'));
}

#[test]
fn test_is_hex_digit() {
    assert!(is_hex_digit('0'));
    assert!(is_hex_digit('a'));
    assert!(is_hex_digit('f'));
    assert!(!is_hex_digit('g'));
    assert!(is_hex_digit('A'));
    assert!(is_hex_digit('F'));
    assert!(!is_hex_digit('G'));
}

#[test]
fn test_is_letter() {
    assert!(is_letter('a'));
    assert!(is_letter('x'));
    assert!(is_letter('A'));
    assert!(is_letter('Z'));
    assert!(!is_letter('0'));
    assert!(!is_letter('_'));
}
