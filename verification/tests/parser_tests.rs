use crescent::compiler::ast::block::Block;
use crescent::compiler::ast::expression::Expression;
use crescent::compiler::ast::node::Node;
use crescent::compiler::ast::statement::Statement;
use crescent::compiler::lexer::token::{Token, TokenType};
use crescent::compiler::parser::grammar::{ParseError, MAX_DEPTH};
use crescent::compiler::parser::parse::{
    binary_level_of, expression_level, is_block_end, is_field_separator, is_unary_operator,
    numeral_of,
};
use crescent::compiler::parser::parse_expression::{
    parse_expression, parse_expression_list, parse_function_defined_expression,
    parse_prefix_expression,
};
use crescent::compiler::parser::parse_statement::parse_statement;
use crescent::compiler::parser::parse_table_constructor_expression::{
    parse_field, parse_field_list, parse_table_constructor_expression,
};
use crescent::compiler::parser::parser::{parse_block, parse_chunk};
use crescent::lexer::chunk_stream::ChunkStream;
use crescent::lexer::lexer::{LexError, Lexer};

fn integer(i: i64) -> Expression {
    Expression::integet_expresion(i)
}

fn name(s: &str) -> Expression {
    Expression::NameString(s.to_string())
}

fn text(s: &str) -> Expression {
    Expression::StringExpression(s.to_string())
}

fn binary(op: &str, l: Expression, r: Expression) -> Expression {
    Expression::binary_expression(op.to_string(), l, r)
}

fn unary(op: &str, e: Expression) -> Expression {
    Expression::unary_expression(op.to_string(), e)
}

fn call(prefix: Expression, method: &str, args: Vec<Expression>) -> Expression {
    Expression::function_call_expression(prefix, text(method), args)
}

fn expression(text: &str) -> Expression {
    let mut lexer = Lexer::create("test.lua", text);
    let exp = parse_expression(&mut lexer).unwrap();
    assert_eq!(lexer.next_token().unwrap(), Token::eof_token(), "{}", text);
    exp
}

fn expression_fault(text: &str) -> ParseError {
    let mut lexer = Lexer::create("test.lua", text);
    let fault = parse_expression(&mut lexer).unwrap_err();
    assert_eq!(lexer.stream.index, 0);
    fault
}

fn statement(text: &str) -> Statement {
    let mut lexer = Lexer::create("test.lua", text);
    let stmt = parse_statement(&mut lexer).unwrap();
    assert_eq!(lexer.next_token().unwrap(), Token::eof_token(), "{}", text);
    stmt
}

fn block_of(statements: Vec<Statement>) -> Block {
    Block { statements, return_expression: Vec::new() }
}

#[test]
fn format_unary_expression() {
    println!(
        "{:#?}",
        Expression::unary_expression("+".to_string(), Expression::NilExpression)
    )
}

#[test]
fn test_statement_enum() {
    let stmt = Statement::LabelStatement(String::from(""));
    println!("{:?}", stmt);
}

#[test]
fn test_simple_expression() {
    let exp = parse_expression(&mut Lexer::new(ChunkStream::new("test.lua", "1 + 2 * 3")));

    println!("expression {:#?}", exp);
    assert_eq!(exp, Ok(binary("+", integer(1), binary("*", integer(2), integer(3)))));
}

#[test]
fn test_expression() {
    let exp = parse_expression(&mut Lexer::new(ChunkStream::new("test.lua", "1 * 2 + 3")));

    println!("expression {:#?}", exp);
    assert_eq!(exp, Ok(binary("+", binary("*", integer(1), integer(2)), integer(3))));
}

#[test]
fn test_expresion_list() {
    let exp = parse_expression_list(&mut Lexer::new(ChunkStream::new(
        "test.lua",
        "1 * 2 + 3,1 + 2 * 3",
    )));

    println!("{:#?}", exp);
    assert_eq!(
        exp,
        Ok(vec![
            binary("+", binary("*", integer(1), integer(2)), integer(3)),
            binary("+", integer(1), binary("*", integer(2), integer(3))),
        ])
    );
}

#[test]
fn test_function_expression() {
    let exp = parse_expression(&mut Lexer::new(ChunkStream::new(
        "test.lua",
        "function (param1, param2) break end",
    )))
    .unwrap();

    match exp {
        Expression::FunctionDefinedExpression(fn_def) => {
            assert_eq!(fn_def.is_vararg, false);
            assert_eq!(
                fn_def.param_list,
                vec!["param1".to_string(), "param2".to_string()]
            );
            assert_eq!(fn_def.block.statements[0], Statement::BreakStatement);
        }
        _ => panic!("{:#?}", exp),
    }
}

#[test]
fn test_vararg_function_expression() {
    let exp = parse_expression(&mut Lexer::new(ChunkStream::new(
        "test.lua",
        "function (param1, param2, ...) break end",
    )))
    .unwrap();

    match exp {
        Expression::FunctionDefinedExpression(fn_def) => {
            assert_eq!(fn_def.is_vararg, true);
            assert_eq!(
                fn_def.param_list,
                vec!["param1".to_string(), "param2".to_string()]
            );
            assert_eq!(fn_def.block.statements[0], Statement::BreakStatement);
        }
        _ => panic!("{:#?}", exp),
    }
}

#[test]
fn test_function_call_expression() {
    let exp = parse_expression(&mut Lexer::new(ChunkStream::new(
        "test.lua",
        "print(10,24)",
    )))
    .unwrap();
    match exp {
        Expression::FunctionCallExpression(fn_call) => {
            assert_eq!(
                fn_call.name_exp,
                Box::new(Expression::StringExpression("".to_string()))
            );
            assert_eq!(
                fn_call.prefix_exp,
                Box::new(Expression::NameString("print".to_string()))
            );

            assert_eq!(
                fn_call.args,
                vec![
                    Expression::integet_expresion(10),
                    Expression::integet_expresion(24)
                ]
            )
        }
        _ => panic!("{:#?}", exp),
    }
}

#[test]
fn test_parse_simple_while_statement() {
    let stmt = parse_statement(&mut Lexer::new(ChunkStream::new(
        "test.lua",
        "while true do break; end",
    )));
    println!("statement {:?}", stmt);
    assert_eq!(
        stmt,
        Ok(Statement::while_statement(
            Expression::TrueExpression,
            block_of(vec![Statement::BreakStatement, Statement::EmptyStatement]),
        ))
    );
}

#[test]
fn test_parse_simple_if_statement() {
    let stmt = parse_statement(&mut Lexer::new(ChunkStream::new(
        "test.lua",
        "if true then break; else break; end",
    )));
    println!("statement {:?}", stmt);
    assert_eq!(
        stmt,
        Ok(Statement::if_statement(
            Expression::TrueExpression,
            block_of(vec![Statement::BreakStatement, Statement::EmptyStatement]),
            block_of(vec![Statement::BreakStatement, Statement::EmptyStatement]),
        ))
    );
}

#[test]
fn test_simple_table_constructor() {
    let exp = parse_table_constructor_expression(&mut Lexer::create(
        "test.lua",
        "{  \"x\", \"y\"; x = 1, [30] = 23; 45 } ",
    ));

    println!("{:#?}", &exp);
    assert_eq!(
        exp,
        Ok(Expression::table_constructor_expression(
            vec![
                Expression::NilExpression,
                Expression::NilExpression,
                text("x"),
                integer(30),
                Expression::NilExpression,
            ],
            vec![text("x"), text("y"), integer(1), integer(23), integer(45)],
        ))
    );
}

#[test]
fn test_precedence_levels() {
    assert_eq!(
        expression("a or b and c"),
        binary("or", name("a"), binary("and", name("b"), name("c")))
    );
    assert_eq!(
        expression("a and b < c"),
        binary("and", name("a"), binary("<", name("b"), name("c")))
    );
    assert_eq!(
        expression("a == b | c"),
        binary("==", name("a"), binary("|", name("b"), name("c")))
    );
    assert_eq!(
        expression("a | b ~ c"),
        binary("|", name("a"), binary("~", name("b"), name("c")))
    );
    assert_eq!(
        expression("a ~ b & c"),
        binary("~", name("a"), binary("&", name("b"), name("c")))
    );
    assert_eq!(
        expression("a & b << c"),
        binary("&", name("a"), binary("<<", name("b"), name("c")))
    );
    assert_eq!(
        expression("a >> b .. c"),
        binary(
            ">>",
            name("a"),
            Expression::concat_expresion(vec![name("b"), name("c")])
        )
    );
    assert_eq!(
        expression("a .. b + c"),
        Expression::concat_expresion(vec![name("a"), binary("+", name("b"), name("c"))])
    );
    assert_eq!(
        expression("a - b // c"),
        binary("-", name("a"), binary("//", name("b"), name("c")))
    );
    assert_eq!(
        expression("a % -b"),
        binary("%", name("a"), unary("-", name("b")))
    );
    assert_eq!(expression("-a ^ b"), unary("-", binary("^", name("a"), name("b"))));
    assert_eq!(
        expression("a ^ b ^ c"),
        binary("^", name("a"), binary("^", name("b"), name("c")))
    );
    assert_eq!(expression("2 ^ -3"), binary("^", integer(2), unary("-", integer(3))));
    assert_eq!(
        expression("a - b - c"),
        binary("-", binary("-", name("a"), name("b")), name("c"))
    );
    assert_eq!(
        expression("a .. b .. c .. d"),
        Expression::concat_expresion(vec![name("a"), name("b"), name("c"), name("d")])
    );
    assert_eq!(
        expression("not #a ~= ~b"),
        binary("~=", unary("not", unary("#", name("a"))), unary("~", name("b")))
    );
    assert_eq!(
        expression("(a + b) * c"),
        binary(
            "*",
            Expression::parenthesis_expression(binary("+", name("a"), name("b"))),
            name("c")
        )
    );
    for (i, op) in ["*", "+", "..", "<<", "&", "~", "|", "<=", "and", "or"].iter().enumerate() {
        let mut lexer = Lexer::create("test.lua", op);
        let kind = lexer.next_token().unwrap().kind;
        assert_eq!(binary_level_of(kind), i + 1, "{}", op);
    }
    assert_eq!(binary_level_of(TokenType::OperatorPow), 0);
    assert_eq!(binary_level_of(TokenType::Identifier), 0);
    assert!(is_unary_operator(TokenType::OperatorNot));
    assert!(is_unary_operator(TokenType::OperatorMinus));
    assert!(!is_unary_operator(TokenType::OperatorPlus));
}

#[test]
fn test_literals() {
    assert_eq!(expression("nil"), Expression::NilExpression);
    assert_eq!(expression("true"), Expression::TrueExpression);
    assert_eq!(expression("false"), Expression::FalseExpression);
    assert_eq!(expression("..."), Expression::VarargExpression);
    assert_eq!(expression("'text'"), text("text"));
    assert_eq!(expression("[[long]]"), text("long"));
    assert_eq!(expression("0"), integer(0));
    assert_eq!(expression("345"), integer(345));
    assert_eq!(expression("9223372036854775807"), integer(i64::MAX));
    assert_eq!(
        expression("9223372036854775808"),
        Expression::FloatExpresion("9223372036854775808".to_string())
    );
    assert_eq!(expression("3.0"), Expression::FloatExpresion("3.0".to_string()));
    assert_eq!(expression("3.1416"), Expression::FloatExpresion("3.1416".to_string()));
    assert_eq!(expression("0xff"), integer(255));
    assert_eq!(expression("0xBEBADA"), integer(0xBEBADA));
    assert_eq!(expression("0xffffffffffffffff"), integer(-1));
    assert_eq!(expression("0x10000000000000001"), integer(1));
    assert_eq!(expression("0x"), integer(0));
    let chars: Vec<char> = "x 0x1f".chars().collect();
    assert_eq!(numeral_of(&chars, 2, 6), integer(31));
    assert_eq!(numeral_of(&chars, 2, 3), integer(0));
}

#[test]
fn test_prefix_expressions() {
    assert_eq!(
        expression("a.b[1]"),
        Expression::table_access_expression(
            Expression::table_access_expression(name("a"), text("b")),
            integer(1)
        )
    );
    assert_eq!(expression("f()"), call(name("f"), "", vec![]));
    assert_eq!(expression("f 'x'"), call(name("f"), "", vec![text("x")]));
    assert_eq!(
        expression("f{1}"),
        call(
            name("f"),
            "",
            vec![Expression::table_constructor_expression(
                vec![Expression::NilExpression],
                vec![integer(1)]
            )]
        )
    );
    assert_eq!(
        expression("obj:method(1, 2).field"),
        Expression::table_access_expression(
            call(name("obj"), "method", vec![integer(1), integer(2)]),
            text("field")
        )
    );
    assert_eq!(
        expression("f(1)(2)"),
        call(call(name("f"), "", vec![integer(1)]), "", vec![integer(2)])
    );
    let mut lexer = Lexer::create("test.lua", "a.b = 1");
    assert_eq!(
        parse_prefix_expression(&mut lexer),
        Ok(Expression::table_access_expression(name("a"), text("b")))
    );
    assert_eq!(lexer.stream.index, 3);
    assert_eq!(lexer.stream.column, 3);
    let mut lexer = Lexer::create("test.lua", "(a, b) return a end rest");
    match parse_function_defined_expression(&mut lexer).unwrap() {
        Expression::FunctionDefinedExpression(def) => {
            assert_eq!(def.param_list, vec!["a".to_string(), "b".to_string()]);
            assert!(!def.is_vararg);
            assert_eq!(def.block.return_expression, vec![name("a")]);
        }
        other => panic!("{:#?}", other),
    }
    assert_eq!(lexer.next_token().unwrap(), Token::identifier_token("rest"));
    match expression("function (...) end") {
        Expression::FunctionDefinedExpression(def) => {
            assert!(def.param_list.is_empty());
            assert!(def.is_vararg);
        }
        other => panic!("{:#?}", other),
    }
    match expression("function () end") {
        Expression::FunctionDefinedExpression(def) => {
            assert!(def.param_list.is_empty());
            assert!(!def.is_vararg);
            assert_eq!(def.block, Block::empty());
        }
        other => panic!("{:#?}", other),
    }
}

#[test]
fn test_table_fields() {
    let mut lexer = Lexer::create("test.lua", "x = 1, y }");
    assert_eq!(parse_field(&mut lexer), Ok((text("x"), integer(1))));
    assert_eq!(lexer.next_token().unwrap(), Token::comma_token());
    assert_eq!(parse_field(&mut lexer), Ok((Expression::NilExpression, name("y"))));
    let mut lexer = Lexer::create("test.lua", "[k] = v; w, }");
    assert_eq!(
        parse_field_list(&mut lexer),
        Ok((vec![name("k"), Expression::NilExpression], vec![name("v"), name("w")]))
    );
    assert_eq!(lexer.next_token().unwrap(), Token::close_brace_token());
    assert_eq!(expression("{}"), Expression::table_constructor_expression(vec![], vec![]));
    assert_eq!(
        expression("{x}"),
        Expression::table_constructor_expression(vec![Expression::NilExpression], vec![name("x")])
    );
    assert!(is_field_separator(&Token::comma_token()));
    assert!(is_field_separator(&Token::semi_token()));
    assert!(!is_field_separator(&Token::colon_token()));
    assert_eq!(expression_fault("{1 2}"), ParseError::UnexpectedToken(TokenType::Number));
    assert_eq!(expression_fault("{1,"), ParseError::UnexpectedToken(TokenType::Eof));
}

#[test]
fn test_statements() {
    assert_eq!(statement(";"), Statement::EmptyStatement);
    assert_eq!(statement("break"), Statement::BreakStatement);
    assert_eq!(statement("::top::"), Statement::LabelStatement("top".to_string()));
    assert_eq!(statement("goto top"), Statement::GotoStatement("top".to_string()));
    assert_eq!(
        statement("do break end"),
        Statement::DotStatement(block_of(vec![Statement::BreakStatement]))
    );
    assert_eq!(
        statement("repeat x = 1 until x"),
        Statement::repeat_statement(
            name("x"),
            block_of(vec![Statement::assign_statement(vec![name("x")], vec![integer(1)])])
        )
    );
    assert_eq!(
        statement("if a then elseif b then else end"),
        Statement::if_statement(
            name("a"),
            Block::empty(),
            Block::only(Statement::if_statement(name("b"), Block::empty(), Block::empty())),
        )
    );
    assert_eq!(
        statement("if a then end"),
        Statement::if_statement(name("a"), Block::empty(), Block::empty())
    );
    assert_eq!(
        statement("for i = 1, 10 do end"),
        Statement::for_statement(
            binary("=", name("i"), integer(1)),
            integer(10),
            Expression::EmptyExpression,
            Block::empty()
        )
    );
    assert_eq!(
        statement("for i = 10, 1, -1 do break end"),
        Statement::for_statement(
            binary("=", name("i"), integer(10)),
            integer(1),
            unary("-", integer(1)),
            block_of(vec![Statement::BreakStatement])
        )
    );
    assert_eq!(
        statement("for k, v in pairs(t) do end"),
        Statement::for_in_statement(
            vec!["k".to_string(), "v".to_string()],
            vec![call(name("pairs"), "", vec![name("t")])],
            Block::empty()
        )
    );
    assert_eq!(
        statement("local a, b = 1, 2"),
        Statement::local_var_declare_statement(
            vec!["a".to_string(), "b".to_string()],
            vec![integer(1), integer(2)]
        )
    );
    assert_eq!(
        statement("local a"),
        Statement::local_var_declare_statement(vec!["a".to_string()], vec![])
    );
    assert_eq!(
        statement("a, b.c = 1, 2"),
        Statement::assign_statement(
            vec![name("a"), Expression::table_access_expression(name("b"), text("c"))],
            vec![integer(1), integer(2)]
        )
    );
    assert_eq!(
        statement("print('hi')"),
        Statement::function_call_statement(call(name("print"), "", vec![text("hi")]))
    );
    match statement("local function f() end") {
        Statement::LocalFunctionDefinedStatement(def) => assert_eq!(def.name, "f"),
        other => panic!("{:?}", other),
    }
    match statement("function a.b:c() end") {
        Statement::AssignStatement(assign) => {
            assert_eq!(
                assign.var_list,
                vec![Expression::table_access_expression(
                    Expression::table_access_expression(name("a"), text("b")),
                    text("c")
                )]
            );
            assert_eq!(assign.exp_list.len(), 1);
        }
        other => panic!("{:?}", other),
    }
}

#[test]
fn test_blocks_and_chunks() {
    let mut lexer = Lexer::create("test.lua", "local a = 1 return a, 2; end");
    let block = parse_block(&mut lexer).unwrap();
    assert_eq!(block.statements.len(), 1);
    assert_eq!(block.return_expression, vec![name("a"), integer(2)]);
    assert_eq!(lexer.next_token().unwrap(), Token::end_token());
    assert_eq!(parse_chunk("return"), Ok(Block::empty()));
    assert_eq!(parse_chunk(""), Ok(Block::empty()));
    assert_eq!(parse_chunk("return;"), Ok(Block::empty()));
    assert_eq!(
        parse_chunk("a, b, c = 1, 2; c = a + b"),
        Ok(block_of(vec![
            Statement::assign_statement(vec![name("a"), name("b"), name("c")], vec![integer(1), integer(2)]),
            Statement::EmptyStatement,
            Statement::assign_statement(vec![name("c")], vec![binary("+", name("a"), name("b"))]),
        ]))
    );
    let sum = parse_chunk(
        "local sum = 0\nfor i = 5, 100 do\n  if i % 3 == 0 then\n    sum = sum + i\n  end\nend\n",
    )
    .unwrap();
    assert_eq!(sum.statements.len(), 2);
    assert_eq!(parse_chunk("x = 1 end"), Err(ParseError::UnexpectedToken(TokenType::KeywrodEnd)));
    assert_eq!(parse_chunk("x"), Err(ParseError::UnexpectedToken(TokenType::Eof)));
    assert_eq!(parse_chunk("x = "), Err(ParseError::UnexpectedToken(TokenType::Eof)));
    assert_eq!(parse_chunk("x = 'a"), Err(ParseError::Lex(LexError::UnfinishedString)));
    assert_eq!(parse_chunk("x = @"), Err(ParseError::Lex(LexError::UnexpectedCharacter('@'))));
    assert_eq!(parse_chunk("while x do"), Err(ParseError::UnexpectedToken(TokenType::Eof)));
    assert_eq!(parse_chunk("1 = x"), Err(ParseError::UnexpectedToken(TokenType::Number)));
    assert!(is_block_end(TokenType::KeywrodUntil));
    assert!(is_block_end(TokenType::Eof));
    assert!(!is_block_end(TokenType::KeywrodDo));
}

#[test]
fn test_nesting_limit() {
    assert_eq!(MAX_DEPTH, 200);
    let deep = format!("{}1{}", "(".repeat(150), ")".repeat(150));
    assert!(parse_chunk(&format!("x = {}", deep)).is_ok());
    let deeper = format!("{}1{}", "(".repeat(250), ")".repeat(250));
    assert_eq!(parse_chunk(&format!("x = {}", deeper)), Err(ParseError::TooDeep));
    let chars: Vec<char> = "(1)".chars().collect();
    assert_eq!(expression_level(&chars, 0, 10, 0), Err(ParseError::TooDeep));
    assert!(expression_level(&chars, 0, 10, 1).is_ok());
    let long = vec!["1"; 5000].join(" + ");
    assert!(parse_chunk(&format!("x = {}", long)).is_ok());
    let many = "x = 1\n".repeat(5000);
    assert_eq!(parse_chunk(&many).unwrap().statements.len(), 5000);
}

#[test]
fn test_node() {
    let mut node = Node::new(5);
    assert_eq!(*node.inner(), 5);
    assert_eq!(node.lineinfo, (0, 0));
    *node.mut_inner() = 7;
    assert_eq!(node.inner, 7);
}
