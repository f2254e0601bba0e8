use mj2llvm::ast::{ASTNode, BinaryOp, Expression, Statement, Type};
use mj2llvm::buffer::TokenBuffer;
use mj2llvm::declaration::{parse_class_decl, parse_type};
use mj2llvm::parser::ParsingResult::{Bad, Good, NotComplete};
use mj2llvm::parser::{
    error, parse, parse_expression, parse_literal_expression, parse_mainclass, parse_program,
    ParsingResult,
};
use mj2llvm::statement::{parse_assign_statement, parse_statement};
use mj2llvm::token::Token;

fn id(s: &str) -> Token {
    Token::Identifier(s.to_string())
}

fn num(n: i64) -> Expression {
    Expression::ConstantInteger(n)
}

fn bin(op: BinaryOp, l: Expression, r: Expression) -> Expression {
    Expression::BinaryExpression(op, Box::new(l), Box::new(r))
}

fn main_class_tokens(body: Vec<Token>) -> Vec<Token> {
    let mut t = vec![
        Token::Class,
        id("Foo"),
        Token::OpBrace,
        Token::Public,
        Token::Static,
        Token::Void,
        Token::Main,
        Token::OpParethesis,
        Token::STRING,
        Token::OpBracket,
        Token::ClBracket,
        id("a"),
        Token::ClParethesis,
        Token::OpBrace,
    ];
    t.extend(body);
    t.push(Token::ClBrace);
    t.push(Token::ClBrace);
    t
}

fn expr_of(tokens: Vec<Token>) -> (ParsingResult<Expression>, TokenBuffer) {
    let mut buf = TokenBuffer::new(tokens);
    let r = parse_expression(&mut buf);
    (r, buf)
}

#[test]
fn precedence_of_add_and_multiply() {
    let toks = vec![
        Token::Number(1),
        Token::Add,
        Token::Number(2),
        Token::Mul,
        Token::Number(3),
        Token::Delimiter,
    ];
    let (r, buf) = expr_of(toks);
    match r {
        Good(e, taken) => {
            assert_eq!(e, bin(BinaryOp::Add, num(1), bin(BinaryOp::Mul, num(2), num(3))));
            assert_eq!(taken.len(), 5);
            assert_eq!(buf.pos, 5);
        },
        _ => panic!("expected a parsed expression"),
    }
}

#[test]
fn subtraction_is_left_associative() {
    let toks = vec![
        Token::Number(7),
        Token::Sub,
        Token::Number(2),
        Token::Sub,
        Token::Number(1),
        Token::ClParethesis,
    ];
    match expr_of(toks).0 {
        Good(e, _) => assert_eq!(e, bin(BinaryOp::Sub, bin(BinaryOp::Sub, num(7), num(2)), num(1))),
        _ => panic!("expected a parsed expression"),
    }
}

#[test]
fn and_binds_looser_than_less() {
    let toks = vec![
        id("x"),
        Token::Less,
        Token::Number(2),
        Token::And,
        Token::True,
        Token::Delimiter,
    ];
    match expr_of(toks).0 {
        Good(e, _) => assert_eq!(
            e,
            bin(
                BinaryOp::And,
                bin(BinaryOp::Less, Expression::Identifier("x".to_string()), num(2)),
                Expression::ConstantBoolean(true)
            )
        ),
        _ => panic!("expected a parsed expression"),
    }
}

#[test]
fn less_does_not_chain() {
    let toks = vec![
        Token::Number(1),
        Token::Less,
        Token::Number(2),
        Token::Less,
        Token::Number(3),
        Token::Delimiter,
    ];
    let (r, buf) = expr_of(toks);
    match r {
        Good(e, _) => {
            assert_eq!(e, bin(BinaryOp::Less, num(1), num(2)));
            assert_eq!(buf.pos, 3);
        },
        _ => panic!("expected a parsed expression"),
    }
}

#[test]
fn postfix_chain_and_not() {
    // !a[0].length
    let toks = vec![
        Token::Not,
        id("a"),
        Token::OpBracket,
        Token::Number(0),
        Token::ClBracket,
        Token::Dot,
        Token::Length,
        Token::Delimiter,
    ];
    let expected = Expression::NotExpression(Box::new(Expression::ArrayLengthExpression(Box::new(
        Expression::ArrayIndexExpression(
            Box::new(Expression::Identifier("a".to_string())),
            Box::new(num(0)),
        ),
    ))));
    match expr_of(toks).0 {
        Good(e, _) => assert_eq!(e, expected),
        _ => panic!("expected a parsed expression"),
    }
}

#[test]
fn method_call_and_new() {
    // new Foo().run(1, this)
    let toks = vec![
        Token::New,
        id("Foo"),
        Token::OpParethesis,
        Token::ClParethesis,
        Token::Dot,
        id("run"),
        Token::OpParethesis,
        Token::Number(1),
        Token::Comma,
        Token::This,
        Token::ClParethesis,
        Token::Delimiter,
    ];
    let expected = Expression::FuncCallExpression(
        Box::new(Expression::NewExpression("Foo".to_string())),
        "run".to_string(),
        vec![num(1), Expression::ThisExpression],
    );
    match expr_of(toks).0 {
        Good(e, _) => assert_eq!(e, expected),
        _ => panic!("expected a parsed expression"),
    }
}

#[test]
fn new_int_array_and_parentheses() {
    // new int[(1 + 2) * 3]
    let toks = vec![
        Token::New,
        Token::Int,
        Token::OpBracket,
        Token::OpParethesis,
        Token::Number(1),
        Token::Add,
        Token::Number(2),
        Token::ClParethesis,
        Token::Mul,
        Token::Number(3),
        Token::ClBracket,
        Token::Delimiter,
    ];
    let expected = Expression::NewArrayExpression(Box::new(bin(
        BinaryOp::Mul,
        bin(BinaryOp::Add, num(1), num(2)),
        num(3),
    )));
    match expr_of(toks).0 {
        Good(e, _) => assert_eq!(e, expected),
        _ => panic!("expected a parsed expression"),
    }
}

#[test]
fn expression_at_end_of_input_is_incomplete() {
    let toks = vec![Token::Number(1), Token::Add, Token::Number(2)];
    let (r, buf) = expr_of(toks);
    assert!(matches!(r, NotComplete));
    assert_eq!(buf.pos, 0);
    assert_eq!(buf.tokens.len(), 3);
}

#[test]
fn wrong_token_in_expression_is_bad() {
    let (r, _) = expr_of(vec![Token::Delimiter]);
    match r {
        Bad(m) => assert!(!m.is_empty()),
        _ => panic!("expected a failure"),
    }
}

#[test]
fn literal_production() {
    let mut buf = TokenBuffer::new(vec![Token::Number(42)]);
    match parse_literal_expression(&mut buf) {
        Good(e, taken) => {
            assert_eq!(e, num(42));
            assert_eq!(taken, vec![Token::Number(42)]);
        },
        _ => panic!("expected a literal"),
    }
    let mut empty = TokenBuffer::new(vec![]);
    assert!(matches!(parse_literal_expression(&mut empty), NotComplete));
}

#[test]
fn error_keeps_message() {
    let r: ParsingResult<()> = error("expected x");
    assert!(matches!(r, Bad(ref m) if m == "expected x"));
}

#[test]
fn array_assignment() {
    let toks = vec![
        id("a"),
        Token::OpBracket,
        Token::Number(1),
        Token::ClBracket,
        Token::Assign,
        Token::Number(2),
        Token::Delimiter,
    ];
    let mut buf = TokenBuffer::new(toks);
    match parse_assign_statement(&mut buf) {
        Good(s, taken) => {
            assert_eq!(
                s,
                Statement::ArrayAssignStatement("a".to_string(), Box::new(num(1)), Box::new(num(2)))
            );
            assert_eq!(taken.len(), 7);
        },
        _ => panic!("expected an assignment"),
    }
}

#[test]
fn if_while_and_block() {
    // while (x < 3) { if (b) x = 1; else x = 2; }
    let toks = vec![
        Token::While,
        Token::OpParethesis,
        id("x"),
        Token::Less,
        Token::Number(3),
        Token::ClParethesis,
        Token::OpBrace,
        Token::If,
        Token::OpParethesis,
        id("b"),
        Token::ClParethesis,
        id("x"),
        Token::Assign,
        Token::Number(1),
        Token::Delimiter,
        Token::Else,
        id("x"),
        Token::Assign,
        Token::Number(2),
        Token::Delimiter,
        Token::ClBrace,
    ];
    let assign = |v: i64| Statement::AssignStatement("x".to_string(), Box::new(num(v)));
    let expected = Statement::WhileStatement(
        Box::new(bin(BinaryOp::Less, Expression::Identifier("x".to_string()), num(3))),
        Box::new(Statement::StatementList(vec![Statement::IfStatement(
            Box::new(Expression::Identifier("b".to_string())),
            Box::new(assign(1)),
            Box::new(assign(2)),
        )])),
    );
    let mut buf = TokenBuffer::new(toks);
    match parse_statement(&mut buf) {
        Good(s, _) => assert_eq!(s, expected),
        _ => panic!("expected a statement"),
    }
}

#[test]
fn print_needs_its_terminator() {
    let toks = vec![
        Token::Println,
        Token::OpParethesis,
        Token::Number(1),
        Token::ClParethesis,
        Token::ClBrace,
    ];
    let mut buf = TokenBuffer::new(toks);
    assert!(matches!(parse_statement(&mut buf), Bad(_)));
}

#[test]
fn minimal_valid_program() {
    let toks = main_class_tokens(vec![
        Token::Println,
        Token::OpParethesis,
        Token::Number(42),
        Token::ClParethesis,
        Token::Delimiter,
    ]);
    let n = toks.len();
    match parse(toks.clone()) {
        Good(p, taken) => {
            assert_eq!(taken.len(), n);
            assert_eq!(taken, toks);
            assert!(p.classes.is_empty());
            let ASTNode::MainClassNode(m) = p.main;
            assert_eq!(m.name, "Foo");
            assert_eq!(m.arg_name, "a");
            assert_eq!(
                m.state,
                Statement::StatementList(vec![Statement::PrintlnStatement(Box::new(num(42)))])
            );
        },
        _ => panic!("expected a program"),
    }
}

#[test]
fn fatal_syntax_error() {
    let toks = main_class_tokens(vec![Token::Number(42), id("println"), Token::Delimiter]);
    match parse(toks) {
        Bad(m) => assert!(!m.is_empty()),
        _ => panic!("expected a failure"),
    }
}

#[test]
fn truncated_input_is_incomplete() {
    let toks = vec![Token::Class, id("Foo"), Token::OpBrace];
    let mut buf = TokenBuffer::new(toks);
    assert!(matches!(parse_mainclass(&mut buf), NotComplete));
    assert_eq!(buf.pos, 0);
    assert_eq!(buf.tokens, vec![Token::Class, id("Foo"), Token::OpBrace]);
    match parse(vec![Token::Class, id("Foo"), Token::OpBrace]) {
        Bad(m) => assert_eq!(m, "unexpected end of input"),
        _ => panic!("expected an end-of-input failure"),
    }
    assert!(matches!(parse(vec![]), Bad(_)));
}

#[test]
fn retry_after_more_tokens_matches_one_shot() {
    let all = main_class_tokens(vec![
        id("x"),
        Token::Assign,
        Token::Number(1),
        Token::Add,
        Token::Number(2),
        Token::Delimiter,
    ]);
    for split in 0..all.len() {
        let mut buf = TokenBuffer::new(all[..split].to_vec());
        assert!(matches!(parse_program(&mut buf), NotComplete));
        assert_eq!(buf.pos, 0);
        buf.append(all[split..].to_vec());
        let resumed = parse_program(&mut buf);
        let one_shot = parse(all.clone());
        match (resumed, one_shot) {
            (Good(a, ta), Good(b, tb)) => {
                assert_eq!(a, b);
                assert_eq!(ta, tb);
            },
            _ => panic!("expected two parsed programs"),
        }
    }
}

#[test]
fn parsing_twice_gives_the_same_tree() {
    let toks = main_class_tokens(vec![
        Token::Println,
        Token::OpParethesis,
        Token::Number(1),
        Token::Add,
        Token::Number(2),
        Token::ClParethesis,
        Token::Delimiter,
    ]);
    match (parse(toks.clone()), parse(toks)) {
        (Good(a, _), Good(b, _)) => assert_eq!(a, b),
        _ => panic!("expected two parsed programs"),
    }
}

#[test]
fn class_with_fields_and_method() {
    // class B extends A { int[] xs; C c; public int get(int i, boolean f) { int y; y = i; return y; } }
    let toks = vec![
        Token::Class,
        id("B"),
        Token::Extends,
        id("A"),
        Token::OpBrace,
        Token::Int,
        Token::OpBracket,
        Token::ClBracket,
        id("xs"),
        Token::Delimiter,
        id("C"),
        id("c"),
        Token::Delimiter,
        Token::Public,
        Token::Int,
        id("get"),
        Token::OpParethesis,
        Token::Int,
        id("i"),
        Token::Comma,
        Token::Boolean,
        id("f"),
        Token::ClParethesis,
        Token::OpBrace,
        Token::Int,
        id("y"),
        Token::Delimiter,
        id("y"),
        Token::Assign,
        id("i"),
        Token::Delimiter,
        Token::Return,
        id("y"),
        Token::Delimiter,
        Token::ClBrace,
        Token::ClBrace,
    ];
    let n = toks.len();
    let mut buf = TokenBuffer::new(toks);
    match parse_class_decl(&mut buf) {
        Good(c, taken) => {
            assert_eq!(taken.len(), n);
            assert_eq!(c.name, "B");
            assert_eq!(c.superclass, Some("A".to_string()));
            assert_eq!(c.fields.len(), 2);
            assert_eq!(c.fields[0].ty, Type::IntegerArray);
            assert_eq!(c.fields[1].ty, Type::ClassRef("C".to_string()));
            assert_eq!(c.methods.len(), 1);
            let m = &c.methods[0];
            assert_eq!(m.name, "get");
            assert_eq!(m.return_type, Type::Integer);
            assert_eq!(m.params.len(), 2);
            assert_eq!(m.params[1].ty, Type::Boolean);
            assert_eq!(m.locals.len(), 1);
            assert_eq!(
                m.body,
                Statement::StatementList(vec![Statement::AssignStatement(
                    "y".to_string(),
                    Box::new(Expression::Identifier("i".to_string()))
                )])
            );
            assert_eq!(m.result, Expression::Identifier("y".to_string()));
        },
        _ => panic!("expected a class"),
    }
}

#[test]
fn program_with_second_class() {
    let mut toks = main_class_tokens(vec![]);
    toks.extend(vec![Token::Class, id("B"), Token::OpBrace, Token::ClBrace]);
    match parse(toks) {
        Good(p, _) => {
            assert_eq!(p.classes.len(), 1);
            assert_eq!(p.classes[0].name, "B");
        },
        _ => panic!("expected a program"),
    }
}

#[test]
fn int_type_at_end_is_incomplete() {
    let mut buf = TokenBuffer::new(vec![Token::Int]);
    assert!(matches!(parse_type(&mut buf), NotComplete));
    let mut buf = TokenBuffer::new(vec![Token::Int, id("x")]);
    assert!(matches!(parse_type(&mut buf), Good(Type::Integer, _)));
}

#[test]
fn failure_messages_name_the_expected_construct() {
    let mut buf = TokenBuffer::new(vec![Token::Class, Token::Number(5), Token::OpBrace]);
    assert!(matches!(parse_mainclass(&mut buf), Bad(ref m) if m == "expected class name in main class declaration"));
    let mut buf = TokenBuffer::new(vec![Token::Println, Token::Number(42)]);
    assert!(matches!(parse_statement(&mut buf), Bad(ref m) if m == "expected '(' in System.out.println"));
    let mut buf = TokenBuffer::new(vec![Token::Println, Token::OpParethesis, Token::Delimiter]);
    assert!(matches!(parse_statement(&mut buf), Bad(ref m) if m == "unknown token when expecting a expression"));
    let mut buf = TokenBuffer::new(vec![Token::True]);
    assert!(matches!(parse_literal_expression(&mut buf), Bad(ref m) if m == "literal expected"));
}
