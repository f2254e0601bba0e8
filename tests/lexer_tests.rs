use mj2llvm::lexer::{parse_decimal, token_of_capture, tokenize, tokens_from_captures, LexError};
use mj2llvm::parser::parse;
use mj2llvm::parser::ParsingResult::Good;
use mj2llvm::token::Token;

fn id(s: &str) -> Token {
    Token::Identifier(s.to_string())
}

#[test]
fn tokenizes_minimal_program() {
    let src = "class Foo { public static void main(String[] a){ System.out.println(42); } }";
    let toks = tokenize(src).unwrap();
    assert_eq!(toks.len(), 21);
    assert_eq!(toks[0], Token::Class);
    assert_eq!(toks[1], id("Foo"));
    assert_eq!(toks[7], Token::OpParethesis);
    assert_eq!(toks[8], Token::STRING);
    assert_eq!(toks[14], Token::Println);
    assert_eq!(toks[16], Token::Number(42));
    assert!(matches!(parse(toks), Good(_, _)));
}

#[test]
fn unrecognized_character_fails() {
    let r = tokenize("class Foo { @ }");
    assert_eq!(r, Err(LexError::Unrecognized("@".to_string())));
}

#[test]
fn comments_are_removed() {
    let src = "x /* a * b ** */ = 1; // rest\n y";
    let toks = tokenize(src).unwrap();
    assert_eq!(toks, vec![id("x"), Token::Assign, Token::Number(1), Token::Delimiter, id("y")]);
}

#[test]
fn operators_and_punctuation() {
    let toks = tokenize("a&&b<c+d-e*!f=g[0].length,\"hi\"").unwrap();
    assert_eq!(
        toks,
        vec![
            id("a"),
            Token::And,
            id("b"),
            Token::Less,
            id("c"),
            Token::Add,
            id("d"),
            Token::Sub,
            id("e"),
            Token::Mul,
            Token::Not,
            id("f"),
            Token::Assign,
            id("g"),
            Token::OpBracket,
            Token::Number(0),
            Token::ClBracket,
            Token::Dot,
            Token::Length,
            Token::Comma,
            Token::Text("\"hi\"".to_string()),
        ]
    );
}

#[test]
fn keywords_are_not_identifiers() {
    let toks = tokenize("class public static this new void main String extends if else while return true false length int boolean classy").unwrap();
    assert_eq!(toks.len(), 19);
    assert_eq!(toks[17], Token::Boolean);
    assert_eq!(toks[18], id("classy"));
}

#[test]
fn number_too_large_fails() {
    assert_eq!(
        tokenize("99999999999999999999"),
        Err(LexError::BadNumber("99999999999999999999".to_string()))
    );
    assert_eq!(tokenize("9223372036854775807").unwrap(), vec![Token::Number(i64::MAX)]);
}

#[test]
fn decimal_values() {
    assert_eq!(parse_decimal(&"0".to_string()), Some(0));
    assert_eq!(parse_decimal(&"1234".to_string()), Some(1234));
    assert_eq!(parse_decimal(&"9223372036854775808".to_string()), None);
    assert_eq!(parse_decimal(&"".to_string()), None);
    assert_eq!(parse_decimal(&"12a".to_string()), None);
}

#[test]
fn capture_groups_to_tokens() {
    let mut groups: Vec<Option<String>> = vec![None; 16];
    groups[0] = Some("while".to_string());
    groups[2] = Some("while".to_string());
    assert_eq!(token_of_capture(&groups), Ok(Token::While));
    let mut other: Vec<Option<String>> = vec![None; 16];
    other[0] = Some("#".to_string());
    other[15] = Some("#".to_string());
    assert_eq!(token_of_capture(&other), Err(LexError::Unrecognized("#".to_string())));
    assert_eq!(
        tokens_from_captures(&vec![groups.clone(), other, groups]),
        Err(LexError::Unrecognized("#".to_string()))
    );
}
