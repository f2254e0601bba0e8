use vstd::prelude::*;

verus! {

/// One lexical unit. Keywords, punctuation and operators carry no payload;
/// identifiers, integer literals and string literals do.
#[derive(Debug, Clone, PartialEq, Eq)]
pub enum Token {
    Class,
    Public,
    Static,
    This,
    New,
    Void,
    Main,
    STRING,
    Extends,
    If,
    Else,
    While,
    Return,
    Println,
    True,
    False,
    Length,
    Int,
    Boolean,
    Delimiter,
    OpBrace,
    ClBrace,
    OpBracket,
    ClBracket,
    OpParethesis,
    ClParethesis,
    Comma,
    Dot,
    And,
    Less,
    Add,
    Sub,
    Mul,
    Not,
    Assign,
    Identifier(String),
    Number(i64),
    Text(String),
}

impl Token {
    /// A token of a fixed shape: everything but identifiers and literals.
    pub open spec fn is_fixed(&self) -> bool {
        !(self is Identifier || self is Number || self is Text)
    }

    /// An exact copy of the token.
    pub fn copy(&self) -> (r: Token)
        ensures
            r == *self,
    {
        match self {
            Token::Identifier(s) => Token::Identifier(s.clone()),
            Token::Number(n) => Token::Number(*n),
            Token::Text(s) => Token::Text(s.clone()),
            Token::Class => Token::Class,
            Token::Public => Token::Public,
            Token::Static => Token::Static,
            Token::This => Token::This,
            Token::New => Token::New,
            Token::Void => Token::Void,
            Token::Main => Token::Main,
            Token::STRING => Token::STRING,
            Token::Extends => Token::Extends,
            Token::If => Token::If,
            Token::Else => Token::Else,
            Token::While => Token::While,
            Token::Return => Token::Return,
            Token::Println => Token::Println,
            Token::True => Token::True,
            Token::False => Token::False,
            Token::Length => Token::Length,
            Token::Int => Token::Int,
            Token::Boolean => Token::Boolean,
            Token::Delimiter => Token::Delimiter,
            Token::OpBrace => Token::OpBrace,
            Token::ClBrace => Token::ClBrace,
            Token::OpBracket => Token::OpBracket,
            Token::ClBracket => Token::ClBracket,
            Token::OpParethesis => Token::OpParethesis,
            Token::ClParethesis => Token::ClParethesis,
            Token::Comma => Token::Comma,
            Token::Dot => Token::Dot,
            Token::And => Token::And,
            Token::Less => Token::Less,
            Token::Add => Token::Add,
            Token::Sub => Token::Sub,
            Token::Mul => Token::Mul,
            Token::Not => Token::Not,
            Token::Assign => Token::Assign,
        }
    }

    /// Whether this token equals `fixed`, a token without payload.
    pub fn is(&self, fixed: &Token) -> (r: bool)
        requires
            fixed.is_fixed(),
        ensures
            r == (*self == *fixed),
    {
        match (self, fixed) {
            (Token::Class, Token::Class) => true,
            (Token::Public, Token::Public) => true,
            (Token::Static, Token::Static) => true,
            (Token::This, Token::This) => true,
            (Token::New, Token::New) => true,
            (Token::Void, Token::Void) => true,
            (Token::Main, Token::Main) => true,
            (Token::STRING, Token::STRING) => true,
            (Token::Extends, Token::Extends) => true,
            (Token::If, Token::If) => true,
            (Token::Else, Token::Else) => true,
            (Token::While, Token::While) => true,
            (Token::Return, Token::Return) => true,
            (Token::Println, Token::Println) => true,
            (Token::True, Token::True) => true,
            (Token::False, Token::False) => true,
            (Token::Length, Token::Length) => true,
            (Token::Int, Token::Int) => true,
            (Token::Boolean, Token::Boolean) => true,
            (Token::Delimiter, Token::Delimiter) => true,
            (Token::OpBrace, Token::OpBrace) => true,
            (Token::ClBrace, Token::ClBrace) => true,
            (Token::OpBracket, Token::OpBracket) => true,
            (Token::ClBracket, Token::ClBracket) => true,
            (Token::OpParethesis, Token::OpParethesis) => true,
            (Token::ClParethesis, Token::ClParethesis) => true,
            (Token::Comma, Token::Comma) => true,
            (Token::Dot, Token::Dot) => true,
            (Token::And, Token::And) => true,
            (Token::Less, Token::Less) => true,
            (Token::Add, Token::Add) => true,
            (Token::Sub, Token::Sub) => true,
            (Token::Mul, Token::Mul) => true,
            (Token::Not, Token::Not) => true,
            (Token::Assign, Token::Assign) => true,
            _ => false,
        }
    }
}

} // verus!
