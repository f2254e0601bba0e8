use vstd::prelude::*;
use crate::token::Token;

verus! {

/// How far a production gets on a token sequence from a given position:
/// it matches up to an end position, needs more input, or fails with the
/// message that names what was expected.
pub enum Scan {
    Done(int),
    More,
    Fail(Seq<char>),
}

/// Matches exactly the token `t` at `p`.
pub open spec fn scan_token(toks: Seq<Token>, p: int, t: Token, msg: Seq<char>) -> Scan {
    if p < 0 || p >= toks.len() {
        Scan::More
    } else if toks[p] == t {
        Scan::Done(p + 1)
    } else {
        Scan::Fail(msg)
    }
}

/// Matches the token `t` at `p`, where a production at `p` ended after `p0`.
pub open spec fn then_token(toks: Seq<Token>, p0: int, s: Scan, t: Token, msg: Seq<char>) -> Scan {
    match s {
        Scan::Done(e) => if p0 < e <= toks.len() { scan_token(toks, e, t, msg) } else { Scan::Fail(Seq::empty()) },
        other => other,
    }
}

/// Expression: a chain of `&&` over comparisons.
pub open spec fn scan_expression(toks: Seq<Token>, p: int) -> Scan
    decreases toks.len() - p, 10int,
{
    match scan_less(toks, p) {
        Scan::Done(e) => if p < e <= toks.len() { scan_and_rest(toks, e) } else { Scan::Fail(Seq::empty()) },
        other => other,
    }
}

pub open spec fn scan_and_rest(toks: Seq<Token>, p: int) -> Scan
    decreases toks.len() - p, 9int,
{
    if p < 0 || p >= toks.len() {
        Scan::More
    } else if toks[p] == Token::And {
        match scan_less(toks, p + 1) {
            Scan::Done(e) => if p < e <= toks.len() { scan_and_rest(toks, e) } else { Scan::Fail(Seq::empty()) },
            other => other,
        }
    } else {
        Scan::Done(p)
    }
}

/// An additive expression, then at most one `<` and another.
pub open spec fn scan_less(toks: Seq<Token>, p: int) -> Scan
    decreases toks.len() - p, 8int,
{
    match scan_additive(toks, p) {
        Scan::Done(e) => if p < e <= toks.len() {
            if e >= toks.len() {
                Scan::More
            } else if toks[e] == Token::Less {
                scan_additive(toks, e + 1)
            } else {
                Scan::Done(e)
            }
        } else {
            Scan::Fail(Seq::empty())
        },
        other => other,
    }
}

pub open spec fn scan_additive(toks: Seq<Token>, p: int) -> Scan
    decreases toks.len() - p, 7int,
{
    match scan_term(toks, p) {
        Scan::Done(e) => if p < e <= toks.len() { scan_add_rest(toks, e) } else { Scan::Fail(Seq::empty()) },
        other => other,
    }
}

pub open spec fn scan_add_rest(toks: Seq<Token>, p: int) -> Scan
    decreases toks.len() - p, 6int,
{
    if p < 0 || p >= toks.len() {
        Scan::More
    } else if toks[p] == Token::Add || toks[p] == Token::Sub {
        match scan_term(toks, p + 1) {
            Scan::Done(e) => if p < e <= toks.len() { scan_add_rest(toks, e) } else { Scan::Fail(Seq::empty()) },
            other => other,
        }
    } else {
        Scan::Done(p)
    }
}

pub open spec fn scan_term(toks: Seq<Token>, p: int) -> Scan
    decreases toks.len() - p, 5int,
{
    match scan_unary(toks, p) {
        Scan::Done(e) => if p < e <= toks.len() { scan_mul_rest(toks, e) } else { Scan::Fail(Seq::empty()) },
        other => other,
    }
}

pub open spec fn scan_mul_rest(toks: Seq<Token>, p: int) -> Scan
    decreases toks.len() - p, 4int,
{
    if p < 0 || p >= toks.len() {
        Scan::More
    } else if toks[p] == Token::Mul {
        match scan_unary(toks, p + 1) {
            Scan::Done(e) => if p < e <= toks.len() { scan_mul_rest(toks, e) } else { Scan::Fail(Seq::empty()) },
            other => other,
        }
    } else {
        Scan::Done(p)
    }
}

pub open spec fn scan_unary(toks: Seq<Token>, p: int) -> Scan
    decreases toks.len() - p, 3int,
{
    if 0 <= p < toks.len() && toks[p] == Token::Not {
        scan_unary(toks, p + 1)
    } else {
        scan_postfix(toks, p)
    }
}

pub open spec fn scan_postfix(toks: Seq<Token>, p: int) -> Scan
    decreases toks.len() - p, 2int,
{
    match scan_primary(toks, p) {
        Scan::Done(e) => if p < e <= toks.len() { scan_postfix_rest(toks, e) } else { Scan::Fail(Seq::empty()) },
        other => other,
    }
}

/// The chain of `[ Expression ]`, `. length` and `. Identifier ( arguments )`
/// after a primary expression.
pub open spec fn scan_postfix_rest(toks: Seq<Token>, p: int) -> Scan
    decreases toks.len() - p, 1int,
{
    if p < 0 || p >= toks.len() {
        Scan::More
    } else if toks[p] == Token::OpBracket {
        match then_token(toks, p + 1, scan_expression(toks, p + 1), Token::ClBracket, "']' expected after an array index"@) {
            Scan::Done(e) => if p < e <= toks.len() { scan_postfix_rest(toks, e) } else { Scan::Fail(Seq::empty()) },
            other => other,
        }
    } else if toks[p] == Token::Dot {
        if p + 1 >= toks.len() {
            Scan::More
        } else if toks[p + 1] == Token::Length {
            scan_postfix_rest(toks, p + 2)
        } else if toks[p + 1] is Identifier {
            match scan_arguments(toks, p + 2) {
                Scan::Done(e) => if p < e <= toks.len() { scan_postfix_rest(toks, e) } else { Scan::Fail(Seq::empty()) },
                other => other,
            }
        } else {
            Scan::Fail("'length' or a method name expected after '.'"@)
        }
    } else {
        Scan::Done(p)
    }
}

/// `( )` or `( Expression { , Expression } )`.
pub open spec fn scan_arguments(toks: Seq<Token>, p: int) -> Scan
    decreases toks.len() - p, 0int,
{
    if p < 0 || p >= toks.len() {
        Scan::More
    } else if toks[p] != Token::OpParethesis {
        Scan::Fail("'(' expected before the arguments of a call"@)
    } else if p + 1 >= toks.len() {
        Scan::More
    } else if toks[p + 1] == Token::ClParethesis {
        Scan::Done(p + 2)
    } else {
        scan_argument_from(toks, p + 1)
    }
}

/// An argument at `p` and what follows it up to the closing `)`.
pub open spec fn scan_argument_from(toks: Seq<Token>, p: int) -> Scan
    decreases toks.len() - p, 11int,
{
    match scan_expression(toks, p) {
        Scan::Done(e) => if p < e <= toks.len() { scan_arguments_rest(toks, e) } else { Scan::Fail(Seq::empty()) },
        other => other,
    }
}

/// What follows an argument: `,` and another argument, or the closing `)`.
pub open spec fn scan_arguments_rest(toks: Seq<Token>, p: int) -> Scan
    decreases toks.len() - p, 0int,
{
    if p < 0 || p >= toks.len() {
        Scan::More
    } else if toks[p] == Token::Comma {
        scan_argument_from(toks, p + 1)
    } else if toks[p] == Token::ClParethesis {
        Scan::Done(p + 1)
    } else {
        Scan::Fail("',' or ')' expected in the arguments of a call"@)
    }
}

/// Whether `t` is a one-token primary expression: a literal, a name or `this`.
pub open spec fn is_atom(t: Token) -> bool {
    t is Number || t is True || t is False || t is Identifier || t is This
}

pub open spec fn scan_primary(toks: Seq<Token>, p: int) -> Scan
    decreases toks.len() - p, 1int,
{
    if p < 0 || p >= toks.len() {
        Scan::More
    } else if is_atom(toks[p]) {
        Scan::Done(p + 1)
    } else if toks[p] == Token::New {
        scan_new_newarray(toks, p)
    } else if toks[p] == Token::OpParethesis {
        scan_paren(toks, p)
    } else {
        Scan::Fail("unknown token when expecting a expression"@)
    }
}

/// `( Expression )`.
pub open spec fn scan_paren(toks: Seq<Token>, p: int) -> Scan
    decreases toks.len() - p, 0int,
{
    match scan_token(toks, p, Token::OpParethesis, "'(' expected"@) {
        Scan::Done(q) => if p < q <= toks.len() {
            then_token(toks, q, scan_expression(toks, q), Token::ClParethesis, "')' expected after a parenthesized expression"@)
        } else {
            Scan::Fail(Seq::empty())
        },
        other => other,
    }
}

/// `new int [ Expression ]` or `new Identifier ( )`.
pub open spec fn scan_new_newarray(toks: Seq<Token>, p: int) -> Scan
    decreases toks.len() - p, 0int,
{
    if p < 0 || p >= toks.len() {
        Scan::More
    } else if toks[p] != Token::New {
        Scan::Fail("'new' expected"@)
    } else if p + 1 >= toks.len() {
        Scan::More
    } else if toks[p + 1] == Token::Int {
        scan_newarray(toks, p + 1)
    } else if toks[p + 1] is Identifier {
        scan_new_object(toks, p + 1)
    } else {
        Scan::Fail("unknown token when expecting a new expression"@)
    }
}

/// `int [ Expression ]`.
pub open spec fn scan_newarray(toks: Seq<Token>, p: int) -> Scan
    decreases toks.len() - p, 0int,
{
    if p < 0 || p >= toks.len() {
        Scan::More
    } else if toks[p] != Token::Int {
        Scan::Fail("'int' expected"@)
    } else {
        match scan_token(toks, p + 1, Token::OpBracket, "'[' expected in constructing a integer array"@) {
            Scan::Done(q) => if p < q <= toks.len() {
                then_token(toks, q, scan_expression(toks, q), Token::ClBracket, "']' expected in constructing a integer array"@)
            } else {
                Scan::Fail(Seq::empty())
            },
            other => other,
        }
    }
}

/// `Identifier ( )`.
pub open spec fn scan_new_object(toks: Seq<Token>, p: int) -> Scan {
    if p < 0 || p >= toks.len() {
        Scan::More
    } else if !(toks[p] is Identifier) {
        Scan::Fail("identifier expected"@)
    } else {
        match scan_token(toks, p + 1, Token::OpParethesis, "'(' expected in constructing object"@) {
            Scan::Done(q) => scan_token(toks, q, Token::ClParethesis, "')' expected in constructing object"@),
            other => other,
        }
    }
}

/// A statement, chosen by its first token.
pub open spec fn scan_statement(toks: Seq<Token>, p: int) -> Scan
    decreases toks.len() - p, 2int,
{
    if p < 0 || p >= toks.len() {
        Scan::More
    } else if toks[p] == Token::OpBrace {
        scan_block(toks, p)
    } else if toks[p] == Token::If {
        scan_if(toks, p)
    } else if toks[p] == Token::While {
        scan_while(toks, p)
    } else if toks[p] == Token::Println {
        scan_print(toks, p)
    } else if toks[p] is Identifier {
        scan_assign(toks, p)
    } else {
        Scan::Fail("unknow token when expecting a statement"@)
    }
}

/// `{`, any number of statements, `}`.
pub open spec fn scan_block(toks: Seq<Token>, p: int) -> Scan
    decreases toks.len() - p, 1int,
{
    if p < 0 || p >= toks.len() {
        Scan::More
    } else if toks[p] != Token::OpBrace {
        Scan::Fail("'{' expected at the start of a block"@)
    } else {
        scan_block_rest(toks, p + 1)
    }
}

/// The statements of a block from `p` on, up to and with its `}`.
pub open spec fn scan_block_rest(toks: Seq<Token>, p: int) -> Scan
    decreases toks.len() - p, 3int,
{
    if p < 0 || p >= toks.len() {
        Scan::More
    } else if toks[p] == Token::ClBrace {
        Scan::Done(p + 1)
    } else {
        match scan_statement(toks, p) {
            Scan::Done(e) => if p < e <= toks.len() { scan_block_rest(toks, e) } else { Scan::Fail(Seq::empty()) },
            other => other,
        }
    }
}

/// `if ( Expression ) Statement else Statement`.
pub open spec fn scan_if(toks: Seq<Token>, p: int) -> Scan
    decreases toks.len() - p, 1int,
{
    if p < 0 || p >= toks.len() {
        Scan::More
    } else if toks[p] != Token::If {
        Scan::Fail("'if' expected"@)
    } else {
        match scan_token(toks, p + 1, Token::OpParethesis, "'(' expected after 'if'"@) {
            Scan::Done(b) => match then_token(toks, b, scan_expression(toks, b), Token::ClParethesis, "')' expected after the condition of 'if'"@) {
                Scan::Done(c) => if p < c <= toks.len() {
                    match scan_statement(toks, c) {
                        Scan::Done(d) => if c < d <= toks.len() {
                            match scan_token(toks, d, Token::Else, "'else' expected in an 'if' statement"@) {
                                Scan::Done(e) => scan_statement(toks, e),
                                other => other,
                            }
                        } else {
                            Scan::Fail(Seq::empty())
                        },
                        other => other,
                    }
                } else {
                    Scan::Fail(Seq::empty())
                },
                other => other,
            },
            other => other,
        }
    }
}

/// `while ( Expression ) Statement`.
pub open spec fn scan_while(toks: Seq<Token>, p: int) -> Scan
    decreases toks.len() - p, 1int,
{
    if p < 0 || p >= toks.len() {
        Scan::More
    } else if toks[p] != Token::While {
        Scan::Fail("'while' expected"@)
    } else {
        match scan_token(toks, p + 1, Token::OpParethesis, "'(' expected after 'while'"@) {
            Scan::Done(b) => match then_token(toks, b, scan_expression(toks, b), Token::ClParethesis, "')' expected after the condition of 'while'"@) {
                Scan::Done(c) => if p < c <= toks.len() { scan_statement(toks, c) } else { Scan::Fail(Seq::empty()) },
                other => other,
            },
            other => other,
        }
    }
}

/// `System.out.println ( Expression ) ;`.
pub open spec fn scan_print(toks: Seq<Token>, p: int) -> Scan {
    if p < 0 || p >= toks.len() {
        Scan::More
    } else if toks[p] != Token::Println {
        Scan::Fail("'System.out.println' expected"@)
    } else {
        match scan_token(toks, p + 1, Token::OpParethesis, "expected '(' in System.out.println"@) {
            Scan::Done(b) => match then_token(toks, b, scan_expression(toks, b), Token::ClParethesis, "expected ')' in System.out.println"@) {
                Scan::Done(c) => scan_token(toks, c, Token::Delimiter, "expected ';' after System.out.println"@),
                other => other,
            },
            other => other,
        }
    }
}

/// `Identifier = Expression ;` or `Identifier [ Expression ] = Expression ;`.
pub open spec fn scan_assign(toks: Seq<Token>, p: int) -> Scan {
    if p < 0 || p >= toks.len() {
        Scan::More
    } else if !(toks[p] is Identifier) {
        Scan::Fail("variable name expected in an assignment"@)
    } else if p + 1 >= toks.len() {
        Scan::More
    } else if toks[p + 1] == Token::OpBracket {
        match then_token(toks, p + 2, scan_expression(toks, p + 2), Token::ClBracket, "']' expected after an array index"@) {
            Scan::Done(c) => scan_assign_value(toks, c),
            other => other,
        }
    } else {
        scan_assign_value(toks, p + 1)
    }
}

/// `= Expression ;`, the end of an assignment.
pub open spec fn scan_assign_value(toks: Seq<Token>, p: int) -> Scan {
    match scan_token(toks, p, Token::Assign, "'=' expected in an assignment"@) {
        Scan::Done(a) => then_token(toks, a, scan_expression(toks, a), Token::Delimiter, "';' expected after an assignment"@),
        other => other,
    }
}

/// Matches one identifier at `p`.
pub open spec fn scan_identifier(toks: Seq<Token>, p: int, msg: Seq<char>) -> Scan {
    if p < 0 || p >= toks.len() {
        Scan::More
    } else if toks[p] is Identifier {
        Scan::Done(p + 1)
    } else {
        Scan::Fail(msg)
    }
}

/// `int`, `int [ ]`, `boolean` or a class name.
pub open spec fn scan_type(toks: Seq<Token>, p: int) -> Scan {
    if p < 0 || p >= toks.len() {
        Scan::More
    } else if toks[p] == Token::Boolean || toks[p] is Identifier {
        Scan::Done(p + 1)
    } else if toks[p] != Token::Int {
        Scan::Fail("type expected"@)
    } else if p + 1 >= toks.len() {
        Scan::More
    } else if toks[p + 1] == Token::OpBracket {
        scan_token(toks, p + 2, Token::ClBracket, "']' expected in 'int[]'"@)
    } else {
        Scan::Done(p + 1)
    }
}

/// `Type Identifier`, with `;` after it where `terminated`.
pub open spec fn scan_var_decl(toks: Seq<Token>, p: int, terminated: bool) -> Scan {
    match scan_type(toks, p) {
        Scan::Done(a) => match scan_identifier(toks, a, "variable name expected after its type"@) {
            Scan::Done(b) => if terminated { scan_token(toks, b, Token::Delimiter, "';' expected after a variable declaration"@) } else { Scan::Done(b) },
            other => other,
        },
        other => other,
    }
}

/// Whether a variable declaration starts at `p`: `int`, `boolean`, or two
/// identifiers in a row; `None` where the input ends before this is known.
pub open spec fn var_decl_starts(toks: Seq<Token>, p: int) -> Option<bool> {
    if p < 0 || p >= toks.len() {
        None
    } else if toks[p] == Token::Int || toks[p] == Token::Boolean {
        Some(true)
    } else if toks[p] is Identifier {
        if p + 1 >= toks.len() {
            None
        } else {
            Some(toks[p + 1] is Identifier)
        }
    } else {
        Some(false)
    }
}

/// The parameter list after `(`, with its `)`.
pub open spec fn scan_params(toks: Seq<Token>, p: int) -> Scan {
    if p < 0 || p >= toks.len() {
        Scan::More
    } else if toks[p] == Token::ClParethesis {
        Scan::Done(p + 1)
    } else {
        scan_param_from(toks, p)
    }
}

/// A parameter at `p` and the rest of the list, with its `)`.
pub open spec fn scan_param_from(toks: Seq<Token>, p: int) -> Scan
    decreases toks.len() - p,
{
    match scan_var_decl(toks, p, false) {
        Scan::Done(e) => if p < e < toks.len() {
            if toks[e] == Token::Comma {
                scan_param_from(toks, e + 1)
            } else if toks[e] == Token::ClParethesis {
                Scan::Done(e + 1)
            } else {
                Scan::Fail("',' or ')' expected in the parameters"@)
            }
        } else if e == toks.len() {
            Scan::More
        } else {
            Scan::Fail(Seq::empty())
        },
        other => other,
    }
}

/// Local declarations from `p` on, then the method's statements and end.
pub open spec fn scan_locals(toks: Seq<Token>, p: int) -> Scan
    decreases toks.len() - p,
{
    match var_decl_starts(toks, p) {
        None => Scan::More,
        Some(true) => match scan_var_decl(toks, p, true) {
            Scan::Done(e) => if p < e <= toks.len() { scan_locals(toks, e) } else { Scan::Fail(Seq::empty()) },
            other => other,
        },
        Some(false) => scan_method_body(toks, p),
    }
}

/// Statements from `p` on, then `return Expression ; }`.
pub open spec fn scan_method_body(toks: Seq<Token>, p: int) -> Scan
    decreases toks.len() - p,
{
    if p < 0 || p >= toks.len() {
        Scan::More
    } else if toks[p] == Token::Return {
        match then_token(toks, p + 1, scan_expression(toks, p + 1), Token::Delimiter, "';' expected after the returned expression"@) {
            Scan::Done(f) => scan_token(toks, f, Token::ClBrace, "'}' expected after the return statement"@),
            other => other,
        }
    } else {
        match scan_statement(toks, p) {
            Scan::Done(e) => if p < e <= toks.len() { scan_method_body(toks, e) } else { Scan::Fail(Seq::empty()) },
            other => other,
        }
    }
}

/// `public Type Identifier ( parameters ) { VarDecl* Statement* return Expression ; }`.
pub open spec fn scan_method(toks: Seq<Token>, p: int) -> Scan {
    match scan_token(toks, p, Token::Public, "'public' expected in a method declaration"@) {
        Scan::Done(a) => match scan_type(toks, a) {
            Scan::Done(b) => match scan_identifier(toks, b, "method name expected"@) {
                Scan::Done(c) => match scan_token(toks, c, Token::OpParethesis, "'(' expected after the method name"@) {
                    Scan::Done(d) => match scan_params(toks, d) {
                        Scan::Done(e) => match scan_token(toks, e, Token::OpBrace, "'{' expected before the method body"@) {
                            Scan::Done(f) => scan_locals(toks, f),
                            other => other,
                        },
                        other => other,
                    },
                    other => other,
                },
                other => other,
            },
            other => other,
        },
        other => other,
    }
}

/// `class Identifier [extends Identifier] { VarDecl* MethodDecl* }`.
pub open spec fn scan_class(toks: Seq<Token>, p: int) -> Scan {
    match scan_token(toks, p, Token::Class, "'class' expected"@) {
        Scan::Done(a) => match scan_identifier(toks, a, "expected class name in class declaration"@) {
            Scan::Done(b) => if b >= toks.len() {
                Scan::More
            } else if toks[b] == Token::Extends {
                match scan_identifier(toks, b + 1, "expected superclass name after 'extends'"@) {
                    Scan::Done(c) => match scan_token(toks, c, Token::OpBrace, "expected '{' in class declaration"@) {
                        Scan::Done(d) => scan_fields(toks, d),
                        other => other,
                    },
                    other => other,
                }
            } else {
                match scan_token(toks, b, Token::OpBrace, "expected '{' in class declaration"@) {
                    Scan::Done(d) => scan_fields(toks, d),
                    other => other,
                }
            },
            other => other,
        },
        other => other,
    }
}

/// Field declarations from `p` on, then the methods and the closing `}`.
pub open spec fn scan_fields(toks: Seq<Token>, p: int) -> Scan
    decreases toks.len() - p,
{
    match var_decl_starts(toks, p) {
        None => Scan::More,
        Some(true) => match scan_var_decl(toks, p, true) {
            Scan::Done(e) => if p < e <= toks.len() { scan_fields(toks, e) } else { Scan::Fail(Seq::empty()) },
            other => other,
        },
        Some(false) => scan_methods(toks, p),
    }
}

/// Methods from `p` on, then the closing `}` of the class.
pub open spec fn scan_methods(toks: Seq<Token>, p: int) -> Scan
    decreases toks.len() - p,
{
    if p < 0 || p >= toks.len() {
        Scan::More
    } else if toks[p] == Token::ClBrace {
        Scan::Done(p + 1)
    } else {
        match scan_method(toks, p) {
            Scan::Done(e) => if p < e <= toks.len() { scan_methods(toks, e) } else { Scan::Fail(Seq::empty()) },
            other => other,
        }
    }
}

/// What a failure at the fixed token `i` of the entry class says.
pub open spec fn main_header_message(i: int) -> Seq<char> {
    if i == 0 { "expected '{' in main class declaration"@ }
    else if i == 1 { "expected 'public' in main function declaration"@ }
    else if i == 2 { "expected 'static' in main function declaration"@ }
    else if i == 3 { "expected 'void' in main function declaration"@ }
    else if i == 4 { "expected 'main' in main function declaration"@ }
    else if i == 5 { "expected '(' in main function declaration"@ }
    else if i == 6 { "expected 'String' in main function declaration"@ }
    else if i == 7 { "expected '[' in main function declaration"@ }
    else { "expected ']' in main function declaration"@ }
}

/// The fixed tokens of the entry class from its `{` to `]`, by index.
pub open spec fn main_header_token(i: int) -> Token {
    if i == 0 { Token::OpBrace }
    else if i == 1 { Token::Public }
    else if i == 2 { Token::Static }
    else if i == 3 { Token::Void }
    else if i == 4 { Token::Main }
    else if i == 5 { Token::OpParethesis }
    else if i == 6 { Token::STRING }
    else if i == 7 { Token::OpBracket }
    else { Token::ClBracket }
}

/// The fixed tokens of the entry class from index `i` on at `p`, then the rest.
pub open spec fn scan_main_header(toks: Seq<Token>, p: int, i: int) -> Scan
    decreases 9 - i,
{
    if i >= 9 {
        scan_main_tail(toks, p)
    } else {
        match scan_token(toks, p, main_header_token(i), main_header_message(i)) {
            Scan::Done(q) => scan_main_header(toks, q, i + 1),
            other => other,
        }
    }
}

/// `Identifier ) Block }`, the end of the entry class.
pub open spec fn scan_main_tail(toks: Seq<Token>, p: int) -> Scan {
    match scan_identifier(toks, p, "expected argument name in main function declaration"@) {
        Scan::Done(a) => match scan_token(toks, a, Token::ClParethesis, "expected ')' in main function declaration"@) {
            Scan::Done(b) => match scan_block(toks, b) {
                Scan::Done(c) => scan_token(toks, c, Token::ClBrace, "expected '}' at the end of the main class"@),
                other => other,
            },
            other => other,
        },
        other => other,
    }
}

/// `class Identifier { public static void main ( String [ ] Identifier ) Block }`.
pub open spec fn scan_mainclass(toks: Seq<Token>, p: int) -> Scan {
    match scan_token(toks, p, Token::Class, "expected 'class' at the start of the main class"@) {
        Scan::Done(a) => match scan_identifier(toks, a, "expected class name in main class declaration"@) {
            Scan::Done(b) => scan_main_header(toks, b, 0),
            other => other,
        },
        other => other,
    }
}

/// The entry class, then classes up to the end of the input.
pub open spec fn scan_program(toks: Seq<Token>, p: int) -> Scan {
    match scan_mainclass(toks, p) {
        Scan::Done(e) => if p < e <= toks.len() { scan_classes(toks, e) } else { Scan::Fail(Seq::empty()) },
        other => other,
    }
}

/// Classes from `p` to the end of the input.
pub open spec fn scan_classes(toks: Seq<Token>, p: int) -> Scan
    decreases toks.len() - p,
{
    if p < 0 || p >= toks.len() {
        Scan::Done(p)
    } else {
        match scan_class(toks, p) {
            Scan::Done(e) => if p < e <= toks.len() { scan_classes(toks, e) } else { Scan::Fail(Seq::empty()) },
            other => other,
        }
    }
}

} // verus!
