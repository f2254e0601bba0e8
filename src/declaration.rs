use vstd::prelude::*;
use crate::ast::{ClassDecl, Expression, MethodDecl, Statement, Type, VarDecl};
use crate::buffer::{Step, TokenBuffer};
use crate::grammar::{
    scan_class, scan_fields, scan_locals, scan_method, scan_method_body, scan_methods, scan_param_from,
    scan_params, scan_type, scan_var_decl, var_decl_starts, Scan,
};
use crate::parser::{agrees, error, follows_protocol, next_token, parse_expression, ParsingResult};
use crate::parser::ParsingResult::{Bad, Good, NotComplete};
use crate::statement::parse_statement;
use crate::token::Token;

verus! {

/// Whether `buf` starts with a variable declaration: `int`, `boolean`, or a
/// class name followed by the variable's name. `None` where the input ends
/// before this can be told.
pub fn starts_var_decl(buf: &TokenBuffer) -> (r: Option<bool>)
    requires
        buf.wf(),
    ensures
        r == var_decl_starts(buf.tokens@, buf.pos as int),
{
    match buf.peek() {
        Some(Token::Int) => Some(true),
        Some(Token::Boolean) => Some(true),
        Some(Token::Identifier(_)) => match buf.peek_second() {
            Some(Token::Identifier(_)) => Some(true),
            Some(_) => Some(false),
            None => None,
        },
        Some(_) => Some(false),
        None => None,
    }
}

/// Parses a type: `int`, `int [ ]`, `boolean` or a class name.
pub fn parse_type(buf: &mut TokenBuffer) -> (r: ParsingResult<Type>)
    requires
        old(buf).wf(),
    ensures
        follows_protocol(*old(buf), *final(buf), &r),
        agrees(scan_type(old(buf).tokens@, old(buf).pos as int), &r, final(buf).pos as int),
        next_token(*old(buf)) is None ==> r is NotComplete,
        next_token(*old(buf)) matches Some(t) && !(t is Int || t is Boolean || t is Identifier) ==> r is Bad,
        next_token(*old(buf)) == Some(Token::Boolean) ==> (r matches Good(ty, _) && ty == Type::Boolean),
        next_token(*old(buf)) matches Some(Token::Identifier(n)) ==> (r matches Good(Type::ClassRef(m), _) && m == n),
        r matches Good(t, _) && (t is Integer || t is IntegerArray) ==> next_token(*old(buf)) == Some(Token::Int),
        next_token(*old(buf)) == Some(Token::Int) ==> (r matches Good(t, _) ==> (t is IntegerArray
            <==> old(buf).tokens@[old(buf).pos + 1] == Token::OpBracket)),
{
    let start = buf.pos;
    match buf.expect(&Token::Boolean) {
        Step::Took(_) => {
            let taken = buf.taken_since(start);
            return Good(Type::Boolean, taken);
        },
        Step::Missing => {
            return NotComplete;
        },
        Step::Wrong => {},
    }
    match buf.expect_identifier() {
        Step::Took(name) => {
            let taken = buf.taken_since(start);
            return Good(Type::ClassRef(name), taken);
        },
        _ => {},
    }
    match buf.expect(&Token::Int) {
        Step::Took(_) => {},
        _ => {
            return error("type expected");
        },
    }
    match buf.expect(&Token::OpBracket) {
        Step::Took(_) => {},
        Step::Missing => {
            buf.pos = start;
            return NotComplete;
        },
        Step::Wrong => {
            let taken = buf.taken_since(start);
            return Good(Type::Integer, taken);
        },
    }
    match buf.expect(&Token::ClBracket) {
        Step::Took(_) => {},
        Step::Missing => {
            buf.pos = start;
            return NotComplete;
        },
        Step::Wrong => {
            return error("']' expected in 'int[]'");
        },
    }
    let taken = buf.taken_since(start);
    Good(Type::IntegerArray, taken)
}

/// Parses `Type Identifier`, with `;` after it where `terminated`.
pub fn parse_var_decl(buf: &mut TokenBuffer, terminated: bool) -> (r: ParsingResult<VarDecl>)
    requires
        old(buf).wf(),
    ensures
        follows_protocol(*old(buf), *final(buf), &r),
        r matches Good(v, _) ==> final(buf).tokens@[final(buf).pos - (if terminated { 2int } else { 1int })]
            == Token::Identifier(v.name),
        agrees(scan_var_decl(old(buf).tokens@, old(buf).pos as int, terminated), &r, final(buf).pos as int),
{
    let start = buf.pos;
    let ty = match parse_type(buf) {
        Good(t, _) => t,
        NotComplete => {
            buf.pos = start;
            return NotComplete;
        },
        Bad(m) => {
            return Bad(m);
        },
    };
    let name = match buf.expect_identifier() {
        Step::Took(name) => name,
        Step::Missing => {
            buf.pos = start;
            return NotComplete;
        },
        Step::Wrong => {
            return error("variable name expected after its type");
        },
    };
    if terminated {
        match buf.expect(&Token::Delimiter) {
            Step::Took(_) => {},
            Step::Missing => {
                buf.pos = start;
                return NotComplete;
            },
            Step::Wrong => {
                return error("';' expected after a variable declaration");
            },
        }
    }
    let taken = buf.taken_since(start);
    Good(VarDecl { ty, name }, taken)
}

/// Parses the parameters of a method after its `(`, with the closing `)`.
#[verifier::rlimit(50)]
pub fn parse_params(buf: &mut TokenBuffer) -> (r: ParsingResult<Vec<VarDecl>>)
    requires
        old(buf).wf(),
    ensures
        follows_protocol(*old(buf), *final(buf), &r),
        agrees(scan_params(old(buf).tokens@, old(buf).pos as int), &r, final(buf).pos as int),
{
    let start = buf.pos;
    let ghost toks = buf.tokens@;
    let mut params: Vec<VarDecl> = Vec::new();
    match buf.expect(&Token::ClParethesis) {
        Step::Took(_) => {
            let taken = buf.taken_since(start);
            return Good(params, taken);
        },
        Step::Missing => {
            return NotComplete;
        },
        Step::Wrong => {},
    }
    loop
        invariant_except_break
            buf.wf(),
            buf.tokens@ == toks,
            toks == old(buf).tokens@,
            start == old(buf).pos,
            start <= buf.pos,
            scan_params(toks, start as int) == scan_param_from(toks, buf.pos as int),
        ensures
            buf.wf(),
            buf.tokens@ == toks,
            toks == old(buf).tokens@,
            start == old(buf).pos,
            start < buf.pos < toks.len(),
            toks[buf.pos as int] == Token::ClParethesis ==> scan_params(toks, start as int) == Scan::Done(buf.pos + 1),
            toks[buf.pos as int] != Token::ClParethesis
                ==> scan_params(toks, start as int) == Scan::Fail("',' or ')' expected in the parameters"@),
        decreases buf.tokens@.len() - buf.pos,
    {
        let p = match parse_var_decl(buf, false) {
            Good(v, _) => v,
            NotComplete => {
                buf.pos = start;
                return NotComplete;
            },
            Bad(m) => {
                return Bad(m);
            },
        };
        params.push(p);
        match buf.expect(&Token::Comma) {
            Step::Took(_) => {},
            Step::Missing => {
                buf.pos = start;
                return NotComplete;
            },
            Step::Wrong => {
                break;
            },
        }
    }
    match buf.expect(&Token::ClParethesis) {
        Step::Took(_) => {},
        Step::Missing => {
            buf.pos = start;
            return NotComplete;
        },
        Step::Wrong => {
            return error("',' or ')' expected in the parameters");
        },
    }
    let taken = buf.taken_since(start);
    Good(params, taken)
}

/// Parses a method body after its `{`: local declarations, statements, and
/// `return Expression ; }`.
#[verifier::rlimit(50)]
pub fn parse_method_body(buf: &mut TokenBuffer) -> (r: ParsingResult<(Vec<VarDecl>, Vec<Statement>, Expression)>)
    requires
        old(buf).wf(),
    ensures
        follows_protocol(*old(buf), *final(buf), &r),
        agrees(scan_locals(old(buf).tokens@, old(buf).pos as int), &r, final(buf).pos as int),
{
    let start = buf.pos;
    let ghost toks = buf.tokens@;
    let mut locals: Vec<VarDecl> = Vec::new();
    loop
        invariant_except_break
            buf.wf(),
            buf.tokens@ == toks,
            toks == old(buf).tokens@,
            start == old(buf).pos,
            start <= buf.pos,
            scan_locals(toks, start as int) == scan_locals(toks, buf.pos as int),
        ensures
            buf.wf(),
            buf.tokens@ == toks,
            toks == old(buf).tokens@,
            start == old(buf).pos,
            start <= buf.pos,
            scan_locals(toks, start as int) == scan_method_body(toks, buf.pos as int),
        decreases buf.tokens@.len() - buf.pos,
    {
        match starts_var_decl(buf) {
            Some(true) => {},
            Some(false) => {
                break;
            },
            None => {
                buf.pos = start;
                return NotComplete;
            },
        }
        let v = match parse_var_decl(buf, true) {
            Good(v, _) => v,
            NotComplete => {
                buf.pos = start;
                return NotComplete;
            },
            Bad(m) => {
                return Bad(m);
            },
        };
        locals.push(v);
    }
    let mut body: Vec<Statement> = Vec::new();
    loop
        invariant_except_break
            buf.wf(),
            buf.tokens@ == toks,
            toks == old(buf).tokens@,
            start == old(buf).pos,
            start <= buf.pos,
            scan_locals(toks, start as int) == scan_method_body(toks, buf.pos as int),
        ensures
            buf.wf(),
            buf.tokens@ == toks,
            toks == old(buf).tokens@,
            start == old(buf).pos,
            start < buf.pos,
            toks[buf.pos - 1] == Token::Return,
            scan_locals(toks, start as int) == scan_method_body(toks, buf.pos - 1),
        decreases buf.tokens@.len() - buf.pos,
    {
        match buf.expect(&Token::Return) {
            Step::Took(_) => {
                break;
            },
            Step::Missing => {
                buf.pos = start;
                return NotComplete;
            },
            Step::Wrong => {},
        }
        let st = match parse_statement(buf) {
            Good(v, _) => v,
            NotComplete => {
                buf.pos = start;
                return NotComplete;
            },
            Bad(m) => {
                return Bad(m);
            },
        };
        body.push(st);
    }
    let result = match parse_expression(buf) {
        Good(v, _) => v,
        NotComplete => {
            buf.pos = start;
            return NotComplete;
        },
        Bad(m) => {
            return Bad(m);
        },
    };
    match buf.expect(&Token::Delimiter) {
        Step::Took(_) => {},
        Step::Missing => {
            buf.pos = start;
            return NotComplete;
        },
        Step::Wrong => {
            return error("';' expected after the returned expression");
        },
    }
    match buf.expect(&Token::ClBrace) {
        Step::Took(_) => {},
        Step::Missing => {
            buf.pos = start;
            return NotComplete;
        },
        Step::Wrong => {
            return error("'}' expected after the return statement");
        },
    }
    let taken = buf.taken_since(start);
    Good((locals, body, result), taken)
}

/// Parses `public Type Identifier ( parameters ) { VarDecl* Statement* return Expression ; }`.
#[verifier::rlimit(50)]
pub fn parse_method_decl(buf: &mut TokenBuffer) -> (r: ParsingResult<MethodDecl>)
    requires
        old(buf).wf(),
    ensures
        follows_protocol(*old(buf), *final(buf), &r),
        agrees(scan_method(old(buf).tokens@, old(buf).pos as int), &r, final(buf).pos as int),
        r matches Good(m, _) ==> m.body is StatementList,
{
    let start = buf.pos;
    match buf.expect(&Token::Public) {
        Step::Took(_) => {},
        Step::Missing => {
            return NotComplete;
        },
        Step::Wrong => {
            return error("'public' expected in a method declaration");
        },
    }
    let return_type = match parse_type(buf) {
        Good(v, _) => v,
        NotComplete => {
            buf.pos = start;
            return NotComplete;
        },
        Bad(m) => {
            return Bad(m);
        },
    };
    let name = match buf.expect_identifier() {
        Step::Took(name) => name,
        Step::Missing => {
            buf.pos = start;
            return NotComplete;
        },
        Step::Wrong => {
            return error("method name expected");
        },
    };
    match buf.expect(&Token::OpParethesis) {
        Step::Took(_) => {},
        Step::Missing => {
            buf.pos = start;
            return NotComplete;
        },
        Step::Wrong => {
            return error("'(' expected after the method name");
        },
    }
    let params = match parse_params(buf) {
        Good(v, _) => v,
        NotComplete => {
            buf.pos = start;
            return NotComplete;
        },
        Bad(m) => {
            return Bad(m);
        },
    };
    match buf.expect(&Token::OpBrace) {
        Step::Took(_) => {},
        Step::Missing => {
            buf.pos = start;
            return NotComplete;
        },
        Step::Wrong => {
            return error("'{' expected before the method body");
        },
    }
    let parts = match parse_method_body(buf) {
        Good(v, _) => v,
        NotComplete => {
            buf.pos = start;
            return NotComplete;
        },
        Bad(m) => {
            return Bad(m);
        },
    };
    let (locals, body, result) = parts;
    let taken = buf.taken_since(start);
    let method = MethodDecl {
        name,
        params,
        return_type,
        locals,
        body: Statement::StatementList(body),
        result,
    };
    Good(method, taken)
}

/// Parses `class Identifier [extends Identifier] { VarDecl* MethodDecl* }`.
#[verifier::rlimit(50)]
pub fn parse_class_decl(buf: &mut TokenBuffer) -> (r: ParsingResult<ClassDecl>)
    requires
        old(buf).wf(),
    ensures
        follows_protocol(*old(buf), *final(buf), &r),
        agrees(scan_class(old(buf).tokens@, old(buf).pos as int), &r, final(buf).pos as int),
        r matches Good(c, _) ==> old(buf).pos + 1 < old(buf).tokens@.len()
            && old(buf).tokens@[old(buf).pos as int] == Token::Class
            && old(buf).tokens@[old(buf).pos + 1] == Token::Identifier(c.name)
            && (c.superclass is Some <==> old(buf).tokens@[old(buf).pos + 2] == Token::Extends)
            && (c.superclass matches Some(p) ==> old(buf).tokens@[old(buf).pos + 3] == Token::Identifier(p)),
{
    let start = buf.pos;
    let ghost toks = buf.tokens@;
    match buf.expect(&Token::Class) {
        Step::Took(_) => {},
        Step::Missing => {
            return NotComplete;
        },
        Step::Wrong => {
            return error("'class' expected");
        },
    }
    let name = match buf.expect_identifier() {
        Step::Took(name) => name,
        Step::Missing => {
            buf.pos = start;
            return NotComplete;
        },
        Step::Wrong => {
            return error("expected class name in class declaration");
        },
    };
    let mut superclass: Option<String> = None;
    match buf.expect(&Token::Extends) {
        Step::Took(_) => {
            match buf.expect_identifier() {
                Step::Took(parent) => {
                    superclass = Some(parent);
                },
                Step::Missing => {
                    buf.pos = start;
                    return NotComplete;
                },
                Step::Wrong => {
                    return error("expected superclass name after 'extends'");
                },
            }
        },
        Step::Missing => {
            buf.pos = start;
            return NotComplete;
        },
        Step::Wrong => {},
    }
    match buf.expect(&Token::OpBrace) {
        Step::Took(_) => {},
        Step::Missing => {
            buf.pos = start;
            return NotComplete;
        },
        Step::Wrong => {
            return error("expected '{' in class declaration");
        },
    }
    let mut fields: Vec<VarDecl> = Vec::new();
    loop
        invariant_except_break
            buf.wf(),
            buf.tokens@ == toks,
            toks == old(buf).tokens@,
            start == old(buf).pos,
            start + 2 < buf.pos,
            buf.tokens@[start as int] == Token::Class,
            buf.tokens@[start + 1] == Token::Identifier(name),
            scan_class(toks, start as int) == scan_fields(toks, buf.pos as int),
        ensures
            buf.wf(),
            buf.tokens@ == toks,
            toks == old(buf).tokens@,
            start == old(buf).pos,
            start + 2 < buf.pos,
            buf.tokens@[start as int] == Token::Class,
            buf.tokens@[start + 1] == Token::Identifier(name),
            scan_class(toks, start as int) == scan_methods(toks, buf.pos as int),
        decreases buf.tokens@.len() - buf.pos,
    {
        match starts_var_decl(buf) {
            Some(true) => {},
            Some(false) => {
                break;
            },
            None => {
                buf.pos = start;
                return NotComplete;
            },
        }
        let v = match parse_var_decl(buf, true) {
            Good(v, _) => v,
            NotComplete => {
                buf.pos = start;
                return NotComplete;
            },
            Bad(m) => {
                return Bad(m);
            },
        };
        fields.push(v);
    }
    let mut methods: Vec<MethodDecl> = Vec::new();
    loop
        invariant_except_break
            buf.wf(),
            buf.tokens@ == toks,
            toks == old(buf).tokens@,
            start == old(buf).pos,
            start + 2 < buf.pos,
            buf.tokens@[start as int] == Token::Class,
            buf.tokens@[start + 1] == Token::Identifier(name),
            scan_class(toks, start as int) == scan_methods(toks, buf.pos as int),
        ensures
            buf.wf(),
            buf.tokens@ == toks,
            toks == old(buf).tokens@,
            start == old(buf).pos,
            start + 2 < buf.pos,
            buf.tokens@[start as int] == Token::Class,
            buf.tokens@[start + 1] == Token::Identifier(name),
            scan_class(toks, start as int) == Scan::Done(buf.pos as int),
        decreases buf.tokens@.len() - buf.pos,
    {
        match buf.expect(&Token::ClBrace) {
            Step::Took(_) => {
                break;
            },
            Step::Missing => {
                buf.pos = start;
                return NotComplete;
            },
            Step::Wrong => {},
        }
        let m = match parse_method_decl(buf) {
            Good(m, _) => m,
            NotComplete => {
                buf.pos = start;
                return NotComplete;
            },
            Bad(m) => {
                return Bad(m);
            },
        };
        methods.push(m);
    }
    let taken = buf.taken_since(start);
    Good(ClassDecl { name, superclass, fields, methods }, taken)
}

} // verus!
