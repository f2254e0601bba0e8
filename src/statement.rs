use vstd::prelude::*;
use crate::ast::Statement;
use crate::buffer::{Step, TokenBuffer};
use crate::grammar::{
    scan_assign, scan_block, scan_block_rest, scan_if, scan_print, scan_statement, scan_while, Scan,
};
use crate::parser::{agrees, error, follows_protocol, next_token, parse_expression, ParsingResult};
use crate::parser::ParsingResult::{Bad, Good, NotComplete};
use crate::token::Token;
use crate::tree::{shape, tree_expression};
use crate::stmt_tree::{block_items, stmt_shape, stmt_shapes, tree_statement};

verus! {

/// Parses one statement, chosen by its first token: `{` a block, `if`,
/// `while`, the print keyword, or an identifier for an assignment.
#[verifier::rlimit(50)]
pub fn parse_statement(buf: &mut TokenBuffer) -> (r: ParsingResult<Statement>)
    requires
        old(buf).wf(),
    ensures
        follows_protocol(*old(buf), *final(buf), &r),
        r matches Good(st, _) ==> stmt_shape(st) == tree_statement(old(buf).tokens@, old(buf).pos as int),
        agrees(scan_statement(old(buf).tokens@, old(buf).pos as int), &r, final(buf).pos as int),
        next_token(*old(buf)) is None ==> r is NotComplete,
        next_token(*old(buf)) matches Some(t) && !(t is OpBrace || t is If || t is While
            || t is Println || t is Identifier) ==> r is Bad,
        r matches Good(s, _) ==> (next_token(*old(buf)) == Some(Token::OpBrace) <==> s is StatementList),
        r matches Good(s, _) ==> (next_token(*old(buf)) == Some(Token::If) <==> s is IfStatement),
        r matches Good(s, _) ==> (next_token(*old(buf)) == Some(Token::While) <==> s is WhileStatement),
        r matches Good(s, _) ==> (next_token(*old(buf)) == Some(Token::Println) <==> s is PrintlnStatement),
    decreases old(buf).tokens@.len() - old(buf).pos, 1int,
{
    match buf.peek() {
        Some(Token::OpBrace) => parse_statement_list(buf),
        Some(Token::If) => parse_if_statement(buf),
        Some(Token::While) => parse_while_statement(buf),
        Some(Token::Println) => parse_println_statement(buf),
        Some(Token::Identifier(_)) => parse_assign_statement(buf),
        None => NotComplete,
        _ => error("unknow token when expecting a statement"),
    }
}

/// Parses a block: `{`, any number of statements, `}`.
#[verifier::rlimit(50)]
pub fn parse_statement_list(buf: &mut TokenBuffer) -> (r: ParsingResult<Statement>)
    requires
        old(buf).wf(),
    ensures
        follows_protocol(*old(buf), *final(buf), &r),
        r matches Good(st, _) ==> stmt_shape(st) == tree_statement(old(buf).tokens@, old(buf).pos as int),
        agrees(scan_block(old(buf).tokens@, old(buf).pos as int), &r, final(buf).pos as int),
        r matches Good(s, _) ==> s is StatementList,
    decreases old(buf).tokens@.len() - old(buf).pos, 0int,
{
    let start = buf.pos;
    let ghost toks = buf.tokens@;
    match buf.expect(&Token::OpBrace) {
        Step::Took(_) => {},
        Step::Missing => {
            return NotComplete;
        },
        Step::Wrong => {
            return error("'{' expected at the start of a block");
        },
    }
    let mut list: Vec<Statement> = Vec::new();
    loop
        invariant_except_break
            buf.wf(),
            buf.tokens@ == toks,
            toks == old(buf).tokens@,
            start == old(buf).pos,
            start < buf.pos,
            scan_block(toks, start as int) == scan_block_rest(toks, buf.pos as int),
            block_items(toks, start + 1) == stmt_shapes(list@) + block_items(toks, buf.pos as int),
        ensures
            buf.wf(),
            buf.tokens@ == toks,
            toks == old(buf).tokens@,
            start == old(buf).pos,
            start < buf.pos,
            scan_block(toks, start as int) == Scan::Done(buf.pos as int),
            block_items(toks, start + 1) == stmt_shapes(list@),
        decreases buf.tokens@.len() - buf.pos,
    {
        match buf.expect(&Token::ClBrace) {
            Step::Took(_) => {
                break;
            },
            Step::Missing => {
                buf.pos = start;
                return NotComplete;
            },
            Step::Wrong => {},
        }
        let ghost q = buf.pos as int;
        let s = match parse_statement(buf) {
            Good(s, _) => s,
            NotComplete => {
                buf.pos = start;
                return NotComplete;
            },
            Bad(m) => {
                return Bad(m);
            },
        };
        let ghost before = list@;
        list.push(s);
        assert(list@.subrange(0, list@.len() - 1) =~= before);
        assert(stmt_shapes(list@) == stmt_shapes(before).push(stmt_shape(list@[list@.len() - 1])));
        assert(block_items(toks, q) == seq![tree_statement(toks, q)] + block_items(toks, buf.pos as int));
        assert(stmt_shapes(list@) + block_items(toks, buf.pos as int) =~= stmt_shapes(before)
            + (seq![tree_statement(toks, q)] + block_items(toks, buf.pos as int)));
    }
    let taken = buf.taken_since(start);
    Good(Statement::StatementList(list), taken)
}

/// Parses `if ( Expression ) Statement else Statement`.
#[verifier::rlimit(100)]
pub fn parse_if_statement(buf: &mut TokenBuffer) -> (r: ParsingResult<Statement>)
    requires
        old(buf).wf(),
    ensures
        follows_protocol(*old(buf), *final(buf), &r),
        r matches Good(st, _) ==> stmt_shape(st) == tree_statement(old(buf).tokens@, old(buf).pos as int),
        r matches Good(Statement::IfStatement(c, _, _), _) ==> shape(*c) == tree_expression(old(buf).tokens@, old(buf).pos + 2),
        agrees(scan_if(old(buf).tokens@, old(buf).pos as int), &r, final(buf).pos as int),
        r matches Good(s, _) ==> s is IfStatement,
    decreases old(buf).tokens@.len() - old(buf).pos, 0int,
{
    let start = buf.pos;
    match buf.expect(&Token::If) {
        Step::Took(_) => {},
        Step::Missing => {
            return NotComplete;
        },
        Step::Wrong => {
            return error("'if' expected");
        },
    }
    match buf.expect(&Token::OpParethesis) {
        Step::Took(_) => {},
        Step::Missing => {
            buf.pos = start;
            return NotComplete;
        },
        Step::Wrong => {
            return error("'(' expected after 'if'");
        },
    }
    let cond = match parse_expression(buf) {
        Good(e, _) => e,
        NotComplete => {
            buf.pos = start;
            return NotComplete;
        },
        Bad(m) => {
            return Bad(m);
        },
    };
    match buf.expect(&Token::ClParethesis) {
        Step::Took(_) => {},
        Step::Missing => {
            buf.pos = start;
            return NotComplete;
        },
        Step::Wrong => {
            return error("')' expected after the condition of 'if'");
        },
    }
    let then_branch = match parse_statement(buf) {
        Good(s, _) => s,
        NotComplete => {
            buf.pos = start;
            return NotComplete;
        },
        Bad(m) => {
            return Bad(m);
        },
    };
    match buf.expect(&Token::Else) {
        Step::Took(_) => {},
        Step::Missing => {
            buf.pos = start;
            return NotComplete;
        },
        Step::Wrong => {
            return error("'else' expected in an 'if' statement");
        },
    }
    let else_branch = match parse_statement(buf) {
        Good(s, _) => s,
        NotComplete => {
            buf.pos = start;
            return NotComplete;
        },
        Bad(m) => {
            return Bad(m);
        },
    };
    let taken = buf.taken_since(start);
    Good(Statement::IfStatement(Box::new(cond), Box::new(then_branch), Box::new(else_branch)), taken)
}

/// Parses `while ( Expression ) Statement`.
#[verifier::rlimit(50)]
pub fn parse_while_statement(buf: &mut TokenBuffer) -> (r: ParsingResult<Statement>)
    requires
        old(buf).wf(),
    ensures
        follows_protocol(*old(buf), *final(buf), &r),
        r matches Good(st, _) ==> stmt_shape(st) == tree_statement(old(buf).tokens@, old(buf).pos as int),
        r matches Good(Statement::WhileStatement(c, _), _) ==> shape(*c) == tree_expression(old(buf).tokens@, old(buf).pos + 2),
        agrees(scan_while(old(buf).tokens@, old(buf).pos as int), &r, final(buf).pos as int),
        r matches Good(s, _) ==> s is WhileStatement,
    decreases old(buf).tokens@.len() - old(buf).pos, 0int,
{
    let start = buf.pos;
    match buf.expect(&Token::While) {
        Step::Took(_) => {},
        Step::Missing => {
            return NotComplete;
        },
        Step::Wrong => {
            return error("'while' expected");
        },
    }
    match buf.expect(&Token::OpParethesis) {
        Step::Took(_) => {},
        Step::Missing => {
            buf.pos = start;
            return NotComplete;
        },
        Step::Wrong => {
            return error("'(' expected after 'while'");
        },
    }
    let cond = match parse_expression(buf) {
        Good(e, _) => e,
        NotComplete => {
            buf.pos = start;
            return NotComplete;
        },
        Bad(m) => {
            return Bad(m);
        },
    };
    match buf.expect(&Token::ClParethesis) {
        Step::Took(_) => {},
        Step::Missing => {
            buf.pos = start;
            return NotComplete;
        },
        Step::Wrong => {
            return error("')' expected after the condition of 'while'");
        },
    }
    let body = match parse_statement(buf) {
        Good(s, _) => s,
        NotComplete => {
            buf.pos = start;
            return NotComplete;
        },
        Bad(m) => {
            return Bad(m);
        },
    };
    let taken = buf.taken_since(start);
    Good(Statement::WhileStatement(Box::new(cond), Box::new(body)), taken)
}

/// Parses `System.out.println ( Expression ) ;`.
#[verifier::rlimit(50)]
pub fn parse_println_statement(buf: &mut TokenBuffer) -> (r: ParsingResult<Statement>)
    requires
        old(buf).wf(),
    ensures
        follows_protocol(*old(buf), *final(buf), &r),
        r matches Good(st, _) ==> stmt_shape(st) == tree_statement(old(buf).tokens@, old(buf).pos as int),
        r matches Good(Statement::PrintlnStatement(e), _) ==> shape(*e) == tree_expression(old(buf).tokens@, old(buf).pos + 2),
        agrees(scan_print(old(buf).tokens@, old(buf).pos as int), &r, final(buf).pos as int),
        r matches Good(s, _) ==> s is PrintlnStatement,
{
    let start = buf.pos;
    match buf.expect(&Token::Println) {
        Step::Took(_) => {},
        Step::Missing => {
            return NotComplete;
        },
        Step::Wrong => {
            return error("'System.out.println' expected");
        },
    }
    match buf.expect(&Token::OpParethesis) {
        Step::Took(_) => {},
        Step::Missing => {
            buf.pos = start;
            return NotComplete;
        },
        Step::Wrong => {
            return error("expected '(' in System.out.println");
        },
    }
    let expr = match parse_expression(buf) {
        Good(e, _) => e,
        NotComplete => {
            buf.pos = start;
            return NotComplete;
        },
        Bad(m) => {
            return Bad(m);
        },
    };
    match buf.expect(&Token::ClParethesis) {
        Step::Took(_) => {},
        Step::Missing => {
            buf.pos = start;
            return NotComplete;
        },
        Step::Wrong => {
            return error("expected ')' in System.out.println");
        },
    }
    match buf.expect(&Token::Delimiter) {
        Step::Took(_) => {},
        Step::Missing => {
            buf.pos = start;
            return NotComplete;
        },
        Step::Wrong => {
            return error("expected ';' after System.out.println");
        },
    }
    let taken = buf.taken_since(start);
    Good(Statement::PrintlnStatement(Box::new(expr)), taken)
}

/// Parses `Identifier = Expression ;` or `Identifier [ Expression ] = Expression ;`.
#[verifier::rlimit(100)]
pub fn parse_assign_statement(buf: &mut TokenBuffer) -> (r: ParsingResult<Statement>)
    requires
        old(buf).wf(),
    ensures
        follows_protocol(*old(buf), *final(buf), &r),
        r matches Good(st, _) ==> stmt_shape(st) == tree_statement(old(buf).tokens@, old(buf).pos as int),
        r matches Good(Statement::AssignStatement(_, v), _) ==> shape(*v) == tree_expression(old(buf).tokens@, old(buf).pos + 2),
        r matches Good(Statement::ArrayAssignStatement(_, i, _), _) ==> shape(*i) == tree_expression(old(buf).tokens@, old(buf).pos + 2),
        agrees(scan_assign(old(buf).tokens@, old(buf).pos as int), &r, final(buf).pos as int),
        r matches Good(Statement::AssignStatement(n, _), _) ==> next_token(*old(buf)) == Some(Token::Identifier(n)),
        r matches Good(Statement::ArrayAssignStatement(n, _, _), _) ==> next_token(*old(buf)) == Some(Token::Identifier(n)),
        r matches Good(s, _) ==> s is AssignStatement || s is ArrayAssignStatement,
{
    let start = buf.pos;
    let name = match buf.expect_identifier() {
        Step::Took(name) => name,
        Step::Missing => {
            return NotComplete;
        },
        Step::Wrong => {
            return error("variable name expected in an assignment");
        },
    };
    let mut index: Option<crate::ast::Expression> = None;
    match buf.expect(&Token::OpBracket) {
        Step::Took(_) => {
            let i = match parse_expression(buf) {
                Good(e, _) => e,
                NotComplete => {
                    buf.pos = start;
                    return NotComplete;
                },
                Bad(m) => {
                    return Bad(m);
                },
            };
            match buf.expect(&Token::ClBracket) {
                Step::Took(_) => {},
                Step::Missing => {
                    buf.pos = start;
                    return NotComplete;
                },
                Step::Wrong => {
                    return error("']' expected after an array index");
                },
            }
            index = Some(i);
        },
        Step::Missing => {
            buf.pos = start;
            return NotComplete;
        },
        Step::Wrong => {},
    }
    match buf.expect(&Token::Assign) {
        Step::Took(_) => {},
        Step::Missing => {
            buf.pos = start;
            return NotComplete;
        },
        Step::Wrong => {
            return error("'=' expected in an assignment");
        },
    }
    let value = match parse_expression(buf) {
        Good(e, _) => e,
        NotComplete => {
            buf.pos = start;
            return NotComplete;
        },
        Bad(m) => {
            return Bad(m);
        },
    };
    match buf.expect(&Token::Delimiter) {
        Step::Took(_) => {},
        Step::Missing => {
            buf.pos = start;
            return NotComplete;
        },
        Step::Wrong => {
            return error("';' expected after an assignment");
        },
    }
    let taken = buf.taken_since(start);
    match index {
        Some(i) => Good(Statement::ArrayAssignStatement(name, Box::new(i), Box::new(value)), taken),
        None => Good(Statement::AssignStatement(name, Box::new(value)), taken),
    }
}

} // verus!
