use vstd::prelude::*;
use crate::ast::{ASTNode, BinaryOp, ClassDecl, Expression, MainClass, Program};
use crate::declaration::parse_class_decl;
use crate::statement::parse_statement_list;
use crate::buffer::{Step, TokenBuffer};
use crate::grammar::{
    scan_additive, scan_and_rest, scan_add_rest, scan_argument_from, scan_arguments, scan_arguments_rest, scan_expression,
    scan_less, scan_mul_rest, scan_new_newarray, scan_new_object, scan_newarray, scan_paren,
    scan_postfix, scan_postfix_rest, scan_primary, scan_term, scan_unary, Scan, scan_mainclass,
    scan_main_header, main_header_message, main_header_token, scan_program, scan_classes,
};
use crate::token::Token;
use crate::stmt_tree::{stmt_shape, tree_statement};
use crate::tree::{
    ExprV,
    add_tree, and_tree, mul_tree, shapes, tree_arguments, tree_arguments_from, postfix_tree, shape, tree_additive, tree_expression, tree_less,
    tree_new_newarray, tree_newarray, tree_postfix, tree_primary, tree_term, tree_unary,
};
use self::ParsingResult::{Bad, Good, NotComplete};

verus! {

/// The outcome of a production.
pub enum ParsingResult<T> {
    /// The production matched: its value and exactly the tokens it took.
    Good(T, Vec<Token>),
    /// The input ended before the production could decide; the buffer is as
    /// it was before the call.
    NotComplete,
    /// The tokens present are wrong; the message says what was expected.
    Bad(String),
}

/// The protocol every production keeps, from the buffer `before` the call to
/// the buffer `after` it: the tokens are never changed; a success advances
/// the cursor over exactly the tokens it returns, and at least one; an
/// incomplete outcome leaves the cursor where it was; a failure is only ever
/// raised at a token that is present, never at the end of
/// the input.
pub open spec fn follows_protocol<T>(before: TokenBuffer, after: TokenBuffer, r: &ParsingResult<T>) -> bool {
    &&& after.tokens@ == before.tokens@
    &&& after.wf()
    &&& match r {
        Good(_, taken) => before.pos < after.pos
            && taken@ == before.tokens@.subrange(before.pos as int, after.pos as int),
        NotComplete => after.pos == before.pos,
        Bad(_) => after.pos < after.tokens@.len(),
    }
}

/// An incomplete outcome undoes everything: the buffer left behind holds the
/// same tokens, with the same ones still to take, as before the call.
pub proof fn lemma_incomplete_keeps_buffer<T>(before: TokenBuffer, after: TokenBuffer, r: ParsingResult<T>)
    requires
        before.wf(),
        follows_protocol(before, after, &r),
        r is NotComplete,
    ensures
        after.tokens@ == before.tokens@,
        after.rest() == before.rest(),
{
}

/// Resuming after an incomplete outcome: the buffer left behind, once `more`
/// tokens are appended to it, is the buffer a single attempt over the longer
/// input starts from, with the cursor where the first attempt started.
pub proof fn lemma_retry_starts_afresh<T>(
    before: TokenBuffer,
    after: TokenBuffer,
    r: ParsingResult<T>,
    more: Seq<Token>,
)
    requires
        before.wf(),
        follows_protocol(before, after, &r),
        r is NotComplete,
    ensures
        after.pos == before.pos,
        after.tokens@ + more == before.tokens@ + more,
        (after.tokens@ + more).subrange(after.pos as int, (after.tokens@ + more).len() as int)
            == before.rest() + more,
{
    assert((before.tokens@ + more).subrange(before.pos as int, (before.tokens@ + more).len() as int)
        =~= before.rest() + more);
}

/// `r`, with the cursor left at `end`, is the outcome that `s` describes.
pub open spec fn agrees<T>(s: Scan, r: &ParsingResult<T>, end: int) -> bool {
    match r {
        Good(_, _) => s == Scan::Done(end),
        NotComplete => s is More,
        Bad(m) => s == Scan::Fail(m@),
    }
}

/// The outcome of a production is a function of the tokens and the cursor:
/// two runs that each agree with the grammar on the same position (as every
/// production's contract states) both succeed with the same extent, both need
/// more input, or both fail.
pub proof fn lemma_outcome_is_determined<T>(
    s: Scan,
    first: ParsingResult<T>,
    first_end: int,
    second: ParsingResult<T>,
    second_end: int,
)
    requires
        agrees(s, &first, first_end),
        agrees(s, &second, second_end),
    ensures
        first is Good <==> second is Good,
        first is NotComplete <==> second is NotComplete,
        first is Bad <==> second is Bad,
        first is Good ==> first_end == second_end,
{
}

/// The next token of `buf`, if there is one.
pub open spec fn next_token(buf: TokenBuffer) -> Option<Token> {
    if buf.pos < buf.tokens@.len() {
        Some(buf.tokens@[buf.pos as int])
    } else {
        None
    }
}

/// A failure with `message`.
pub fn error<T>(message: &str) -> (r: ParsingResult<T>)
    ensures
        r matches Bad(m) && m@ == message@,
{
    Bad(message.to_string())
}

/// Parses an integer literal.
pub fn parse_literal_expression(buf: &mut TokenBuffer) -> (r: ParsingResult<Expression>)
    requires
        old(buf).wf(),
    ensures
        follows_protocol(*old(buf), *final(buf), &r),
        r is Good ==> final(buf).pos == old(buf).pos + 1,
        next_token(*old(buf)) is None ==> r is NotComplete,
        next_token(*old(buf)) matches Some(Token::Number(v))
            ==> (r matches Good(Expression::ConstantInteger(w), _) && w == v),
        next_token(*old(buf)) matches Some(t) && !(t is Number) ==> (r matches Bad(m) && m@ == "literal expected"@),
{
    let start = buf.pos;
    if buf.pos == buf.tokens.len() {
        return NotComplete;
    }
    match &buf.tokens[buf.pos] {
        Token::Number(v) => {
            let v = *v;
            buf.pos = buf.pos + 1;
            let taken = buf.taken_since(start);
            Good(Expression::ConstantInteger(v), taken)
        },
        _ => error("literal expected"),
    }
}


/// Parses `true`.
pub fn parse_true_expression(buf: &mut TokenBuffer) -> (r: ParsingResult<Expression>)
    requires
        old(buf).wf(),
    ensures
        follows_protocol(*old(buf), *final(buf), &r),
        r is Good ==> final(buf).pos == old(buf).pos + 1,
        next_token(*old(buf)) is None ==> r is NotComplete,
        next_token(*old(buf)) == Some(Token::True) ==> (r matches Good(e, _) && e == Expression::ConstantBoolean(true)),
        next_token(*old(buf)) matches Some(t) && t != Token::True ==> (r matches Bad(m) && m@ == "'true' expected"@),
{
    let start = buf.pos;
    match buf.expect(&Token::True) {
        Step::Took(_) => {},
        Step::Missing => {
            return NotComplete;
        },
        Step::Wrong => {
            return error("'true' expected");
        },
    }
    let taken = buf.taken_since(start);
    Good(Expression::ConstantBoolean(true), taken)
}

/// Parses `false`.
pub fn parse_false_expression(buf: &mut TokenBuffer) -> (r: ParsingResult<Expression>)
    requires
        old(buf).wf(),
    ensures
        follows_protocol(*old(buf), *final(buf), &r),
        r is Good ==> final(buf).pos == old(buf).pos + 1,
        next_token(*old(buf)) is None ==> r is NotComplete,
        next_token(*old(buf)) == Some(Token::False) ==> (r matches Good(e, _) && e == Expression::ConstantBoolean(false)),
        next_token(*old(buf)) matches Some(t) && t != Token::False ==> (r matches Bad(m) && m@ == "'false' expected"@),
{
    let start = buf.pos;
    match buf.expect(&Token::False) {
        Step::Took(_) => {},
        Step::Missing => {
            return NotComplete;
        },
        Step::Wrong => {
            return error("'false' expected");
        },
    }
    let taken = buf.taken_since(start);
    Good(Expression::ConstantBoolean(false), taken)
}

/// Parses `this`.
pub fn parse_this_expression(buf: &mut TokenBuffer) -> (r: ParsingResult<Expression>)
    requires
        old(buf).wf(),
    ensures
        follows_protocol(*old(buf), *final(buf), &r),
        r is Good ==> final(buf).pos == old(buf).pos + 1,
        next_token(*old(buf)) is None ==> r is NotComplete,
        next_token(*old(buf)) == Some(Token::This) ==> (r matches Good(e, _) && e == Expression::ThisExpression),
        next_token(*old(buf)) matches Some(t) && t != Token::This ==> (r matches Bad(m) && m@ == "'this' expected"@),
{
    let start = buf.pos;
    match buf.expect(&Token::This) {
        Step::Took(_) => {},
        Step::Missing => {
            return NotComplete;
        },
        Step::Wrong => {
            return error("'this' expected");
        },
    }
    let taken = buf.taken_since(start);
    Good(Expression::ThisExpression, taken)
}

/// Parses a variable name used as an expression.
pub fn parse_identifier_expression(buf: &mut TokenBuffer) -> (r: ParsingResult<Expression>)
    requires
        old(buf).wf(),
    ensures
        follows_protocol(*old(buf), *final(buf), &r),
        r is Good ==> final(buf).pos == old(buf).pos + 1,
        next_token(*old(buf)) is None ==> r is NotComplete,
        next_token(*old(buf)) matches Some(Token::Identifier(n))
            ==> (r matches Good(Expression::Identifier(m), _) && m == n),
        next_token(*old(buf)) matches Some(t) && !(t is Identifier) ==> (r matches Bad(m) && m@ == "identifier expected"@),
{
    let start = buf.pos;
    let name = match buf.expect_identifier() {
        Step::Took(name) => name,
        Step::Missing => {
            return NotComplete;
        },
        Step::Wrong => {
            return error("identifier expected");
        },
    };
    let taken = buf.taken_since(start);
    Good(Expression::Identifier(name), taken)
}

/// Parses `Identifier ( )`, what follows `new` in an object creation.
pub fn parse_new_expression(buf: &mut TokenBuffer) -> (r: ParsingResult<Expression>)
    requires
        old(buf).wf(),
    ensures
        follows_protocol(*old(buf), *final(buf), &r),
        agrees(scan_new_object(old(buf).tokens@, old(buf).pos as int), &r, final(buf).pos as int),
        r matches Good(Expression::NewExpression(n), _) ==> next_token(*old(buf)) == Some(Token::Identifier(n)),
        r matches Good(e, _) ==> e is NewExpression,
{
    let start = buf.pos;
    let name = match buf.expect_identifier() {
        Step::Took(name) => name,
        Step::Missing => {
            return NotComplete;
        },
        Step::Wrong => {
            return error("identifier expected");
        },
    };
    match buf.expect(&Token::OpParethesis) {
        Step::Took(_) => {},
        Step::Missing => {
            buf.pos = start;
            return NotComplete;
        },
        Step::Wrong => {
            return error("'(' expected in constructing object");
        },
    }
    match buf.expect(&Token::ClParethesis) {
        Step::Took(_) => {},
        Step::Missing => {
            buf.pos = start;
            return NotComplete;
        },
        Step::Wrong => {
            return error("')' expected in constructing object");
        },
    }
    let taken = buf.taken_since(start);
    Good(Expression::NewExpression(name), taken)
}

/// Parses `int [ Expression ]`, what follows `new` in an array creation.
#[verifier::rlimit(50)]
pub fn parse_newarray_expression(buf: &mut TokenBuffer) -> (r: ParsingResult<Expression>)
    requires
        old(buf).wf(),
    ensures
        follows_protocol(*old(buf), *final(buf), &r),
        r matches Good(e, _) ==> shape(e) == tree_newarray(old(buf).tokens@, old(buf).pos as int),
        agrees(scan_newarray(old(buf).tokens@, old(buf).pos as int), &r, final(buf).pos as int),
        r matches Good(e, _) ==> e is NewArrayExpression,
    decreases old(buf).tokens@.len() - old(buf).pos, 0int,
{
    let start = buf.pos;
    match buf.expect(&Token::Int) {
        Step::Took(_) => {},
        Step::Missing => {
            return NotComplete;
        },
        Step::Wrong => {
            return error("'int' expected");
        },
    }
    match buf.expect(&Token::OpBracket) {
        Step::Took(_) => {},
        Step::Missing => {
            buf.pos = start;
            return NotComplete;
        },
        Step::Wrong => {
            return error("'[' expected in constructing a integer array");
        },
    }
    let size = match parse_expression(buf) {
        Good(e, _) => e,
        NotComplete => {
            buf.pos = start;
            return NotComplete;
        },
        Bad(m) => {
            return Bad(m);
        },
    };
    match buf.expect(&Token::ClBracket) {
        Step::Took(_) => {},
        Step::Missing => {
            buf.pos = start;
            return NotComplete;
        },
        Step::Wrong => {
            return error("']' expected in constructing a integer array");
        },
    }
    let taken = buf.taken_since(start);
    Good(Expression::NewArrayExpression(Box::new(size)), taken)
}

/// Parses `new int [ Expression ]` or `new Identifier ( )`.
#[verifier::rlimit(50)]
pub fn parse_new_newarray_expression(buf: &mut TokenBuffer) -> (r: ParsingResult<Expression>)
    requires
        old(buf).wf(),
    ensures
        follows_protocol(*old(buf), *final(buf), &r),
        r matches Good(e, _) ==> shape(e) == tree_new_newarray(old(buf).tokens@, old(buf).pos as int),
        agrees(scan_new_newarray(old(buf).tokens@, old(buf).pos as int), &r, final(buf).pos as int),
        r matches Good(e, _) ==> e is NewArrayExpression || e is NewExpression,
    decreases old(buf).tokens@.len() - old(buf).pos, 1int,
{
    let start = buf.pos;
    match buf.expect(&Token::New) {
        Step::Took(_) => {},
        Step::Missing => {
            return NotComplete;
        },
        Step::Wrong => {
            return error("'new' expected");
        },
    }
    let result = match buf.peek() {
        Some(Token::Int) => parse_newarray_expression(buf),
        Some(Token::Identifier(_)) => parse_new_expression(buf),
        None => {
            buf.pos = start;
            return NotComplete;
        },
        _ => {
            return error("unknown token when expecting a new expression");
        },
    };
    match result {
        Good(e, _) => {
            let taken = buf.taken_since(start);
            Good(e, taken)
        },
        NotComplete => {
            buf.pos = start;
            NotComplete
        },
        Bad(m) => Bad(m),
    }
}

/// Parses `( Expression )`.
#[verifier::rlimit(50)]
pub fn parse_paren_expression(buf: &mut TokenBuffer) -> (r: ParsingResult<Expression>)
    requires
        old(buf).wf(),
    ensures
        follows_protocol(*old(buf), *final(buf), &r),
        r matches Good(e, _) ==> shape(e) == tree_expression(old(buf).tokens@, old(buf).pos + 1),
        agrees(scan_paren(old(buf).tokens@, old(buf).pos as int), &r, final(buf).pos as int),
    decreases old(buf).tokens@.len() - old(buf).pos, 1int,
{
    let start = buf.pos;
    match buf.expect(&Token::OpParethesis) {
        Step::Took(_) => {},
        Step::Missing => {
            return NotComplete;
        },
        Step::Wrong => {
            return error("'(' expected");
        },
    }
    let inner = match parse_expression(buf) {
        Good(e, _) => e,
        NotComplete => {
            buf.pos = start;
            return NotComplete;
        },
        Bad(m) => {
            return Bad(m);
        },
    };
    match buf.expect(&Token::ClParethesis) {
        Step::Took(_) => {},
        Step::Missing => {
            buf.pos = start;
            return NotComplete;
        },
        Step::Wrong => {
            return error("')' expected after a parenthesized expression");
        },
    }
    let taken = buf.taken_since(start);
    Good(inner, taken)
}

/// Parses a primary expression, chosen by its first token.
#[verifier::rlimit(50)]
pub fn parse_primary_expression(buf: &mut TokenBuffer) -> (r: ParsingResult<Expression>)
    requires
        old(buf).wf(),
    ensures
        follows_protocol(*old(buf), *final(buf), &r),
        r matches Good(e, _) ==> shape(e) == tree_primary(old(buf).tokens@, old(buf).pos as int),
        agrees(scan_primary(old(buf).tokens@, old(buf).pos as int), &r, final(buf).pos as int),
        next_token(*old(buf)) is None ==> r is NotComplete,
        next_token(*old(buf)) matches Some(t) && !(t is Number || t is True || t is False
            || t is Identifier || t is This || t is New || t is OpParethesis) ==> r is Bad,
    decreases old(buf).tokens@.len() - old(buf).pos, 2int,
{
    match buf.peek() {
        Some(Token::Number(_)) => parse_literal_expression(buf),
        Some(Token::True) => parse_true_expression(buf),
        Some(Token::False) => parse_false_expression(buf),
        Some(Token::Identifier(_)) => parse_identifier_expression(buf),
        Some(Token::This) => parse_this_expression(buf),
        Some(Token::New) => parse_new_newarray_expression(buf),
        Some(Token::OpParethesis) => parse_paren_expression(buf),
        None => NotComplete,
        _ => error("unknown token when expecting a expression"),
    }
}


/// Parses a primary expression followed by any chain of `[ Expression ]`,
/// `. length` and `. Identifier ( arguments )`, applied left to right.
#[verifier::rlimit(50)]
pub fn parse_postfix_expression(buf: &mut TokenBuffer) -> (r: ParsingResult<Expression>)
    requires
        old(buf).wf(),
    ensures
        follows_protocol(*old(buf), *final(buf), &r),
        r matches Good(e, _) ==> shape(e) == tree_postfix(old(buf).tokens@, old(buf).pos as int),
        agrees(scan_postfix(old(buf).tokens@, old(buf).pos as int), &r, final(buf).pos as int),
    decreases old(buf).tokens@.len() - old(buf).pos, 3int,
{
    let start = buf.pos;
    let ghost toks = buf.tokens@;
    let mut target = match parse_primary_expression(buf) {
        Good(e, _) => e,
        NotComplete => {
            buf.pos = start;
            return NotComplete;
        },
        Bad(m) => {
            return Bad(m);
        },
    };
    loop
        invariant
            buf.wf(),
            buf.tokens@ == toks,
            toks == old(buf).tokens@,
            start == old(buf).pos,
            start < buf.pos,
            scan_postfix(toks, start as int) == scan_postfix_rest(toks, buf.pos as int),
            tree_postfix(toks, start as int) == postfix_tree(toks, shape(target), buf.pos as int),
        ensures
            buf.wf(),
            buf.tokens@ == toks,
            toks == old(buf).tokens@,
            start == old(buf).pos,
            start < buf.pos,
            scan_postfix(toks, start as int) == Scan::Done(buf.pos as int),
            tree_postfix(toks, start as int) == shape(target),
        decreases buf.tokens@.len() - buf.pos,
    {
        if buf.pos == buf.tokens.len() {
            buf.pos = start;
            return NotComplete;
        }
        match &buf.tokens[buf.pos] {
            Token::OpBracket => {
                buf.pos = buf.pos + 1;
                let index = match parse_expression(buf) {
                    Good(e, _) => e,
                    NotComplete => {
                        buf.pos = start;
                        return NotComplete;
                    },
                    Bad(m) => {
                        return Bad(m);
                    },
                };
                match buf.expect(&Token::ClBracket) {
                    Step::Took(_) => {},
                    Step::Missing => {
                        buf.pos = start;
                        return NotComplete;
                    },
                    Step::Wrong => {
                        return error("']' expected after an array index");
                    },
                }
                target = Expression::ArrayIndexExpression(Box::new(target), Box::new(index));
            },
            Token::Dot => {
                buf.pos = buf.pos + 1;
                match buf.expect(&Token::Length) {
                    Step::Took(_) => {
                        target = Expression::ArrayLengthExpression(Box::new(target));
                    },
                    Step::Missing => {
                        buf.pos = start;
                        return NotComplete;
                    },
                    Step::Wrong => {
                        let name = match buf.expect_identifier() {
                            Step::Took(name) => name,
                            Step::Missing => {
                                buf.pos = start;
                                return NotComplete;
                            },
                            Step::Wrong => {
                                return error("'length' or a method name expected after '.'");
                            },
                        };
                        let args = match parse_arguments(buf) {
                            Good(args, _) => args,
                            NotComplete => {
                                buf.pos = start;
                                return NotComplete;
                            },
                            Bad(m) => {
                                return Bad(m);
                            },
                        };
                        target = Expression::FuncCallExpression(Box::new(target), name, args);
                    },
                }
            },
            _ => {
                break;
            },
        }
    }
    let taken = buf.taken_since(start);
    Good(target, taken)
}

proof fn lemma_push_then_append(a: Seq<ExprV>, x: ExprV, rest: Seq<ExprV>)
    ensures
        a.push(x) + rest == a + (seq![x] + rest),
        a.push(x) == a + seq![x],
{
    assert(a.push(x) + rest =~= a + (seq![x] + rest));
    assert(a.push(x) =~= a + seq![x]);
}

/// Parses `( )` or `( Expression { , Expression } )`, the arguments of a call.
#[verifier::rlimit(100)]
#[verifier::spinoff_prover]
pub fn parse_arguments(buf: &mut TokenBuffer) -> (r: ParsingResult<Vec<Expression>>)
    requires
        old(buf).wf(),
    ensures
        follows_protocol(*old(buf), *final(buf), &r),
        r matches Good(a, _) ==> shapes(a@) == tree_arguments(old(buf).tokens@, old(buf).pos as int),
        agrees(scan_arguments(old(buf).tokens@, old(buf).pos as int), &r, final(buf).pos as int),
    decreases old(buf).tokens@.len() - old(buf).pos, 0int,
{
    let start = buf.pos;
    let ghost toks = buf.tokens@;
    match buf.expect(&Token::OpParethesis) {
        Step::Took(_) => {},
        Step::Missing => {
            return NotComplete;
        },
        Step::Wrong => {
            return error("'(' expected before the arguments of a call");
        },
    }
    let mut args: Vec<Expression> = Vec::new();
    match buf.expect(&Token::ClParethesis) {
        Step::Took(_) => {
            let taken = buf.taken_since(start);
            return Good(args, taken);
        },
        Step::Missing => {
            buf.pos = start;
            return NotComplete;
        },
        Step::Wrong => {},
    }
    loop
        invariant_except_break
            buf.wf(),
            buf.tokens@ == toks,
            toks == old(buf).tokens@,
            start == old(buf).pos,
            start < buf.pos,
            scan_arguments(toks, start as int) == scan_argument_from(toks, buf.pos as int),
            tree_arguments(toks, start as int) == shapes(args@) + tree_arguments_from(toks, buf.pos as int),
        ensures
            buf.wf(),
            buf.tokens@ == toks,
            toks == old(buf).tokens@,
            start == old(buf).pos,
            start < buf.pos < buf.tokens@.len(),
            scan_arguments(toks, start as int) == scan_arguments_rest(toks, buf.pos as int),
            buf.tokens@[buf.pos as int] != Token::Comma,
            tree_arguments(toks, start as int) == shapes(args@),
        decreases buf.tokens@.len() - buf.pos,
    {
        let ghost q = buf.pos as int;
        let arg = match parse_expression(buf) {
            Good(e, _) => e,
            NotComplete => {
                buf.pos = start;
                return NotComplete;
            },
            Bad(m) => {
                return Bad(m);
            },
        };
        let ghost before = args@;
        args.push(arg);
        assert(args@.subrange(0, args@.len() - 1) =~= before);
        assert(shapes(args@) == shapes(before).push(shape(args@[args@.len() - 1])));
        assert(scan_argument_from(toks, q) == scan_arguments_rest(toks, buf.pos as int));
        match buf.expect(&Token::Comma) {
            Step::Took(_) => {
                assert(scan_arguments_rest(toks, buf.pos - 1) == scan_argument_from(toks, buf.pos as int));
                assert(scan_arguments(toks, start as int) == scan_argument_from(toks, buf.pos as int));
                assert(tree_arguments_from(toks, q) == seq![tree_expression(toks, q)]
                    + tree_arguments_from(toks, buf.pos as int));
                proof {
                    lemma_push_then_append(shapes(before), tree_expression(toks, q),
                        tree_arguments_from(toks, buf.pos as int));
                }
            },
            Step::Missing => {
                buf.pos = start;
                return NotComplete;
            },
            Step::Wrong => {
                assert(tree_arguments_from(toks, q) == seq![tree_expression(toks, q)]);
                proof {
                    lemma_push_then_append(shapes(before), tree_expression(toks, q), Seq::empty());
                }
                break;
            },
        }
    }
    match buf.expect(&Token::ClParethesis) {
        Step::Took(_) => {},
        Step::Missing => {
            buf.pos = start;
            return NotComplete;
        },
        Step::Wrong => {
            return error("',' or ')' expected in the arguments of a call");
        },
    }
    let taken = buf.taken_since(start);
    Good(args, taken)
}

/// Parses `! Expression` at the level of unary operators, or a postfix chain.
#[verifier::rlimit(50)]
pub fn parse_unary_expression(buf: &mut TokenBuffer) -> (r: ParsingResult<Expression>)
    requires
        old(buf).wf(),
    ensures
        follows_protocol(*old(buf), *final(buf), &r),
        r matches Good(e, _) ==> shape(e) == tree_unary(old(buf).tokens@, old(buf).pos as int),
        agrees(scan_unary(old(buf).tokens@, old(buf).pos as int), &r, final(buf).pos as int),
    decreases old(buf).tokens@.len() - old(buf).pos, 4int,
{
    let start = buf.pos;
    match buf.expect(&Token::Not) {
        Step::Took(_) => {},
        _ => {
            return parse_postfix_expression(buf);
        },
    }
    match parse_unary_expression(buf) {
        Good(e, _) => {
            let taken = buf.taken_since(start);
            Good(Expression::NotExpression(Box::new(e)), taken)
        },
        NotComplete => {
            buf.pos = start;
            NotComplete
        },
        Bad(m) => Bad(m),
    }
}

/// Parses a left-associative chain of `*`.
#[verifier::rlimit(50)]
pub fn parse_term_expression(buf: &mut TokenBuffer) -> (r: ParsingResult<Expression>)
    requires
        old(buf).wf(),
    ensures
        follows_protocol(*old(buf), *final(buf), &r),
        r matches Good(e, _) ==> shape(e) == tree_term(old(buf).tokens@, old(buf).pos as int),
        agrees(scan_term(old(buf).tokens@, old(buf).pos as int), &r, final(buf).pos as int),
    decreases old(buf).tokens@.len() - old(buf).pos, 5int,
{
    let start = buf.pos;
    let ghost toks = buf.tokens@;
    let mut left = match parse_unary_expression(buf) {
        Good(e, _) => e,
        NotComplete => {
            buf.pos = start;
            return NotComplete;
        },
        Bad(m) => {
            return Bad(m);
        },
    };
    loop
        invariant
            buf.wf(),
            buf.tokens@ == toks,
            toks == old(buf).tokens@,
            start == old(buf).pos,
            start < buf.pos,
            scan_term(toks, start as int) == scan_mul_rest(toks, buf.pos as int),
            tree_term(toks, start as int) == mul_tree(toks, shape(left), buf.pos as int),
        ensures
            buf.wf(),
            buf.tokens@ == toks,
            toks == old(buf).tokens@,
            start == old(buf).pos,
            start < buf.pos,
            scan_term(toks, start as int) == Scan::Done(buf.pos as int),
            tree_term(toks, start as int) == shape(left),
        decreases buf.tokens@.len() - buf.pos,
    {
        if buf.pos == buf.tokens.len() {
            buf.pos = start;
            return NotComplete;
        }
        let op = match &buf.tokens[buf.pos] {
            Token::Mul => BinaryOp::Mul,
            _ => {
                break;
            },
        };
        buf.pos = buf.pos + 1;
        let right = match parse_unary_expression(buf) {
            Good(e, _) => e,
            NotComplete => {
                buf.pos = start;
                return NotComplete;
            },
            Bad(m) => {
                return Bad(m);
            },
        };
        left = Expression::BinaryExpression(op, Box::new(left), Box::new(right));
    }
    let taken = buf.taken_since(start);
    Good(left, taken)
}

/// Parses a left-associative chain of `+` and `-`.
#[verifier::rlimit(50)]
pub fn parse_additive_expression(buf: &mut TokenBuffer) -> (r: ParsingResult<Expression>)
    requires
        old(buf).wf(),
    ensures
        follows_protocol(*old(buf), *final(buf), &r),
        r matches Good(e, _) ==> shape(e) == tree_additive(old(buf).tokens@, old(buf).pos as int),
        agrees(scan_additive(old(buf).tokens@, old(buf).pos as int), &r, final(buf).pos as int),
    decreases old(buf).tokens@.len() - old(buf).pos, 6int,
{
    let start = buf.pos;
    let ghost toks = buf.tokens@;
    let mut left = match parse_term_expression(buf) {
        Good(e, _) => e,
        NotComplete => {
            buf.pos = start;
            return NotComplete;
        },
        Bad(m) => {
            return Bad(m);
        },
    };
    loop
        invariant
            buf.wf(),
            buf.tokens@ == toks,
            toks == old(buf).tokens@,
            start == old(buf).pos,
            start < buf.pos,
            scan_additive(toks, start as int) == scan_add_rest(toks, buf.pos as int),
            tree_additive(toks, start as int) == add_tree(toks, shape(left), buf.pos as int),
        ensures
            buf.wf(),
            buf.tokens@ == toks,
            toks == old(buf).tokens@,
            start == old(buf).pos,
            start < buf.pos,
            scan_additive(toks, start as int) == Scan::Done(buf.pos as int),
            tree_additive(toks, start as int) == shape(left),
        decreases buf.tokens@.len() - buf.pos,
    {
        if buf.pos == buf.tokens.len() {
            buf.pos = start;
            return NotComplete;
        }
        let op = match &buf.tokens[buf.pos] {
            Token::Add => BinaryOp::Add,
            Token::Sub => BinaryOp::Sub,
            _ => {
                break;
            },
        };
        buf.pos = buf.pos + 1;
        let right = match parse_term_expression(buf) {
            Good(e, _) => e,
            NotComplete => {
                buf.pos = start;
                return NotComplete;
            },
            Bad(m) => {
                return Bad(m);
            },
        };
        left = Expression::BinaryExpression(op, Box::new(left), Box::new(right));
    }
    let taken = buf.taken_since(start);
    Good(left, taken)
}

/// Parses an additive expression, then at most one `<` and another.
#[verifier::rlimit(50)]
pub fn parse_less_expression(buf: &mut TokenBuffer) -> (r: ParsingResult<Expression>)
    requires
        old(buf).wf(),
    ensures
        follows_protocol(*old(buf), *final(buf), &r),
        r matches Good(e, _) ==> shape(e) == tree_less(old(buf).tokens@, old(buf).pos as int),
        agrees(scan_less(old(buf).tokens@, old(buf).pos as int), &r, final(buf).pos as int),
    decreases old(buf).tokens@.len() - old(buf).pos, 7int,
{
    let start = buf.pos;
    let left = match parse_additive_expression(buf) {
        Good(e, _) => e,
        NotComplete => {
            buf.pos = start;
            return NotComplete;
        },
        Bad(m) => {
            return Bad(m);
        },
    };
    match buf.expect(&Token::Less) {
        Step::Took(_) => {},
        Step::Missing => {
            buf.pos = start;
            return NotComplete;
        },
        Step::Wrong => {
            let taken = buf.taken_since(start);
            return Good(left, taken);
        },
    }
    let right = match parse_additive_expression(buf) {
        Good(e, _) => e,
        NotComplete => {
            buf.pos = start;
            return NotComplete;
        },
        Bad(m) => {
            return Bad(m);
        },
    };
    let taken = buf.taken_since(start);
    Good(Expression::BinaryExpression(BinaryOp::Less, Box::new(left), Box::new(right)), taken)
}

/// Parses an expression: a left-associative chain of `&&`, the loosest operator.
#[verifier::rlimit(50)]
pub fn parse_expression(buf: &mut TokenBuffer) -> (r: ParsingResult<Expression>)
    requires
        old(buf).wf(),
    ensures
        follows_protocol(*old(buf), *final(buf), &r),
        r matches Good(e, _) ==> shape(e) == tree_expression(old(buf).tokens@, old(buf).pos as int),
        agrees(scan_expression(old(buf).tokens@, old(buf).pos as int), &r, final(buf).pos as int),
    decreases old(buf).tokens@.len() - old(buf).pos, 8int,
{
    let start = buf.pos;
    let ghost toks = buf.tokens@;
    let mut left = match parse_less_expression(buf) {
        Good(e, _) => e,
        NotComplete => {
            buf.pos = start;
            return NotComplete;
        },
        Bad(m) => {
            return Bad(m);
        },
    };
    loop
        invariant
            buf.wf(),
            buf.tokens@ == toks,
            toks == old(buf).tokens@,
            start == old(buf).pos,
            start < buf.pos,
            scan_expression(toks, start as int) == scan_and_rest(toks, buf.pos as int),
            tree_expression(toks, start as int) == and_tree(toks, shape(left), buf.pos as int),
        ensures
            buf.wf(),
            buf.tokens@ == toks,
            toks == old(buf).tokens@,
            start == old(buf).pos,
            start < buf.pos,
            scan_expression(toks, start as int) == Scan::Done(buf.pos as int),
            tree_expression(toks, start as int) == shape(left),
        decreases buf.tokens@.len() - buf.pos,
    {
        if buf.pos == buf.tokens.len() {
            buf.pos = start;
            return NotComplete;
        }
        let op = match &buf.tokens[buf.pos] {
            Token::And => BinaryOp::And,
            _ => {
                break;
            },
        };
        buf.pos = buf.pos + 1;
        let right = match parse_less_expression(buf) {
            Good(e, _) => e,
            NotComplete => {
                buf.pos = start;
                return NotComplete;
            },
            Bad(m) => {
                return Bad(m);
            },
        };
        left = Expression::BinaryExpression(op, Box::new(left), Box::new(right));
    }
    let taken = buf.taken_since(start);
    Good(left, taken)
}

/// What parsing the entry class from `before` leaves in `after` and returns
/// in `r`: the buffer protocol, the grammar's outcome, and the class's name,
/// the name of `main`'s argument and the shape of `main`'s body as the tokens
/// give them: exactly what `parse_mainclass` ensures.
pub open spec fn mainclass_outcome(before: TokenBuffer, after: TokenBuffer, r: &ParsingResult<ASTNode>) -> bool {
    &&& follows_protocol(before, after, r)
    &&& agrees(scan_mainclass(before.tokens@, before.pos as int), r, after.pos as int)
    &&& next_token(before) is None ==> r is NotComplete
    &&& r matches Good(ASTNode::MainClassNode(m), _) ==> before.pos + 1 < before.tokens@.len()
            && before.tokens@[before.pos as int] == Token::Class
            && before.tokens@[before.pos + 1] == Token::Identifier(m.name)
            && m.state is StatementList
            && stmt_shape(m.state) == tree_statement(before.tokens@, before.pos + 13)
            && before.tokens@[before.pos + 11] == Token::Identifier(m.arg_name)
}

/// Parsing the entry class is deterministic: from buffers holding the same
/// tokens with the cursor at the same place, the outcome, the cursor after a
/// success, the tokens taken, the names and the body's shape, and a failure's
/// message are the same.
pub proof fn lemma_mainclass_deterministic(
    b1: TokenBuffer,
    a1: TokenBuffer,
    r1: ParsingResult<ASTNode>,
    b2: TokenBuffer,
    a2: TokenBuffer,
    r2: ParsingResult<ASTNode>,
)
    requires
        b1.wf(),
        b1.tokens@ == b2.tokens@,
        b1.pos == b2.pos,
        mainclass_outcome(b1, a1, &r1),
        mainclass_outcome(b2, a2, &r2),
    ensures
        r1 is Good <==> r2 is Good,
        r1 is NotComplete <==> r2 is NotComplete,
        r1 is Bad <==> r2 is Bad,
        r1 is Good ==> a1.pos == a2.pos && a1.tokens@ == a2.tokens@,
        r1 matches Good(ASTNode::MainClassNode(m1), t1) ==> r2 matches Good(ASTNode::MainClassNode(m2), t2)
            && t1@ == t2@ && m1.name@ == m2.name@ && m1.arg_name@ == m2.arg_name@
            && stmt_shape(m1.state) == stmt_shape(m2.state),
        r1 matches Bad(e1) ==> r2 matches Bad(e2) && e1@ == e2@,
{
}

/// Streaming: when parsing the entry class needed more input, and `more`
/// tokens were then appended and the parse retried, the retry ends exactly as
/// a single parse of the whole input from the same place does.
pub proof fn lemma_mainclass_retry_matches_one_shot(
    before: TokenBuffer,
    after: TokenBuffer,
    r: ParsingResult<ASTNode>,
    more: Seq<Token>,
    retry: TokenBuffer,
    retry_after: TokenBuffer,
    retry_r: ParsingResult<ASTNode>,
    whole: TokenBuffer,
    whole_after: TokenBuffer,
    whole_r: ParsingResult<ASTNode>,
)
    requires
        before.wf(),
        mainclass_outcome(before, after, &r),
        r is NotComplete,
        retry.tokens@ == after.tokens@ + more,
        retry.pos == after.pos,
        mainclass_outcome(retry, retry_after, &retry_r),
        whole.tokens@ == before.tokens@ + more,
        whole.pos == before.pos,
        mainclass_outcome(whole, whole_after, &whole_r),
    ensures
        retry_r is Good <==> whole_r is Good,
        retry_r is NotComplete <==> whole_r is NotComplete,
        retry_r is Bad <==> whole_r is Bad,
        retry_r is Good ==> retry_after.pos == whole_after.pos,
        retry_r matches Good(ASTNode::MainClassNode(m1), t1) ==> whole_r matches Good(ASTNode::MainClassNode(m2), t2)
            && t1@ == t2@ && m1.name@ == m2.name@ && m1.arg_name@ == m2.arg_name@
            && stmt_shape(m1.state) == stmt_shape(m2.state),
        retry_r matches Bad(e1) ==> whole_r matches Bad(e2) && e1@ == e2@,
{
    lemma_mainclass_deterministic(retry, retry_after, retry_r, whole, whole_after, whole_r);
}

/// Parses the entry class: `class Identifier { public static void main (
/// String [ ] Identifier ) Block }`.
#[verifier::rlimit(100)]
#[verifier::spinoff_prover]
pub fn parse_mainclass(buf: &mut TokenBuffer) -> (r: ParsingResult<ASTNode>)
    requires
        old(buf).wf(),
    ensures
        follows_protocol(*old(buf), *final(buf), &r),
        agrees(scan_mainclass(old(buf).tokens@, old(buf).pos as int), &r, final(buf).pos as int),
        next_token(*old(buf)) is None ==> r is NotComplete,
        r matches Good(ASTNode::MainClassNode(m), _) ==> old(buf).pos + 1 < old(buf).tokens@.len()
            && old(buf).tokens@[old(buf).pos as int] == Token::Class
            && old(buf).tokens@[old(buf).pos + 1] == Token::Identifier(m.name)
            && m.state is StatementList
            && stmt_shape(m.state) == tree_statement(old(buf).tokens@, old(buf).pos + 13)
            && old(buf).tokens@[old(buf).pos + 11] == Token::Identifier(m.arg_name),
{
    let start = buf.pos;
    match buf.expect(&Token::Class) {
        Step::Took(_) => {},
        Step::Missing => {
            return NotComplete;
        },
        Step::Wrong => {
            return error("expected 'class' at the start of the main class");
        },
    }
    let class_name = match buf.expect_identifier() {
        Step::Took(name) => name,
        Step::Missing => {
            buf.pos = start;
            return NotComplete;
        },
        Step::Wrong => {
            return error("expected class name in main class declaration");
        },
    };
    let header: [(Token, &str); 9] = [
        (Token::OpBrace, "expected '{' in main class declaration"),
        (Token::Public, "expected 'public' in main function declaration"),
        (Token::Static, "expected 'static' in main function declaration"),
        (Token::Void, "expected 'void' in main function declaration"),
        (Token::Main, "expected 'main' in main function declaration"),
        (Token::OpParethesis, "expected '(' in main function declaration"),
        (Token::STRING, "expected 'String' in main function declaration"),
        (Token::OpBracket, "expected '[' in main function declaration"),
        (Token::ClBracket, "expected ']' in main function declaration"),
    ];
    let ghost toks = buf.tokens@;
    assert(header@[0].0 == main_header_token(0));
    assert(header@[8].0 == main_header_token(8));
    assert(header@[3].1@ == main_header_message(3));
    let mut i: usize = 0;
    while i < 9
        invariant
            buf.wf(),
            buf.tokens@ == toks,
            toks == old(buf).tokens@,
            start == old(buf).pos,
            start + 2 + i == buf.pos,
            i <= 9,
            buf.tokens@[start as int] == Token::Class,
            buf.tokens@[start + 1] == Token::Identifier(class_name),
            forall|k: int| 0 <= k < 9 ==> (#[trigger] header@[k]).0 == main_header_token(k)
                && header@[k].1@ == main_header_message(k),
            scan_mainclass(toks, start as int) == scan_main_header(toks, buf.pos as int, i as int),
        decreases 9 - i,
    {
        match buf.expect(&header[i].0) {
            Step::Took(_) => {},
            Step::Missing => {
                buf.pos = start;
                return NotComplete;
            },
            Step::Wrong => {
                return error(header[i].1);
            },
        }
        i = i + 1;
    }
    assert(buf.pos == start + 11);
    let arg_name = match buf.expect_identifier() {
        Step::Took(name) => name,
        Step::Missing => {
            buf.pos = start;
            return NotComplete;
        },
        Step::Wrong => {
            return error("expected argument name in main function declaration");
        },
    };
    match buf.expect(&Token::ClParethesis) {
        Step::Took(_) => {},
        Step::Missing => {
            buf.pos = start;
            return NotComplete;
        },
        Step::Wrong => {
            return error("expected ')' in main function declaration");
        },
    }
    let state = match parse_statement_list(buf) {
        Good(s, _) => s,
        NotComplete => {
            buf.pos = start;
            return NotComplete;
        },
        Bad(m) => {
            return Bad(m);
        },
    };
    match buf.expect(&Token::ClBrace) {
        Step::Took(_) => {},
        Step::Missing => {
            buf.pos = start;
            return NotComplete;
        },
        Step::Wrong => {
            return error("expected '}' at the end of the main class");
        },
    }
    let taken = buf.taken_since(start);
    assert(toks[start + 11] == Token::Identifier(arg_name));
    assert(toks[start + 1] == Token::Identifier(class_name));
    Good(ASTNode::MainClassNode(MainClass { name: class_name, arg_name, state }), taken)
}

/// Parses a whole program: the entry class, then any number of classes up to
/// the end of the input.
#[verifier::rlimit(50)]
pub fn parse_program(buf: &mut TokenBuffer) -> (r: ParsingResult<Program>)
    requires
        old(buf).wf(),
    ensures
        follows_protocol(*old(buf), *final(buf), &r),
        agrees(scan_program(old(buf).tokens@, old(buf).pos as int), &r, final(buf).pos as int),
        next_token(*old(buf)) is None ==> r is NotComplete,
        r is Good ==> final(buf).pos == final(buf).tokens@.len(),
        r matches Good(p, _) ==> p.main matches ASTNode::MainClassNode(m)
            && old(buf).tokens@[old(buf).pos + 1] == Token::Identifier(m.name)
            && old(buf).tokens@[old(buf).pos + 11] == Token::Identifier(m.arg_name)
            && stmt_shape(m.state) == tree_statement(old(buf).tokens@, old(buf).pos + 13),
{
    let start = buf.pos;
    let ghost toks = buf.tokens@;
    let main = match parse_mainclass(buf) {
        Good(m, _) => m,
        NotComplete => {
            buf.pos = start;
            return NotComplete;
        },
        Bad(m) => {
            return Bad(m);
        },
    };
    let mut classes: Vec<ClassDecl> = Vec::new();
    while buf.pos < buf.tokens.len()
        invariant
            buf.wf(),
            buf.tokens@ == toks,
            toks == old(buf).tokens@,
            start == old(buf).pos,
            start < buf.pos,
            scan_program(toks, start as int) == scan_classes(toks, buf.pos as int),
        decreases buf.tokens@.len() - buf.pos,
    {
        let c = match parse_class_decl(buf) {
            Good(c, _) => c,
            NotComplete => {
                buf.pos = start;
                return NotComplete;
            },
            Bad(m) => {
                return Bad(m);
            },
        };
        classes.push(c);
    }
    let taken = buf.taken_since(start);
    Good(Program { main, classes }, taken)
}

/// Parses a complete token sequence into a program. With no more input to
/// come, input that ends too early is a failure.
pub fn parse(tokens: Vec<Token>) -> (r: ParsingResult<Program>)
    ensures
        scan_program(tokens@, 0) == Scan::Done(tokens@.len() as int)
            ==> (r matches Good(_, taken) && taken@ == tokens@),
        scan_program(tokens@, 0) is More ==> (r matches Bad(m) && m@ == "unexpected end of input"@),
        scan_program(tokens@, 0) matches Scan::Fail(f) ==> (r matches Bad(m) && m@ == f),
        r is Good ==> scan_program(tokens@, 0) == Scan::Done(tokens@.len() as int),
        r matches Good(p, _) ==> p.main matches ASTNode::MainClassNode(m) && tokens@[1] == Token::Identifier(m.name)
            && tokens@[11] == Token::Identifier(m.arg_name) && stmt_shape(m.state) == tree_statement(tokens@, 13),
{
    let mut buf = TokenBuffer::new(tokens);
    match parse_program(&mut buf) {
        NotComplete => error("unexpected end of input"),
        other => other,
    }
}

} // verus!
