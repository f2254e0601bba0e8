use vstd::prelude::*;
use crate::ast::{BinaryOp, Expression};
use crate::grammar::{
    scan_additive, scan_arguments, scan_expression, scan_less, scan_primary, scan_term, scan_unary,
    then_token, Scan,
};
use crate::token::Token;

verus! {

broadcast use vstd::seq::axiom_seq_index_decreases, vstd::seq::axiom_seq_subrange_decreases,
    vstd::std_specs::vec::axiom_vec_decreases_to_view;

/// The shape of an expression: its operators, literals and names. A method
/// call records its receiver, the method's name and its arguments.
pub enum ExprV {
    Binary(BinaryOp, Box<ExprV>, Box<ExprV>),
    Index(Box<ExprV>, Box<ExprV>),
    Length(Box<ExprV>),
    Call(Box<ExprV>, Seq<char>, Seq<ExprV>),
    Int(i64),
    Bool(bool),
    Name(Seq<char>),
    This,
    NewArray(Box<ExprV>),
    New(Seq<char>),
    Not(Box<ExprV>),
}

/// The shapes of `args`, in order.
pub open spec fn shapes(args: Seq<Expression>) -> Seq<ExprV>
    decreases args,
{
    if args.len() == 0 {
        Seq::empty()
    } else {
        shapes(args.subrange(0, args.len() - 1)).push(shape(args[args.len() - 1]))
    }
}

/// The shape of `e`.
pub open spec fn shape(e: Expression) -> ExprV
    decreases e,
{
    match e {
        Expression::BinaryExpression(op, l, r) => ExprV::Binary(op, Box::new(shape(*l)), Box::new(shape(*r))),
        Expression::ArrayIndexExpression(a, i) => ExprV::Index(Box::new(shape(*a)), Box::new(shape(*i))),
        Expression::ArrayLengthExpression(a) => ExprV::Length(Box::new(shape(*a))),
        Expression::FuncCallExpression(t, n, args) => ExprV::Call(Box::new(shape(*t)), n@, shapes(args@)),
        Expression::ConstantInteger(v) => ExprV::Int(v),
        Expression::ConstantBoolean(b) => ExprV::Bool(b),
        Expression::Identifier(n) => ExprV::Name(n@),
        Expression::ThisExpression => ExprV::This,
        Expression::NewArrayExpression(s) => ExprV::NewArray(Box::new(shape(*s))),
        Expression::NewExpression(n) => ExprV::New(n@),
        Expression::NotExpression(x) => ExprV::Not(Box::new(shape(*x))),
    }
}

/// Where a successful scan ends.
pub open spec fn end_of(s: Scan) -> int {
    match s {
        Scan::Done(e) => e,
        _ => 0,
    }
}

/// The tree an expression at `p` parses to, where it parses.
pub open spec fn tree_expression(toks: Seq<Token>, p: int) -> ExprV
    decreases toks.len() - p, 10int,
{
    let e = end_of(scan_less(toks, p));
    if p < e <= toks.len() {
        and_tree(toks, tree_less(toks, p), e)
    } else {
        tree_less(toks, p)
    }
}

/// `left` followed by the `&&` chain at `q`.
pub open spec fn and_tree(toks: Seq<Token>, left: ExprV, q: int) -> ExprV
    decreases toks.len() - q, 9int,
{
    if 0 <= q < toks.len() && toks[q] == Token::And {
        let node = ExprV::Binary(BinaryOp::And, Box::new(left), Box::new(tree_less(toks, q + 1)));
        let e = end_of(scan_less(toks, q + 1));
        if q < e <= toks.len() { and_tree(toks, node, e) } else { node }
    } else {
        left
    }
}

pub open spec fn tree_less(toks: Seq<Token>, p: int) -> ExprV
    decreases toks.len() - p, 8int,
{
    let left = tree_additive(toks, p);
    let e = end_of(scan_additive(toks, p));
    if p < e < toks.len() && toks[e] == Token::Less {
        ExprV::Binary(BinaryOp::Less, Box::new(left), Box::new(tree_additive(toks, e + 1)))
    } else {
        left
    }
}

pub open spec fn tree_additive(toks: Seq<Token>, p: int) -> ExprV
    decreases toks.len() - p, 7int,
{
    let e = end_of(scan_term(toks, p));
    if p < e <= toks.len() {
        add_tree(toks, tree_term(toks, p), e)
    } else {
        tree_term(toks, p)
    }
}

/// `left` followed by the `+` and `-` chain at `q`.
pub open spec fn add_tree(toks: Seq<Token>, left: ExprV, q: int) -> ExprV
    decreases toks.len() - q, 6int,
{
    if 0 <= q < toks.len() && (toks[q] == Token::Add || toks[q] == Token::Sub) {
        let op = if toks[q] == Token::Add { BinaryOp::Add } else { BinaryOp::Sub };
        let node = ExprV::Binary(op, Box::new(left), Box::new(tree_term(toks, q + 1)));
        let e = end_of(scan_term(toks, q + 1));
        if q < e <= toks.len() { add_tree(toks, node, e) } else { node }
    } else {
        left
    }
}

pub open spec fn tree_term(toks: Seq<Token>, p: int) -> ExprV
    decreases toks.len() - p, 5int,
{
    let e = end_of(scan_unary(toks, p));
    if p < e <= toks.len() {
        mul_tree(toks, tree_unary(toks, p), e)
    } else {
        tree_unary(toks, p)
    }
}

/// `left` followed by the `*` chain at `q`.
pub open spec fn mul_tree(toks: Seq<Token>, left: ExprV, q: int) -> ExprV
    decreases toks.len() - q, 4int,
{
    if 0 <= q < toks.len() && toks[q] == Token::Mul {
        let node = ExprV::Binary(BinaryOp::Mul, Box::new(left), Box::new(tree_unary(toks, q + 1)));
        let e = end_of(scan_unary(toks, q + 1));
        if q < e <= toks.len() { mul_tree(toks, node, e) } else { node }
    } else {
        left
    }
}

pub open spec fn tree_unary(toks: Seq<Token>, p: int) -> ExprV
    decreases toks.len() - p, 3int,
{
    if 0 <= p < toks.len() && toks[p] == Token::Not {
        ExprV::Not(Box::new(tree_unary(toks, p + 1)))
    } else {
        tree_postfix(toks, p)
    }
}

pub open spec fn tree_postfix(toks: Seq<Token>, p: int) -> ExprV
    decreases toks.len() - p, 2int,
{
    let e = end_of(scan_primary(toks, p));
    if p < e <= toks.len() {
        postfix_tree(toks, tree_primary(toks, p), e)
    } else {
        tree_primary(toks, p)
    }
}

/// `target` followed by the chain of indexing, `length` and calls at `q`.
pub open spec fn postfix_tree(toks: Seq<Token>, target: ExprV, q: int) -> ExprV
    decreases toks.len() - q, 1int,
{
    if 0 <= q < toks.len() && toks[q] == Token::OpBracket {
        let node = ExprV::Index(Box::new(target), Box::new(tree_expression(toks, q + 1)));
        let e = end_of(then_token(toks, q + 1, scan_expression(toks, q + 1), Token::ClBracket,
            "']' expected after an array index"@));
        if q < e <= toks.len() { postfix_tree(toks, node, e) } else { node }
    } else if 0 <= q && q + 1 < toks.len() && toks[q] == Token::Dot && toks[q + 1] == Token::Length {
        postfix_tree(toks, ExprV::Length(Box::new(target)), q + 2)
    } else if 0 <= q && q + 1 < toks.len() && toks[q] == Token::Dot && toks[q + 1] is Identifier {
        let node = ExprV::Call(Box::new(target), toks[q + 1]->Identifier_0@, tree_arguments(toks, q + 2));
        let e = end_of(scan_arguments(toks, q + 2));
        if q < e <= toks.len() { postfix_tree(toks, node, e) } else { node }
    } else {
        target
    }
}

pub open spec fn tree_primary(toks: Seq<Token>, p: int) -> ExprV
    decreases toks.len() - p, 1int,
{
    if p < 0 || p >= toks.len() {
        ExprV::This
    } else {
        match toks[p] {
            Token::Number(v) => ExprV::Int(v),
            Token::True => ExprV::Bool(true),
            Token::False => ExprV::Bool(false),
            Token::Identifier(n) => ExprV::Name(n@),
            Token::New => tree_new_newarray(toks, p),
            Token::OpParethesis => tree_expression(toks, p + 1),
            _ => ExprV::This,
        }
    }
}

/// The tree of `new int [ Expression ]` or `new Identifier ( )` at `p`.
pub open spec fn tree_new_newarray(toks: Seq<Token>, p: int) -> ExprV
    decreases toks.len() - p, 0int,
{
    if 0 <= p && p + 1 < toks.len() && toks[p + 1] == Token::Int {
        tree_newarray(toks, p + 1)
    } else if 0 <= p && p + 1 < toks.len() && toks[p + 1] is Identifier {
        ExprV::New(toks[p + 1]->Identifier_0@)
    } else {
        ExprV::This
    }
}

/// The tree of `int [ Expression ]` at `p`.
pub open spec fn tree_newarray(toks: Seq<Token>, p: int) -> ExprV
    decreases toks.len() - p, 0int,
{
    if 0 <= p && p + 2 <= toks.len() {
        ExprV::NewArray(Box::new(tree_expression(toks, p + 2)))
    } else {
        ExprV::This
    }
}

/// The shapes of the arguments in the list at `p`, in order.
pub open spec fn tree_arguments(toks: Seq<Token>, p: int) -> Seq<ExprV>
    decreases toks.len() - p, 0int,
{
    if 0 <= p && p + 1 < toks.len() && toks[p + 1] != Token::ClParethesis {
        tree_arguments_from(toks, p + 1)
    } else {
        Seq::empty()
    }
}

/// The shapes of the arguments from the one at `q` on.
pub open spec fn tree_arguments_from(toks: Seq<Token>, q: int) -> Seq<ExprV>
    decreases toks.len() - q, 11int,
{
    let e = end_of(scan_expression(toks, q));
    if q < e < toks.len() && toks[e] == Token::Comma {
        seq![tree_expression(toks, q)] + tree_arguments_from(toks, e + 1)
    } else {
        seq![tree_expression(toks, q)]
    }
}

} // verus!
