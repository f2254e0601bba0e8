use vstd::prelude::*;
use crate::ast::Statement;
use crate::grammar::{scan_expression, scan_statement, then_token};
use crate::token::Token;
use crate::tree::{end_of, shape, tree_expression, ExprV};

verus! {

broadcast use vstd::seq::axiom_seq_index_decreases, vstd::seq::axiom_seq_subrange_decreases,
    vstd::std_specs::vec::axiom_vec_decreases_to_view;

/// The shape of a statement: its expressions' shapes and its nested statements.
pub enum StmtV {
    Block(Seq<StmtV>),
    If(ExprV, Box<StmtV>, Box<StmtV>),
    While(ExprV, Box<StmtV>),
    Print(ExprV),
    Assign(Seq<char>, ExprV),
    ArrayAssign(Seq<char>, ExprV, ExprV),
}

/// The shape of `s`.
pub open spec fn stmt_shape(s: Statement) -> StmtV
    decreases s,
{
    match s {
        Statement::StatementList(l) => StmtV::Block(stmt_shapes(l@)),
        Statement::IfStatement(c, t, e) => StmtV::If(shape(*c), Box::new(stmt_shape(*t)), Box::new(stmt_shape(*e))),
        Statement::WhileStatement(c, b) => StmtV::While(shape(*c), Box::new(stmt_shape(*b))),
        Statement::PrintlnStatement(e) => StmtV::Print(shape(*e)),
        Statement::AssignStatement(n, v) => StmtV::Assign(n@, shape(*v)),
        Statement::ArrayAssignStatement(n, i, v) => StmtV::ArrayAssign(n@, shape(*i), shape(*v)),
    }
}

/// The shapes of `l`, in order.
pub open spec fn stmt_shapes(l: Seq<Statement>) -> Seq<StmtV>
    decreases l,
{
    if l.len() == 0 {
        Seq::empty()
    } else {
        stmt_shapes(l.subrange(0, l.len() - 1)).push(stmt_shape(l[l.len() - 1]))
    }
}

/// Where the condition of an `if` or `while` at `p` ends, with its `)`.
pub open spec fn condition_end(toks: Seq<Token>, p: int) -> int {
    end_of(then_token(toks, p + 2, scan_expression(toks, p + 2), Token::ClParethesis, Seq::empty()))
}

/// The tree a statement at `p` parses to, where it parses.
pub open spec fn tree_statement(toks: Seq<Token>, p: int) -> StmtV
    decreases toks.len() - p, 2int,
{
    if p < 0 || p >= toks.len() {
        StmtV::Block(Seq::empty())
    } else if toks[p] == Token::OpBrace {
        StmtV::Block(block_items(toks, p + 1))
    } else if toks[p] == Token::If {
        let c = condition_end(toks, p);
        let d = end_of(scan_statement(toks, c));
        if p < c < d < toks.len() {
            StmtV::If(tree_expression(toks, p + 2), Box::new(tree_statement(toks, c)),
                Box::new(tree_statement(toks, d + 1)))
        } else {
            StmtV::Block(Seq::empty())
        }
    } else if toks[p] == Token::While {
        let c = condition_end(toks, p);
        if p < c <= toks.len() {
            StmtV::While(tree_expression(toks, p + 2), Box::new(tree_statement(toks, c)))
        } else {
            StmtV::Block(Seq::empty())
        }
    } else if toks[p] == Token::Println {
        StmtV::Print(tree_expression(toks, p + 2))
    } else {
        tree_assign(toks, p)
    }
}

/// The tree of an assignment at `p`.
pub open spec fn tree_assign(toks: Seq<Token>, p: int) -> StmtV {
    let name = if 0 <= p < toks.len() && toks[p] is Identifier { toks[p]->Identifier_0@ } else { Seq::empty() };
    if 0 <= p && p + 1 < toks.len() && toks[p + 1] == Token::OpBracket {
        let c = end_of(then_token(toks, p + 2, scan_expression(toks, p + 2), Token::ClBracket, Seq::empty()));
        StmtV::ArrayAssign(name, tree_expression(toks, p + 2), tree_expression(toks, c + 1))
    } else {
        StmtV::Assign(name, tree_expression(toks, p + 2))
    }
}

/// The trees of a block's statements from `q` on, up to its `}`.
pub open spec fn block_items(toks: Seq<Token>, q: int) -> Seq<StmtV>
    decreases toks.len() - q, 3int,
{
    if q < 0 || q >= toks.len() || toks[q] == Token::ClBrace {
        Seq::empty()
    } else {
        let e = end_of(scan_statement(toks, q));
        if q < e <= toks.len() {
            seq![tree_statement(toks, q)] + block_items(toks, e)
        } else {
            seq![tree_statement(toks, q)]
        }
    }
}

} // verus!
