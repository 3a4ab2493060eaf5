//! The abstract syntax tree: span-wrapped nodes for expressions,
//! statements, assignment targets, argument lists and blocks, together
//! with the span-closure predicates stating that every composite node's
//! span covers the spans of all of its children and connecting tokens.

use vstd::prelude::*;
use std::rc::Rc;
use crate::span::SrcRef;
use crate::error::{ParseError, ParseResult, Reason, err_at, err_reason, err_ctx};

verus! {

/// A payload paired with the span of source text that produced it.
#[derive(Debug, PartialEq, Eq)]
pub struct Node<T>(pub T, pub SrcRef);

/// An expression.  Number literals carry their source text; a function
/// literal shares the whole source text and its (args, body) payload by
/// reference counting, so that copying a function value stays O(1).
#[derive(Debug, PartialEq, Eq)]
pub enum Expr {
    /// The expression of an empty input.
    Nil,
    LiteralNumber(String),
    LiteralString(String),
    LiteralChar(char),
    LiteralBoolean(bool),
    LiteralNull,
    Ident(Node<String>),
    List(Node<Vec<Node<Expr>>>),
    ListClone(Box<Node<Expr>>, Box<Node<Expr>>),
    MapLit(Node<Vec<(Node<Expr>, Node<Expr>)>>),
    Call(SrcRef, Box<Node<Expr>>, Node<Vec<Node<Expr>>>),
    DotAccess(SrcRef, Box<Node<Expr>>, Node<String>),
    Index(SrcRef, Box<Node<Expr>>, Box<Node<Expr>>),
    UnaryNot(SrcRef, Box<Node<Expr>>),
    UnaryNeg(SrcRef, Box<Node<Expr>>),
    UnaryInput(SrcRef, Box<Node<Expr>>),
    UnaryClone(SrcRef, Box<Node<Expr>>),
    UnaryMirror(SrcRef, Box<Node<Expr>>),
    BinaryMul(SrcRef, Box<Node<Expr>>, Box<Node<Expr>>),
    BinaryDiv(SrcRef, Box<Node<Expr>>, Box<Node<Expr>>),
    BinaryRem(SrcRef, Box<Node<Expr>>, Box<Node<Expr>>),
    BinaryAdd(SrcRef, Box<Node<Expr>>, Box<Node<Expr>>),
    BinarySub(SrcRef, Box<Node<Expr>>, Box<Node<Expr>>),
    BinaryGreater(SrcRef, Box<Node<Expr>>, Box<Node<Expr>>),
    BinaryGreaterEq(SrcRef, Box<Node<Expr>>, Box<Node<Expr>>),
    BinaryLess(SrcRef, Box<Node<Expr>>, Box<Node<Expr>>),
    BinaryLessEq(SrcRef, Box<Node<Expr>>, Box<Node<Expr>>),
    BinaryEq(SrcRef, Box<Node<Expr>>, Box<Node<Expr>>),
    BinaryNotEq(SrcRef, Box<Node<Expr>>, Box<Node<Expr>>),
    BinaryAnd(SrcRef, Box<Node<Expr>>, Box<Node<Expr>>),
    BinaryOr(SrcRef, Box<Node<Expr>>, Box<Node<Expr>>),
    BinaryXor(SrcRef, Box<Node<Expr>>, Box<Node<Expr>>),
    BinaryRange(SrcRef, Box<Node<Expr>>, Box<Node<Expr>>),
    BinaryAs(SrcRef, Box<Node<Expr>>, Box<Node<Expr>>),
    BinaryAssign(SrcRef, Node<LVal>, Box<Node<Expr>>),
    BinaryAddAssign(SrcRef, Node<LVal>, Box<Node<Expr>>),
    BinarySubAssign(SrcRef, Node<LVal>, Box<Node<Expr>>),
    BinaryMulAssign(SrcRef, Node<LVal>, Box<Node<Expr>>),
    BinaryDivAssign(SrcRef, Node<LVal>, Box<Node<Expr>>),
    BinaryRemAssign(SrcRef, Node<LVal>, Box<Node<Expr>>),
    Fn(Rc<String>, Rc<(Node<Args>, Node<Block>)>),
}

/// The restricted expression shapes valid as an assignment target.
#[derive(Debug, PartialEq, Eq)]
pub enum LVal {
    Local(Node<String>),
    Index(Box<Node<Expr>>, Box<Node<Expr>>),
}

/// An ordered list of parameter names.
#[derive(Debug, PartialEq, Eq)]
pub struct Args(pub Vec<Node<String>>);

/// An ordered list of statements.
#[derive(Debug, PartialEq, Eq)]
pub struct Block(pub Vec<Node<Stmt>>);

/// A statement.
#[derive(Debug, PartialEq, Eq)]
pub enum Stmt {
    Expr(Node<Expr>),
    Print(Node<Expr>),
    If(Node<Expr>, Node<Block>),
    IfElse(Node<Expr>, Node<Block>, Node<Block>),
    While(Node<Expr>, Node<Block>),
    For(Node<String>, Node<Expr>, Node<Block>),
    Decl(Node<String>, Node<Expr>),
    Return(Node<Expr>),
}

/// Span closure for a span-wrapped list of expressions: the list's span
/// covers every element, and every element is itself closed.
pub open spec fn exprs_node_ok(items: Node<Vec<Node<Expr>>>) -> bool
    decreases items,
{
    forall|i: int|
        0 <= i < items.0@.len() ==> items.1.covers((#[trigger] items.0@[i]).1) && expr_node_ok(
            items.0@[i],
        )
}

/// Span closure for a span-wrapped list of key/value expression pairs.
pub open spec fn pairs_node_ok(items: Node<Vec<(Node<Expr>, Node<Expr>)>>) -> bool
    decreases items,
{
    forall|i: int|
        0 <= i < items.0@.len() ==> items.1.covers((#[trigger] items.0@[i]).0.1) && items.1.covers(
            items.0@[i].1.1,
        ) && expr_node_ok(items.0@[i].0) && expr_node_ok(items.0@[i].1)
}

/// Span closure for an argument list: its span covers every name.
pub open spec fn args_node_ok(n: Node<Args>) -> bool {
    forall|i: int| 0 <= i < n.0.0@.len() ==> n.1.covers((#[trigger] n.0.0@[i]).1)
}

/// Span closure for an expression node: the node's span covers the spans
/// of all child nodes and recorded operator tokens, recursively.
pub open spec fn expr_node_ok(n: Node<Expr>) -> bool
    decreases n,
{
    match n.0 {
        Expr::Nil => true,
        Expr::LiteralNumber(_) => true,
        Expr::LiteralString(_) => true,
        Expr::LiteralChar(_) => true,
        Expr::LiteralBoolean(_) => true,
        Expr::LiteralNull => true,
        Expr::Ident(id) => n.1.covers(id.1),
        Expr::List(items) => n.1.covers(items.1) && exprs_node_ok(items),
        Expr::ListClone(item, count) => n.1.covers(item.1) && n.1.covers(count.1) && expr_node_ok(
            *item,
        ) && expr_node_ok(*count),
        Expr::MapLit(items) => n.1.covers(items.1) && pairs_node_ok(items),
        Expr::Call(op, callee, args) => n.1.covers(op) && n.1.covers(callee.1) && n.1.covers(args.1)
            && expr_node_ok(*callee) && exprs_node_ok(args),
        Expr::DotAccess(op, e, id) => n.1.covers(op) && n.1.covers(e.1) && n.1.covers(id.1)
            && expr_node_ok(*e),
        Expr::Index(op, e, ix) => n.1.covers(op) && n.1.covers(e.1) && n.1.covers(ix.1)
            && expr_node_ok(*e) && expr_node_ok(*ix),
        Expr::UnaryNot(op, e) | Expr::UnaryNeg(op, e) | Expr::UnaryInput(op, e) | Expr::UnaryClone(
            op,
            e,
        ) | Expr::UnaryMirror(op, e) => n.1.covers(op) && n.1.covers(e.1) && expr_node_ok(*e),
        Expr::BinaryMul(op, l, r) | Expr::BinaryDiv(op, l, r) | Expr::BinaryRem(op, l, r)
            | Expr::BinaryAdd(op, l, r) | Expr::BinarySub(op, l, r) | Expr::BinaryGreater(op, l, r)
            | Expr::BinaryGreaterEq(op, l, r) | Expr::BinaryLess(op, l, r) | Expr::BinaryLessEq(
            op,
            l,
            r,
        ) | Expr::BinaryEq(op, l, r) | Expr::BinaryNotEq(op, l, r) | Expr::BinaryAnd(op, l, r)
            | Expr::BinaryOr(op, l, r) | Expr::BinaryXor(op, l, r) | Expr::BinaryRange(op, l, r)
            | Expr::BinaryAs(op, l, r) => n.1.covers(op) && n.1.covers(l.1) && n.1.covers(r.1)
            && expr_node_ok(*l) && expr_node_ok(*r),
        Expr::BinaryAssign(op, t, r) | Expr::BinaryAddAssign(op, t, r) | Expr::BinarySubAssign(
            op,
            t,
            r,
        ) | Expr::BinaryMulAssign(op, t, r) | Expr::BinaryDivAssign(op, t, r)
            | Expr::BinaryRemAssign(op, t, r) => n.1.covers(t.1) && n.1.covers(r.1) && lval_node_ok(
            t,
        ) && expr_node_ok(*r),
        Expr::Fn(_, payload) => n.1.covers(payload.0.1) && n.1.covers(payload.1.1) && args_node_ok(
            payload.0,
        ) && block_node_ok(payload.1),
    }
}

/// Span closure for an assignment target.
pub open spec fn lval_node_ok(n: Node<LVal>) -> bool
    decreases n,
{
    match n.0 {
        LVal::Local(id) => n.1.covers(id.1),
        LVal::Index(e, ix) => n.1.covers(e.1) && n.1.covers(ix.1) && expr_node_ok(*e)
            && expr_node_ok(*ix),
    }
}

/// Span closure for a statement node.
pub open spec fn stmt_node_ok(n: Node<Stmt>) -> bool
    decreases n,
{
    match n.0 {
        Stmt::Expr(e) | Stmt::Print(e) | Stmt::Return(e) => n.1.covers(e.1) && expr_node_ok(e),
        Stmt::If(c, b) => n.1.covers(c.1) && n.1.covers(b.1) && expr_node_ok(c) && block_node_ok(b),
        Stmt::IfElse(c, tb, fb) => n.1.covers(c.1) && n.1.covers(tb.1) && n.1.covers(fb.1)
            && expr_node_ok(c) && block_node_ok(tb) && block_node_ok(fb),
        Stmt::While(c, b) => n.1.covers(c.1) && n.1.covers(b.1) && expr_node_ok(c) && block_node_ok(
            b,
        ),
        Stmt::For(id, e, b) => n.1.covers(id.1) && n.1.covers(e.1) && n.1.covers(b.1)
            && expr_node_ok(e) && block_node_ok(b),
        Stmt::Decl(id, e) => n.1.covers(id.1) && n.1.covers(e.1) && expr_node_ok(e),
    }
}

/// Span closure for a block: its span covers every statement in it.
pub open spec fn block_node_ok(n: Node<Block>) -> bool
    decreases n,
{
    forall|i: int|
        0 <= i < n.0.0@.len() ==> n.1.covers((#[trigger] n.0.0@[i]).1) && stmt_node_ok(n.0.0@[i])
}

/// Re-wrapping a closed expression under a wider span keeps it closed:
/// only the root's own covering obligations mention the root span, and a
/// span covering the old root span covers everything the old one did.
pub proof fn lemma_expr_widen(n: Node<Expr>, sp: SrcRef)
    requires
        expr_node_ok(n),
        sp.covers(n.1),
    ensures
        expr_node_ok(Node(n.0, sp)),
{
    match n.0 {
        Expr::Ident(id) => {
            crate::span::lemma_covers_trans(sp, n.1, id.1);
        },
        Expr::List(items) => {
            crate::span::lemma_covers_trans(sp, n.1, items.1);
        },
        Expr::ListClone(item, count) => {
            crate::span::lemma_covers_trans(sp, n.1, item.1);
            crate::span::lemma_covers_trans(sp, n.1, count.1);
        },
        Expr::MapLit(items) => {
            crate::span::lemma_covers_trans(sp, n.1, items.1);
        },
        Expr::Call(op, callee, args) => {
            crate::span::lemma_covers_trans(sp, n.1, op);
            crate::span::lemma_covers_trans(sp, n.1, callee.1);
            crate::span::lemma_covers_trans(sp, n.1, args.1);
        },
        Expr::DotAccess(op, e, id) => {
            crate::span::lemma_covers_trans(sp, n.1, op);
            crate::span::lemma_covers_trans(sp, n.1, e.1);
            crate::span::lemma_covers_trans(sp, n.1, id.1);
        },
        Expr::Index(op, e, ix) => {
            crate::span::lemma_covers_trans(sp, n.1, op);
            crate::span::lemma_covers_trans(sp, n.1, e.1);
            crate::span::lemma_covers_trans(sp, n.1, ix.1);
        },
        Expr::UnaryNot(op, e) | Expr::UnaryNeg(op, e) | Expr::UnaryInput(op, e) | Expr::UnaryClone(
            op,
            e,
        ) | Expr::UnaryMirror(op, e) => {
            crate::span::lemma_covers_trans(sp, n.1, op);
            crate::span::lemma_covers_trans(sp, n.1, e.1);
        },
        Expr::BinaryMul(op, l, r) | Expr::BinaryDiv(op, l, r) | Expr::BinaryRem(op, l, r)
            | Expr::BinaryAdd(op, l, r) | Expr::BinarySub(op, l, r) | Expr::BinaryGreater(op, l, r)
            | Expr::BinaryGreaterEq(op, l, r) | Expr::BinaryLess(op, l, r) | Expr::BinaryLessEq(
            op,
            l,
            r,
        ) | Expr::BinaryEq(op, l, r) | Expr::BinaryNotEq(op, l, r) | Expr::BinaryAnd(op, l, r)
            | Expr::BinaryOr(op, l, r) | Expr::BinaryXor(op, l, r) | Expr::BinaryRange(op, l, r)
            | Expr::BinaryAs(op, l, r) => {
            crate::span::lemma_covers_trans(sp, n.1, op);
            crate::span::lemma_covers_trans(sp, n.1, l.1);
            crate::span::lemma_covers_trans(sp, n.1, r.1);
        },
        Expr::BinaryAssign(op, t, r) | Expr::BinaryAddAssign(op, t, r) | Expr::BinarySubAssign(
            op,
            t,
            r,
        ) | Expr::BinaryMulAssign(op, t, r) | Expr::BinaryDivAssign(op, t, r)
            | Expr::BinaryRemAssign(op, t, r) => {
            crate::span::lemma_covers_trans(sp, n.1, t.1);
            crate::span::lemma_covers_trans(sp, n.1, r.1);
        },
        Expr::Fn(_, payload) => {
            crate::span::lemma_covers_trans(sp, n.1, payload.0.1);
            crate::span::lemma_covers_trans(sp, n.1, payload.1.1);
        },
        _ => {},
    }
}

/// Re-wrapping a closed expression list under a wider span keeps it closed.
pub proof fn lemma_exprs_widen(items: Node<Vec<Node<Expr>>>, sp: SrcRef)
    requires
        exprs_node_ok(items),
        sp.covers(items.1),
    ensures
        exprs_node_ok(Node(items.0, sp)),
{
    assert forall|i: int| 0 <= i < items.0@.len() implies sp.covers(
        (#[trigger] items.0@[i]).1,
    ) && expr_node_ok(items.0@[i]) by {
        crate::span::lemma_covers_trans(sp, items.1, items.0@[i].1);
    }
}

/// Re-wrapping an argument list under a wider span keeps it closed.
pub proof fn lemma_args_widen(n: Node<Args>, sp: SrcRef)
    requires
        args_node_ok(n),
        sp.covers(n.1),
    ensures
        args_node_ok(Node(n.0, sp)),
{
    assert forall|i: int| 0 <= i < n.0.0@.len() implies sp.covers((#[trigger] n.0.0@[i]).1) by {
        crate::span::lemma_covers_trans(sp, n.1, n.0.0@[i].1);
    }
}

/// An expression whose inner nodes are all closed, stated of a bare
/// expression whose own covering span has been dropped: the end-of-input
/// sentinel covers every span, so only the children's obligations remain.
pub open spec fn expr_ok(e: Expr) -> bool {
    expr_node_ok(Node(e, SrcRef::End))
}

impl Node<Expr> {
    /// Reinterprets an already-parsed expression as an assignment target.
    /// Only a bare identifier or an index expression is assignable; any
    /// other shape fails with an invalid-assignment-target diagnostic
    /// anchored at exactly this expression's span.
    pub fn into_lvalue(self) -> (r: ParseResult<Node<LVal>>)
        ensures
            self.0 matches Expr::Ident(id) ==> r == Ok::<_, ParseError>(
                Node(LVal::Local(id), self.1),
            ),
            self.0 matches Expr::Index(_, e, ix) ==> r == Ok::<_, ParseError>(
                Node(LVal::Index(e, ix), self.1),
            ),
            !(self.0 is Ident) && !(self.0 is Index) ==> (r matches Err(e) && e is Diag && err_at(
                e,
            ) == self.1 && err_reason(e) == Some(Reason::NotAnLValue) && err_ctx(e)
                == Seq::<&'static str>::empty()),
            expr_node_ok(self) ==> (r matches Ok(lv) ==> lval_node_ok(lv)),
    {
        match self {
            Node(Expr::Ident(ident), r) => Ok(Node(LVal::Local(ident), r)),
            Node(Expr::Index(_, expr, index), r) => Ok(Node(LVal::Index(expr, index), r)),
            Node(_, r) => Err(
                ParseError::Diag { at: r, reason: Reason::NotAnLValue, context: Vec::new() },
            ),
        }
    }
}

} // verus!
