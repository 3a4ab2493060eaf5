//! The functional model of the parse engine: for every grammar function
//! there is a spec function here computing, from the token sequence, the
//! source handle and the cursor position alone, whether that function
//! succeeds, where the cursor lands, the tree it builds and the best
//! error it accumulates.  Each grammar function's contract states that it
//! returns exactly what its model returns, so success is owed, and the
//! result fixed, on every input.
//!
//! The model speaks of ghost views of the tree (sequences in place of
//! vectors, character sequences in place of strings) because spec code
//! cannot build heap values.  A recursive call is guarded by a bounds
//! check on the sub-result's reported end position; the guard is dead
//! weight semantically (the grammar functions prove their cursor always
//! moves forward within bounds) and only grounds the model's own
//! termination measure, which is the pair (tokens left, grammar rank),
//! exactly as for the executable code.

use vstd::prelude::*;
use crate::span::SrcRef;
use crate::token::{Lexeme, Token};
use crate::error::{Item, ParseError, ParseResult, Reason, err_at, err_reason, err_ctx, severity,
    pos_class, err_pos, key_lt, spec_merge};
use crate::ast::{Node, Expr, LVal, Stmt};
use crate::parse::ParseCtx;

verus! {

// ------------------------------------------------------------------
// Ghost views of the tree
// ------------------------------------------------------------------

/// The view of a name node: the identifier's text and its span.
pub ghost struct NodeSV {
    pub name: Seq<char>,
    pub span: SrcRef,
}

/// The view of an expression node.
pub ghost struct NodeEV {
    pub e: ExprV,
    pub span: SrcRef,
}

/// The view of a span-wrapped expression list.
pub ghost struct ListV {
    pub items: Seq<NodeEV>,
    pub span: SrcRef,
}

/// The view of a span-wrapped key/value list.
pub ghost struct PairsV {
    pub items: Seq<(NodeEV, NodeEV)>,
    pub span: SrcRef,
}

/// The view of an argument-name list node.
pub ghost struct ArgsV {
    pub names: Seq<NodeSV>,
    pub span: SrcRef,
}

/// The view of a block node.
pub ghost struct BlockV {
    pub stmts: Seq<NodeTV>,
    pub span: SrcRef,
}

/// The view of a statement node.
pub ghost struct NodeTV {
    pub s: StmtV,
    pub span: SrcRef,
}

/// The view of an assignment target node.
pub ghost struct NodeLV {
    pub l: LValV,
    pub span: SrcRef,
}

pub ghost enum LValV {
    Local(NodeSV),
    IndexL(Box<NodeEV>, Box<NodeEV>),
}

pub ghost enum UnK {
    Not,
    Neg,
    InputU,
    CloneU,
    MirrorU,
}

pub ghost enum BinK {
    Mul,
    Div,
    Rem,
    Add,
    Sub,
    Gt,
    Ge,
    Lt,
    Le,
    EqB,
    Ne,
    AndB,
    OrB,
    XorB,
    RangeB,
    Cast,
}

pub ghost enum AsgK {
    SetA,
    AddA,
    SubA,
    MulA,
    DivA,
    RemA,
}

pub ghost enum ExprV {
    NilV,
    NumV(Seq<char>),
    StrE(Seq<char>),
    CharE(char),
    BoolE(bool),
    NullE,
    IdentV(NodeSV),
    ListE(ListV),
    ListCloneE(Box<NodeEV>, Box<NodeEV>),
    MapE(PairsV),
    CallE(SrcRef, Box<NodeEV>, ListV),
    DotE(SrcRef, Box<NodeEV>, NodeSV),
    IndexE(SrcRef, Box<NodeEV>, Box<NodeEV>),
    UnE(UnK, SrcRef, Box<NodeEV>),
    BinE(BinK, SrcRef, Box<NodeEV>, Box<NodeEV>),
    AsgE(AsgK, SrcRef, NodeLV, Box<NodeEV>),
    FnE(Seq<char>, ArgsV, BlockV),
}

pub ghost enum StmtV {
    ExprS(NodeEV),
    PrintS(NodeEV),
    IfS(NodeEV, BlockV),
    IfElseS(NodeEV, BlockV, BlockV),
    WhileS(NodeEV, BlockV),
    ForS(NodeSV, NodeEV, BlockV),
    DeclS(NodeSV, NodeEV),
    RetS(NodeEV),
}

// ------------------------------------------------------------------
// View functions from the executable tree
// ------------------------------------------------------------------

pub open spec fn sv(n: Node<String>) -> NodeSV {
    NodeSV { name: n.0@, span: n.1 }
}

pub open spec fn ev(n: Node<Expr>) -> NodeEV
    decreases n,
{
    NodeEV { e: eve(n.0), span: n.1 }
}

pub open spec fn eve(e: Expr) -> ExprV
    decreases e,
{
    match e {
        Expr::Nil => ExprV::NilV,
        Expr::LiteralNumber(s) => ExprV::NumV(s@),
        Expr::LiteralString(s) => ExprV::StrE(s@),
        Expr::LiteralChar(c) => ExprV::CharE(c),
        Expr::LiteralBoolean(b) => ExprV::BoolE(b),
        Expr::LiteralNull => ExprV::NullE,
        Expr::Ident(id) => ExprV::IdentV(sv(id)),
        Expr::List(items) => ExprV::ListE(vlist(items)),
        Expr::ListClone(item, count) => ExprV::ListCloneE(
            Box::new(ev(*item)),
            Box::new(ev(*count)),
        ),
        Expr::MapLit(items) => ExprV::MapE(vpairs(items)),
        Expr::Call(op, callee, args) => ExprV::CallE(op, Box::new(ev(*callee)), vlist(args)),
        Expr::DotAccess(op, b, id) => ExprV::DotE(op, Box::new(ev(*b)), sv(id)),
        Expr::Index(op, b, ix) => ExprV::IndexE(op, Box::new(ev(*b)), Box::new(ev(*ix))),
        Expr::UnaryNot(op, a) => ExprV::UnE(UnK::Not, op, Box::new(ev(*a))),
        Expr::UnaryNeg(op, a) => ExprV::UnE(UnK::Neg, op, Box::new(ev(*a))),
        Expr::UnaryInput(op, a) => ExprV::UnE(UnK::InputU, op, Box::new(ev(*a))),
        Expr::UnaryClone(op, a) => ExprV::UnE(UnK::CloneU, op, Box::new(ev(*a))),
        Expr::UnaryMirror(op, a) => ExprV::UnE(UnK::MirrorU, op, Box::new(ev(*a))),
        Expr::BinaryMul(op, l, r) => ExprV::BinE(BinK::Mul, op, Box::new(ev(*l)), Box::new(ev(*r))),
        Expr::BinaryDiv(op, l, r) => ExprV::BinE(BinK::Div, op, Box::new(ev(*l)), Box::new(ev(*r))),
        Expr::BinaryRem(op, l, r) => ExprV::BinE(BinK::Rem, op, Box::new(ev(*l)), Box::new(ev(*r))),
        Expr::BinaryAdd(op, l, r) => ExprV::BinE(BinK::Add, op, Box::new(ev(*l)), Box::new(ev(*r))),
        Expr::BinarySub(op, l, r) => ExprV::BinE(BinK::Sub, op, Box::new(ev(*l)), Box::new(ev(*r))),
        Expr::BinaryGreater(op, l, r) => ExprV::BinE(
            BinK::Gt,
            op,
            Box::new(ev(*l)),
            Box::new(ev(*r)),
        ),
        Expr::BinaryGreaterEq(op, l, r) => ExprV::BinE(
            BinK::Ge,
            op,
            Box::new(ev(*l)),
            Box::new(ev(*r)),
        ),
        Expr::BinaryLess(op, l, r) => ExprV::BinE(BinK::Lt, op, Box::new(ev(*l)), Box::new(ev(*r))),
        Expr::BinaryLessEq(op, l, r) => ExprV::BinE(
            BinK::Le,
            op,
            Box::new(ev(*l)),
            Box::new(ev(*r)),
        ),
        Expr::BinaryEq(op, l, r) => ExprV::BinE(BinK::EqB, op, Box::new(ev(*l)), Box::new(ev(*r))),
        Expr::BinaryNotEq(op, l, r) => ExprV::BinE(
            BinK::Ne,
            op,
            Box::new(ev(*l)),
            Box::new(ev(*r)),
        ),
        Expr::BinaryAnd(op, l, r) => ExprV::BinE(BinK::AndB, op, Box::new(ev(*l)), Box::new(ev(*r))),
        Expr::BinaryOr(op, l, r) => ExprV::BinE(BinK::OrB, op, Box::new(ev(*l)), Box::new(ev(*r))),
        Expr::BinaryXor(op, l, r) => ExprV::BinE(BinK::XorB, op, Box::new(ev(*l)), Box::new(ev(*r))),
        Expr::BinaryRange(op, l, r) => ExprV::BinE(
            BinK::RangeB,
            op,
            Box::new(ev(*l)),
            Box::new(ev(*r)),
        ),
        Expr::BinaryAs(op, l, r) => ExprV::BinE(BinK::Cast, op, Box::new(ev(*l)), Box::new(ev(*r))),
        Expr::BinaryAssign(op, t, r) => ExprV::AsgE(AsgK::SetA, op, lvv(t), Box::new(ev(*r))),
        Expr::BinaryAddAssign(op, t, r) => ExprV::AsgE(AsgK::AddA, op, lvv(t), Box::new(ev(*r))),
        Expr::BinarySubAssign(op, t, r) => ExprV::AsgE(AsgK::SubA, op, lvv(t), Box::new(ev(*r))),
        Expr::BinaryMulAssign(op, t, r) => ExprV::AsgE(AsgK::MulA, op, lvv(t), Box::new(ev(*r))),
        Expr::BinaryDivAssign(op, t, r) => ExprV::AsgE(AsgK::DivA, op, lvv(t), Box::new(ev(*r))),
        Expr::BinaryRemAssign(op, t, r) => ExprV::AsgE(AsgK::RemA, op, lvv(t), Box::new(ev(*r))),
        Expr::Fn(code, payload) => ExprV::FnE(code@, av(payload.0), bvv(payload.1)),
    }
}

pub open spec fn evl(s: Seq<Node<Expr>>) -> Seq<NodeEV>
    decreases s,
{
    if s.len() == 0 {
        Seq::empty()
    } else {
        evl(s.drop_last()).push(ev(s.last()))
    }
}

pub open spec fn evp(s: Seq<(Node<Expr>, Node<Expr>)>) -> Seq<(NodeEV, NodeEV)>
    decreases s,
{
    if s.len() == 0 {
        Seq::empty()
    } else {
        evp(s.drop_last()).push((ev(s.last().0), ev(s.last().1)))
    }
}

pub open spec fn vlist(n: Node<Vec<Node<Expr>>>) -> ListV
    decreases n,
{
    ListV { items: evl(n.0@), span: n.1 }
}

pub open spec fn vpairs(n: Node<Vec<(Node<Expr>, Node<Expr>)>>) -> PairsV
    decreases n,
{
    PairsV { items: evp(n.0@), span: n.1 }
}

pub open spec fn lvv(n: Node<LVal>) -> NodeLV
    decreases n,
{
    match n.0 {
        LVal::Local(id) => NodeLV { l: LValV::Local(sv(id)), span: n.1 },
        LVal::Index(b, ix) => NodeLV {
            l: LValV::IndexL(Box::new(ev(*b)), Box::new(ev(*ix))),
            span: n.1,
        },
    }
}

pub open spec fn av(n: Node<crate::ast::Args>) -> ArgsV {
    ArgsV { names: Seq::new(n.0.0@.len(), |k: int| sv(n.0.0@[k])), span: n.1 }
}

pub open spec fn tvl(s: Seq<Node<Stmt>>) -> Seq<NodeTV>
    decreases s,
{
    if s.len() == 0 {
        Seq::empty()
    } else {
        tvl(s.drop_last()).push(tv(s.last()))
    }
}

pub open spec fn bvv(n: Node<crate::ast::Block>) -> BlockV
    decreases n,
{
    BlockV { stmts: tvl(n.0.0@), span: n.1 }
}

pub open spec fn tv(n: Node<Stmt>) -> NodeTV
    decreases n,
{
    NodeTV {
        s: match n.0 {
            Stmt::Expr(e) => StmtV::ExprS(ev(e)),
            Stmt::Print(e) => StmtV::PrintS(ev(e)),
            Stmt::If(c, b) => StmtV::IfS(ev(c), bvv(b)),
            Stmt::IfElse(c, tb, fb) => StmtV::IfElseS(ev(c), bvv(tb), bvv(fb)),
            Stmt::While(c, b) => StmtV::WhileS(ev(c), bvv(b)),
            Stmt::For(id, e, b) => StmtV::ForS(sv(id), ev(e), bvv(b)),
            Stmt::Decl(id, e) => StmtV::DeclS(sv(id), ev(e)),
            Stmt::Return(e) => StmtV::RetS(ev(e)),
        },
        span: n.1,
    }
}

// ------------------------------------------------------------------
// Ghost view of errors, and the error algebra at view level
// ------------------------------------------------------------------

/// The view of a diagnostic: its anchor, reason (none for the neutral
/// placeholder) and breadcrumb trail.
pub ghost struct ErrV {
    pub at: SrcRef,
    pub reason: Option<Reason>,
    pub ctx: Seq<&'static str>,
}

pub open spec fn errv(e: ParseError) -> ErrV {
    ErrV { at: err_at(e), reason: err_reason(e), ctx: err_ctx(e) }
}

pub open spec fn ve_phoney() -> ErrV {
    ErrV { at: SrcRef::Empty, reason: None, ctx: Seq::empty() }
}

pub open spec fn ve_expected(want: Item, found: Item, at: SrcRef) -> ErrV {
    ErrV { at, reason: Some(Reason::Expected(want, found)), ctx: Seq::empty() }
}

pub open spec fn ve_not_lvalue(at: SrcRef) -> ErrV {
    ErrV { at, reason: Some(Reason::NotAnLValue), ctx: Seq::empty() }
}

pub open spec fn sev_v(v: ErrV) -> int {
    match v.reason {
        None => 0,
        Some(Reason::Expected(..)) => 1,
        Some(Reason::NotAnLValue) => 2,
    }
}

pub open spec fn pc_v(v: ErrV) -> int {
    if sev_v(v) == 0 {
        0
    } else {
        match v.at {
            SrcRef::Empty => 0,
            SrcRef::Range { .. } => 1,
            SrcRef::End => 2,
        }
    }
}

pub open spec fn pos_v(v: ErrV) -> crate::span::Pos {
    if sev_v(v) == 0 {
        crate::span::Pos { line: 0, col: 0 }
    } else {
        match v.at {
            SrcRef::Range { start, .. } => start,
            _ => crate::span::Pos { line: 0, col: 0 },
        }
    }
}

pub open spec fn key_lt_v(a: ErrV, b: ErrV) -> bool {
    sev_v(a) < sev_v(b) || (sev_v(a) == sev_v(b) && (pc_v(a) < pc_v(b) || (pc_v(a) == pc_v(b) && (
    pos_v(a).line < pos_v(b).line || (pos_v(a).line == pos_v(b).line && pos_v(a).col < pos_v(
        b,
    ).col)))))
}

/// The view-level merge, agreeing with `spec_merge` on views.
pub open spec fn ve_merge(a: ErrV, b: ErrV) -> ErrV {
    if key_lt_v(a, b) {
        b
    } else {
        a
    }
}

/// The view-level context wrap, agreeing with `while_parsing` on views.
pub open spec fn ve_wrap(v: ErrV, name: &'static str) -> ErrV {
    match v.reason {
        None => v,
        Some(_) => ErrV { at: v.at, reason: v.reason, ctx: v.ctx.push(name) },
    }
}

/// Merging then viewing is viewing then merging.
pub broadcast proof fn lemma_errv_merge(a: ParseError, b: ParseError)
    ensures
        #[trigger] errv(spec_merge(a, b)) == ve_merge(errv(a), errv(b)),
{
    assert(sev_v(errv(a)) == severity(a));
    assert(sev_v(errv(b)) == severity(b));
    assert(pc_v(errv(a)) == pos_class(a));
    assert(pc_v(errv(b)) == pos_class(b));
    assert(pos_v(errv(a)) == err_pos(a));
    assert(pos_v(errv(b)) == err_pos(b));
    assert(key_lt_v(errv(a), errv(b)) == key_lt(a, b));
}

// ------------------------------------------------------------------
// Parse outcomes
// ------------------------------------------------------------------

/// What a grammar function does on given input: fail with a diagnostic,
/// or succeed with the cursor landing at `next`, building `node`, and
/// carrying `err` as the best error met on the way.
pub ghost enum POut<T> {
    Fail(ErrV),
    Go { next: int, node: T, err: ErrV },
}

/// What a whole-input entry point does: fail, or produce a value with
/// the input exhausted.
pub ghost enum FOut<T> {
    FailF(ErrV),
    GoF(T),
}

/// The token the model reads at a position: the real token, or the
/// synthetic end-of-input token.
pub open spec fn sp_peek(t: Seq<Token>, i: int) -> Token {
    if 0 <= i < t.len() {
        t[i]
    } else {
        Token(Lexeme::Eof, SrcRef::End)
    }
}

/// The guard grounding the model's termination: a sub-parse starting at
/// `i` reported end position `j` within bounds.
pub open spec fn moved(i: int, j: int, len: int) -> bool {
    i < j && j <= len
}

// ------------------------------------------------------------------
// The grammar, as functions of the input
// ------------------------------------------------------------------

/// A sub-parse result usable as a base for further positions.
pub open spec fn within(i: int, j: int, len: int) -> bool {
    i <= j && j <= len
}

pub open spec fn sp_ident(t: Seq<Token>, i: int) -> POut<NodeSV> {
    match sp_peek(t, i) {
        Token(Lexeme::Ident(s), r) => POut::Go { next: i + 1, node: NodeSV { name: s@, span: r }, err: ve_phoney() },
        Token(l, r) => POut::Fail(ve_expected(Item::Ident, Item::Lexeme(l), r)),
    }
}

pub open spec fn sp_member(t: Seq<Token>, c: Seq<char>, i: int) -> POut<(SrcRef, NodeSV)>
    decreases t.len() - i, 1int,
{
    match sp_peek(t, i) {
        Token(Lexeme::Dot, dr) => match sp_ident(t, i + 1) {
            POut::Go { next, node, err: _ } => POut::Go { next, node: (dr, node), err: ve_phoney() },
            POut::Fail(e) => POut::Fail(e),
        },
        Token(l, r) => POut::Fail(ve_expected(Item::Lexeme(Lexeme::Dot), Item::Lexeme(l), r)),
    }
}

pub open spec fn sp_index(t: Seq<Token>, c: Seq<char>, i: int) -> POut<(SrcRef, NodeEV)>
    decreases t.len() - i, 1int,
{
    match sp_peek(t, i) {
        Token(Lexeme::LBrack, rs) => match sp_expr(t, c, i + 1) {
            POut::Fail(e) => POut::Fail(e),
            POut::Go { next: j, node: nd, err: me } => match sp_peek(t, j) {
                Token(Lexeme::RBrack, r) => POut::Go {
                    next: j + 1,
                    node: (nd.span.spec_union(rs).spec_union(r), nd),
                    err: me,
                },
                Token(l, r) => POut::Fail(
                    ve_merge(ve_expected(Item::Lexeme(Lexeme::RBrack), Item::Lexeme(l), r), me),
                ),
            },
        },
        Token(l, r) => POut::Fail(ve_expected(Item::Lexeme(Lexeme::LBrack), Item::Lexeme(l), r)),
    }
}

pub open spec fn sp_params(t: Seq<Token>, c: Seq<char>, i: int) -> POut<ListV>
    decreases t.len() - i, 1int,
{
    match sp_peek(t, i) {
        Token(Lexeme::LParen, rs) => match sp_paramlist(t, c, i + 1) {
            POut::Fail(e) => POut::Fail(e),
            POut::Go { next: j, node: lst, err: me } => match sp_peek(t, j) {
                Token(Lexeme::RParen, r) => POut::Go {
                    next: j + 1,
                    node: ListV { items: lst.items, span: lst.span.spec_union(rs).spec_union(r) },
                    err: me,
                },
                Token(l, r) => POut::Fail(
                    ve_merge(ve_expected(Item::Lexeme(Lexeme::RParen), Item::Lexeme(l), r), me),
                ),
            },
        },
        Token(l, r) => POut::Fail(ve_expected(Item::Lexeme(Lexeme::LParen), Item::Lexeme(l), r)),
    }
}

pub open spec fn sp_paren(t: Seq<Token>, c: Seq<char>, i: int) -> POut<NodeEV>
    decreases t.len() - i, 1int,
{
    match sp_peek(t, i) {
        Token(Lexeme::LParen, rs) => match sp_expr(t, c, i + 1) {
            POut::Fail(e) => POut::Fail(e),
            POut::Go { next: j, node: nd, err: me } => match sp_peek(t, j) {
                Token(Lexeme::RParen, r) => POut::Go {
                    next: j + 1,
                    node: NodeEV { e: nd.e, span: nd.span.spec_union(rs).spec_union(r) },
                    err: me,
                },
                Token(l, r) => POut::Fail(
                    ve_merge(ve_expected(Item::Lexeme(Lexeme::RParen), Item::Lexeme(l), r), me),
                ),
            },
        },
        Token(l, r) => POut::Fail(ve_expected(Item::Lexeme(Lexeme::LParen), Item::Lexeme(l), r)),
    }
}

pub open spec fn sp_fn(t: Seq<Token>, c: Seq<char>, i: int) -> POut<NodeEV>
    decreases t.len() - i, 1int,
{
    match sp_peek(t, i) {
        Token(Lexeme::Pipe, rs) => match sp_args(t, c, i + 1) {
            POut::Fail(e) => POut::Fail(ve_wrap(e, "function")),
            POut::Go { next: j, node: argsv, err: aerr } => if within(i, j, t.len() as int) {
                match sp_peek(t, j) {
                    Token(Lexeme::Pipe, rm) => match sp_block(t, c, j + 1) {
                        POut::Fail(e) => POut::Fail(ve_wrap(ve_merge(e, aerr), "function")),
                        POut::Go { next: k, node: blk, err: berr } => POut::Go {
                            next: k,
                            node: NodeEV {
                                e: ExprV::FnE(
                                    c,
                                    ArgsV {
                                        names: argsv.names,
                                        span: argsv.span.spec_union(rs).spec_union(rm),
                                    },
                                    blk,
                                ),
                                span: argsv.span.spec_union(rs).spec_union(rm).spec_union(blk.span),
                            },
                            err: ve_wrap(berr, "function"),
                        },
                    },
                    Token(l, r) => POut::Fail(
                        ve_wrap(
                            ve_merge(
                                ve_expected(Item::Lexeme(Lexeme::Pipe), Item::Lexeme(l), r),
                                aerr,
                            ),
                            "function",
                        ),
                    ),
                }
            } else {
                POut::Fail(ve_phoney())
            },
        },
        Token(l, r) => POut::Fail(
            ve_wrap(ve_expected(Item::Lexeme(Lexeme::Pipe), Item::Lexeme(l), r), "function"),
        ),
    }
}

pub open spec fn sp_list(t: Seq<Token>, c: Seq<char>, i: int) -> POut<NodeEV>
    decreases t.len() - i, 1int,
{
    match sp_peek(t, i) {
        Token(Lexeme::LBrack, rs) => match sp_paramlist(t, c, i + 1) {
            POut::Fail(e) => POut::Fail(ve_wrap(e, "list")),
            POut::Go { next: j, node: lst, err: me } => match sp_peek(t, j) {
                Token(Lexeme::RBrack, r) => POut::Go {
                    next: j + 1,
                    node: NodeEV {
                        e: ExprV::ListE(lst),
                        span: lst.span.spec_union(rs).spec_union(r),
                    },
                    err: ve_wrap(me, "list"),
                },
                Token(l, r) => POut::Fail(
                    ve_wrap(
                        ve_merge(ve_expected(Item::Lexeme(Lexeme::RBrack), Item::Lexeme(l), r), me),
                        "list",
                    ),
                ),
            },
        },
        Token(l, r) => POut::Fail(
            ve_wrap(ve_expected(Item::Lexeme(Lexeme::LBrack), Item::Lexeme(l), r), "list"),
        ),
    }
}

pub open spec fn sp_list_clone(t: Seq<Token>, c: Seq<char>, i: int) -> POut<NodeEV>
    decreases t.len() - i, 1int,
{
    match sp_peek(t, i) {
        Token(Lexeme::LBrack, rs) => match sp_expr(t, c, i + 1) {
            POut::Fail(e) => POut::Fail(ve_wrap(e, "list")),
            POut::Go { next: j, node: item, err: me1 } => if within(i, j, t.len() as int) {
                match sp_peek(t, j) {
                    Token(Lexeme::Semicolon, rm) => match sp_expr(t, c, j + 1) {
                        POut::Fail(e) => POut::Fail(ve_wrap(ve_merge(e, me1), "list")),
                        POut::Go { next: k, node: num, err: me2p } => match sp_peek(t, k) {
                            Token(Lexeme::RBrack, r) => POut::Go {
                                next: k + 1,
                                node: NodeEV {
                                    e: ExprV::ListCloneE(Box::new(item), Box::new(num)),
                                    span: item.span.spec_union(num.span).spec_union(rs).spec_union(
                                        rm,
                                    ).spec_union(r),
                                },
                                err: ve_wrap(ve_merge(me2p, me1), "list"),
                            },
                            Token(l, r) => POut::Fail(
                                ve_wrap(
                                    ve_merge(
                                        ve_expected(
                                            Item::Lexeme(Lexeme::RBrack),
                                            Item::Lexeme(l),
                                            r,
                                        ),
                                        ve_merge(me2p, me1),
                                    ),
                                    "list",
                                ),
                            ),
                        },
                    },
                    Token(l, r) => POut::Fail(
                        ve_wrap(
                            ve_merge(
                                ve_expected(Item::Lexeme(Lexeme::Semicolon), Item::Lexeme(l), r),
                                me1,
                            ),
                            "list",
                        ),
                    ),
                }
            } else {
                POut::Fail(ve_phoney())
            },
        },
        Token(l, r) => POut::Fail(
            ve_wrap(ve_expected(Item::Lexeme(Lexeme::LBrack), Item::Lexeme(l), r), "list"),
        ),
    }
}

pub open spec fn sp_map(t: Seq<Token>, c: Seq<char>, i: int) -> POut<NodeEV>
    decreases t.len() - i, 1int,
{
    match sp_peek(t, i) {
        Token(Lexeme::LBrack, rs) => match sp_maplist(t, c, i + 1) {
            POut::Fail(e) => POut::Fail(ve_wrap(e, "map")),
            POut::Go { next: j, node: prs, err: me } => match sp_peek(t, j) {
                Token(Lexeme::RBrack, r) => POut::Go {
                    next: j + 1,
                    node: NodeEV {
                        e: ExprV::MapE(prs),
                        span: prs.span.spec_union(rs).spec_union(r),
                    },
                    err: ve_wrap(me, "map"),
                },
                Token(l, r) => POut::Fail(
                    ve_wrap(
                        ve_merge(ve_expected(Item::Lexeme(Lexeme::RBrack), Item::Lexeme(l), r), me),
                        "map",
                    ),
                ),
            },
        },
        Token(l, r) => POut::Fail(
            ve_wrap(ve_expected(Item::Lexeme(Lexeme::LBrack), Item::Lexeme(l), r), "map"),
        ),
    }
}

pub open spec fn sp_args(t: Seq<Token>, c: Seq<char>, i: int) -> POut<ArgsV>
    decreases t.len() - i, 1int,
{
    match sp_peek(t, i) {
        Token(Lexeme::Ident(s), r) => sp_args_loop(
            t,
            i + 1,
            Seq::empty().push(NodeSV { name: s@, span: r }),
            SrcRef::Empty.spec_union(r),
        ),
        Token(l, r) => POut::Go {
            next: i,
            node: ArgsV { names: Seq::empty(), span: SrcRef::Empty },
            err: ve_merge(ve_expected(Item::Ident, Item::Lexeme(l), r), ve_phoney()),
        },
    }
}

pub open spec fn sp_args_loop(t: Seq<Token>, i: int, names: Seq<NodeSV>, total: SrcRef) -> POut<
    ArgsV,
>
    decreases t.len() - i, 0int,
{
    match sp_peek(t, i) {
        Token(Lexeme::Comma, r) => match sp_peek(t, i + 1) {
            Token(Lexeme::Ident(s), r2) => sp_args_loop(
                t,
                i + 2,
                names.push(NodeSV { name: s@, span: r2 }),
                total.spec_union(r).spec_union(r2),
            ),
            Token(l, r2) => POut::Go {
                next: i + 1,
                node: ArgsV { names, span: total.spec_union(r) },
                err: ve_merge(ve_expected(Item::Ident, Item::Lexeme(l), r2), ve_phoney()),
            },
        },
        Token(l, r) => POut::Go {
            next: i,
            node: ArgsV { names, span: total },
            err: ve_merge(ve_expected(Item::Lexeme(Lexeme::Comma), Item::Lexeme(l), r), ve_phoney()),
        },
    }
}

pub open spec fn sp_primary(t: Seq<Token>, c: Seq<char>, i: int) -> POut<NodeEV>
    decreases t.len() - i, 2int,
{
    match sp_peek(t, i) {
        Token(Lexeme::Number(x), r) => POut::Go {
            next: i + 1,
            node: NodeEV { e: ExprV::NumV(x@), span: r },
            err: ve_phoney(),
        },
        Token(Lexeme::Str(s), r) => POut::Go {
            next: i + 1,
            node: NodeEV { e: ExprV::StrE(s@), span: r },
            err: ve_phoney(),
        },
        Token(Lexeme::CharLit(ch), r) => POut::Go {
            next: i + 1,
            node: NodeEV { e: ExprV::CharE(ch), span: r },
            err: ve_phoney(),
        },
        Token(Lexeme::True, r) => POut::Go {
            next: i + 1,
            node: NodeEV { e: ExprV::BoolE(true), span: r },
            err: ve_phoney(),
        },
        Token(Lexeme::False, r) => POut::Go {
            next: i + 1,
            node: NodeEV { e: ExprV::BoolE(false), span: r },
            err: ve_phoney(),
        },
        Token(Lexeme::Null, r) => POut::Go {
            next: i + 1,
            node: NodeEV { e: ExprV::NullE, span: r },
            err: ve_phoney(),
        },
        Token(Lexeme::Ident(s), r) => POut::Go {
            next: i + 1,
            node: NodeEV { e: ExprV::IdentV(NodeSV { name: s@, span: r }), span: r },
            err: ve_phoney(),
        },
        Token(Lexeme::LParen, _r) => sp_paren(t, c, i),
        Token(Lexeme::Pipe, _r) => sp_fn(t, c, i),
        Token(Lexeme::LBrack, _r) => match sp_list(t, c, i) {
            POut::Go { next, node, err } => POut::Go { next, node, err },
            POut::Fail(e1) => match sp_list_clone(t, c, i) {
                POut::Go { next, node, err } => POut::Go { next, node, err },
                POut::Fail(e2p) => match sp_map(t, c, i) {
                    POut::Go { next, node, err } => POut::Go {
                        next,
                        node,
                        err: ve_merge(err, ve_merge(e2p, e1)),
                    },
                    POut::Fail(e3) => POut::Fail(ve_merge(e3, ve_merge(e2p, e1))),
                },
            },
        },
        Token(l, r) => POut::Fail(ve_expected(Item::Primary, Item::Lexeme(l), r)),
    }
}

pub open spec fn sp_access(t: Seq<Token>, c: Seq<char>, i: int) -> POut<NodeEV>
    decreases t.len() - i, 3int,
{
    match sp_primary(t, c, i) {
        POut::Fail(e) => POut::Fail(e),
        POut::Go { next: j, node, err } => if within(i, j, t.len() as int) {
            sp_access_loop(t, c, j, node, err)
        } else {
            POut::Fail(ve_phoney())
        },
    }
}

pub open spec fn sp_access_loop(t: Seq<Token>, c: Seq<char>, i: int, acc: NodeEV, accerr: ErrV)
    -> POut<NodeEV>
    decreases t.len() - i, 2int,
{
    match sp_member(t, c, i) {
        POut::Go { next: j, node: m, err: merr } => if moved(i, j, t.len() as int) {
            sp_access_loop(
                t,
                c,
                j,
                NodeEV {
                    e: ExprV::DotE(m.0, Box::new(acc), m.1),
                    span: acc.span.spec_union(m.1.span).spec_union(m.0),
                },
                ve_merge(merr, accerr),
            )
        } else {
            POut::Fail(ve_phoney())
        },
        POut::Fail(em) => {
            let a2 = ve_merge(em, accerr);
            match sp_index(t, c, i) {
                POut::Go { next: j, node: ix, err: ierr } => if moved(i, j, t.len() as int) {
                    sp_access_loop(
                        t,
                        c,
                        j,
                        NodeEV {
                            e: ExprV::IndexE(ix.0, Box::new(acc), Box::new(ix.1)),
                            span: acc.span.spec_union(ix.1.span).spec_union(ix.0),
                        },
                        ve_merge(ierr, a2),
                    )
                } else {
                    POut::Fail(ve_phoney())
                },
                POut::Fail(ei) => POut::Go { next: i, node: acc, err: ve_merge(ei, a2) },
            }
        },
    }
}

pub open spec fn sp_call(t: Seq<Token>, c: Seq<char>, i: int) -> POut<NodeEV>
    decreases t.len() - i, 4int,
{
    match sp_access(t, c, i) {
        POut::Fail(e) => POut::Fail(e),
        POut::Go { next: j, node, err } => if within(i, j, t.len() as int) {
            sp_call_loop(t, c, j, node, err)
        } else {
            POut::Fail(ve_phoney())
        },
    }
}

pub open spec fn sp_call_loop(t: Seq<Token>, c: Seq<char>, i: int, acc: NodeEV, accerr: ErrV)
    -> POut<NodeEV>
    decreases t.len() - i, 3int,
{
    match sp_params(t, c, i) {
        POut::Go { next: j, node: lst, err: perr } => if moved(i, j, t.len() as int) {
            sp_call_loop(
                t,
                c,
                j,
                NodeEV {
                    e: ExprV::CallE(lst.span, Box::new(acc), lst),
                    span: acc.span.spec_union(lst.span),
                },
                ve_merge(perr, accerr),
            )
        } else {
            POut::Fail(ve_phoney())
        },
        POut::Fail(e) => POut::Go { next: i, node: acc, err: ve_merge(e, accerr) },
    }
}

pub open spec fn sp_as(t: Seq<Token>, c: Seq<char>, i: int) -> POut<NodeEV>
    decreases t.len() - i, 5int,
{
    match sp_call(t, c, i) {
        POut::Fail(e) => POut::Fail(e),
        POut::Go { next: j, node, err } => if within(i, j, t.len() as int) {
            sp_as_loop(t, c, j, node, err)
        } else {
            POut::Fail(ve_phoney())
        },
    }
}

pub open spec fn sp_as_loop(t: Seq<Token>, c: Seq<char>, i: int, acc: NodeEV, accerr: ErrV) -> POut<
    NodeEV,
>
    decreases t.len() - i, 4int,
{
    match sp_peek(t, i) {
        Token(Lexeme::As, r) => match sp_call(t, c, i + 1) {
            POut::Fail(e) => POut::Fail(e),
            POut::Go { next: j, node: opnd, err } => if moved(i, j, t.len() as int) {
                sp_as_loop(
                    t,
                    c,
                    j,
                    NodeEV {
                        e: ExprV::BinE(BinK::Cast, r, Box::new(acc), Box::new(opnd)),
                        span: r.spec_union(acc.span).spec_union(opnd.span),
                    },
                    ve_merge(err, accerr),
                )
            } else {
                POut::Fail(ve_phoney())
            },
        },
        _ => POut::Go { next: i, node: acc, err: accerr },
    }
}

pub open spec fn sp_unary(t: Seq<Token>, c: Seq<char>, i: int) -> POut<NodeEV>
    decreases t.len() - i, 6int,
{
    match sp_peek(t, i) {
        Token(Lexeme::Bang, r) => match sp_as(t, c, i + 1) {
            POut::Fail(e) => POut::Fail(e),
            POut::Go { next: j, node: opnd, err } => POut::Go {
                next: j,
                node: NodeEV {
                    e: ExprV::UnE(UnK::Not, r, Box::new(opnd)),
                    span: r.spec_union(opnd.span),
                },
                err,
            },
        },
        Token(Lexeme::Minus, r) => match sp_as(t, c, i + 1) {
            POut::Fail(e) => POut::Fail(e),
            POut::Go { next: j, node: opnd, err } => POut::Go {
                next: j,
                node: NodeEV {
                    e: ExprV::UnE(UnK::Neg, r, Box::new(opnd)),
                    span: r.spec_union(opnd.span),
                },
                err,
            },
        },
        _ => sp_as(t, c, i),
    }
}

pub open spec fn sp_multiplication(t: Seq<Token>, c: Seq<char>, i: int) -> POut<NodeEV>
    decreases t.len() - i, 7int,
{
    match sp_unary(t, c, i) {
        POut::Fail(e) => POut::Fail(e),
        POut::Go { next: j, node, err } => if within(i, j, t.len() as int) {
            sp_mul_loop(t, c, j, node, err)
        } else {
            POut::Fail(ve_phoney())
        },
    }
}

pub open spec fn sp_mul_loop(t: Seq<Token>, c: Seq<char>, i: int, acc: NodeEV, accerr: ErrV)
    -> POut<NodeEV>
    decreases t.len() - i, 6int,
{
    match sp_peek(t, i) {
        Token(Lexeme::Star, r) => sp_fold_step(t, c, i, BinK::Mul, r, acc, accerr),
        Token(Lexeme::Slash, r) => sp_fold_step(t, c, i, BinK::Div, r, acc, accerr),
        Token(Lexeme::Percent, r) => sp_fold_step(t, c, i, BinK::Rem, r, acc, accerr),
        _ => POut::Go { next: i, node: acc, err: accerr },
    }
}

/// One fold step of a left-associative binary level: the operand comes
/// from the next tighter level for the operator's own level, and the
/// fold continues at that level's loop.
pub open spec fn sp_fold_step(
    t: Seq<Token>,
    c: Seq<char>,
    i: int,
    k: BinK,
    r: SrcRef,
    acc: NodeEV,
    accerr: ErrV,
) -> POut<NodeEV>
    decreases t.len() - i, 5int,
    when i < t.len() as int
{
    match sp_fold_operand(t, c, i + 1, k) {
        POut::Fail(e) => POut::Fail(e),
        POut::Go { next: j, node: opnd, err } => if moved(i, j, t.len() as int) {
            sp_fold_resume(
                t,
                c,
                j,
                k,
                NodeEV {
                    e: ExprV::BinE(k, r, Box::new(acc), Box::new(opnd)),
                    span: r.spec_union(acc.span).spec_union(opnd.span),
                },
                ve_merge(err, accerr),
            )
        } else {
            POut::Fail(ve_phoney())
        },
    }
}

/// The operand level of each binary operator kind.
pub open spec fn sp_fold_operand(t: Seq<Token>, c: Seq<char>, i: int, k: BinK) -> POut<NodeEV>
    decreases t.len() - i, 14int,
{
    match k {
        BinK::Mul | BinK::Div | BinK::Rem => sp_unary(t, c, i),
        BinK::Add | BinK::Sub => sp_multiplication(t, c, i),
        BinK::RangeB => sp_addition(t, c, i),
        BinK::Gt | BinK::Ge | BinK::Lt | BinK::Le => sp_mid_unary(t, c, i),
        BinK::EqB | BinK::Ne => sp_comparison(t, c, i),
        BinK::AndB | BinK::OrB | BinK::XorB => sp_equivalence(t, c, i),
        BinK::Cast => sp_call(t, c, i),
    }
}

/// The fold loop of each binary operator kind.
pub open spec fn sp_fold_resume(
    t: Seq<Token>,
    c: Seq<char>,
    i: int,
    k: BinK,
    acc: NodeEV,
    accerr: ErrV,
) -> POut<NodeEV>
    decreases t.len() - i, 15int,
{
    match k {
        BinK::Mul | BinK::Div | BinK::Rem => sp_mul_loop(t, c, i, acc, accerr),
        BinK::Add | BinK::Sub => sp_add_loop(t, c, i, acc, accerr),
        BinK::RangeB => sp_range_loop(t, c, i, acc, accerr),
        BinK::Gt | BinK::Ge | BinK::Lt | BinK::Le => sp_cmp_loop(t, c, i, acc, accerr),
        BinK::EqB | BinK::Ne => sp_eq_loop(t, c, i, acc, accerr),
        BinK::AndB | BinK::OrB | BinK::XorB => sp_logic_loop(t, c, i, acc, accerr),
        BinK::Cast => sp_as_loop(t, c, i, acc, accerr),
    }
}

pub open spec fn sp_addition(t: Seq<Token>, c: Seq<char>, i: int) -> POut<NodeEV>
    decreases t.len() - i, 8int,
{
    match sp_multiplication(t, c, i) {
        POut::Fail(e) => POut::Fail(e),
        POut::Go { next: j, node, err } => if within(i, j, t.len() as int) {
            sp_add_loop(t, c, j, node, err)
        } else {
            POut::Fail(ve_phoney())
        },
    }
}

pub open spec fn sp_add_loop(t: Seq<Token>, c: Seq<char>, i: int, acc: NodeEV, accerr: ErrV)
    -> POut<NodeEV>
    decreases t.len() - i, 6int,
{
    match sp_peek(t, i) {
        Token(Lexeme::Plus, r) => sp_fold_step(t, c, i, BinK::Add, r, acc, accerr),
        Token(Lexeme::Minus, r) => sp_fold_step(t, c, i, BinK::Sub, r, acc, accerr),
        _ => POut::Go { next: i, node: acc, err: accerr },
    }
}

pub open spec fn sp_high_binary(t: Seq<Token>, c: Seq<char>, i: int) -> POut<NodeEV>
    decreases t.len() - i, 9int,
{
    match sp_addition(t, c, i) {
        POut::Fail(e) => POut::Fail(e),
        POut::Go { next: j, node, err } => if within(i, j, t.len() as int) {
            sp_range_loop(t, c, j, node, err)
        } else {
            POut::Fail(ve_phoney())
        },
    }
}

pub open spec fn sp_range_loop(t: Seq<Token>, c: Seq<char>, i: int, acc: NodeEV, accerr: ErrV)
    -> POut<NodeEV>
    decreases t.len() - i, 6int,
{
    match sp_peek(t, i) {
        Token(Lexeme::DotDot, r) => sp_fold_step(t, c, i, BinK::RangeB, r, acc, accerr),
        _ => POut::Go { next: i, node: acc, err: accerr },
    }
}

pub open spec fn sp_mid_unary(t: Seq<Token>, c: Seq<char>, i: int) -> POut<NodeEV>
    decreases t.len() - i, 10int,
{
    match sp_peek(t, i) {
        Token(Lexeme::Input, r) => match sp_mid_unary(t, c, i + 1) {
            POut::Fail(e) => POut::Fail(e),
            POut::Go { next: j, node: opnd, err } => POut::Go {
                next: j,
                node: NodeEV {
                    e: ExprV::UnE(UnK::InputU, r, Box::new(opnd)),
                    span: r.spec_union(opnd.span),
                },
                err,
            },
        },
        Token(Lexeme::CloneOp, r) => match sp_mid_unary(t, c, i + 1) {
            POut::Fail(e) => POut::Fail(e),
            POut::Go { next: j, node: opnd, err } => POut::Go {
                next: j,
                node: NodeEV {
                    e: ExprV::UnE(UnK::CloneU, r, Box::new(opnd)),
                    span: r.spec_union(opnd.span),
                },
                err,
            },
        },
        Token(Lexeme::Mirror, r) => match sp_mid_unary(t, c, i + 1) {
            POut::Fail(e) => POut::Fail(e),
            POut::Go { next: j, node: opnd, err } => POut::Go {
                next: j,
                node: NodeEV {
                    e: ExprV::UnE(UnK::MirrorU, r, Box::new(opnd)),
                    span: r.spec_union(opnd.span),
                },
                err,
            },
        },
        _ => sp_high_binary(t, c, i),
    }
}

pub open spec fn sp_comparison(t: Seq<Token>, c: Seq<char>, i: int) -> POut<NodeEV>
    decreases t.len() - i, 11int,
{
    match sp_mid_unary(t, c, i) {
        POut::Fail(e) => POut::Fail(e),
        POut::Go { next: j, node, err } => if within(i, j, t.len() as int) {
            sp_cmp_loop(t, c, j, node, err)
        } else {
            POut::Fail(ve_phoney())
        },
    }
}

pub open spec fn sp_cmp_loop(t: Seq<Token>, c: Seq<char>, i: int, acc: NodeEV, accerr: ErrV)
    -> POut<NodeEV>
    decreases t.len() - i, 6int,
{
    match sp_peek(t, i) {
        Token(Lexeme::Greater, r) => sp_fold_step(t, c, i, BinK::Gt, r, acc, accerr),
        Token(Lexeme::GreaterEq, r) => sp_fold_step(t, c, i, BinK::Ge, r, acc, accerr),
        Token(Lexeme::Less, r) => sp_fold_step(t, c, i, BinK::Lt, r, acc, accerr),
        Token(Lexeme::LessEq, r) => sp_fold_step(t, c, i, BinK::Le, r, acc, accerr),
        _ => POut::Go { next: i, node: acc, err: accerr },
    }
}

pub open spec fn sp_equivalence(t: Seq<Token>, c: Seq<char>, i: int) -> POut<NodeEV>
    decreases t.len() - i, 12int,
{
    match sp_comparison(t, c, i) {
        POut::Fail(e) => POut::Fail(e),
        POut::Go { next: j, node, err } => if within(i, j, t.len() as int) {
            sp_eq_loop(t, c, j, node, err)
        } else {
            POut::Fail(ve_phoney())
        },
    }
}

pub open spec fn sp_eq_loop(t: Seq<Token>, c: Seq<char>, i: int, acc: NodeEV, accerr: ErrV) -> POut<
    NodeEV,
>
    decreases t.len() - i, 6int,
{
    match sp_peek(t, i) {
        Token(Lexeme::Eq, r) => sp_fold_step(t, c, i, BinK::EqB, r, acc, accerr),
        Token(Lexeme::BangEq, r) => sp_fold_step(t, c, i, BinK::Ne, r, acc, accerr),
        _ => POut::Go { next: i, node: acc, err: accerr },
    }
}

pub open spec fn sp_logical(t: Seq<Token>, c: Seq<char>, i: int) -> POut<NodeEV>
    decreases t.len() - i, 13int,
{
    match sp_equivalence(t, c, i) {
        POut::Fail(e) => POut::Fail(e),
        POut::Go { next: j, node, err } => if within(i, j, t.len() as int) {
            sp_logic_loop(t, c, j, node, err)
        } else {
            POut::Fail(ve_phoney())
        },
    }
}

pub open spec fn sp_logic_loop(t: Seq<Token>, c: Seq<char>, i: int, acc: NodeEV, accerr: ErrV)
    -> POut<NodeEV>
    decreases t.len() - i, 6int,
{
    match sp_peek(t, i) {
        Token(Lexeme::And, r) => sp_fold_step(t, c, i, BinK::AndB, r, acc, accerr),
        Token(Lexeme::Or, r) => sp_fold_step(t, c, i, BinK::OrB, r, acc, accerr),
        Token(Lexeme::Xor, r) => sp_fold_step(t, c, i, BinK::XorB, r, acc, accerr),
        _ => POut::Go { next: i, node: acc, err: accerr },
    }
}

/// The assignment target an expression reduces to, where it has an
/// assignable shape.
pub open spec fn sp_lval(nd: NodeEV) -> Option<NodeLV> {
    match nd.e {
        ExprV::IdentV(idv) => Some(NodeLV { l: LValV::Local(idv), span: nd.span }),
        ExprV::IndexE(_, b, ix) => Some(NodeLV { l: LValV::IndexL(b, ix), span: nd.span }),
        _ => None,
    }
}


/// The assignment kind an operator lexeme denotes.
pub open spec fn asg_kind(l: Lexeme) -> AsgK {
    match l {
        Lexeme::PlusEq => AsgK::AddA,
        Lexeme::MinusEq => AsgK::SubA,
        Lexeme::StarEq => AsgK::MulA,
        Lexeme::SlashEq => AsgK::DivA,
        Lexeme::PercentEq => AsgK::RemA,
        _ => AsgK::SetA,
    }
}


/// How the target reduction reads on views: exactly the identifier and
/// index shapes reduce, everything else does not.
pub proof fn lemma_sp_lval(n: Node<Expr>)
    ensures
        n.0 matches Expr::Ident(id) ==> sp_lval(ev(n)) == Some(
            NodeLV { l: LValV::Local(sv(id)), span: n.1 },
        ),
        n.0 matches Expr::Index(op, b, ix) ==> sp_lval(ev(n)) == Some(
            NodeLV { l: LValV::IndexL(Box::new(ev(*b)), Box::new(ev(*ix))), span: n.1 },
        ),
        !(n.0 is Ident) && !(n.0 is Index) ==> sp_lval(ev(n)) is None,
{
    match n.0 {
        Expr::Ident(_) => {},
        Expr::Index(_, _, _) => {},
        _ => {
            assert(!(eve(n.0) is IdentV) && !(eve(n.0) is IndexE));
        },
    }
}

pub open spec fn sp_assignment(t: Seq<Token>, c: Seq<char>, i: int) -> POut<NodeEV>
    decreases t.len() - i, 14int,
{
    match sp_logical(t, c, i) {
        POut::Fail(e) => POut::Fail(e),
        POut::Go { next: j, node: nd, err: maxe } => if within(i, j, t.len() as int) {
            match sp_peek(t, j) {
                Token(Lexeme::Assign, r) => sp_asg_step(t, c, j, AsgK::SetA, r, nd, maxe),
                Token(Lexeme::PlusEq, r) => sp_asg_step(t, c, j, AsgK::AddA, r, nd, maxe),
                Token(Lexeme::MinusEq, r) => sp_asg_step(t, c, j, AsgK::SubA, r, nd, maxe),
                Token(Lexeme::StarEq, r) => sp_asg_step(t, c, j, AsgK::MulA, r, nd, maxe),
                Token(Lexeme::SlashEq, r) => sp_asg_step(t, c, j, AsgK::DivA, r, nd, maxe),
                Token(Lexeme::PercentEq, r) => sp_asg_step(t, c, j, AsgK::RemA, r, nd, maxe),
                Token(l, r) => POut::Go {
                    next: j,
                    node: nd,
                    err: ve_merge(ve_expected(Item::Assignment, Item::Lexeme(l), r), maxe),
                },
            }
        } else {
            POut::Fail(ve_phoney())
        },
    }
}

/// One assignment step: the left operand must reduce to a target, the
/// right operand recurses back into the assignment level.
pub open spec fn sp_asg_step(
    t: Seq<Token>,
    c: Seq<char>,
    i: int,
    k: AsgK,
    r: SrcRef,
    nd: NodeEV,
    maxe: ErrV,
) -> POut<NodeEV>
    decreases t.len() - i, 13int,
    when i < t.len() as int
{
    match sp_lval(nd) {
        None => POut::Fail(ve_merge(ve_not_lvalue(nd.span), maxe)),
        Some(lv) => match sp_assignment(t, c, i + 1) {
            POut::Fail(e) => POut::Fail(e),
            POut::Go { next: m, node: rhs, err } => POut::Go {
                next: m,
                node: NodeEV {
                    e: ExprV::AsgE(k, r, lv, Box::new(rhs)),
                    span: r.spec_union(nd.span).spec_union(rhs.span),
                },
                err: ve_merge(err, maxe),
            },
        },
    }
}

pub open spec fn sp_expr(t: Seq<Token>, c: Seq<char>, i: int) -> POut<NodeEV>
    decreases t.len() - i, 15int,
{
    match sp_assignment(t, c, i) {
        POut::Go { next, node, err } => POut::Go { next, node, err },
        POut::Fail(e1) => match sp_logical(t, c, i) {
            POut::Go { next, node, err } => POut::Go { next, node, err: ve_merge(err, e1) },
            POut::Fail(e2) => POut::Fail(ve_merge(ve_wrap(e2, "expression"), e1)),
        },
    }
}

pub open spec fn sp_paramlist(t: Seq<Token>, c: Seq<char>, i: int) -> POut<ListV>
    decreases t.len() - i, 17int,
{
    sp_paramlist_loop(t, c, i, Seq::empty(), SrcRef::Empty, ve_phoney())
}

pub open spec fn sp_paramlist_loop(
    t: Seq<Token>,
    c: Seq<char>,
    i: int,
    items: Seq<NodeEV>,
    total: SrcRef,
    accerr: ErrV,
) -> POut<ListV>
    decreases t.len() - i, 16int,
{
    match sp_expr(t, c, i) {
        POut::Fail(e) => POut::Go {
            next: i,
            node: ListV { items, span: total },
            err: ve_merge(e, accerr),
        },
        POut::Go { next: j, node: nd, err } => if moved(i, j, t.len() as int) {
            match sp_peek(t, j) {
                Token(Lexeme::Comma, r) => sp_paramlist_loop(
                    t,
                    c,
                    j + 1,
                    items.push(nd),
                    total.spec_union(nd.span).spec_union(r),
                    ve_merge(err, accerr),
                ),
                Token(l, r) => POut::Go {
                    next: j,
                    node: ListV { items: items.push(nd), span: total.spec_union(nd.span) },
                    err: ve_merge(
                        ve_expected(Item::Lexeme(Lexeme::Comma), Item::Lexeme(l), r),
                        ve_merge(err, accerr),
                    ),
                },
            }
        } else {
            POut::Fail(ve_phoney())
        },
    }
}

pub open spec fn sp_maplist(t: Seq<Token>, c: Seq<char>, i: int) -> POut<PairsV>
    decreases t.len() - i, 17int,
{
    sp_maplist_loop(t, c, i, Seq::empty(), SrcRef::Empty, ve_phoney())
}

pub open spec fn sp_maplist_loop(
    t: Seq<Token>,
    c: Seq<char>,
    i: int,
    items: Seq<(NodeEV, NodeEV)>,
    total: SrcRef,
    accerr: ErrV,
) -> POut<PairsV>
    decreases t.len() - i, 16int,
{
    match sp_expr(t, c, i) {
        POut::Fail(e) => POut::Go {
            next: i,
            node: PairsV { items, span: total },
            err: ve_merge(e, accerr),
        },
        POut::Go { next: j, node: key, err: kerr } => if moved(i, j, t.len() as int) {
            match sp_peek(t, j) {
                Token(Lexeme::Colon, rc) => match sp_expr(t, c, j + 1) {
                    POut::Fail(e) => POut::Go {
                        next: i,
                        node: PairsV {
                            items,
                            span: total.spec_union(key.span).spec_union(rc),
                        },
                        err: ve_merge(e, ve_merge(kerr, accerr)),
                    },
                    POut::Go { next: k, node: val, err: verr } => if moved(j, k, t.len() as int) {
                        match sp_peek(t, k) {
                            Token(Lexeme::Comma, r2) => sp_maplist_loop(
                                t,
                                c,
                                k + 1,
                                items.push((key, val)),
                                total.spec_union(key.span).spec_union(rc).spec_union(
                                    val.span,
                                ).spec_union(r2),
                                ve_merge(verr, ve_merge(kerr, accerr)),
                            ),
                            Token(l, r2) => POut::Go {
                                next: k,
                                node: PairsV {
                                    items: items.push((key, val)),
                                    span: total.spec_union(key.span).spec_union(rc).spec_union(
                                        val.span,
                                    ),
                                },
                                err: ve_merge(
                                    ve_expected(Item::Lexeme(Lexeme::Comma), Item::Lexeme(l), r2),
                                    ve_merge(verr, ve_merge(kerr, accerr)),
                                ),
                            },
                        }
                    } else {
                        POut::Fail(ve_phoney())
                    },
                },
                Token(l, rc) => POut::Go {
                    next: i,
                    node: PairsV { items, span: total.spec_union(key.span) },
                    err: ve_merge(
                        ve_expected(Item::Lexeme(Lexeme::Colon), Item::Lexeme(l), rc),
                        ve_merge(kerr, accerr),
                    ),
                },
            }
        } else {
            POut::Fail(ve_phoney())
        },
    }
}

pub open spec fn sp_expr_stmt(t: Seq<Token>, c: Seq<char>, i: int) -> POut<NodeTV>
    decreases t.len() - i, 18int,
{
    match sp_expr(t, c, i) {
        POut::Fail(e) => POut::Fail(ve_wrap(e, "expression statement")),
        POut::Go { next: j, node: nd, err: me } => match sp_peek(t, j) {
            Token(Lexeme::Semicolon, r) => POut::Go {
                next: j + 1,
                node: NodeTV { s: StmtV::ExprS(nd), span: nd.span.spec_union(r) },
                err: me,
            },
            Token(l, r) => POut::Fail(
                ve_wrap(
                    ve_merge(ve_expected(Item::Lexeme(Lexeme::Semicolon), Item::Lexeme(l), r), me),
                    "expression statement",
                ),
            ),
        },
    }
}

pub open spec fn sp_print_stmt(t: Seq<Token>, c: Seq<char>, i: int) -> POut<NodeTV>
    decreases t.len() - i, 18int,
{
    match sp_peek(t, i) {
        Token(Lexeme::Print, rs) => match sp_expr(t, c, i + 1) {
            POut::Fail(e) => POut::Fail(ve_wrap(e, "print statement")),
            POut::Go { next: j, node: nd, err: me } => match sp_peek(t, j) {
                Token(Lexeme::Semicolon, r) => POut::Go {
                    next: j + 1,
                    node: NodeTV {
                        s: StmtV::PrintS(nd),
                        span: nd.span.spec_union(rs).spec_union(r),
                    },
                    err: me,
                },
                Token(l, r) => POut::Fail(
                    ve_merge(
                        ve_wrap(
                            ve_expected(Item::Lexeme(Lexeme::Semicolon), Item::Lexeme(l), r),
                            "print statement",
                        ),
                        me,
                    ),
                ),
            },
        },
        Token(l, r) => POut::Fail(
            ve_wrap(ve_expected(Item::Lexeme(Lexeme::Print), Item::Lexeme(l), r), "print statement"),
        ),
    }
}

pub open spec fn sp_return_stmt(t: Seq<Token>, c: Seq<char>, i: int) -> POut<NodeTV>
    decreases t.len() - i, 18int,
{
    match sp_peek(t, i) {
        Token(Lexeme::Return, rs) => match sp_expr(t, c, i + 1) {
            POut::Fail(e) => POut::Fail(ve_wrap(e, "return statement")),
            POut::Go { next: j, node: nd, err: me } => match sp_peek(t, j) {
                Token(Lexeme::Semicolon, r) => POut::Go {
                    next: j + 1,
                    node: NodeTV {
                        s: StmtV::RetS(nd),
                        span: nd.span.spec_union(rs).spec_union(r),
                    },
                    err: me,
                },
                Token(l, r) => POut::Fail(
                    ve_wrap(
                        ve_merge(
                            ve_expected(Item::Lexeme(Lexeme::Semicolon), Item::Lexeme(l), r),
                            me,
                        ),
                        "return statement",
                    ),
                ),
            },
        },
        Token(l, r) => POut::Fail(
            ve_wrap(
                ve_expected(Item::Lexeme(Lexeme::Return), Item::Lexeme(l), r),
                "return statement",
            ),
        ),
    }
}

pub open spec fn sp_if_else_stmt(t: Seq<Token>, c: Seq<char>, i: int) -> POut<NodeTV>
    decreases t.len() - i, 18int,
{
    match sp_peek(t, i) {
        Token(Lexeme::If, rs) => match sp_expr(t, c, i + 1) {
            POut::Fail(e) => POut::Fail(ve_wrap(e, "if-else statement")),
            POut::Go { next: j, node: cnd, err: me1 } => if within(i, j, t.len() as int) {
                match sp_block(t, c, j) {
                    POut::Fail(e) => POut::Fail(ve_wrap(ve_merge(e, me1), "if-else statement")),
                    POut::Go { next: k, node: tb, err: be } => if within(j, k, t.len() as int) {
                        let me2 = ve_merge(be, me1);
                        match sp_peek(t, k) {
                            Token(Lexeme::Else, re) => match sp_block(t, c, k + 1) {
                                POut::Fail(e) => POut::Fail(
                                    ve_wrap(ve_merge(e, me2), "if-else statement"),
                                ),
                                POut::Go { next: m, node: fb, err: be2 } => POut::Go {
                                    next: m,
                                    node: NodeTV {
                                        s: StmtV::IfElseS(cnd, tb, fb),
                                        span: cnd.span.spec_union(rs).spec_union(
                                            tb.span,
                                        ).spec_union(re).spec_union(fb.span),
                                    },
                                    err: ve_wrap(ve_merge(be2, me2), "if-else statement"),
                                },
                            },
                            Token(l, r) => POut::Go {
                                next: k,
                                node: NodeTV {
                                    s: StmtV::IfS(cnd, tb),
                                    span: cnd.span.spec_union(rs).spec_union(tb.span),
                                },
                                err: ve_wrap(
                                    ve_merge(
                                        ve_expected(Item::Lexeme(Lexeme::Else), Item::Lexeme(l), r),
                                        me2,
                                    ),
                                    "if-else statement",
                                ),
                            },
                        }
                    } else {
                        POut::Fail(ve_phoney())
                    },
                }
            } else {
                POut::Fail(ve_phoney())
            },
        },
        Token(l, r) => POut::Fail(
            ve_wrap(ve_expected(Item::Lexeme(Lexeme::If), Item::Lexeme(l), r), "if-else statement"),
        ),
    }
}

pub open spec fn sp_while_stmt(t: Seq<Token>, c: Seq<char>, i: int) -> POut<NodeTV>
    decreases t.len() - i, 18int,
{
    match sp_peek(t, i) {
        Token(Lexeme::While, rs) => match sp_expr(t, c, i + 1) {
            POut::Fail(e) => POut::Fail(ve_wrap(e, "while statement")),
            POut::Go { next: j, node: cnd, err: me } => if within(i, j, t.len() as int) {
                match sp_block(t, c, j) {
                    POut::Fail(e) => POut::Fail(ve_wrap(ve_merge(e, me), "while statement")),
                    POut::Go { next: k, node: blk, err: be } => POut::Go {
                        next: k,
                        node: NodeTV {
                            s: StmtV::WhileS(cnd, blk),
                            span: cnd.span.spec_union(rs).spec_union(blk.span),
                        },
                        err: ve_wrap(ve_merge(be, me), "while statement"),
                    },
                }
            } else {
                POut::Fail(ve_phoney())
            },
        },
        Token(l, r) => POut::Fail(
            ve_wrap(ve_expected(Item::Lexeme(Lexeme::While), Item::Lexeme(l), r), "while statement"),
        ),
    }
}

pub open spec fn sp_for_stmt(t: Seq<Token>, c: Seq<char>, i: int) -> POut<NodeTV>
    decreases t.len() - i, 18int,
{
    match sp_peek(t, i) {
        Token(Lexeme::For, rs) => match sp_ident(t, i + 1) {
            POut::Fail(e) => POut::Fail(ve_wrap(e, "for statement")),
            POut::Go { next: j, node: idv, err: _ } => if within(i, j, t.len() as int) {
                match sp_peek(t, j) {
                    Token(Lexeme::In, rm) => match sp_expr(t, c, j + 1) {
                        POut::Fail(e) => POut::Fail(ve_wrap(e, "for statement")),
                        POut::Go { next: k, node: itx, err: me } => if within(j, k, t.len() as int) {
                            match sp_block(t, c, k) {
                                POut::Fail(e) => POut::Fail(
                                    ve_wrap(ve_merge(e, me), "for statement"),
                                ),
                                POut::Go { next: m, node: blk, err: be } => POut::Go {
                                    next: m,
                                    node: NodeTV {
                                        s: StmtV::ForS(idv, itx, blk),
                                        span: itx.span.spec_union(rs).spec_union(
                                            idv.span,
                                        ).spec_union(rm).spec_union(blk.span),
                                    },
                                    err: ve_wrap(ve_merge(be, me), "for statement"),
                                },
                            }
                        } else {
                            POut::Fail(ve_phoney())
                        },
                    },
                    Token(l, r) => POut::Fail(
                        ve_wrap(
                            ve_expected(Item::Lexeme(Lexeme::In), Item::Lexeme(l), r),
                            "for statement",
                        ),
                    ),
                }
            } else {
                POut::Fail(ve_phoney())
            },
        },
        Token(l, r) => POut::Fail(
            ve_wrap(ve_expected(Item::Lexeme(Lexeme::For), Item::Lexeme(l), r), "for statement"),
        ),
    }
}

pub open spec fn sp_decl_stmt(t: Seq<Token>, c: Seq<char>, i: int) -> POut<NodeTV>
    decreases t.len() - i, 18int,
{
    match sp_peek(t, i) {
        Token(Lexeme::Var, rs) => match sp_ident(t, i + 1) {
            POut::Fail(e) => POut::Fail(ve_wrap(e, "variable declaration")),
            POut::Go { next: j, node: idv, err: _ } => if within(i, j, t.len() as int) {
                match sp_peek(t, j) {
                    Token(Lexeme::Assign, ra) => match sp_expr(t, c, j + 1) {
                        POut::Fail(e) => POut::Fail(ve_wrap(e, "variable declaration")),
                        POut::Go { next: k, node: vx, err: me } => match sp_peek(t, k) {
                            Token(Lexeme::Semicolon, r) => POut::Go {
                                next: k + 1,
                                node: NodeTV {
                                    s: StmtV::DeclS(idv, vx),
                                    span: vx.span.spec_union(rs).spec_union(idv.span).spec_union(
                                        ra,
                                    ).spec_union(r),
                                },
                                err: me,
                            },
                            Token(l, r) => POut::Fail(
                                ve_wrap(
                                    ve_merge(
                                        ve_expected(
                                            Item::Lexeme(Lexeme::Semicolon),
                                            Item::Lexeme(l),
                                            r,
                                        ),
                                        me,
                                    ),
                                    "variable declaration",
                                ),
                            ),
                        },
                    },
                    Token(l, r) => POut::Fail(
                        ve_wrap(
                            ve_expected(Item::Lexeme(Lexeme::Assign), Item::Lexeme(l), r),
                            "variable declaration",
                        ),
                    ),
                }
            } else {
                POut::Fail(ve_phoney())
            },
        },
        Token(l, r) => POut::Fail(
            ve_wrap(
                ve_expected(Item::Lexeme(Lexeme::Var), Item::Lexeme(l), r),
                "variable declaration",
            ),
        ),
    }
}

pub open spec fn sp_stmt(t: Seq<Token>, c: Seq<char>, i: int) -> POut<NodeTV>
    decreases t.len() - i, 19int,
{
    match sp_expr_stmt(t, c, i) {
        POut::Go { next, node, err } => POut::Go { next, node, err },
        POut::Fail(e1) => match sp_print_stmt(t, c, i) {
            POut::Go { next, node, err } => POut::Go { next, node, err: ve_merge(err, e1) },
            POut::Fail(e2p) => {
                let m2 = ve_merge(e2p, e1);
                match sp_if_else_stmt(t, c, i) {
                    POut::Go { next, node, err } => POut::Go {
                        next,
                        node,
                        err: ve_merge(err, m2),
                    },
                    POut::Fail(e3p) => {
                        let m3 = ve_merge(e3p, m2);
                        match sp_while_stmt(t, c, i) {
                            POut::Go { next, node, err } => POut::Go {
                                next,
                                node,
                                err: ve_merge(err, m3),
                            },
                            POut::Fail(e4p) => {
                                let m4 = ve_merge(e4p, m3);
                                match sp_for_stmt(t, c, i) {
                                    POut::Go { next, node, err } => POut::Go {
                                        next,
                                        node,
                                        err: ve_merge(err, m4),
                                    },
                                    POut::Fail(e5p) => {
                                        let m5 = ve_merge(e5p, m4);
                                        match sp_decl_stmt(t, c, i) {
                                            POut::Go { next, node, err } => POut::Go {
                                                next,
                                                node,
                                                err: ve_merge(err, m5),
                                            },
                                            POut::Fail(e6p) => {
                                                let m6 = ve_merge(e6p, m5);
                                                match sp_return_stmt(t, c, i) {
                                                    POut::Go { next, node, err } => POut::Go {
                                                        next,
                                                        node,
                                                        err: ve_merge(err, m6),
                                                    },
                                                    POut::Fail(e7p) => {
                                                        let m7 = ve_merge(e7p, m6);
                                                        POut::Fail(
                                                            ve_merge(
                                                                ve_expected(
                                                                    Item::Stmt,
                                                                    Item::Lexeme(sp_peek(t, i).0),
                                                                    sp_peek(t, i).1,
                                                                ),
                                                                m7,
                                                            ),
                                                        )
                                                    },
                                                }
                                            },
                                        }
                                    },
                                }
                            },
                        }
                    },
                }
            },
        },
    }
}

pub open spec fn sp_stmts(t: Seq<Token>, c: Seq<char>, i: int) -> POut<Seq<NodeTV>>
    decreases t.len() - i, 21int,
{
    sp_stmts_loop(t, c, i, Seq::empty(), ve_phoney())
}

pub open spec fn sp_stmts_loop(t: Seq<Token>, c: Seq<char>, i: int, acc: Seq<NodeTV>, accerr: ErrV)
    -> POut<Seq<NodeTV>>
    decreases t.len() - i, 20int,
{
    match sp_stmt(t, c, i) {
        POut::Fail(e) => POut::Go { next: i, node: acc, err: ve_merge(e, accerr) },
        POut::Go { next: j, node: s, err } => if moved(i, j, t.len() as int) {
            sp_stmts_loop(t, c, j, acc.push(s), ve_merge(err, accerr))
        } else {
            POut::Fail(ve_phoney())
        },
    }
}

/// The left fold of the first `k` statement spans.
pub open spec fn sp_span_fold(ss: Seq<NodeTV>, k: int) -> SrcRef
    decreases k,
{
    if k <= 0 {
        SrcRef::Empty
    } else {
        sp_span_fold(ss, k - 1).spec_union(ss[k - 1].span)
    }
}

pub open spec fn sp_block(t: Seq<Token>, c: Seq<char>, i: int) -> POut<BlockV>
    decreases t.len() - i, 1int,
{
    match sp_peek(t, i) {
        Token(Lexeme::LBrace, rs) => match sp_stmts(t, c, i + 1) {
            POut::Fail(e) => POut::Fail(e),
            POut::Go { next: j, node: ss, err: me } => match sp_peek(t, j) {
                Token(Lexeme::RBrace, r) => POut::Go {
                    next: j + 1,
                    node: BlockV {
                        stmts: ss,
                        span: sp_span_fold(ss, ss.len() as int).spec_union(rs).spec_union(r),
                    },
                    err: me,
                },
                Token(l, r) => POut::Fail(
                    ve_merge(ve_expected(Item::Lexeme(Lexeme::RBrace), Item::Lexeme(l), r), me),
                ),
            },
        },
        Token(l, r) => POut::Fail(ve_expected(Item::Lexeme(Lexeme::LBrace), Item::Lexeme(l), r)),
    }
}

pub open spec fn sp_expr_full(t: Seq<Token>, c: Seq<char>, i: int) -> FOut<ExprV>
    decreases t.len() - i, 22int,
{
    match sp_expr(t, c, i) {
        POut::Fail(e) => if i >= t.len() as int {
            FOut::GoF(ExprV::NilV)
        } else {
            FOut::FailF(e)
        },
        POut::Go { next: j, node: nd, err: me } => if j >= t.len() as int {
            FOut::GoF(nd.e)
        } else {
            FOut::FailF(
                ve_merge(
                    ve_expected(Item::End, Item::Lexeme(sp_peek(t, j).0), sp_peek(t, j).1),
                    me,
                ),
            )
        },
    }
}

pub open spec fn sp_stmts_full(t: Seq<Token>, c: Seq<char>, i: int) -> FOut<Seq<NodeTV>>
    decreases t.len() - i, 22int,
{
    match sp_stmts(t, c, i) {
        POut::Fail(e) => FOut::FailF(e),
        POut::Go { next: j, node: ss, err: me } => if j >= t.len() as int {
            FOut::GoF(ss)
        } else {
            FOut::FailF(
                ve_merge(
                    ve_expected(Item::End, Item::Lexeme(sp_peek(t, j).0), sp_peek(t, j).1),
                    me,
                ),
            )
        },
    }
}

// ------------------------------------------------------------------
// How an executable result matches its model
// ------------------------------------------------------------------

/// A grammar function returning an expression node matches its model:
/// failure and the diagnostic, or success with the landing position, the
/// node's view and the accumulator, all fixed.
pub open spec fn m_expr<'a>(
    r: ParseResult<(Node<Expr>, ParseError)>,
    post: ParseCtx<'a>,
    m: POut<NodeEV>,
) -> bool {
    match m {
        POut::Fail(ve) => r matches Err(e) && errv(e) == ve,
        POut::Go { next, node, err } => r matches Ok((n, ea)) && post.pos as int == next && ev(n)
            == node && errv(ea) == err,
    }
}

pub open spec fn m_member<'a>(
    r: ParseResult<(SrcRef, Node<String>, ParseError)>,
    post: ParseCtx<'a>,
    m: POut<(SrcRef, NodeSV)>,
) -> bool {
    match m {
        POut::Fail(ve) => r matches Err(e) && errv(e) == ve,
        POut::Go { next, node, err } => r matches Ok((dr, id, ea)) && post.pos as int == next && dr
            == node.0 && sv(id) == node.1 && errv(ea) == err,
    }
}

pub open spec fn m_index<'a>(
    r: ParseResult<(SrcRef, Node<Expr>, ParseError)>,
    post: ParseCtx<'a>,
    m: POut<(SrcRef, NodeEV)>,
) -> bool {
    match m {
        POut::Fail(ve) => r matches Err(e) && errv(e) == ve,
        POut::Go { next, node, err } => r matches Ok((sp, n, ea)) && post.pos as int == next && sp
            == node.0 && ev(n) == node.1 && errv(ea) == err,
    }
}

pub open spec fn m_list<'a>(
    r: ParseResult<(Node<Vec<Node<Expr>>>, ParseError)>,
    post: ParseCtx<'a>,
    m: POut<ListV>,
) -> bool {
    match m {
        POut::Fail(ve) => r matches Err(e) && errv(e) == ve,
        POut::Go { next, node, err } => r matches Ok((n, ea)) && post.pos as int == next && vlist(n)
            == node && errv(ea) == err,
    }
}

pub open spec fn m_pairs<'a>(
    r: ParseResult<(Node<Vec<(Node<Expr>, Node<Expr>)>>, ParseError)>,
    post: ParseCtx<'a>,
    m: POut<PairsV>,
) -> bool {
    match m {
        POut::Fail(ve) => r matches Err(e) && errv(e) == ve,
        POut::Go { next, node, err } => r matches Ok((n, ea)) && post.pos as int == next && vpairs(n)
            == node && errv(ea) == err,
    }
}

pub open spec fn m_args<'a>(
    r: ParseResult<(Node<crate::ast::Args>, ParseError)>,
    post: ParseCtx<'a>,
    m: POut<ArgsV>,
) -> bool {
    match m {
        POut::Fail(ve) => r matches Err(e) && errv(e) == ve,
        POut::Go { next, node, err } => r matches Ok((n, ea)) && post.pos as int == next && av(n)
            == node && errv(ea) == err,
    }
}

pub open spec fn m_stmt<'a>(
    r: ParseResult<(Node<Stmt>, ParseError)>,
    post: ParseCtx<'a>,
    m: POut<NodeTV>,
) -> bool {
    match m {
        POut::Fail(ve) => r matches Err(e) && errv(e) == ve,
        POut::Go { next, node, err } => r matches Ok((n, ea)) && post.pos as int == next && tv(n)
            == node && errv(ea) == err,
    }
}

pub open spec fn m_stmts<'a>(
    r: ParseResult<(Vec<Node<Stmt>>, ParseError)>,
    post: ParseCtx<'a>,
    m: POut<Seq<NodeTV>>,
) -> bool {
    match m {
        POut::Fail(ve) => r matches Err(e) && errv(e) == ve,
        POut::Go { next, node, err } => r matches Ok((v, ea)) && post.pos as int == next && tvl(v@)
            == node && errv(ea) == err,
    }
}

pub open spec fn m_block<'a>(
    r: ParseResult<(Node<crate::ast::Block>, ParseError)>,
    post: ParseCtx<'a>,
    m: POut<BlockV>,
) -> bool {
    match m {
        POut::Fail(ve) => r matches Err(e) && errv(e) == ve,
        POut::Go { next, node, err } => r matches Ok((n, ea)) && post.pos as int == next && bvv(n)
            == node && errv(ea) == err,
    }
}

pub open spec fn m_expr_full(r: ParseResult<Expr>, m: FOut<ExprV>) -> bool {
    match m {
        FOut::FailF(ve) => r matches Err(e) && errv(e) == ve,
        FOut::GoF(v) => r matches Ok(x) && eve(x) == v,
    }
}

pub open spec fn m_stmts_full(r: ParseResult<Vec<Node<Stmt>>>, m: FOut<Seq<NodeTV>>) -> bool {
    match m {
        FOut::FailF(ve) => r matches Err(e) && errv(e) == ve,
        FOut::GoF(ss) => r matches Ok(v) && tvl(v@) == ss,
    }
}

/// Viewing a pushed element distributes over the list view.
pub proof fn lemma_evl_push(s: Seq<Node<Expr>>, x: Node<Expr>)
    ensures
        evl(s.push(x)) == evl(s).push(ev(x)),
{
    assert(s.push(x).drop_last() =~= s);
    assert(s.push(x).last() == x);
}

/// Viewing a pushed pair distributes over the pair-list view.
pub proof fn lemma_evp_push(s: Seq<(Node<Expr>, Node<Expr>)>, x: (Node<Expr>, Node<Expr>))
    ensures
        evp(s.push(x)) == evp(s).push((ev(x.0), ev(x.1))),
{
    assert(s.push(x).drop_last() =~= s);
    assert(s.push(x).last() == x);
}

/// Viewing a pushed statement distributes over the statement-list view.
pub proof fn lemma_tvl_push(s: Seq<Node<Stmt>>, x: Node<Stmt>)
    ensures
        tvl(s.push(x)) == tvl(s).push(tv(x)),
{
    assert(s.push(x).drop_last() =~= s);
    assert(s.push(x).last() == x);
}

/// The statement-list view keeps length and per-index views.
pub proof fn lemma_tvl_props(s: Seq<Node<Stmt>>)
    ensures
        tvl(s).len() == s.len(),
        forall|k: int| 0 <= k < s.len() ==> tvl(s)[k] == tv(#[trigger] s[k]),
    decreases s.len(),
{
    if s.len() > 0 {
        lemma_tvl_props(s.drop_last());
        assert(forall|k: int|
            0 <= k < s.len() - 1 ==> s.drop_last()[k] == #[trigger] s[k]);
    }
}

} // verus!
