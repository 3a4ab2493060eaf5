//! The parse engine: a cursor over the token stream and the ladder of
//! mutually recursive grammar functions, loosest-binding first.
//!
//! Every grammar function obeys one discipline: the token sequence is
//! never changed, the cursor only moves forward, a failing attempt leaves
//! the cursor exactly where it started (so the next alternative starts
//! from the original position), a successful attempt consumes at least
//! one token, every node built has a span covering all of its children,
//! and an error surfaced to the caller is never the neutral placeholder.
//! Termination is by the pair (tokens left, grammar rank): a call either
//! strictly consumes input or moves to a tighter-binding grammar level.

use vstd::prelude::*;
use std::rc::Rc;
use crate::span::SrcRef;
use crate::token::{Lexeme, Token, dup_token};
use crate::ast::{
    Node,
    Expr,
    Stmt,
    Block,
    Args,
    expr_node_ok,
    expr_ok,
    exprs_node_ok,
    pairs_node_ok,
    args_node_ok,
    stmt_node_ok,
    block_node_ok,
    lemma_expr_widen,
    lemma_exprs_widen,
    lemma_args_widen,
};
use crate::error::{Item, ParseError, ParseResult, Reason, err_at, err_reason, expected, is_expected};
use crate::model::{
    m_expr,
    m_member,
    m_index,
    m_list,
    m_pairs,
    m_args,
    m_stmt,
    m_stmts,
    m_block,
    m_expr_full,
    m_stmts_full,
    ev,
    eve,
    errv,
    sv,
    av,
    tvl,
    evl,
    evp,
    vlist,
    vpairs,
    bvv,
    POut,
};

verus! {

broadcast use crate::model::lemma_errv_merge;

/// The most tokens one parse accepts.  The grammar functions recurse at
/// most a fixed number of levels per token consumed, so bounding the
/// input bounds the call stack: deliberate hardening against deeply
/// nested input exhausting it.
pub const MAX_TOKENS: usize = 65536;

/// A lexer never hands the parser a real end-of-input token: that token
/// is synthesized by the cursor itself, past the last real one.
pub open spec fn tokens_wf(tokens: Seq<Token>) -> bool {
    forall|i: int| 0 <= i < tokens.len() ==> !((#[trigger] tokens[i]).0 is Eof)
}

/// The parser's cursor: a position into the immutable token sequence plus
/// a shared handle to the original source text.  Backtracking snapshots
/// and restores the position; the tokens themselves are never copied.
pub struct ParseCtx<'a> {
    pub tokens: &'a Vec<Token>,
    pub pos: usize,
    pub code: Rc<String>,
}

/// Relies on Rc::clone: returns another handle to the same string,
/// without copying the text.
#[verifier::external_body]
fn clone_code(c: &Rc<String>) -> (r: Rc<String>)
    ensures
        r == *c,
{
    Rc::clone(c)
}

impl<'a> ParseCtx<'a> {
    /// The cursor never points past the end of the token sequence, the
    /// sequence holds only real tokens, and the input is within the
    /// documented size bound (see `MAX_TOKENS`).
    pub open spec fn wf(self) -> bool {
        self.pos <= self.tokens@.len() && self.tokens@.len() <= MAX_TOKENS && tokens_wf(
            self.tokens@,
        )
    }

    /// The token under the cursor, or the end-of-input sentinel.
    pub open spec fn spec_peek(self) -> Token {
        if self.pos < self.tokens@.len() {
            self.tokens@[self.pos as int]
        } else {
            Token(Lexeme::Eof, SrcRef::End)
        }
    }

    /// The token at an arbitrary cursor position.
    pub open spec fn spec_peek_at(self, i: int) -> Token {
        if 0 <= i < self.tokens@.len() {
            self.tokens@[i]
        } else {
            Token(Lexeme::Eof, SrcRef::End)
        }
    }

    /// How every grammar function moves the cursor: the input is never
    /// changed, and the position only moves forward, staying in bounds.
    pub open spec fn steps_to(self, post: ParseCtx<'a>) -> bool {
        post.tokens@ == self.tokens@ && post.code == self.code && self.pos <= post.pos && post.pos
            <= post.tokens@.len()
    }

    /// Builds a cursor over a lexed token sequence.  A caller must keep
    /// to the input bound `MAX_TOKENS`: recursion depth during a parse is
    /// linear in the tokens consumed, so the bound is what keeps a
    /// pathologically nested input from exhausting the call stack.
    pub fn new(tokens: &'a Vec<Token>, code: Rc<String>) -> (r: ParseCtx<'a>)
        requires
            tokens_wf(tokens@),
            tokens@.len() <= MAX_TOKENS,
        ensures
            r.tokens@ == tokens@,
            r.pos == 0,
            r.code == code,
            r.wf(),
    {
        ParseCtx { tokens, pos: 0, code }
    }

    /// The span of the token under the cursor, or the end sentinel.
    pub fn src_ref(&self) -> (r: SrcRef)
        ensures
            r == self.spec_peek().1,
    {
        if self.pos < self.tokens.len() {
            self.tokens[self.pos].1
        } else {
            SrcRef::End
        }
    }

    /// The token under the cursor, without consuming it; a synthetic
    /// end-of-input token past the last real one.
    pub fn peek(&self) -> (t: Token)
        ensures
            t == self.spec_peek(),
    {
        if self.pos < self.tokens.len() {
            dup_token(&self.tokens[self.pos])
        } else {
            Token(Lexeme::Eof, SrcRef::End)
        }
    }

    /// Consumes one token, where one is left.
    pub fn advance(&mut self)
        requires
            old(self).wf(),
        ensures
            final(self).tokens@ == old(self).tokens@,
            final(self).code == old(self).code,
            final(self).wf(),
            final(self).pos == if old(self).pos < old(self).tokens@.len() {
                old(self).pos + 1
            } else {
                old(self).pos as int
            },
    {
        if self.pos < self.tokens.len() {
            self.pos = self.pos + 1;
        }
    }

    /// Reads one identifier token, or fails without moving the cursor.
    pub fn read_ident(&mut self) -> (r: ParseResult<Node<String>>)
        requires
            old(self).wf(),
        ensures
            old(self).steps_to(*final(self)),
            final(self).wf(),
            r is Err ==> final(self).pos == old(self).pos,
            r matches Err(e) ==> e is Diag,
            old(self).spec_peek().0 matches Lexeme::Ident(s) ==> r == Ok::<_, ParseError>(
                Node(s, old(self).spec_peek().1),
            ) && final(self).pos == old(self).pos + 1,
            !(old(self).spec_peek().0 is Ident) ==> (r matches Err(e) && is_expected(
                e,
                Item::Ident,
                Item::Lexeme(old(self).spec_peek().0),
                old(self).spec_peek().1,
            )),
    {
        match self.peek() {
            Token(Lexeme::Ident(s), r) => {
                self.advance();
                Ok(Node(s, r))
            },
            Token(l, r) => Err(expected(Item::Ident, Item::Lexeme(l), r)),
        }
    }

    /// Reads a `.ident` member access suffix: the dot's span, the member
    /// name, and the neutral accumulator.
    #[verifier::spinoff_prover]
    #[verifier::rlimit(100)]
    pub fn read_member(&mut self) -> (r: ParseResult<(SrcRef, Node<String>, ParseError)>)
        requires
            old(self).wf(),
        ensures
            old(self).steps_to(*final(self)),
            final(self).wf(),
            r is Err ==> final(self).pos == old(self).pos,
            r matches Err(e) ==> e is Diag,
            r is Ok ==> old(self).pos < final(self).pos,
            m_member(
                r,
                *final(self),
                crate::model::sp_member(old(self).tokens@, old(self).code@, old(self).pos as int),
            ),
    {
        let entry_pos: usize = self.pos;
        let dot_r = match self.peek() {
            Token(Lexeme::Dot, r) => {
                self.advance();
                r
            },
            Token(l, r) => {
                return Err(expected(Item::Lexeme(Lexeme::Dot), Item::Lexeme(l), r));
            },
        };
        match self.read_ident() {
            Ok(id) => Ok((dot_r, id, ParseError::phoney())),
            Err(e) => {
                self.pos = entry_pos;
                Err(e)
            },
        }
    }

    /// Reads a comma-separated argument-name list, greedily; never fails.
    /// The returned error is the best reason the list stopped growing.
    #[verifier::spinoff_prover]
    #[verifier::rlimit(100)]
    #[verifier::loop_isolation(false)]
    pub fn read_args(&mut self) -> (r: ParseResult<(Node<Args>, ParseError)>)
        requires
            old(self).wf(),
        ensures
            old(self).steps_to(*final(self)),
            final(self).wf(),
            r is Ok,
            r matches Ok((a, e)) ==> args_node_ok(a),
            m_args(
                r,
                *final(self),
                crate::model::sp_args(old(self).tokens@, old(self).code@, old(self).pos as int),
            ),
    {
        let mut args: Vec<Node<String>> = Vec::new();
        let mut r_total = SrcRef::empty();
        let mut max_err = ParseError::Phoney;

        match self.peek() {
            Token(Lexeme::Ident(s), r) => {
                self.advance();
                proof {
                    crate::span::lemma_union_covers(r_total, r);
                }
                r_total = r_total.union(&r);
                args.push(Node(s, r));
                proof {
                    assert(Seq::new(args@.len(), |k: int| sv(args@[k]))
                        =~= Seq::<crate::model::NodeSV>::empty().push(sv(args@[0])));
                }
            },
            Token(l, r) => {
                let node = Node(Args(args), r_total);
                proof {
                    assert(crate::model::av(node).names =~= Seq::<crate::model::NodeSV>::empty());
                }
                return Ok((node, expected(Item::Ident, Item::Lexeme(l), r).merge(max_err)));
            },
        }

        loop
            invariant
                old(self).steps_to(*self),
                self.wf(),
                old(self).pos < self.pos,
                forall|j: int| 0 <= j < args@.len() ==> r_total.covers((#[trigger] args@[j]).1),
                crate::model::sp_args_loop(
                    old(self).tokens@,
                    self.pos as int,
                    Seq::new(args@.len(), |k: int| sv(args@[k])),
                    r_total,
                ) == crate::model::sp_args(
                    old(self).tokens@,
                    old(self).code@,
                    old(self).pos as int,
                ),
            decreases self.tokens@.len() - self.pos,
        {
            match self.peek() {
                Token(Lexeme::Comma, r) => {
                    self.advance();
                    proof {
                        assert forall|j: int|
                            0 <= j < args@.len() implies r_total.spec_union(r).covers(
                            (#[trigger] args@[j]).1,
                        ) by {
                            crate::span::lemma_union_covers_mono(r_total, r, args@[j].1);
                        }
                    }
                    r_total = r_total.union(&r);
                },
                Token(l, r) => {
                    let ghost gargs = args@;
                    let node = Node(Args(args), r_total);
                    proof {
                        assert(crate::model::av(node).names =~= Seq::new(
                            gargs.len(),
                            |k: int| sv(gargs[k]),
                        ));
                    }
                    return Ok(
                        (
                            node,
                            expected(Item::Lexeme(Lexeme::Comma), Item::Lexeme(l), r).merge(
                                max_err,
                            ),
                        ),
                    );
                },
            }

            match self.peek() {
                Token(Lexeme::Ident(s), r) => {
                    self.advance();
                    proof {
                        assert forall|j: int|
                            0 <= j < args@.len() implies r_total.spec_union(r).covers(
                            (#[trigger] args@[j]).1,
                        ) by {
                            crate::span::lemma_union_covers_mono(r_total, r, args@[j].1);
                        }
                        crate::span::lemma_union_covers(r_total, r);
                    }
                    let ghost prev = args@;
                    r_total = r_total.union(&r);
                    args.push(Node(s, r));
                    proof {
                        assert(Seq::new(args@.len(), |k: int| sv(args@[k])) =~= Seq::new(
                            prev.len(),
                            |k: int| sv(prev[k]),
                        ).push(sv(args@.last())));
                    }
                },
                Token(l, r) => {
                    let ghost gargs = args@;
                    let node = Node(Args(args), r_total);
                    proof {
                        assert(crate::model::av(node).names =~= Seq::new(
                            gargs.len(),
                            |k: int| sv(gargs[k]),
                        ));
                    }
                    return Ok((node, expected(Item::Ident, Item::Lexeme(l), r).merge(max_err)));
                },
            }
        }
    }

    /// Reads one primary expression: a literal, an identifier, a
    /// parenthesized expression, a function literal, or one of the three
    /// bracket-prefixed forms, tried in the order list, list-repeat, map.
    #[verifier::spinoff_prover]
    #[verifier::rlimit(100)]
    fn read_primary(&mut self) -> (r: ParseResult<(Node<Expr>, ParseError)>)
        requires
            old(self).wf(),
        ensures
            old(self).steps_to(*final(self)),
            final(self).wf(),
            r is Err ==> final(self).pos == old(self).pos,
            r matches Err(e) ==> e is Diag,
            r is Ok ==> old(self).pos < final(self).pos,
            r matches Ok((n, e)) ==> expr_node_ok(n),
            m_expr(
                r,
                *final(self),
                crate::model::sp_primary(old(self).tokens@, old(self).code@, old(self).pos as int),
            ),
        decreases old(self).tokens@.len() - old(self).pos, 2int,
    {
        let expr: Node<Expr> = match self.peek() {
            Token(Lexeme::Number(x), r) => Node(Expr::LiteralNumber(x), r),
            Token(Lexeme::Str(s), r) => Node(Expr::LiteralString(s), r),
            Token(Lexeme::CharLit(c), r) => Node(Expr::LiteralChar(c), r),
            Token(Lexeme::True, r) => Node(Expr::LiteralBoolean(true), r),
            Token(Lexeme::False, r) => Node(Expr::LiteralBoolean(false), r),
            Token(Lexeme::Null, r) => Node(Expr::LiteralNull, r),
            Token(Lexeme::Ident(s), r) => Node(Expr::Ident(Node(s, r)), r),
            Token(Lexeme::LParen, _r) => {
                return self.read_paren_expr();
            },
            Token(Lexeme::Pipe, _r) => {
                return self.read_fn_expr();
            },
            Token(Lexeme::LBrack, _r) => {
                // Try a list first, then a list-repeat, then a map; each
                // failed trial leaves the cursor untouched, and the best
                // error of all three survives.
                let max_err = match self.read_list_expr() {
                    Ok((expr, err)) => {
                        return Ok((expr, err));
                    },
                    Err(err) => err,
                };

                let max_err = match self.read_list_clone_expr() {
                    Ok((expr, err)) => {
                        return Ok((expr, err));
                    },
                    Err(err) => err.merge(max_err),
                };

                return match self.read_map_expr() {
                    Ok((expr, err)) => Ok((expr, err.merge(max_err))),
                    Err(err) => Err(err.merge(max_err)),
                };
            },
            Token(l, r) => {
                return Err(expected(Item::Primary, Item::Lexeme(l), r));
            },
        };
        self.advance();
        Ok((expr, ParseError::phoney()))
    }

    /// Folds member-access and index suffixes onto a primary expression,
    /// in whatever order they appear.
    #[verifier::spinoff_prover]
    #[verifier::rlimit(100)]
    #[verifier::loop_isolation(false)]
    fn read_access(&mut self) -> (r: ParseResult<(Node<Expr>, ParseError)>)
        requires
            old(self).wf(),
        ensures
            old(self).steps_to(*final(self)),
            final(self).wf(),
            r is Err ==> final(self).pos == old(self).pos,
            r matches Err(e) ==> e is Diag,
            r is Ok ==> old(self).pos < final(self).pos,
            r matches Ok((n, e)) ==> expr_node_ok(n),
            m_expr(
                r,
                *final(self),
                crate::model::sp_access(old(self).tokens@, old(self).code@, old(self).pos as int),
            ),
        decreases old(self).tokens@.len() - old(self).pos, 3int,
    {
        let (mut expr, mut max_err) = self.read_primary()?;

        loop
            invariant
                old(self).steps_to(*self),
                self.wf(),
                old(self).pos < self.pos,
                expr_node_ok(expr),
                crate::model::sp_access_loop(
                    old(self).tokens@,
                    old(self).code@,
                    self.pos as int,
                    ev(expr),
                    errv(max_err),
                ) == crate::model::sp_access(old(self).tokens@, old(self).code@, old(self).pos as int),
            decreases self.tokens@.len() - self.pos,
        {
            match self.read_member() {
                Ok((dot_r, id, err)) => {
                    let r_union = expr.1.union(&id.1).union(&dot_r);
                    expr = Node(Expr::DotAccess(dot_r, Box::new(expr), id), r_union);
                    max_err = err.merge(max_err);
                    continue ;
                },
                Err(err) => {
                    max_err = err.merge(max_err);
                },
            }

            match self.read_index() {
                Ok((brack_r, index_expr, err)) => {
                    let r_union = expr.1.union(&index_expr.1).union(&brack_r);
                    expr = Node(
                        Expr::Index(brack_r, Box::new(expr), Box::new(index_expr)),
                        r_union,
                    );
                    max_err = err.merge(max_err);
                },
                Err(err) => {
                    max_err = err.merge(max_err);
                    return Ok((expr, max_err));
                },
            }
        }
    }

    /// Folds call-argument suffixes onto an access expression.
    #[verifier::spinoff_prover]
    #[verifier::rlimit(100)]
    #[verifier::loop_isolation(false)]
    fn read_call(&mut self) -> (r: ParseResult<(Node<Expr>, ParseError)>)
        requires
            old(self).wf(),
        ensures
            old(self).steps_to(*final(self)),
            final(self).wf(),
            r is Err ==> final(self).pos == old(self).pos,
            r matches Err(e) ==> e is Diag,
            r is Ok ==> old(self).pos < final(self).pos,
            r matches Ok((n, e)) ==> expr_node_ok(n),
            m_expr(
                r,
                *final(self),
                crate::model::sp_call(old(self).tokens@, old(self).code@, old(self).pos as int),
            ),
        decreases old(self).tokens@.len() - old(self).pos, 4int,
    {
        let (mut expr, mut max_err) = self.read_access()?;

        loop
            invariant
                old(self).steps_to(*self),
                self.wf(),
                old(self).pos < self.pos,
                expr_node_ok(expr),
                crate::model::sp_call_loop(
                    old(self).tokens@,
                    old(self).code@,
                    self.pos as int,
                    ev(expr),
                    errv(max_err),
                ) == crate::model::sp_call(old(self).tokens@, old(self).code@, old(self).pos as int),
            decreases self.tokens@.len() - self.pos,
        {
            match self.read_params() {
                Ok((args_node, err)) => {
                    let params_r = args_node.1;
                    let r_union = expr.1.union(&params_r);
                    expr = Node(Expr::Call(params_r, Box::new(expr), args_node), r_union);
                    max_err = err.merge(max_err);
                },
                Err(err) => {
                    return Ok((expr, err.merge(max_err)));
                },
            }
        }
    }

    /// One fold step of the cast level, entered on an `as` token.
    #[verifier::spinoff_prover]
    #[verifier::rlimit(100)]
    fn read_as_step(
        &mut self,
        expr: Node<Expr>,
        max_err: ParseError,
        entry_pos: usize,
    ) -> (r: ParseResult<(Node<Expr>, ParseError)>)
        requires
            old(self).wf(),
            entry_pos <= old(self).pos,
            expr_node_ok(expr),
            old(self).spec_peek().0 is As,
        ensures
            final(self).tokens@ == old(self).tokens@,
            final(self).code == old(self).code,
            final(self).wf(),
            r is Err ==> final(self).pos == entry_pos,
            r matches Err(e) ==> e is Diag,
            r is Ok ==> old(self).pos < final(self).pos,
            r matches Ok((n, e)) ==> expr_node_ok(n),
            r matches Ok((n2, e2)) ==> crate::model::sp_as_loop(
                old(self).tokens@,
                old(self).code@,
                old(self).pos as int,
                ev(expr),
                errv(max_err),
            ) == crate::model::sp_as_loop(
                old(self).tokens@,
                old(self).code@,
                final(self).pos as int,
                ev(n2),
                errv(e2),
            ),
            r matches Err(e) ==> crate::model::sp_as_loop(
                old(self).tokens@,
                old(self).code@,
                old(self).pos as int,
                ev(expr),
                errv(max_err),
            ) == crate::model::POut::<crate::model::NodeEV>::Fail(errv(e)),
        decreases old(self).tokens@.len() - old(self).pos, 4int,
    {
        match self.peek() {
            Token(Lexeme::As, r) => {
                self.advance();
                match self.read_call() {
                    Ok((operand, err)) => {
                        let r_union = r.union(&expr.1).union(&operand.1);
                        Ok(
                            (
                                Node(Expr::BinaryAs(r, Box::new(expr), Box::new(operand)), r_union),
                                err.merge(max_err),
                            ),
                        )
                    },
                    Err(e) => {
                        self.pos = entry_pos;
                        Err(e)
                    },
                }
            },
            Token(_l, _r) => {
                proof {
                    assert(false);
                }
                self.pos = entry_pos;
                Err(ParseError::phoney())
            },
        }
    }

    /// Folds left-associative `as` casts onto a call expression.
    #[verifier::rlimit(100)]
    #[verifier::spinoff_prover]
    #[verifier::loop_isolation(false)]
    fn read_as(&mut self) -> (r: ParseResult<(Node<Expr>, ParseError)>)
        requires
            old(self).wf(),
        ensures
            old(self).steps_to(*final(self)),
            final(self).wf(),
            r is Err ==> final(self).pos == old(self).pos,
            r matches Err(e) ==> e is Diag,
            r is Ok ==> old(self).pos < final(self).pos,
            r matches Ok((n, e)) ==> expr_node_ok(n),
            m_expr(
                r,
                *final(self),
                crate::model::sp_as(old(self).tokens@, old(self).code@, old(self).pos as int),
            ),
        decreases old(self).tokens@.len() - old(self).pos, 5int,
    {
        let entry_pos: usize = self.pos;
        let (mut expr, mut max_err) = self.read_call()?;

        loop
            invariant
                old(self).steps_to(*self),
                self.wf(),
                old(self).pos < self.pos,
                entry_pos == old(self).pos,
                expr_node_ok(expr),
                crate::model::sp_as_loop(
                    old(self).tokens@,
                    old(self).code@,
                    self.pos as int,
                    ev(expr),
                    errv(max_err),
                ) == crate::model::sp_as(old(self).tokens@, old(self).code@, old(self).pos as int),
            decreases self.tokens@.len() - self.pos,
        {
            match self.peek() {
                Token(Lexeme::As, _r) => {
                    match self.read_as_step(expr, max_err, entry_pos) {
                        Ok((n2, e2)) => {
                            expr = n2;
                            max_err = e2;
                        },
                        Err(e) => {
                            return Err(e);
                        },
                    }
                },
                _ => {
                    return Ok((expr, max_err));
                },
            }
        }
    }

    /// One prefix step of the tight unary level, entered on `!` or a
    /// unary `-`.
    #[verifier::rlimit(100)]
    #[verifier::spinoff_prover]
    fn read_unary_step(&mut self) -> (r: ParseResult<(Node<Expr>, ParseError)>)
        requires
            old(self).wf(),
            old(self).spec_peek().0 is Bang || old(self).spec_peek().0 is Minus,
        ensures
            old(self).steps_to(*final(self)),
            final(self).wf(),
            r is Err ==> final(self).pos == old(self).pos,
            r matches Err(e) ==> e is Diag,
            r is Ok ==> old(self).pos < final(self).pos,
            r matches Ok((n, e)) ==> expr_node_ok(n),
            m_expr(
                r,
                *final(self),
                crate::model::sp_unary(old(self).tokens@, old(self).code@, old(self).pos as int),
            ),
        decreases old(self).tokens@.len() - old(self).pos, 5int,
    {
        let entry_pos: usize = self.pos;
        match self.peek() {
            Token(Lexeme::Bang, r) => {
                self.advance();
                match self.read_as() {
                    Ok((operand, err)) => {
                        let r_union = r.union(&operand.1);
                        Ok((Node(Expr::UnaryNot(r, Box::new(operand)), r_union), err))
                    },
                    Err(e) => {
                        self.pos = entry_pos;
                        Err(e)
                    },
                }
            },
            Token(Lexeme::Minus, r) => {
                self.advance();
                match self.read_as() {
                    Ok((operand, err)) => {
                        let r_union = r.union(&operand.1);
                        Ok((Node(Expr::UnaryNeg(r, Box::new(operand)), r_union), err))
                    },
                    Err(e) => {
                        self.pos = entry_pos;
                        Err(e)
                    },
                }
            },
            Token(_l, _r) => {
                proof {
                    assert(false);
                }
                Err(ParseError::phoney())
            },
        }
    }

    /// Reads the tight prefix operators `!` and unary `-`.
    #[verifier::rlimit(100)]
    #[verifier::spinoff_prover]
    fn read_unary(&mut self) -> (r: ParseResult<(Node<Expr>, ParseError)>)
        requires
            old(self).wf(),
        ensures
            old(self).steps_to(*final(self)),
            final(self).wf(),
            r is Err ==> final(self).pos == old(self).pos,
            r matches Err(e) ==> e is Diag,
            r is Ok ==> old(self).pos < final(self).pos,
            r matches Ok((n, e)) ==> expr_node_ok(n),
            m_expr(
                r,
                *final(self),
                crate::model::sp_unary(old(self).tokens@, old(self).code@, old(self).pos as int),
            ),
        decreases old(self).tokens@.len() - old(self).pos, 6int,
    {
        match self.peek() {
            Token(Lexeme::Bang, _r) | Token(Lexeme::Minus, _r) => self.read_unary_step(),
            _ => self.read_as(),
        }
    }

    /// One fold step of the multiplication level, entered on one of its
    /// operator tokens.
    #[verifier::spinoff_prover]
    #[verifier::rlimit(100)]
    fn read_mul_step(
        &mut self,
        expr: Node<Expr>,
        max_err: ParseError,
        entry_pos: usize,
    ) -> (r: ParseResult<(Node<Expr>, ParseError)>)
        requires
            old(self).wf(),
            entry_pos <= old(self).pos,
            expr_node_ok(expr),
            old(self).spec_peek().0 is Star || old(self).spec_peek().0 is Slash || old(
                self,
            ).spec_peek().0 is Percent,
        ensures
            final(self).tokens@ == old(self).tokens@,
            final(self).code == old(self).code,
            final(self).wf(),
            r is Err ==> final(self).pos == entry_pos,
            r matches Err(e) ==> e is Diag,
            r is Ok ==> old(self).pos < final(self).pos,
            r matches Ok((n, e)) ==> expr_node_ok(n),
            r matches Ok((n2, e2)) ==> crate::model::sp_mul_loop(
                old(self).tokens@,
                old(self).code@,
                old(self).pos as int,
                ev(expr),
                errv(max_err),
            ) == crate::model::sp_mul_loop(
                old(self).tokens@,
                old(self).code@,
                final(self).pos as int,
                ev(n2),
                errv(e2),
            ),
            r matches Err(e) ==> crate::model::sp_mul_loop(
                old(self).tokens@,
                old(self).code@,
                old(self).pos as int,
                ev(expr),
                errv(max_err),
            ) == crate::model::POut::<crate::model::NodeEV>::Fail(errv(e)),
        decreases old(self).tokens@.len() - old(self).pos, 6int,
    {
        let ghost pre = *self;
        match self.peek() {
            Token(Lexeme::Star, r) => {
                proof {
                    assert(crate::model::sp_mul_loop(
                        pre.tokens@,
                        pre.code@,
                        pre.pos as int,
                        ev(expr),
                        errv(max_err),
                    ) == crate::model::sp_fold_step(
                        pre.tokens@,
                        pre.code@,
                        pre.pos as int,
                        crate::model::BinK::Mul,
                        r,
                        ev(expr),
                        errv(max_err),
                    ));
                    assert(crate::model::sp_fold_operand(
                        pre.tokens@,
                        pre.code@,
                        pre.pos + 1,
                        crate::model::BinK::Mul,
                    ) == crate::model::sp_unary(pre.tokens@, pre.code@, pre.pos + 1));
                }
                self.advance();
                let ghost gexpr = expr;
                match self.read_unary() {
                    Ok((operand, err)) => {
                        let ghost gop = operand;
                        let r_union = r.union(&expr.1).union(&operand.1);
                        let node = Node(Expr::BinaryMul(r, Box::new(expr), Box::new(operand)), r_union);
                        proof {
                            assert(ev(node) == crate::model::NodeEV {
                                e: crate::model::ExprV::BinE(
                                    crate::model::BinK::Mul,
                                    r,
                                    Box::new(ev(gexpr)),
                                    Box::new(ev(gop)),
                                ),
                                span: r_union,
                            });
                        }
                        Ok((node, err.merge(max_err)))
                    },
                    Err(e) => {
                        self.pos = entry_pos;
                        Err(e)
                    },
                }
            },
            Token(Lexeme::Slash, r) => {
                proof {
                    assert(crate::model::sp_mul_loop(
                        pre.tokens@,
                        pre.code@,
                        pre.pos as int,
                        ev(expr),
                        errv(max_err),
                    ) == crate::model::sp_fold_step(
                        pre.tokens@,
                        pre.code@,
                        pre.pos as int,
                        crate::model::BinK::Div,
                        r,
                        ev(expr),
                        errv(max_err),
                    ));
                    assert(crate::model::sp_fold_operand(
                        pre.tokens@,
                        pre.code@,
                        pre.pos + 1,
                        crate::model::BinK::Div,
                    ) == crate::model::sp_unary(pre.tokens@, pre.code@, pre.pos + 1));
                }
                self.advance();
                let ghost gexpr = expr;
                match self.read_unary() {
                    Ok((operand, err)) => {
                        let ghost gop = operand;
                        let r_union = r.union(&expr.1).union(&operand.1);
                        let node = Node(Expr::BinaryDiv(r, Box::new(expr), Box::new(operand)), r_union);
                        proof {
                            assert(ev(node) == crate::model::NodeEV {
                                e: crate::model::ExprV::BinE(
                                    crate::model::BinK::Div,
                                    r,
                                    Box::new(ev(gexpr)),
                                    Box::new(ev(gop)),
                                ),
                                span: r_union,
                            });
                        }
                        Ok((node, err.merge(max_err)))
                    },
                    Err(e) => {
                        self.pos = entry_pos;
                        Err(e)
                    },
                }
            },
            Token(Lexeme::Percent, r) => {
                proof {
                    assert(crate::model::sp_mul_loop(
                        pre.tokens@,
                        pre.code@,
                        pre.pos as int,
                        ev(expr),
                        errv(max_err),
                    ) == crate::model::sp_fold_step(
                        pre.tokens@,
                        pre.code@,
                        pre.pos as int,
                        crate::model::BinK::Rem,
                        r,
                        ev(expr),
                        errv(max_err),
                    ));
                    assert(crate::model::sp_fold_operand(
                        pre.tokens@,
                        pre.code@,
                        pre.pos + 1,
                        crate::model::BinK::Rem,
                    ) == crate::model::sp_unary(pre.tokens@, pre.code@, pre.pos + 1));
                }
                self.advance();
                let ghost gexpr = expr;
                match self.read_unary() {
                    Ok((operand, err)) => {
                        let ghost gop = operand;
                        let r_union = r.union(&expr.1).union(&operand.1);
                        let node = Node(Expr::BinaryRem(r, Box::new(expr), Box::new(operand)), r_union);
                        proof {
                            assert(ev(node) == crate::model::NodeEV {
                                e: crate::model::ExprV::BinE(
                                    crate::model::BinK::Rem,
                                    r,
                                    Box::new(ev(gexpr)),
                                    Box::new(ev(gop)),
                                ),
                                span: r_union,
                            });
                        }
                        Ok((node, err.merge(max_err)))
                    },
                    Err(e) => {
                        self.pos = entry_pos;
                        Err(e)
                    },
                }
            },
            Token(_l, _r) => {
                proof {
                    assert(false);
                }
                self.pos = entry_pos;
                Err(ParseError::phoney())
            },
        }
    }

    /// Folds `*`, `/` and `%`.
    #[verifier::rlimit(100)]
    #[verifier::spinoff_prover]
    #[verifier::loop_isolation(false)]
    fn read_multiplication(&mut self) -> (r: ParseResult<(Node<Expr>, ParseError)>)
        requires
            old(self).wf(),
        ensures
            old(self).steps_to(*final(self)),
            final(self).wf(),
            r is Err ==> final(self).pos == old(self).pos,
            r matches Err(e) ==> e is Diag,
            r is Ok ==> old(self).pos < final(self).pos,
            r matches Ok((n, e)) ==> expr_node_ok(n),
            m_expr(
                r,
                *final(self),
                crate::model::sp_multiplication(old(self).tokens@, old(self).code@, old(self).pos as int),
            ),
        decreases old(self).tokens@.len() - old(self).pos, 7int,
    {
        let entry_pos: usize = self.pos;
        let (mut expr, mut max_err) = self.read_unary()?;

        loop
            invariant
                old(self).steps_to(*self),
                self.wf(),
                old(self).pos < self.pos,
                entry_pos == old(self).pos,
                expr_node_ok(expr),
                crate::model::sp_mul_loop(
                    old(self).tokens@,
                    old(self).code@,
                    self.pos as int,
                    ev(expr),
                    errv(max_err),
                ) == crate::model::sp_multiplication(old(self).tokens@, old(self).code@, old(self).pos as int),
            decreases self.tokens@.len() - self.pos,
        {
            match self.peek() {
                Token(Lexeme::Star, _r) | Token(Lexeme::Slash, _r) | Token(Lexeme::Percent, _r) => {
                    match self.read_mul_step(expr, max_err, entry_pos) {
                        Ok((n2, e2)) => {
                            expr = n2;
                            max_err = e2;
                        },
                        Err(e) => {
                            return Err(e);
                        },
                    }
                },
                _ => {
                    return Ok((expr, max_err));
                },
            }
        }
    }

    /// Folds `+` and binary `-`.
    #[verifier::spinoff_prover]
    #[verifier::rlimit(100)]
    #[verifier::loop_isolation(false)]
    fn read_addition(&mut self) -> (r: ParseResult<(Node<Expr>, ParseError)>)
        requires
            old(self).wf(),
        ensures
            old(self).steps_to(*final(self)),
            final(self).wf(),
            r is Err ==> final(self).pos == old(self).pos,
            r matches Err(e) ==> e is Diag,
            r is Ok ==> old(self).pos < final(self).pos,
            r matches Ok((n, e)) ==> expr_node_ok(n),
            m_expr(
                r,
                *final(self),
                crate::model::sp_addition(old(self).tokens@, old(self).code@, old(self).pos as int),
            ),
        decreases old(self).tokens@.len() - old(self).pos, 8int,
    {
        let entry_pos: usize = self.pos;
        let (mut expr, mut max_err) = self.read_multiplication()?;

        loop
            invariant
                old(self).steps_to(*self),
                self.wf(),
                old(self).pos < self.pos,
                entry_pos == old(self).pos,
                expr_node_ok(expr),
                crate::model::sp_add_loop(
                    old(self).tokens@,
                    old(self).code@,
                    self.pos as int,
                    ev(expr),
                    errv(max_err),
                ) == crate::model::sp_addition(old(self).tokens@, old(self).code@, old(self).pos as int),
            decreases self.tokens@.len() - self.pos,
        {
            match self.peek() {
                Token(Lexeme::Plus, r) => {
                    self.advance();
                    match self.read_multiplication() {
                        Ok((operand, err)) => {
                            let r_union = r.union(&expr.1).union(&operand.1);
                            expr = Node(
                                Expr::BinaryAdd(r, Box::new(expr), Box::new(operand)),
                                r_union,
                            );
                            max_err = err.merge(max_err);
                        },
                        Err(e) => {
                            self.pos = entry_pos;
                            return Err(e);
                        },
                    }
                },
                Token(Lexeme::Minus, r) => {
                    self.advance();
                    match self.read_multiplication() {
                        Ok((operand, err)) => {
                            let r_union = r.union(&expr.1).union(&operand.1);
                            expr = Node(
                                Expr::BinarySub(r, Box::new(expr), Box::new(operand)),
                                r_union,
                            );
                            max_err = err.merge(max_err);
                        },
                        Err(e) => {
                            self.pos = entry_pos;
                            return Err(e);
                        },
                    }
                },
                _ => {
                    return Ok((expr, max_err));
                },
            }
        }
    }

    /// Folds the range operator `..`.
    #[verifier::spinoff_prover]
    #[verifier::rlimit(100)]
    #[verifier::loop_isolation(false)]
    fn read_high_binary(&mut self) -> (r: ParseResult<(Node<Expr>, ParseError)>)
        requires
            old(self).wf(),
        ensures
            old(self).steps_to(*final(self)),
            final(self).wf(),
            r is Err ==> final(self).pos == old(self).pos,
            r matches Err(e) ==> e is Diag,
            r is Ok ==> old(self).pos < final(self).pos,
            r matches Ok((n, e)) ==> expr_node_ok(n),
            m_expr(
                r,
                *final(self),
                crate::model::sp_high_binary(old(self).tokens@, old(self).code@, old(self).pos as int),
            ),
        decreases old(self).tokens@.len() - old(self).pos, 9int,
    {
        let entry_pos: usize = self.pos;
        let (mut expr, mut max_err) = self.read_addition()?;

        loop
            invariant
                old(self).steps_to(*self),
                self.wf(),
                old(self).pos < self.pos,
                entry_pos == old(self).pos,
                expr_node_ok(expr),
                crate::model::sp_range_loop(
                    old(self).tokens@,
                    old(self).code@,
                    self.pos as int,
                    ev(expr),
                    errv(max_err),
                ) == crate::model::sp_high_binary(old(self).tokens@, old(self).code@, old(self).pos as int),
            decreases self.tokens@.len() - self.pos,
        {
            match self.peek() {
                Token(Lexeme::DotDot, r) => {
                    self.advance();
                    match self.read_addition() {
                        Ok((operand, err)) => {
                            let r_union = r.union(&expr.1).union(&operand.1);
                            expr = Node(
                                Expr::BinaryRange(r, Box::new(expr), Box::new(operand)),
                                r_union,
                            );
                            max_err = err.merge(max_err);
                        },
                        Err(e) => {
                            self.pos = entry_pos;
                            return Err(e);
                        },
                    }
                },
                _ => {
                    return Ok((expr, max_err));
                },
            }
        }
    }

    /// Reads the stackable prefix operators input, clone and mirror.
    #[verifier::spinoff_prover]
    #[verifier::rlimit(100)]
    fn read_mid_unary(&mut self) -> (r: ParseResult<(Node<Expr>, ParseError)>)
        requires
            old(self).wf(),
        ensures
            old(self).steps_to(*final(self)),
            final(self).wf(),
            r is Err ==> final(self).pos == old(self).pos,
            r matches Err(e) ==> e is Diag,
            r is Ok ==> old(self).pos < final(self).pos,
            r matches Ok((n, e)) ==> expr_node_ok(n),
            m_expr(
                r,
                *final(self),
                crate::model::sp_mid_unary(old(self).tokens@, old(self).code@, old(self).pos as int),
            ),
        decreases old(self).tokens@.len() - old(self).pos, 10int,
    {
        let entry_pos: usize = self.pos;
        match self.peek() {
            Token(Lexeme::Input, r) => {
                self.advance();
                match self.read_mid_unary() {
                    Ok((operand, err)) => {
                        let r_union = r.union(&operand.1);
                        Ok((Node(Expr::UnaryInput(r, Box::new(operand)), r_union), err))
                    },
                    Err(e) => {
                        self.pos = entry_pos;
                        Err(e)
                    },
                }
            },
            Token(Lexeme::CloneOp, r) => {
                self.advance();
                match self.read_mid_unary() {
                    Ok((operand, err)) => {
                        let r_union = r.union(&operand.1);
                        Ok((Node(Expr::UnaryClone(r, Box::new(operand)), r_union), err))
                    },
                    Err(e) => {
                        self.pos = entry_pos;
                        Err(e)
                    },
                }
            },
            Token(Lexeme::Mirror, r) => {
                self.advance();
                match self.read_mid_unary() {
                    Ok((operand, err)) => {
                        let r_union = r.union(&operand.1);
                        Ok((Node(Expr::UnaryMirror(r, Box::new(operand)), r_union), err))
                    },
                    Err(e) => {
                        self.pos = entry_pos;
                        Err(e)
                    },
                }
            },
            _ => self.read_high_binary(),
        }
    }

    /// Folds the comparison operators.
    #[verifier::spinoff_prover]
    #[verifier::rlimit(100)]
    #[verifier::loop_isolation(false)]
    fn read_comparison(&mut self) -> (r: ParseResult<(Node<Expr>, ParseError)>)
        requires
            old(self).wf(),
        ensures
            old(self).steps_to(*final(self)),
            final(self).wf(),
            r is Err ==> final(self).pos == old(self).pos,
            r matches Err(e) ==> e is Diag,
            r is Ok ==> old(self).pos < final(self).pos,
            r matches Ok((n, e)) ==> expr_node_ok(n),
            m_expr(
                r,
                *final(self),
                crate::model::sp_comparison(old(self).tokens@, old(self).code@, old(self).pos as int),
            ),
        decreases old(self).tokens@.len() - old(self).pos, 11int,
    {
        let entry_pos: usize = self.pos;
        let (mut expr, mut max_err) = self.read_mid_unary()?;

        loop
            invariant
                old(self).steps_to(*self),
                self.wf(),
                old(self).pos < self.pos,
                entry_pos == old(self).pos,
                expr_node_ok(expr),
                crate::model::sp_cmp_loop(
                    old(self).tokens@,
                    old(self).code@,
                    self.pos as int,
                    ev(expr),
                    errv(max_err),
                ) == crate::model::sp_comparison(old(self).tokens@, old(self).code@, old(self).pos as int),
            decreases self.tokens@.len() - self.pos,
        {
            match self.peek() {
                Token(Lexeme::Greater, r) => {
                    self.advance();
                    match self.read_mid_unary() {
                        Ok((operand, err)) => {
                            let r_union = r.union(&expr.1).union(&operand.1);
                            expr = Node(
                                Expr::BinaryGreater(r, Box::new(expr), Box::new(operand)),
                                r_union,
                            );
                            max_err = err.merge(max_err);
                        },
                        Err(e) => {
                            self.pos = entry_pos;
                            return Err(e);
                        },
                    }
                },
                Token(Lexeme::GreaterEq, r) => {
                    self.advance();
                    match self.read_mid_unary() {
                        Ok((operand, err)) => {
                            let r_union = r.union(&expr.1).union(&operand.1);
                            expr = Node(
                                Expr::BinaryGreaterEq(r, Box::new(expr), Box::new(operand)),
                                r_union,
                            );
                            max_err = err.merge(max_err);
                        },
                        Err(e) => {
                            self.pos = entry_pos;
                            return Err(e);
                        },
                    }
                },
                Token(Lexeme::Less, r) => {
                    self.advance();
                    match self.read_mid_unary() {
                        Ok((operand, err)) => {
                            let r_union = r.union(&expr.1).union(&operand.1);
                            expr = Node(
                                Expr::BinaryLess(r, Box::new(expr), Box::new(operand)),
                                r_union,
                            );
                            max_err = err.merge(max_err);
                        },
                        Err(e) => {
                            self.pos = entry_pos;
                            return Err(e);
                        },
                    }
                },
                Token(Lexeme::LessEq, r) => {
                    self.advance();
                    match self.read_mid_unary() {
                        Ok((operand, err)) => {
                            let r_union = r.union(&expr.1).union(&operand.1);
                            expr = Node(
                                Expr::BinaryLessEq(r, Box::new(expr), Box::new(operand)),
                                r_union,
                            );
                            max_err = err.merge(max_err);
                        },
                        Err(e) => {
                            self.pos = entry_pos;
                            return Err(e);
                        },
                    }
                },
                _ => {
                    return Ok((expr, max_err));
                },
            }
        }
    }

    /// Folds `==` and `!=`.
    #[verifier::spinoff_prover]
    #[verifier::rlimit(100)]
    #[verifier::loop_isolation(false)]
    fn read_equivalence(&mut self) -> (r: ParseResult<(Node<Expr>, ParseError)>)
        requires
            old(self).wf(),
        ensures
            old(self).steps_to(*final(self)),
            final(self).wf(),
            r is Err ==> final(self).pos == old(self).pos,
            r matches Err(e) ==> e is Diag,
            r is Ok ==> old(self).pos < final(self).pos,
            r matches Ok((n, e)) ==> expr_node_ok(n),
            m_expr(
                r,
                *final(self),
                crate::model::sp_equivalence(old(self).tokens@, old(self).code@, old(self).pos as int),
            ),
        decreases old(self).tokens@.len() - old(self).pos, 12int,
    {
        let entry_pos: usize = self.pos;
        let (mut expr, mut max_err) = self.read_comparison()?;

        loop
            invariant
                old(self).steps_to(*self),
                self.wf(),
                old(self).pos < self.pos,
                entry_pos == old(self).pos,
                expr_node_ok(expr),
                crate::model::sp_eq_loop(
                    old(self).tokens@,
                    old(self).code@,
                    self.pos as int,
                    ev(expr),
                    errv(max_err),
                ) == crate::model::sp_equivalence(old(self).tokens@, old(self).code@, old(self).pos as int),
            decreases self.tokens@.len() - self.pos,
        {
            match self.peek() {
                Token(Lexeme::Eq, r) => {
                    self.advance();
                    match self.read_comparison() {
                        Ok((operand, err)) => {
                            let r_union = r.union(&expr.1).union(&operand.1);
                            expr = Node(
                                Expr::BinaryEq(r, Box::new(expr), Box::new(operand)),
                                r_union,
                            );
                            max_err = err.merge(max_err);
                        },
                        Err(e) => {
                            self.pos = entry_pos;
                            return Err(e);
                        },
                    }
                },
                Token(Lexeme::BangEq, r) => {
                    self.advance();
                    match self.read_comparison() {
                        Ok((operand, err)) => {
                            let r_union = r.union(&expr.1).union(&operand.1);
                            expr = Node(
                                Expr::BinaryNotEq(r, Box::new(expr), Box::new(operand)),
                                r_union,
                            );
                            max_err = err.merge(max_err);
                        },
                        Err(e) => {
                            self.pos = entry_pos;
                            return Err(e);
                        },
                    }
                },
                _ => {
                    return Ok((expr, max_err));
                },
            }
        }
    }

    /// Folds `and`, `or` and `xor`.
    #[verifier::spinoff_prover]
    #[verifier::rlimit(100)]
    #[verifier::loop_isolation(false)]
    fn read_logical(&mut self) -> (r: ParseResult<(Node<Expr>, ParseError)>)
        requires
            old(self).wf(),
        ensures
            old(self).steps_to(*final(self)),
            final(self).wf(),
            r is Err ==> final(self).pos == old(self).pos,
            r matches Err(e) ==> e is Diag,
            r is Ok ==> old(self).pos < final(self).pos,
            r matches Ok((n, e)) ==> expr_node_ok(n),
            m_expr(
                r,
                *final(self),
                crate::model::sp_logical(old(self).tokens@, old(self).code@, old(self).pos as int),
            ),
        decreases old(self).tokens@.len() - old(self).pos, 13int,
    {
        let entry_pos: usize = self.pos;
        let (mut expr, mut max_err) = self.read_equivalence()?;

        loop
            invariant
                old(self).steps_to(*self),
                self.wf(),
                old(self).pos < self.pos,
                entry_pos == old(self).pos,
                expr_node_ok(expr),
                crate::model::sp_logic_loop(
                    old(self).tokens@,
                    old(self).code@,
                    self.pos as int,
                    ev(expr),
                    errv(max_err),
                ) == crate::model::sp_logical(old(self).tokens@, old(self).code@, old(self).pos as int),
            decreases self.tokens@.len() - self.pos,
        {
            match self.peek() {
                Token(Lexeme::And, r) => {
                    self.advance();
                    match self.read_equivalence() {
                        Ok((operand, err)) => {
                            let r_union = r.union(&expr.1).union(&operand.1);
                            expr = Node(
                                Expr::BinaryAnd(r, Box::new(expr), Box::new(operand)),
                                r_union,
                            );
                            max_err = err.merge(max_err);
                        },
                        Err(e) => {
                            self.pos = entry_pos;
                            return Err(e);
                        },
                    }
                },
                Token(Lexeme::Or, r) => {
                    self.advance();
                    match self.read_equivalence() {
                        Ok((operand, err)) => {
                            let r_union = r.union(&expr.1).union(&operand.1);
                            expr = Node(
                                Expr::BinaryOr(r, Box::new(expr), Box::new(operand)),
                                r_union,
                            );
                            max_err = err.merge(max_err);
                        },
                        Err(e) => {
                            self.pos = entry_pos;
                            return Err(e);
                        },
                    }
                },
                Token(Lexeme::Xor, r) => {
                    self.advance();
                    match self.read_equivalence() {
                        Ok((operand, err)) => {
                            let r_union = r.union(&expr.1).union(&operand.1);
                            expr = Node(
                                Expr::BinaryXor(r, Box::new(expr), Box::new(operand)),
                                r_union,
                            );
                            max_err = err.merge(max_err);
                        },
                        Err(e) => {
                            self.pos = entry_pos;
                            return Err(e);
                        },
                    }
                },
                _ => {
                    return Ok((expr, max_err));
                },
            }
        }
    }

    /// One assignment step, entered just past the operator token: the
    /// already-parsed left operand must reduce to an assignment target,
    /// and the right operand recurses back into the assignment level.
    #[verifier::rlimit(100)]
    #[verifier::spinoff_prover]
    fn read_asg_step(
        &mut self,
        op: Lexeme,
        op_r: SrcRef,
        expr: Node<Expr>,
        max_err: ParseError,
        entry_pos: usize,
    ) -> (r: ParseResult<(Node<Expr>, ParseError)>)
        requires
            old(self).wf(),
            1 <= old(self).pos,
            entry_pos <= old(self).pos,
            expr_node_ok(expr),
            op is Assign || op is PlusEq || op is MinusEq || op is StarEq || op is SlashEq || op
                is PercentEq,
        ensures
            final(self).tokens@ == old(self).tokens@,
            final(self).code == old(self).code,
            final(self).wf(),
            final(self).pos <= final(self).tokens@.len(),
            r is Err ==> final(self).pos == entry_pos,
            r matches Err(e) ==> e is Diag,
            r is Ok ==> old(self).pos <= final(self).pos,
            r matches Ok((n, e)) ==> expr_node_ok(n),
            m_expr(
                r,
                *final(self),
                crate::model::sp_asg_step(
                    old(self).tokens@,
                    old(self).code@,
                    old(self).pos - 1,
                    crate::model::asg_kind(op),
                    op_r,
                    ev(expr),
                    errv(max_err),
                ),
            ),
        decreases old(self).tokens@.len() - old(self).pos, 16int,
    {
        proof {
            crate::model::lemma_sp_lval(expr);
        }
        let ghost gexpr = expr;
        let expr_r = expr.1;
        let lvalue = match expr.into_lvalue() {
            Ok(lv) => lv,
            Err(e) => {
                self.pos = entry_pos;
                return Err(e.merge(max_err));
            },
        };
        let ghost glv = lvalue;
        proof {
            assert(crate::model::sp_lval(ev(gexpr)) == Some(crate::model::lvv(glv)));
        }
        match self.read_assignment() {
            Ok((operand, err)) => {
                let ghost gop = operand;
                let r_union = op_r.union(&expr_r).union(&operand.1);
                let node = match op {
                    Lexeme::PlusEq => Expr::BinaryAddAssign(op_r, lvalue, Box::new(operand)),
                    Lexeme::MinusEq => Expr::BinarySubAssign(op_r, lvalue, Box::new(operand)),
                    Lexeme::StarEq => Expr::BinaryMulAssign(op_r, lvalue, Box::new(operand)),
                    Lexeme::SlashEq => Expr::BinaryDivAssign(op_r, lvalue, Box::new(operand)),
                    Lexeme::PercentEq => Expr::BinaryRemAssign(op_r, lvalue, Box::new(operand)),
                    _ => Expr::BinaryAssign(op_r, lvalue, Box::new(operand)),
                };
                proof {
                    assert(eve(node) == crate::model::ExprV::AsgE(
                        crate::model::asg_kind(op),
                        op_r,
                        crate::model::lvv(glv),
                        Box::new(ev(gop)),
                    ));
                }
                Ok((Node(node, r_union), err.merge(max_err)))
            },
            Err(e) => {
                self.pos = entry_pos;
                Err(e)
            },
        }
    }

    /// Reads an assignment or compound assignment.  The left operand is
    /// parsed as a general expression and reinterpreted as an assignment
    /// target only once an assignment operator is seen; right-nesting
    /// comes from the right operand recursing back through this level.
    #[verifier::rlimit(100)]
    #[verifier::spinoff_prover]
    fn read_assignment(&mut self) -> (r: ParseResult<(Node<Expr>, ParseError)>)
        requires
            old(self).wf(),
        ensures
            old(self).steps_to(*final(self)),
            final(self).wf(),
            r is Err ==> final(self).pos == old(self).pos,
            r matches Err(e) ==> e is Diag,
            r is Ok ==> old(self).pos < final(self).pos,
            r matches Ok((n, e)) ==> expr_node_ok(n),
            m_expr(
                r,
                *final(self),
                crate::model::sp_assignment(old(self).tokens@, old(self).code@, old(self).pos as int),
            ),
        decreases old(self).tokens@.len() - old(self).pos, 14int,
    {
        let entry_pos: usize = self.pos;
        let (expr, max_err) = self.read_logical()?;
        let expr_r = expr.1;

        match self.peek() {
            Token(Lexeme::Assign, r) => {
                self.advance();
                self.read_asg_step(Lexeme::Assign, r, expr, max_err, entry_pos)
            },
            Token(Lexeme::PlusEq, r) => {
                self.advance();
                self.read_asg_step(Lexeme::PlusEq, r, expr, max_err, entry_pos)
            },
            Token(Lexeme::MinusEq, r) => {
                self.advance();
                self.read_asg_step(Lexeme::MinusEq, r, expr, max_err, entry_pos)
            },
            Token(Lexeme::StarEq, r) => {
                self.advance();
                self.read_asg_step(Lexeme::StarEq, r, expr, max_err, entry_pos)
            },
            Token(Lexeme::SlashEq, r) => {
                self.advance();
                self.read_asg_step(Lexeme::SlashEq, r, expr, max_err, entry_pos)
            },
            Token(Lexeme::PercentEq, r) => {
                self.advance();
                self.read_asg_step(Lexeme::PercentEq, r, expr, max_err, entry_pos)
            },
            Token(l, r) => Ok(
                (expr, expected(Item::Assignment, Item::Lexeme(l), r).merge(max_err)),
            ),
        }
    }

    /// Reads one expression: an assignment where one is there, otherwise
    /// any logical-level expression.  The error of the failed assignment
    /// trial is merged forward even on the success path, so that a later
    /// failure can still surface it.
    #[verifier::spinoff_prover]
    #[verifier::rlimit(100)]
    fn read_expr(&mut self) -> (r: ParseResult<(Node<Expr>, ParseError)>)
        requires
            old(self).wf(),
        ensures
            old(self).steps_to(*final(self)),
            final(self).wf(),
            r is Err ==> final(self).pos == old(self).pos,
            r matches Err(e) ==> e is Diag,
            r is Ok ==> old(self).pos < final(self).pos,
            r matches Ok((n, e)) ==> expr_node_ok(n),
            m_expr(
                r,
                *final(self),
                crate::model::sp_expr(old(self).tokens@, old(self).code@, old(self).pos as int),
            ),
        decreases old(self).tokens@.len() - old(self).pos, 15int,
    {
        match self.read_assignment() {
            Ok((expr, err)) => Ok((expr, err)),
            Err(err) => match self.read_logical() {
                Ok((expr, err2)) => Ok((expr, err2.merge(err))),
                Err(err2) => Err(err2.while_parsing("expression").merge(err)),
            },
        }
    }

    /// Reads a parenthesized expression; its node's span grows to cover
    /// the parentheses.
    #[verifier::spinoff_prover]
    #[verifier::rlimit(100)]
    fn read_paren_expr(&mut self) -> (r: ParseResult<(Node<Expr>, ParseError)>)
        requires
            old(self).wf(),
        ensures
            old(self).steps_to(*final(self)),
            final(self).wf(),
            r is Err ==> final(self).pos == old(self).pos,
            r matches Err(e) ==> e is Diag,
            r is Ok ==> old(self).pos < final(self).pos,
            r matches Ok((n, e)) ==> expr_node_ok(n),
            m_expr(
                r,
                *final(self),
                crate::model::sp_paren(old(self).tokens@, old(self).code@, old(self).pos as int),
            ),
        decreases old(self).tokens@.len() - old(self).pos, 1int,
    {
        let entry_pos: usize = self.pos;
        let r_start = match self.peek() {
            Token(Lexeme::LParen, r) => {
                self.advance();
                r
            },
            Token(l, r) => {
                return Err(expected(Item::Lexeme(Lexeme::LParen), Item::Lexeme(l), r));
            },
        };

        let (expr, max_err) = match self.read_expr() {
            Ok(v) => v,
            Err(e) => {
                self.pos = entry_pos;
                return Err(e);
            },
        };

        match self.peek() {
            Token(Lexeme::RParen, r) => {
                self.advance();
                let r_union = expr.1.union(&r_start).union(&r);
                proof {
                    lemma_expr_widen(expr, r_union);
                }
                let Node(e0, _e1) = expr;
                Ok((Node(e0, r_union), max_err))
            },
            Token(l, r) => {
                self.pos = entry_pos;
                Err(expected(Item::Lexeme(Lexeme::RParen), Item::Lexeme(l), r).merge(max_err))
            },
        }
    }

    /// Reads a bracketed index suffix `[expr]`: the whole suffix's span,
    /// the index expression, and the best error met inside.
    #[verifier::spinoff_prover]
    #[verifier::rlimit(100)]
    fn read_index(&mut self) -> (r: ParseResult<(SrcRef, Node<Expr>, ParseError)>)
        requires
            old(self).wf(),
        ensures
            old(self).steps_to(*final(self)),
            final(self).wf(),
            r is Err ==> final(self).pos == old(self).pos,
            r matches Err(e) ==> e is Diag,
            r is Ok ==> old(self).pos < final(self).pos,
            r matches Ok((sp, n, e)) ==> expr_node_ok(n),
            m_index(
                r,
                *final(self),
                crate::model::sp_index(old(self).tokens@, old(self).code@, old(self).pos as int),
            ),
        decreases old(self).tokens@.len() - old(self).pos, 1int,
    {
        let entry_pos: usize = self.pos;
        let r_start = match self.peek() {
            Token(Lexeme::LBrack, r) => {
                self.advance();
                r
            },
            Token(l, r) => {
                return Err(expected(Item::Lexeme(Lexeme::LBrack), Item::Lexeme(l), r));
            },
        };

        let (expr, max_err) = match self.read_expr() {
            Ok(v) => v,
            Err(e) => {
                self.pos = entry_pos;
                return Err(e);
            },
        };

        match self.peek() {
            Token(Lexeme::RBrack, r) => {
                self.advance();
                let r_union = expr.1.union(&r_start).union(&r);
                Ok((r_union, expr, max_err))
            },
            Token(l, r) => {
                self.pos = entry_pos;
                Err(expected(Item::Lexeme(Lexeme::RBrack), Item::Lexeme(l), r).merge(max_err))
            },
        }
    }

    /// Reads a function literal `|args| { body }`.  The node shares the
    /// whole source text and its (args, body) payload by reference count.
    #[verifier::spinoff_prover]
    #[verifier::rlimit(100)]
    fn read_fn_expr(&mut self) -> (r: ParseResult<(Node<Expr>, ParseError)>)
        requires
            old(self).wf(),
        ensures
            old(self).steps_to(*final(self)),
            final(self).wf(),
            r is Err ==> final(self).pos == old(self).pos,
            r matches Err(e) ==> e is Diag,
            r is Ok ==> old(self).pos < final(self).pos,
            r matches Ok((n, e)) ==> expr_node_ok(n),
            m_expr(
                r,
                *final(self),
                crate::model::sp_fn(old(self).tokens@, old(self).code@, old(self).pos as int),
            ),
        decreases old(self).tokens@.len() - old(self).pos, 1int,
    {
        let entry_pos: usize = self.pos;
        let r_start = match self.peek() {
            Token(Lexeme::Pipe, r) => {
                self.advance();
                r
            },
            Token(l, r) => {
                return Err(
                    expected(Item::Lexeme(Lexeme::Pipe), Item::Lexeme(l), r).while_parsing(
                        "function",
                    ),
                );
            },
        };

        let (args, max_err) = match self.read_args() {
            Ok(v) => v,
            Err(e) => {
                self.pos = entry_pos;
                return Err(e.while_parsing("function"));
            },
        };

        let r_middle = match self.peek() {
            Token(Lexeme::Pipe, r) => {
                self.advance();
                r
            },
            Token(l, r) => {
                self.pos = entry_pos;
                return Err(
                    expected(Item::Lexeme(Lexeme::Pipe), Item::Lexeme(l), r).merge(
                        max_err,
                    ).while_parsing("function"),
                );
            },
        };

        let (block, max_err) = match self.read_block() {
            Ok(v) => v,
            Err(e) => {
                self.pos = entry_pos;
                return Err(e.merge(max_err).while_parsing("function"));
            },
        };

        let args_span = args.1.union(&r_start).union(&r_middle);
        let r_union = args_span.union(&block.1);
        proof {
            lemma_args_widen(args, args_span);
        }
        let Node(args_inner, _args_old_span) = args;
        let payload = Rc::new((Node(args_inner, args_span), block));
        let code2 = clone_code(&self.code);
        Ok((Node(Expr::Fn(code2, payload), r_union), max_err.while_parsing("function")))
    }

    /// Reads a list literal `[a, b, c]`.
    #[verifier::spinoff_prover]
    #[verifier::rlimit(100)]
    fn read_list_expr(&mut self) -> (r: ParseResult<(Node<Expr>, ParseError)>)
        requires
            old(self).wf(),
        ensures
            old(self).steps_to(*final(self)),
            final(self).wf(),
            r is Err ==> final(self).pos == old(self).pos,
            r matches Err(e) ==> e is Diag,
            r is Ok ==> old(self).pos < final(self).pos,
            r matches Ok((n, e)) ==> expr_node_ok(n),
            m_expr(
                r,
                *final(self),
                crate::model::sp_list(old(self).tokens@, old(self).code@, old(self).pos as int),
            ),
        decreases old(self).tokens@.len() - old(self).pos, 1int,
    {
        let entry_pos: usize = self.pos;
        let r_start = match self.peek() {
            Token(Lexeme::LBrack, r) => {
                self.advance();
                r
            },
            Token(l, r) => {
                return Err(
                    expected(Item::Lexeme(Lexeme::LBrack), Item::Lexeme(l), r).while_parsing(
                        "list",
                    ),
                );
            },
        };

        let (items, max_err) = match self.read_paramlist() {
            Ok(v) => v,
            Err(e) => {
                self.pos = entry_pos;
                return Err(e.while_parsing("list"));
            },
        };

        match self.peek() {
            Token(Lexeme::RBrack, r) => {
                self.advance();
                let r_union = items.1.union(&r_start).union(&r);
                Ok((Node(Expr::List(items), r_union), max_err.while_parsing("list")))
            },
            Token(l, r) => {
                self.pos = entry_pos;
                Err(
                    expected(Item::Lexeme(Lexeme::RBrack), Item::Lexeme(l), r).merge(
                        max_err,
                    ).while_parsing("list"),
                )
            },
        }
    }

    /// Reads a list-repeat literal `[item; count]`.
    #[verifier::spinoff_prover]
    #[verifier::rlimit(100)]
    fn read_list_clone_expr(&mut self) -> (r: ParseResult<(Node<Expr>, ParseError)>)
        requires
            old(self).wf(),
        ensures
            old(self).steps_to(*final(self)),
            final(self).wf(),
            r is Err ==> final(self).pos == old(self).pos,
            r matches Err(e) ==> e is Diag,
            r is Ok ==> old(self).pos < final(self).pos,
            r matches Ok((n, e)) ==> expr_node_ok(n),
            m_expr(
                r,
                *final(self),
                crate::model::sp_list_clone(old(self).tokens@, old(self).code@, old(self).pos as int),
            ),
        decreases old(self).tokens@.len() - old(self).pos, 1int,
    {
        let entry_pos: usize = self.pos;
        let r_start = match self.peek() {
            Token(Lexeme::LBrack, r) => {
                self.advance();
                r
            },
            Token(l, r) => {
                return Err(
                    expected(Item::Lexeme(Lexeme::LBrack), Item::Lexeme(l), r).while_parsing(
                        "list",
                    ),
                );
            },
        };

        let (item, max_err) = match self.read_expr() {
            Ok(v) => v,
            Err(e) => {
                self.pos = entry_pos;
                return Err(e.while_parsing("list"));
            },
        };

        let r_middle = match self.peek() {
            Token(Lexeme::Semicolon, r) => {
                self.advance();
                r
            },
            Token(l, r) => {
                self.pos = entry_pos;
                return Err(
                    expected(Item::Lexeme(Lexeme::Semicolon), Item::Lexeme(l), r).merge(
                        max_err,
                    ).while_parsing("list"),
                );
            },
        };

        let (num, max_err) = match self.read_expr() {
            Ok((num, err)) => (num, err.merge(max_err)),
            Err(e) => {
                self.pos = entry_pos;
                return Err(e.merge(max_err).while_parsing("list"));
            },
        };

        match self.peek() {
            Token(Lexeme::RBrack, r) => {
                self.advance();
                let r_union = item.1.union(&num.1).union(&r_start).union(&r_middle).union(&r);
                Ok(
                    (
                        Node(Expr::ListClone(Box::new(item), Box::new(num)), r_union),
                        max_err.while_parsing("list"),
                    ),
                )
            },
            Token(l, r) => {
                self.pos = entry_pos;
                Err(
                    expected(Item::Lexeme(Lexeme::RBrack), Item::Lexeme(l), r).merge(
                        max_err,
                    ).while_parsing("list"),
                )
            },
        }
    }

    /// Reads a comma-separated expression list, greedily; never fails.
    #[verifier::spinoff_prover]
    #[verifier::rlimit(100)]
    #[verifier::loop_isolation(false)]
    fn read_paramlist(&mut self) -> (r: ParseResult<(Node<Vec<Node<Expr>>>, ParseError)>)
        requires
            old(self).wf(),
        ensures
            old(self).steps_to(*final(self)),
            final(self).wf(),
            r is Ok,
            r matches Ok((n, e)) ==> exprs_node_ok(n),
            m_list(
                r,
                *final(self),
                crate::model::sp_paramlist(old(self).tokens@, old(self).code@, old(self).pos as int),
            ),
        decreases old(self).tokens@.len() - old(self).pos, 16int,
    {
        let mut params: Vec<Node<Expr>> = Vec::new();
        let mut r_total = SrcRef::empty();
        let mut max_err = ParseError::Phoney;

        loop
            invariant
                old(self).steps_to(*self),
                self.wf(),
                forall|j: int|
                    0 <= j < params@.len() ==> r_total.covers((#[trigger] params@[j]).1)
                        && expr_node_ok(params@[j]),
                crate::model::sp_paramlist_loop(
                    old(self).tokens@,
                    old(self).code@,
                    self.pos as int,
                    evl(params@),
                    r_total,
                    errv(max_err),
                ) == crate::model::sp_paramlist(
                    old(self).tokens@,
                    old(self).code@,
                    old(self).pos as int,
                ),
            decreases self.tokens@.len() - self.pos,
        {
            match self.read_expr() {
                Ok((expr, err)) => {
                    proof {
                        assert forall|j: int|
                            0 <= j < params@.len() implies r_total.spec_union(expr.1).covers(
                            (#[trigger] params@[j]).1,
                        ) by {
                            crate::span::lemma_union_covers_mono(r_total, expr.1, params@[j].1);
                        }
                        crate::span::lemma_union_covers(r_total, expr.1);
                    }
                    proof {
                        crate::model::lemma_evl_push(params@, expr);
                    }
                    r_total = r_total.union(&expr.1);
                    params.push(expr);
                    max_err = err.merge(max_err);
                },
                Err(err) => {
                    return Ok((Node(params, r_total), err.merge(max_err)));
                },
            }

            match self.peek() {
                Token(Lexeme::Comma, r) => {
                    self.advance();
                    proof {
                        assert forall|j: int|
                            0 <= j < params@.len() implies r_total.spec_union(r).covers(
                            (#[trigger] params@[j]).1,
                        ) by {
                            crate::span::lemma_union_covers_mono(r_total, r, params@[j].1);
                        }
                    }
                    r_total = r_total.union(&r);
                },
                Token(l, r) => {
                    return Ok(
                        (
                            Node(params, r_total),
                            expected(Item::Lexeme(Lexeme::Comma), Item::Lexeme(l), r).merge(
                                max_err,
                            ),
                        ),
                    );
                },
            }
        }
    }

    /// Reads a parenthesized call-argument list `(a, b)`.
    #[verifier::spinoff_prover]
    #[verifier::rlimit(100)]
    fn read_params(&mut self) -> (r: ParseResult<(Node<Vec<Node<Expr>>>, ParseError)>)
        requires
            old(self).wf(),
        ensures
            old(self).steps_to(*final(self)),
            final(self).wf(),
            r is Err ==> final(self).pos == old(self).pos,
            r matches Err(e) ==> e is Diag,
            r is Ok ==> old(self).pos < final(self).pos,
            r matches Ok((n, e)) ==> exprs_node_ok(n),
            m_list(
                r,
                *final(self),
                crate::model::sp_params(old(self).tokens@, old(self).code@, old(self).pos as int),
            ),
        decreases old(self).tokens@.len() - old(self).pos, 1int,
    {
        let entry_pos: usize = self.pos;
        let r_start = match self.peek() {
            Token(Lexeme::LParen, r) => {
                self.advance();
                r
            },
            Token(l, r) => {
                return Err(expected(Item::Lexeme(Lexeme::LParen), Item::Lexeme(l), r));
            },
        };

        let (params, max_err) = match self.read_paramlist() {
            Ok(v) => v,
            Err(e) => {
                self.pos = entry_pos;
                return Err(e);
            },
        };

        match self.peek() {
            Token(Lexeme::RParen, r) => {
                self.advance();
                let r_union = params.1.union(&r_start).union(&r);
                proof {
                    lemma_exprs_widen(params, r_union);
                }
                let Node(params_inner, _old_span) = params;
                Ok((Node(params_inner, r_union), max_err))
            },
            Token(l, r) => {
                self.pos = entry_pos;
                Err(expected(Item::Lexeme(Lexeme::RParen), Item::Lexeme(l), r).merge(max_err))
            },
        }
    }

    /// Reads a map literal `[k: v, ...]`.
    #[verifier::spinoff_prover]
    #[verifier::rlimit(100)]
    fn read_map_expr(&mut self) -> (r: ParseResult<(Node<Expr>, ParseError)>)
        requires
            old(self).wf(),
        ensures
            old(self).steps_to(*final(self)),
            final(self).wf(),
            r is Err ==> final(self).pos == old(self).pos,
            r matches Err(e) ==> e is Diag,
            r is Ok ==> old(self).pos < final(self).pos,
            r matches Ok((n, e)) ==> expr_node_ok(n),
            m_expr(
                r,
                *final(self),
                crate::model::sp_map(old(self).tokens@, old(self).code@, old(self).pos as int),
            ),
        decreases old(self).tokens@.len() - old(self).pos, 1int,
    {
        let entry_pos: usize = self.pos;
        let r_start = match self.peek() {
            Token(Lexeme::LBrack, r) => {
                self.advance();
                r
            },
            Token(l, r) => {
                return Err(
                    expected(Item::Lexeme(Lexeme::LBrack), Item::Lexeme(l), r).while_parsing("map"),
                );
            },
        };

        let (items, max_err) = match self.read_maplist() {
            Ok(v) => v,
            Err(e) => {
                self.pos = entry_pos;
                return Err(e.while_parsing("map"));
            },
        };

        match self.peek() {
            Token(Lexeme::RBrack, r) => {
                self.advance();
                let r_union = items.1.union(&r_start).union(&r);
                Ok((Node(Expr::MapLit(items), r_union), max_err.while_parsing("map")))
            },
            Token(l, r) => {
                self.pos = entry_pos;
                Err(
                    expected(Item::Lexeme(Lexeme::RBrack), Item::Lexeme(l), r).merge(
                        max_err,
                    ).while_parsing("map"),
                )
            },
        }
    }

    /// Reads a comma-separated `key: value` list, greedily; never fails.
    /// A half-read trailing pair is rolled back, not committed.
    #[verifier::spinoff_prover]
    #[verifier::rlimit(100)]
    #[verifier::loop_isolation(false)]
    fn read_maplist(&mut self) -> (r: ParseResult<
        (Node<Vec<(Node<Expr>, Node<Expr>)>>, ParseError),
    >)
        requires
            old(self).wf(),
        ensures
            old(self).steps_to(*final(self)),
            final(self).wf(),
            r is Ok,
            r matches Ok((n, e)) ==> pairs_node_ok(n),
            m_pairs(
                r,
                *final(self),
                crate::model::sp_maplist(old(self).tokens@, old(self).code@, old(self).pos as int),
            ),
        decreases old(self).tokens@.len() - old(self).pos, 16int,
    {
        let mut maps: Vec<(Node<Expr>, Node<Expr>)> = Vec::new();
        let mut r_total = SrcRef::empty();
        let mut max_err = ParseError::Phoney;

        loop
            invariant
                old(self).steps_to(*self),
                self.wf(),
                forall|j: int|
                    0 <= j < maps@.len() ==> r_total.covers((#[trigger] maps@[j]).0.1)
                        && r_total.covers(maps@[j].1.1) && expr_node_ok(maps@[j].0)
                        && expr_node_ok(maps@[j].1),
                crate::model::sp_maplist_loop(
                    old(self).tokens@,
                    old(self).code@,
                    self.pos as int,
                    evp(maps@),
                    r_total,
                    errv(max_err),
                ) == crate::model::sp_maplist(
                    old(self).tokens@,
                    old(self).code@,
                    old(self).pos as int,
                ),
            decreases self.tokens@.len() - self.pos,
        {
            let iter_start: usize = self.pos;
            let key = match self.read_expr() {
                Ok((expr, err)) => {
                    proof {
                        assert forall|j: int|
                            0 <= j < maps@.len() implies r_total.spec_union(expr.1).covers(
                            (#[trigger] maps@[j]).0.1,
                        ) && r_total.spec_union(expr.1).covers(maps@[j].1.1) by {
                            crate::span::lemma_union_covers_mono(r_total, expr.1, maps@[j].0.1);
                            crate::span::lemma_union_covers_mono(r_total, expr.1, maps@[j].1.1);
                        }
                        crate::span::lemma_union_covers(r_total, expr.1);
                    }
                    r_total = r_total.union(&expr.1);
                    max_err = err.merge(max_err);
                    expr
                },
                Err(err) => {
                    return Ok((Node(maps, r_total), err.merge(max_err)));
                },
            };

            match self.peek() {
                Token(Lexeme::Colon, r) => {
                    self.advance();
                    proof {
                        assert forall|j: int|
                            0 <= j < maps@.len() implies r_total.spec_union(r).covers(
                            (#[trigger] maps@[j]).0.1,
                        ) && r_total.spec_union(r).covers(maps@[j].1.1) by {
                            crate::span::lemma_union_covers_mono(r_total, r, maps@[j].0.1);
                            crate::span::lemma_union_covers_mono(r_total, r, maps@[j].1.1);
                        }
                        crate::span::lemma_union_covers_mono(r_total, r, key.1);
                    }
                    r_total = r_total.union(&r);
                },
                Token(l, r) => {
                    self.pos = iter_start;
                    return Ok(
                        (
                            Node(maps, r_total),
                            expected(Item::Lexeme(Lexeme::Colon), Item::Lexeme(l), r).merge(
                                max_err,
                            ),
                        ),
                    );
                },
            }

            let val = match self.read_expr() {
                Ok((expr, err)) => {
                    proof {
                        assert forall|j: int|
                            0 <= j < maps@.len() implies r_total.spec_union(expr.1).covers(
                            (#[trigger] maps@[j]).0.1,
                        ) && r_total.spec_union(expr.1).covers(maps@[j].1.1) by {
                            crate::span::lemma_union_covers_mono(r_total, expr.1, maps@[j].0.1);
                            crate::span::lemma_union_covers_mono(r_total, expr.1, maps@[j].1.1);
                        }
                        crate::span::lemma_union_covers_mono(r_total, expr.1, key.1);
                        crate::span::lemma_union_covers(r_total, expr.1);
                    }
                    r_total = r_total.union(&expr.1);
                    max_err = err.merge(max_err);
                    expr
                },
                Err(err) => {
                    self.pos = iter_start;
                    return Ok((Node(maps, r_total), err.merge(max_err)));
                },
            };

            proof {
                assert(r_total.covers(key.1));
                assert(r_total.covers(val.1));
            }
            proof {
                crate::model::lemma_evp_push(maps@, (key, val));
            }
            maps.push((key, val));

            match self.peek() {
                Token(Lexeme::Comma, r) => {
                    self.advance();
                    proof {
                        assert forall|j: int|
                            0 <= j < maps@.len() implies r_total.spec_union(r).covers(
                            (#[trigger] maps@[j]).0.1,
                        ) && r_total.spec_union(r).covers(maps@[j].1.1) by {
                            crate::span::lemma_union_covers_mono(r_total, r, maps@[j].0.1);
                            crate::span::lemma_union_covers_mono(r_total, r, maps@[j].1.1);
                        }
                    }
                    r_total = r_total.union(&r);
                },
                Token(l, r) => {
                    return Ok(
                        (
                            Node(maps, r_total),
                            expected(Item::Lexeme(Lexeme::Comma), Item::Lexeme(l), r).merge(
                                max_err,
                            ),
                        ),
                    );
                },
            }
        }
    }

    /// Reads an expression statement `expr ;`.
    #[verifier::spinoff_prover]
    #[verifier::rlimit(100)]
    fn read_expr_stmt(&mut self) -> (r: ParseResult<(Node<Stmt>, ParseError)>)
        requires
            old(self).wf(),
        ensures
            old(self).steps_to(*final(self)),
            final(self).wf(),
            r is Err ==> final(self).pos == old(self).pos,
            r matches Err(e) ==> e is Diag,
            r is Ok ==> old(self).pos < final(self).pos,
            r matches Ok((n, e)) ==> stmt_node_ok(n),
            m_stmt(
                r,
                *final(self),
                crate::model::sp_expr_stmt(old(self).tokens@, old(self).code@, old(self).pos as int),
            ),
        decreases old(self).tokens@.len() - old(self).pos, 17int,
    {
        let entry_pos: usize = self.pos;
        let (expr, max_err) = match self.read_expr() {
            Ok(v) => v,
            Err(e) => {
                return Err(e.while_parsing("expression statement"));
            },
        };

        match self.peek() {
            Token(Lexeme::Semicolon, r) => {
                self.advance();
                let r_union = expr.1.union(&r);
                Ok((Node(Stmt::Expr(expr), r_union), max_err))
            },
            Token(l, r) => {
                self.pos = entry_pos;
                Err(
                    expected(Item::Lexeme(Lexeme::Semicolon), Item::Lexeme(l), r).merge(
                        max_err,
                    ).while_parsing("expression statement"),
                )
            },
        }
    }

    /// Reads a print statement `print expr ;`.
    #[verifier::spinoff_prover]
    #[verifier::rlimit(100)]
    fn read_print_stmt(&mut self) -> (r: ParseResult<(Node<Stmt>, ParseError)>)
        requires
            old(self).wf(),
        ensures
            old(self).steps_to(*final(self)),
            final(self).wf(),
            r is Err ==> final(self).pos == old(self).pos,
            r matches Err(e) ==> e is Diag,
            r is Ok ==> old(self).pos < final(self).pos,
            r matches Ok((n, e)) ==> stmt_node_ok(n),
            m_stmt(
                r,
                *final(self),
                crate::model::sp_print_stmt(old(self).tokens@, old(self).code@, old(self).pos as int),
            ),
        decreases old(self).tokens@.len() - old(self).pos, 17int,
    {
        let entry_pos: usize = self.pos;
        let r_start = match self.peek() {
            Token(Lexeme::Print, r) => {
                self.advance();
                r
            },
            Token(l, r) => {
                return Err(
                    expected(Item::Lexeme(Lexeme::Print), Item::Lexeme(l), r).while_parsing(
                        "print statement",
                    ),
                );
            },
        };

        let (expr, max_err) = match self.read_expr() {
            Ok(v) => v,
            Err(e) => {
                self.pos = entry_pos;
                return Err(e.while_parsing("print statement"));
            },
        };

        match self.peek() {
            Token(Lexeme::Semicolon, r) => {
                self.advance();
                let r_union = expr.1.union(&r_start).union(&r);
                Ok((Node(Stmt::Print(expr), r_union), max_err))
            },
            Token(l, r) => {
                self.pos = entry_pos;
                Err(
                    expected(Item::Lexeme(Lexeme::Semicolon), Item::Lexeme(l), r).while_parsing(
                        "print statement",
                    ).merge(max_err),
                )
            },
        }
    }

    /// Reads a return statement `return expr ;`.
    #[verifier::spinoff_prover]
    #[verifier::rlimit(100)]
    fn read_return_stmt(&mut self) -> (r: ParseResult<(Node<Stmt>, ParseError)>)
        requires
            old(self).wf(),
        ensures
            old(self).steps_to(*final(self)),
            final(self).wf(),
            r is Err ==> final(self).pos == old(self).pos,
            r matches Err(e) ==> e is Diag,
            r is Ok ==> old(self).pos < final(self).pos,
            r matches Ok((n, e)) ==> stmt_node_ok(n),
            m_stmt(
                r,
                *final(self),
                crate::model::sp_return_stmt(old(self).tokens@, old(self).code@, old(self).pos as int),
            ),
        decreases old(self).tokens@.len() - old(self).pos, 17int,
    {
        let entry_pos: usize = self.pos;
        let r_start = match self.peek() {
            Token(Lexeme::Return, r) => {
                self.advance();
                r
            },
            Token(l, r) => {
                return Err(
                    expected(Item::Lexeme(Lexeme::Return), Item::Lexeme(l), r).while_parsing(
                        "return statement",
                    ),
                );
            },
        };

        let (expr, max_err) = match self.read_expr() {
            Ok(v) => v,
            Err(e) => {
                self.pos = entry_pos;
                return Err(e.while_parsing("return statement"));
            },
        };

        match self.peek() {
            Token(Lexeme::Semicolon, r) => {
                self.advance();
                let r_union = expr.1.union(&r_start).union(&r);
                Ok((Node(Stmt::Return(expr), r_union), max_err))
            },
            Token(l, r) => {
                self.pos = entry_pos;
                Err(
                    expected(Item::Lexeme(Lexeme::Semicolon), Item::Lexeme(l), r).merge(
                        max_err,
                    ).while_parsing("return statement"),
                )
            },
        }
    }

    /// Reads an if or if-else statement.  A missing `else` does not fail
    /// the parse: the statement succeeds as a bare `if`, and the missing
    /// `else` stays in the error accumulator.
    #[verifier::spinoff_prover]
    #[verifier::rlimit(100)]
    fn read_if_else_stmt(&mut self) -> (r: ParseResult<(Node<Stmt>, ParseError)>)
        requires
            old(self).wf(),
        ensures
            old(self).steps_to(*final(self)),
            final(self).wf(),
            r is Err ==> final(self).pos == old(self).pos,
            r matches Err(e) ==> e is Diag,
            r is Ok ==> old(self).pos < final(self).pos,
            r matches Ok((n, e)) ==> stmt_node_ok(n),
            m_stmt(
                r,
                *final(self),
                crate::model::sp_if_else_stmt(old(self).tokens@, old(self).code@, old(self).pos as int),
            ),
        decreases old(self).tokens@.len() - old(self).pos, 17int,
    {
        let entry_pos: usize = self.pos;
        let r_start = match self.peek() {
            Token(Lexeme::If, r) => {
                self.advance();
                r
            },
            Token(l, r) => {
                return Err(
                    expected(Item::Lexeme(Lexeme::If), Item::Lexeme(l), r).while_parsing(
                        "if-else statement",
                    ),
                );
            },
        };

        let (expr, max_err) = match self.read_expr() {
            Ok(v) => v,
            Err(e) => {
                self.pos = entry_pos;
                return Err(e.while_parsing("if-else statement"));
            },
        };

        let (true_block, max_err) = match self.read_block() {
            Ok((block, err)) => (block, err.merge(max_err)),
            Err(err) => {
                self.pos = entry_pos;
                return Err(err.merge(max_err).while_parsing("if-else statement"));
            },
        };

        let r_else = match self.peek() {
            Token(Lexeme::Else, r) => {
                self.advance();
                r
            },
            Token(l, r) => {
                let r_union = expr.1.union(&r_start).union(&true_block.1);
                return Ok(
                    (
                        Node(Stmt::If(expr, true_block), r_union),
                        expected(Item::Lexeme(Lexeme::Else), Item::Lexeme(l), r).merge(
                            max_err,
                        ).while_parsing("if-else statement"),
                    ),
                );
            },
        };

        match self.read_block() {
            Ok((block, err)) => {
                let r_union = expr.1.union(&r_start).union(&true_block.1).union(&r_else).union(
                    &block.1,
                );
                Ok(
                    (
                        Node(Stmt::IfElse(expr, true_block, block), r_union),
                        err.merge(max_err).while_parsing("if-else statement"),
                    ),
                )
            },
            Err(err) => {
                self.pos = entry_pos;
                Err(err.merge(max_err).while_parsing("if-else statement"))
            },
        }
    }

    /// Reads a while statement `while expr { ... }`.
    #[verifier::spinoff_prover]
    #[verifier::rlimit(100)]
    fn read_while_stmt(&mut self) -> (r: ParseResult<(Node<Stmt>, ParseError)>)
        requires
            old(self).wf(),
        ensures
            old(self).steps_to(*final(self)),
            final(self).wf(),
            r is Err ==> final(self).pos == old(self).pos,
            r matches Err(e) ==> e is Diag,
            r is Ok ==> old(self).pos < final(self).pos,
            r matches Ok((n, e)) ==> stmt_node_ok(n),
            m_stmt(
                r,
                *final(self),
                crate::model::sp_while_stmt(old(self).tokens@, old(self).code@, old(self).pos as int),
            ),
        decreases old(self).tokens@.len() - old(self).pos, 17int,
    {
        let entry_pos: usize = self.pos;
        let r_start = match self.peek() {
            Token(Lexeme::While, r) => {
                self.advance();
                r
            },
            Token(l, r) => {
                return Err(
                    expected(Item::Lexeme(Lexeme::While), Item::Lexeme(l), r).while_parsing(
                        "while statement",
                    ),
                );
            },
        };

        let (expr, max_err) = match self.read_expr() {
            Ok(v) => v,
            Err(e) => {
                self.pos = entry_pos;
                return Err(e.while_parsing("while statement"));
            },
        };

        match self.read_block() {
            Ok((block, err)) => {
                let r_union = expr.1.union(&r_start).union(&block.1);
                Ok(
                    (
                        Node(Stmt::While(expr, block), r_union),
                        err.merge(max_err).while_parsing("while statement"),
                    ),
                )
            },
            Err(err) => {
                self.pos = entry_pos;
                Err(err.merge(max_err).while_parsing("while statement"))
            },
        }
    }

    /// Reads a for-in statement `for ident in expr { ... }`.
    #[verifier::spinoff_prover]
    #[verifier::rlimit(100)]
    fn read_for_stmt(&mut self) -> (r: ParseResult<(Node<Stmt>, ParseError)>)
        requires
            old(self).wf(),
        ensures
            old(self).steps_to(*final(self)),
            final(self).wf(),
            r is Err ==> final(self).pos == old(self).pos,
            r matches Err(e) ==> e is Diag,
            r is Ok ==> old(self).pos < final(self).pos,
            r matches Ok((n, e)) ==> stmt_node_ok(n),
            m_stmt(
                r,
                *final(self),
                crate::model::sp_for_stmt(old(self).tokens@, old(self).code@, old(self).pos as int),
            ),
        decreases old(self).tokens@.len() - old(self).pos, 17int,
    {
        let entry_pos: usize = self.pos;
        let r_start = match self.peek() {
            Token(Lexeme::For, r) => {
                self.advance();
                r
            },
            Token(l, r) => {
                return Err(
                    expected(Item::Lexeme(Lexeme::For), Item::Lexeme(l), r).while_parsing(
                        "for statement",
                    ),
                );
            },
        };

        let ident = match self.read_ident() {
            Ok(id) => id,
            Err(e) => {
                self.pos = entry_pos;
                return Err(e.while_parsing("for statement"));
            },
        };

        let r_middle = match self.peek() {
            Token(Lexeme::In, r) => {
                self.advance();
                r
            },
            Token(l, r) => {
                self.pos = entry_pos;
                return Err(
                    expected(Item::Lexeme(Lexeme::In), Item::Lexeme(l), r).while_parsing(
                        "for statement",
                    ),
                );
            },
        };

        let (expr, max_err) = match self.read_expr() {
            Ok(v) => v,
            Err(e) => {
                self.pos = entry_pos;
                return Err(e.while_parsing("for statement"));
            },
        };

        match self.read_block() {
            Ok((block, err)) => {
                let r_union = expr.1.union(&r_start).union(&ident.1).union(&r_middle).union(
                    &block.1,
                );
                Ok(
                    (
                        Node(Stmt::For(ident, expr, block), r_union),
                        err.merge(max_err).while_parsing("for statement"),
                    ),
                )
            },
            Err(err) => {
                self.pos = entry_pos;
                Err(err.merge(max_err).while_parsing("for statement"))
            },
        }
    }

    /// Reads a local declaration `var ident = expr ;`.
    #[verifier::spinoff_prover]
    #[verifier::rlimit(100)]
    fn read_decl_stmt(&mut self) -> (r: ParseResult<(Node<Stmt>, ParseError)>)
        requires
            old(self).wf(),
        ensures
            old(self).steps_to(*final(self)),
            final(self).wf(),
            r is Err ==> final(self).pos == old(self).pos,
            r matches Err(e) ==> e is Diag,
            r is Ok ==> old(self).pos < final(self).pos,
            r matches Ok((n, e)) ==> stmt_node_ok(n),
            m_stmt(
                r,
                *final(self),
                crate::model::sp_decl_stmt(old(self).tokens@, old(self).code@, old(self).pos as int),
            ),
        decreases old(self).tokens@.len() - old(self).pos, 17int,
    {
        let entry_pos: usize = self.pos;
        let r_start = match self.peek() {
            Token(Lexeme::Var, r) => {
                self.advance();
                r
            },
            Token(l, r) => {
                return Err(
                    expected(Item::Lexeme(Lexeme::Var), Item::Lexeme(l), r).while_parsing(
                        "variable declaration",
                    ),
                );
            },
        };

        let ident = match self.read_ident() {
            Ok(id) => id,
            Err(e) => {
                self.pos = entry_pos;
                return Err(e.while_parsing("variable declaration"));
            },
        };

        let r_assign = match self.peek() {
            Token(Lexeme::Assign, r) => {
                self.advance();
                r
            },
            Token(l, r) => {
                self.pos = entry_pos;
                return Err(
                    expected(Item::Lexeme(Lexeme::Assign), Item::Lexeme(l), r).while_parsing(
                        "variable declaration",
                    ),
                );
            },
        };

        let (expr, max_err) = match self.read_expr() {
            Ok(v) => v,
            Err(e) => {
                self.pos = entry_pos;
                return Err(e.while_parsing("variable declaration"));
            },
        };

        match self.peek() {
            Token(Lexeme::Semicolon, r) => {
                self.advance();
                let r_union = expr.1.union(&r_start).union(&ident.1).union(&r_assign).union(&r);
                Ok((Node(Stmt::Decl(ident, expr), r_union), max_err))
            },
            Token(l, r) => {
                self.pos = entry_pos;
                Err(
                    expected(Item::Lexeme(Lexeme::Semicolon), Item::Lexeme(l), r).merge(
                        max_err,
                    ).while_parsing("variable declaration"),
                )
            },
        }
    }

    /// Reads one statement, trying the seven statement forms in a fixed
    /// order and keeping the best error if every one of them fails.
    #[verifier::spinoff_prover]
    #[verifier::rlimit(100)]
    fn read_stmt(&mut self) -> (r: ParseResult<(Node<Stmt>, ParseError)>)
        requires
            old(self).wf(),
        ensures
            old(self).steps_to(*final(self)),
            final(self).wf(),
            r is Err ==> final(self).pos == old(self).pos,
            r matches Err(e) ==> e is Diag,
            r is Ok ==> old(self).pos < final(self).pos,
            r matches Ok((n, e)) ==> stmt_node_ok(n),
            m_stmt(
                r,
                *final(self),
                crate::model::sp_stmt(old(self).tokens@, old(self).code@, old(self).pos as int),
            ),
        decreases old(self).tokens@.len() - old(self).pos, 18int,
    {
        let max_err = match self.read_expr_stmt() {
            Ok(v) => {
                return Ok(v);
            },
            Err(err) => err,
        };

        let max_err = match self.read_print_stmt() {
            Ok((stmt, err)) => {
                return Ok((stmt, err.merge(max_err)));
            },
            Err(err) => err.merge(max_err),
        };

        let max_err = match self.read_if_else_stmt() {
            Ok((stmt, err)) => {
                return Ok((stmt, err.merge(max_err)));
            },
            Err(err) => err.merge(max_err),
        };

        let max_err = match self.read_while_stmt() {
            Ok((stmt, err)) => {
                return Ok((stmt, err.merge(max_err)));
            },
            Err(err) => err.merge(max_err),
        };

        let max_err = match self.read_for_stmt() {
            Ok((stmt, err)) => {
                return Ok((stmt, err.merge(max_err)));
            },
            Err(err) => err.merge(max_err),
        };

        let max_err = match self.read_decl_stmt() {
            Ok((stmt, err)) => {
                return Ok((stmt, err.merge(max_err)));
            },
            Err(err) => err.merge(max_err),
        };

        let max_err = match self.read_return_stmt() {
            Ok((stmt, err)) => {
                return Ok((stmt, err.merge(max_err)));
            },
            Err(err) => err.merge(max_err),
        };

        let next = self.peek();
        Err(expected(Item::Stmt, Item::Lexeme(next.0), next.1).merge(max_err))
    }

    /// Reads statements greedily, stopping without failing at the first
    /// position where no statement form matches; never fails itself.
    #[verifier::spinoff_prover]
    #[verifier::rlimit(100)]
    #[verifier::loop_isolation(false)]
    fn read_stmts(&mut self) -> (r: ParseResult<(Vec<Node<Stmt>>, ParseError)>)
        requires
            old(self).wf(),
        ensures
            old(self).steps_to(*final(self)),
            final(self).wf(),
            r is Ok,
            r matches Ok((v, e)) ==> (forall|j: int|
                0 <= j < v@.len() ==> stmt_node_ok(#[trigger] v@[j])) && e is Diag,
            m_stmts(
                r,
                *final(self),
                crate::model::sp_stmts(old(self).tokens@, old(self).code@, old(self).pos as int),
            ),
        decreases old(self).tokens@.len() - old(self).pos, 19int,
    {
        let mut stmts: Vec<Node<Stmt>> = Vec::new();
        let mut max_err = ParseError::phoney();

        loop
            invariant
                old(self).steps_to(*self),
                self.wf(),
                forall|j: int| 0 <= j < stmts@.len() ==> stmt_node_ok(#[trigger] stmts@[j]),
                crate::model::sp_stmts_loop(
                    old(self).tokens@,
                    old(self).code@,
                    self.pos as int,
                    tvl(stmts@),
                    errv(max_err),
                ) == crate::model::sp_stmts(
                    old(self).tokens@,
                    old(self).code@,
                    old(self).pos as int,
                ),
            decreases self.tokens@.len() - self.pos,
        {
            match self.read_stmt() {
                Ok((stmt, err)) => {
                    proof {
                        crate::model::lemma_tvl_push(stmts@, stmt);
                    }
                    stmts.push(stmt);
                    max_err = err.merge(max_err);
                },
                Err(err) => {
                    return Ok((stmts, err.merge(max_err)));
                },
            }
        }
    }

    /// Reads a braced block `{ stmt* }`.
    #[verifier::spinoff_prover]
    #[verifier::rlimit(100)]
    #[verifier::loop_isolation(false)]
    fn read_block(&mut self) -> (r: ParseResult<(Node<Block>, ParseError)>)
        requires
            old(self).wf(),
        ensures
            old(self).steps_to(*final(self)),
            final(self).wf(),
            r is Err ==> final(self).pos == old(self).pos,
            r matches Err(e) ==> e is Diag,
            r is Ok ==> old(self).pos < final(self).pos,
            r matches Ok((n, e)) ==> block_node_ok(n),
            m_block(
                r,
                *final(self),
                crate::model::sp_block(old(self).tokens@, old(self).code@, old(self).pos as int),
            ),
        decreases old(self).tokens@.len() - old(self).pos, 1int,
    {
        let entry_pos: usize = self.pos;
        let r_start = match self.peek() {
            Token(Lexeme::LBrace, r) => {
                self.advance();
                r
            },
            Token(l, r) => {
                return Err(expected(Item::Lexeme(Lexeme::LBrace), Item::Lexeme(l), r));
            },
        };

        let (stmts, max_err) = match self.read_stmts() {
            Ok(v) => v,
            Err(e) => {
                self.pos = entry_pos;
                return Err(e);
            },
        };

        match self.peek() {
            Token(Lexeme::RBrace, r) => {
                self.advance();
                let mut acc = SrcRef::empty();
                let mut i: usize = 0;
                proof {
                    crate::model::lemma_tvl_props(stmts@);
                }
                while i < stmts.len()
                    invariant
                        i <= stmts@.len(),
                        forall|j: int| 0 <= j < i ==> acc.covers((#[trigger] stmts@[j]).1),
                        acc == crate::model::sp_span_fold(tvl(stmts@), i as int),
                    decreases stmts@.len() - i,
                {
                    proof {
                        crate::model::lemma_tvl_props(stmts@);
                    }
                    proof {
                        assert forall|j: int|
                            0 <= j < i implies acc.spec_union(stmts@[i as int].1).covers(
                            (#[trigger] stmts@[j]).1,
                        ) by {
                            crate::span::lemma_union_covers_mono(
                                acc,
                                stmts@[i as int].1,
                                stmts@[j].1,
                            );
                        }
                        crate::span::lemma_union_covers(acc, stmts@[i as int].1);
                    }
                    acc = acc.union(&stmts[i].1);
                    i = i + 1;
                }
                let acc2 = acc.union(&r_start);
                let r_union = acc2.union(&r);
                proof {
                    assert forall|j: int|
                        0 <= j < stmts@.len() implies r_union.covers((#[trigger] stmts@[j]).1) by {
                        crate::span::lemma_union_covers_mono(acc, r_start, stmts@[j].1);
                        crate::span::lemma_union_covers_mono(acc2, r, stmts@[j].1);
                    }
                }
                Ok((Node(Block(stmts), r_union), max_err))
            },
            Token(l, r) => {
                self.pos = entry_pos;
                Err(expected(Item::Lexeme(Lexeme::RBrace), Item::Lexeme(l), r).merge(max_err))
            },
        }
    }

    /// Parses one whole expression: the token sequence must be exhausted
    /// after it, otherwise trailing input is itself an error, merged
    /// against everything accumulated.  An empty input parses to the
    /// empty expression.
    #[verifier::spinoff_prover]
    #[verifier::rlimit(100)]
    pub fn read_expr_full(&mut self) -> (r: ParseResult<Expr>)
        requires
            old(self).wf(),
        ensures
            old(self).steps_to(*final(self)),
            final(self).wf(),
            r is Err ==> final(self).pos == old(self).pos,
            r matches Err(e) ==> e is Diag,
            r is Ok ==> final(self).pos == final(self).tokens@.len(),
            r matches Ok(e2) ==> expr_ok(e2),
            m_expr_full(
                r,
                crate::model::sp_expr_full(old(self).tokens@, old(self).code@, old(self).pos as int),
            ),
        decreases old(self).tokens@.len() - old(self).pos, 20int,
    {
        let entry_pos: usize = self.pos;
        let (expr, max_err) = match self.read_expr() {
            Ok(v) => v,
            Err(err) => {
                return match self.peek() {
                    Token(Lexeme::Eof, _) => Ok(Expr::Nil),
                    _ => Err(err),
                };
            },
        };

        match self.peek() {
            Token(Lexeme::Eof, _) => {
                proof {
                    lemma_expr_widen(expr, SrcRef::End);
                }
                let Node(e0, _sp) = expr;
                Ok(e0)
            },
            Token(l, r) => {
                self.pos = entry_pos;
                Err(expected(Item::End, Item::Lexeme(l), r).merge(max_err))
            },
        }
    }

    /// Parses a whole statement sequence: the token sequence must be
    /// exhausted after it, otherwise trailing input is itself an error,
    /// merged against everything accumulated.  An empty input parses to
    /// an empty sequence.
    #[verifier::spinoff_prover]
    #[verifier::rlimit(100)]
    pub fn read_stmts_full(&mut self) -> (r: ParseResult<Vec<Node<Stmt>>>)
        requires
            old(self).wf(),
        ensures
            old(self).steps_to(*final(self)),
            final(self).wf(),
            r is Err ==> final(self).pos == old(self).pos,
            r matches Err(e) ==> e is Diag,
            r is Ok ==> final(self).pos == final(self).tokens@.len(),
            r matches Ok(v) ==> forall|j: int| 0 <= j < v@.len() ==> stmt_node_ok(#[trigger] v@[j]),
            m_stmts_full(
                r,
                crate::model::sp_stmts_full(old(self).tokens@, old(self).code@, old(self).pos as int),
            ),
        decreases old(self).tokens@.len() - old(self).pos, 20int,
    {
        let entry_pos: usize = self.pos;
        let (stmts, max_err) = match self.read_stmts() {
            Ok(v) => v,
            Err(err) => {
                return match self.peek() {
                    Token(Lexeme::Eof, _) => Ok(Vec::new()),
                    _ => {
                        self.pos = entry_pos;
                        Err(err)
                    },
                };
            },
        };

        match self.peek() {
            Token(Lexeme::Eof, _) => Ok(stmts),
            Token(l, r) => {
                self.pos = entry_pos;
                Err(expected(Item::End, Item::Lexeme(l), r).merge(max_err))
            },
        }
    }
}

} // verus!
