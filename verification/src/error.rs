//! The error model: a totally-ranked, mergeable diagnostic value.
//!
//! Every grammar function threads an accumulator of the best error met so
//! far through all the alternatives it tries; `merge` keeps the more
//! informative of two candidates, so the error finally surfaced is the best
//! one found across the whole explored search space.  Rank compares the
//! severity of the reason first (an invalid assignment target outranks a
//! plain expectation mismatch, which outranks the neutral placeholder) and
//! then the source position, deeper positions ranking higher, with the
//! end-of-input sentinel deepest of all.

use vstd::prelude::*;
use crate::span::{Pos, SrcRef};
use crate::token::Lexeme;

verus! {

/// What a diagnostic expected or found: a concrete lexeme or a grammar
/// category.
#[derive(Debug, Clone, PartialEq, Eq)]
pub enum Item {
    Lexeme(Lexeme),
    Ident,
    Primary,
    Stmt,
    Assignment,
    LVal,
    End,
}

/// How an item reads in a diagnostic: a quoted lexeme (identifiers named
/// as such), or the grammar category's name.
pub open spec fn item_describe_seq(item: Item) -> Seq<char> {
    match item {
        Item::Lexeme(Lexeme::Ident(i)) => "identifier '"@ + i@ + "'"@,
        Item::Lexeme(l) => "'"@ + crate::token::lexeme_text_seq(l) + "'"@,
        Item::Ident => "identifier"@,
        Item::Primary => "primary expression"@,
        Item::Stmt => "statement"@,
        Item::Assignment => "assignment"@,
        Item::LVal => "l-value"@,
        Item::End => "end of input"@,
    }
}

impl Item {
    /// Renders the item as a diagnostic quotes it.
    pub fn describe(&self) -> (r: String)
        ensures
            r@ == item_describe_seq(*self),
    {
        match self {
            Item::Lexeme(Lexeme::Ident(i)) => {
                let mut s = String::from_str("identifier '");
                s.append(i.as_str());
                s.append("'");
                s
            },
            Item::Lexeme(l) => {
                let mut s = String::from_str("'");
                let t = crate::token::lexeme_text(l);
                s.append(t.as_str());
                s.append("'");
                s
            },
            Item::Ident => String::from_str("identifier"),
            Item::Primary => String::from_str("primary expression"),
            Item::Stmt => String::from_str("statement"),
            Item::Assignment => String::from_str("assignment"),
            Item::LVal => String::from_str("l-value"),
            Item::End => String::from_str("end of input"),
        }
    }
}

/// Why a parse attempt failed.
#[derive(Debug, Clone, PartialEq, Eq)]
pub enum Reason {
    /// Expected the first item, found the second.
    Expected(Item, Item),
    /// An expression was used on the left of an assignment but does not
    /// have an assignable shape.
    NotAnLValue,
}

/// A mergeable diagnostic: either the neutral placeholder that starts an
/// accumulation (never surfaced to a caller), or a ranked diagnostic with
/// the trail of enclosing production names it was found under.
#[derive(Debug, Clone, PartialEq, Eq)]
pub enum ParseError {
    Phoney,
    Diag { at: SrcRef, reason: Reason, context: Vec<&'static str> },
}

pub type ParseResult<T> = Result<T, ParseError>;

/// The span a diagnostic points at (`Empty` for the placeholder).
pub open spec fn err_at(e: ParseError) -> SrcRef {
    match e {
        ParseError::Phoney => SrcRef::Empty,
        ParseError::Diag { at, .. } => at,
    }
}

/// The reason of a diagnostic, where there is one.
pub open spec fn err_reason(e: ParseError) -> Option<Reason> {
    match e {
        ParseError::Phoney => None,
        ParseError::Diag { reason, .. } => Some(reason),
    }
}

/// The trail of production names a diagnostic was found under.
pub open spec fn err_ctx(e: ParseError) -> Seq<&'static str> {
    match e {
        ParseError::Phoney => Seq::empty(),
        ParseError::Diag { context, .. } => context@,
    }
}

/// Severity tier: placeholder, expectation mismatch, invalid target.
pub open spec fn severity(e: ParseError) -> int {
    match e {
        ParseError::Phoney => 0,
        ParseError::Diag { reason: Reason::Expected(..), .. } => 1,
        ParseError::Diag { reason: Reason::NotAnLValue, .. } => 2,
    }
}

/// Position depth tier: no position, a real range, end of input.
pub open spec fn pos_class(e: ParseError) -> int {
    match err_at(e) {
        SrcRef::Empty => 0,
        SrcRef::Range { .. } => 1,
        SrcRef::End => 2,
    }
}

/// The start position of a ranged diagnostic, line 0 otherwise.
pub open spec fn err_pos(e: ParseError) -> Pos {
    match err_at(e) {
        SrcRef::Range { start, .. } => start,
        _ => Pos { line: 0, col: 0 },
    }
}

/// The rank of a diagnostic, compared lexicographically: severity first,
/// then position class, then line, then column.
pub open spec fn key_lt(a: ParseError, b: ParseError) -> bool {
    severity(a) < severity(b) || (severity(a) == severity(b) && (pos_class(a) < pos_class(b) || (
    pos_class(a) == pos_class(b) && (err_pos(a).line < err_pos(b).line || (err_pos(a).line
        == err_pos(b).line && err_pos(a).col < err_pos(b).col)))))
}

/// Two diagnostics of the same rank.
pub open spec fn key_eq(a: ParseError, b: ParseError) -> bool {
    severity(a) == severity(b) && pos_class(a) == pos_class(b) && err_pos(a) == err_pos(b)
}

/// What `merge` returns: the higher-ranked argument, the left one on ties.
pub open spec fn spec_merge(a: ParseError, b: ParseError) -> ParseError {
    if key_lt(a, b) {
        b
    } else {
        a
    }
}

impl ParseError {
    /// The neutral accumulator seed.
    pub fn phoney() -> (r: ParseError)
        ensures
            r == ParseError::Phoney,
    {
        ParseError::Phoney
    }

    /// Keeps the more informative of `self` and `other`; on equal rank the
    /// earlier-found (left) diagnostic is kept.
    pub fn merge(self, other: ParseError) -> (r: ParseError)
        ensures
            r == spec_merge(self, other),
    {
        let less = {
            let sa = self.severity_ix();
            let sb = other.severity_ix();
            if sa != sb {
                sa < sb
            } else {
                let ca = self.pos_class_ix();
                let cb = other.pos_class_ix();
                if ca != cb {
                    ca < cb
                } else {
                    let pa = self.pos_ix();
                    let pb = other.pos_ix();
                    pa.line < pb.line || (pa.line == pb.line && pa.col < pb.col)
                }
            }
        };
        if less {
            other
        } else {
            self
        }
    }

    fn severity_ix(&self) -> (r: u8)
        ensures
            r as int == severity(*self),
    {
        match self {
            ParseError::Phoney => 0,
            ParseError::Diag { reason: Reason::Expected(..), .. } => 1,
            ParseError::Diag { reason: Reason::NotAnLValue, .. } => 2,
        }
    }

    fn pos_class_ix(&self) -> (r: u8)
        ensures
            r as int == pos_class(*self),
    {
        match self {
            ParseError::Phoney => 0,
            ParseError::Diag { at, .. } => match at {
                SrcRef::Empty => 0,
                SrcRef::Range { .. } => 1,
                SrcRef::End => 2,
            },
        }
    }

    fn pos_ix(&self) -> (r: Pos)
        ensures
            r == err_pos(*self),
    {
        match self {
            ParseError::Diag { at: SrcRef::Range { start, .. }, .. } => *start,
            _ => Pos { line: 0, col: 0 },
        }
    }

    /// Records that the diagnostic was met while parsing the named
    /// production; the rank is unchanged.
    pub fn while_parsing(self, name: &'static str) -> (r: ParseError)
        ensures
            r is Phoney <==> self is Phoney,
            err_at(r) == err_at(self),
            err_reason(r) == err_reason(self),
            self is Diag ==> err_ctx(r) == err_ctx(self).push(name),
            self is Phoney ==> r == self,
    {
        match self {
            ParseError::Phoney => ParseError::Phoney,
            ParseError::Diag { at, reason, mut context } => {
                context.push(name);
                ParseError::Diag { at, reason, context }
            },
        }
    }
}

/// The shape of a freshly built expectation-mismatch diagnostic.
pub open spec fn is_expected(e: ParseError, want: Item, found: Item, at: SrcRef) -> bool {
    e is Diag && err_at(e) == at && err_reason(e) == Some(Reason::Expected(want, found)) && err_ctx(
        e,
    ) == Seq::<&'static str>::empty()
}

/// Builds the expectation-mismatch diagnostic for `expected X, found Y` at
/// the given span, with an empty production trail.
pub fn expected(want: Item, found: Item, src_ref: SrcRef) -> (e: ParseError)
    ensures
        is_expected(e, want, found, src_ref),
{
    ParseError::Diag { at: src_ref, reason: Reason::Expected(want, found), context: Vec::new() }
}

/// The placeholder is the identity of `merge`, on both sides.
pub proof fn lemma_merge_phoney_identity(e: ParseError)
    ensures
        spec_merge(ParseError::Phoney, e) == e,
        spec_merge(e, ParseError::Phoney) == e,
{
}

/// Merge is idempotent: a candidate merged with itself is unchanged.
pub proof fn lemma_merge_idempotent(e: ParseError)
    ensures
        spec_merge(e, e) == e,
{
}

/// Merge is associative over any candidates whatsoever.
pub proof fn lemma_merge_assoc(a: ParseError, b: ParseError, c: ParseError)
    ensures
        spec_merge(spec_merge(a, b), c) == spec_merge(a, spec_merge(b, c)),
{
}

/// Merge is commutative whenever the two candidates do not share a rank;
/// on a shared rank the call order picks which of the two equally-ranked
/// diagnostics survives, but the surviving rank is still the same (see
/// `lemma_merge_comm_rank`).
pub proof fn lemma_merge_comm(a: ParseError, b: ParseError)
    requires
        !key_eq(a, b),
    ensures
        spec_merge(a, b) == spec_merge(b, a),
{
}

/// In either call order, merge returns a diagnostic of the same rank.
pub proof fn lemma_merge_comm_rank(a: ParseError, b: ParseError)
    ensures
        key_eq(spec_merge(a, b), spec_merge(b, a)),
{
}

/// Merging a shallower-position diagnostic with a deeper-position one of
/// the same severity yields the deeper one, regardless of call order.
pub proof fn lemma_merge_deeper(a: ParseError, b: ParseError)
    requires
        severity(a) == severity(b),
        pos_class(a) < pos_class(b) || (pos_class(a) == pos_class(b) && (err_pos(a).line < err_pos(
            b,
        ).line || (err_pos(a).line == err_pos(b).line && err_pos(a).col < err_pos(b).col))),
    ensures
        spec_merge(a, b) == b,
        spec_merge(b, a) == b,
{
}

/// Merge never invents a diagnostic: it returns one of its arguments, and
/// never one ranked below either argument.
pub proof fn lemma_merge_bounds(a: ParseError, b: ParseError)
    ensures
        spec_merge(a, b) == a || spec_merge(a, b) == b,
        !key_lt(spec_merge(a, b), a),
        !key_lt(spec_merge(a, b), b),
{
}

} // verus!
