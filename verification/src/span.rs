//! Source spans: a range over line/column positions, plus the two sentinel
//! values "empty" (covers nothing) and "end of input".  Spans support union,
//! which is what keeps every AST node's span tightly covering its children.

use vstd::prelude::*;

verus! {

/// A position in the source text, 1-based in both coordinates.
#[derive(Clone, Copy, PartialEq, Eq, Structural, Debug)]
pub struct Pos {
    pub line: usize,
    pub col: usize,
}

/// Lexicographic order on positions: earlier line, or same line and
/// earlier-or-equal column.
pub open spec fn pos_le(a: Pos, b: Pos) -> bool {
    a.line < b.line || (a.line == b.line && a.col <= b.col)
}

pub fn pos_before(a: &Pos, b: &Pos) -> (r: bool)
    ensures
        r == pos_le(*a, *b),
{
    a.line < b.line || (a.line == b.line && a.col <= b.col)
}

/// A reference into the source text: nothing, the end of input, or a
/// closed range of positions.
#[derive(Clone, Copy, PartialEq, Eq, Structural, Debug)]
pub enum SrcRef {
    /// Covers no source text at all; the identity element of `union`.
    Empty,
    /// The position just past the last token.
    End,
    /// The closed range from `start` to `end`.
    Range { start: Pos, end: Pos },
}

impl SrcRef {
    pub fn empty() -> (r: SrcRef)
        ensures
            r == SrcRef::Empty,
    {
        SrcRef::Empty
    }

    pub fn end() -> (r: SrcRef)
        ensures
            r == SrcRef::End,
    {
        SrcRef::End
    }

    /// The hull of two spans: `Empty` is the identity, `End` absorbs any
    /// real range, and two ranges give the smallest range covering both.
    pub open spec fn spec_union(self, other: SrcRef) -> SrcRef {
        match (self, other) {
            (SrcRef::Empty, o) => o,
            (s, SrcRef::Empty) => s,
            (SrcRef::End, _) => SrcRef::End,
            (_, SrcRef::End) => SrcRef::End,
            (SrcRef::Range { start: s1, end: e1 }, SrcRef::Range { start: s2, end: e2 }) => {
                SrcRef::Range {
                    start: if pos_le(s1, s2) { s1 } else { s2 },
                    end: if pos_le(e1, e2) { e2 } else { e1 },
                }
            },
        }
    }

    pub fn union(&self, other: &SrcRef) -> (r: SrcRef)
        ensures
            r == self.spec_union(*other),
    {
        match (self, other) {
            (SrcRef::Empty, o) => *o,
            (s, SrcRef::Empty) => *s,
            (SrcRef::End, _) => SrcRef::End,
            (_, SrcRef::End) => SrcRef::End,
            (SrcRef::Range { start: s1, end: e1 }, SrcRef::Range { start: s2, end: e2 }) => {
                SrcRef::Range {
                    start: if pos_before(s1, s2) { *s1 } else { *s2 },
                    end: if pos_before(e1, e2) { *e2 } else { *e1 },
                }
            },
        }
    }

    /// Whether this span covers `inner`: the empty span is covered by
    /// everything, the end-of-input sentinel covers everything.
    pub open spec fn covers(self, inner: SrcRef) -> bool {
        match inner {
            SrcRef::Empty => true,
            SrcRef::End => self is End,
            SrcRef::Range { start: bs, end: be } => match self {
                SrcRef::Empty => false,
                SrcRef::End => true,
                SrcRef::Range { start: a_s, end: ae } => pos_le(a_s, bs) && pos_le(be, ae),
            },
        }
    }

    /// The start of the span, where it has one.
    pub fn start(&self) -> (r: Option<Pos>)
        ensures
            r == (match *self {
                SrcRef::Range { start, end } => Some(start),
                _ => None::<Pos>,
            }),
    {
        match self {
            SrcRef::Range { start, end: _ } => Some(*start),
            _ => None,
        }
    }
}

/// The union of two spans covers each of them.
pub proof fn lemma_union_covers(a: SrcRef, b: SrcRef)
    ensures
        a.spec_union(b).covers(a),
        a.spec_union(b).covers(b),
{
}

/// Union of spans is commutative.
pub proof fn lemma_union_comm(a: SrcRef, b: SrcRef)
    ensures
        a.spec_union(b) == b.spec_union(a),
{
}

/// Union of spans is associative.
pub proof fn lemma_union_assoc(a: SrcRef, b: SrcRef, c: SrcRef)
    ensures
        a.spec_union(b).spec_union(c) == a.spec_union(b.spec_union(c)),
{
}

/// Covering is transitive.
pub proof fn lemma_covers_trans(a: SrcRef, b: SrcRef, c: SrcRef)
    requires
        a.covers(b),
        b.covers(c),
    ensures
        a.covers(c),
{
}

/// Growing a span by union never stops it covering what it covered.
pub proof fn lemma_union_covers_mono(a: SrcRef, b: SrcRef, c: SrcRef)
    requires
        a.covers(c),
    ensures
        a.spec_union(b).covers(c),
        b.spec_union(a).covers(c),
{
}

} // verus!
