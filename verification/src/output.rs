//! Diagnostic rendering: given a span and the original source text,
//! renders the source line holding the span's start, prefixed by its
//! line:column, with a caret line underneath; a plain description is the
//! fallback when no position can be resolved or no source is at hand.

use vstd::prelude::*;
use crate::span::{Pos, SrcRef};

verus! {

/// Relies on String::push: appends the given character to the end.
pub assume_specification[ String::push ](s: &mut String, ch: char)
    ensures
        final(s)@ == old(s)@.push(ch),
;

/// A character repeated a number of times.
#[derive(Debug, PartialEq, Eq)]
pub struct Repeat(pub char, pub usize);

impl Repeat {
    /// The repeated text itself.
    pub fn render(&self) -> (r: String)
        ensures
            r@ == Seq::new(self.1 as nat, |i: int| self.0),
    {
        let mut s = String::new();
        let mut i: usize = 0;
        while i < self.1
            invariant
                i <= self.1,
                s@ == Seq::new(i as nat, |j: int| self.0),
            decreases self.1 - i,
        {
            s.push(self.0);
            proof {
                assert(s@ =~= Seq::new((i + 1) as nat, |j: int| self.0));
            }
            i = i + 1;
        }
        s
    }
}

/// The decimal digit character for a value below ten.
pub open spec fn digit_char(d: nat) -> char {
    if d == 0 {
        '0'
    } else if d == 1 {
        '1'
    } else if d == 2 {
        '2'
    } else if d == 3 {
        '3'
    } else if d == 4 {
        '4'
    } else if d == 5 {
        '5'
    } else if d == 6 {
        '6'
    } else if d == 7 {
        '7'
    } else if d == 8 {
        '8'
    } else {
        '9'
    }
}

/// The decimal rendering of a number, most significant digit first.
pub open spec fn dec_seq(n: nat) -> Seq<char>
    decreases n,
{
    if n < 10 {
        seq![digit_char(n)]
    } else {
        dec_seq(n / 10).push(digit_char(n % 10))
    }
}

fn push_digit(s: &mut String, d: usize)
    requires
        d < 10,
    ensures
        final(s)@ == old(s)@.push(digit_char(d as nat)),
{
    let c: char = if d == 0 {
        '0'
    } else if d == 1 {
        '1'
    } else if d == 2 {
        '2'
    } else if d == 3 {
        '3'
    } else if d == 4 {
        '4'
    } else if d == 5 {
        '5'
    } else if d == 6 {
        '6'
    } else if d == 7 {
        '7'
    } else if d == 8 {
        '8'
    } else {
        '9'
    };
    s.push(c);
}

/// Renders a number in decimal.
pub fn fmt_usize(n: usize) -> (r: String)
    ensures
        r@ == dec_seq(n as nat),
    decreases n,
{
    if n < 10 {
        let mut s = String::new();
        push_digit(&mut s, n);
        proof {
            assert(s@ =~= dec_seq(n as nat));
        }
        s
    } else {
        proof {
            assert(n / 10 < n) by (nonlinear_arith)
                requires
                    n >= 10,
            ;
        }
        let mut s = fmt_usize(n / 10);
        push_digit(&mut s, n % 10);
        s
    }
}

/// The `line:col` rendering of a position.
pub open spec fn pos_seq(p: Pos) -> Seq<char> {
    dec_seq(p.line as nat) + ":"@ + dec_seq(p.col as nat)
}

/// Renders a position as `line:col`.
pub fn fmt_pos(p: &Pos) -> (r: String)
    ensures
        r@ == pos_seq(*p),
{
    let mut s = fmt_usize(p.line);
    s.append(":");
    let col = fmt_usize(p.col);
    s.append(col.as_str());
    s
}

/// The plain description of a span: its start position, or which of the
/// two sentinels it is.
pub open spec fn ref_describe_seq(r: SrcRef) -> Seq<char> {
    match r {
        SrcRef::Empty => "empty span"@,
        SrcRef::End => "end of input"@,
        SrcRef::Range { start, end } => pos_seq(start),
    }
}

/// Renders the plain description of a span.
pub fn describe_ref(r: &SrcRef) -> (s: String)
    ensures
        s@ == ref_describe_seq(*r),
{
    match r {
        SrcRef::Empty => String::from_str("empty span"),
        SrcRef::End => String::from_str("end of input"),
        SrcRef::Range { start, end: _ } => fmt_pos(start),
    }
}

/// The index of the first newline at or after `i`, or the text's length
/// where there is none.
pub open spec fn find_nl(s: Seq<char>, i: int) -> int
    decreases s.len() - i,
{
    if i < 0 {
        0
    } else if i >= s.len() {
        s.len() as int
    } else if s[i] == '\n' {
        i
    } else {
        find_nl(s, i + 1)
    }
}

/// Where the 0-based line `l` starts; one past the end of the text means
/// there is no such line.
pub open spec fn line_start(s: Seq<char>, l: nat) -> int
    decreases l,
{
    if l == 0 {
        0
    } else {
        find_nl(s, line_start(s, (l - 1) as nat)) + 1
    }
}

/// The text of the 0-based line `l`, or a placeholder where the text has
/// no such line.
pub open spec fn line_text(s: Seq<char>, l: nat) -> Seq<char> {
    if line_start(s, l) <= s.len() {
        s.subrange(line_start(s, l), find_nl(s, line_start(s, l)))
    } else {
        "<none>"@
    }
}

proof fn lemma_find_nl_bounds(s: Seq<char>, i: int)
    requires
        0 <= i <= s.len(),
    ensures
        i <= find_nl(s, i) <= s.len(),
    decreases s.len() - i,
{
    if i < s.len() && s[i] != '\n' {
        lemma_find_nl_bounds(s, i + 1);
    }
}

/// Once the running line start has passed the end of the text it stays
/// there: later lines do not exist either.
proof fn lemma_line_start_stuck(s: Seq<char>, a: nat, b: nat)
    requires
        a <= b,
        line_start(s, a) == s.len() + 1,
    ensures
        line_start(s, b) == s.len() + 1,
    decreases b - a,
{
    if a < b {
        lemma_line_start_stuck(s, a + 1, b);
    }
}

/// Looks up a 0-based line of the text, as the renderer's placeholder
/// where the line does not exist.
fn line_string(s: &str, l: usize) -> (r: String)
    ensures
        r@ == line_text(s@, l as nat),
{
    let n = s.unicode_len();
    let mut cur: usize = 0;
    let mut st: usize = 0;
    while cur < l
        invariant
            cur <= l,
            0 <= st <= n,
            n == s@.len(),
            st as int == line_start(s@, cur as nat),
        decreases l - cur,
    {
        let nl = find_nl_exec(s, st);
        if nl >= n {
            proof {
                assert(line_start(s@, (cur + 1) as nat) == s@.len() + 1);
                lemma_line_start_stuck(s@, (cur + 1) as nat, l as nat);
                assert(line_text(s@, l as nat) == "<none>"@);
            }
            return String::from_str("<none>");
        }
        st = nl + 1;
        cur = cur + 1;
    }
    let e = find_nl_exec(s, st);
    let sub = s.substring_char(st, e);
    String::from_str(sub)
}

/// Finds the first newline at or after `from`.
fn find_nl_exec(s: &str, from: usize) -> (r: usize)
    requires
        from <= s@.len(),
    ensures
        r as int == find_nl(s@, from as int),
        from <= r <= s@.len(),
    {
    let n = s.unicode_len();
    let mut i: usize = from;
    while i < n
        invariant
            from <= i <= n,
            n == s@.len(),
            find_nl(s@, from as int) == find_nl(s@, i as int),
        decreases n - i,
    {
        let c = s.get_char(i);
        if c == '\n' {
            return i;
        }
        i = i + 1;
    }
    i
}

/// How many carets to draw under a span: the number of columns it covers
/// where it sits on one line, and one caret otherwise.
pub open spec fn caret_count(r: SrcRef) -> nat {
    match r {
        SrcRef::Range { start, end } => {
            if start.line == end.line && start.col <= end.col {
                sat_add_spec((end.col - start.col) as nat, 1)
            } else {
                1
            }
        },
        _ => 1,
    }
}

/// Addition capped at the machine word.
pub open spec fn sat_add_spec(a: nat, b: nat) -> nat {
    if a + b > usize::MAX {
        usize::MAX as nat
    } else {
        a + b
    }
}

fn sat_add(a: usize, b: usize) -> (r: usize)
    ensures
        r as nat == sat_add_spec(a as nat, b as nat),
{
    if a > usize::MAX - b {
        usize::MAX
    } else {
        a + b
    }
}

/// The indentation of a rendering at a nesting depth: three columns per
/// level, capped at the machine word.
pub open spec fn pad_spec(depth: nat) -> nat {
    if depth * 3 > usize::MAX {
        usize::MAX as nat
    } else {
        depth * 3
    }
}

fn pad_width(depth: usize) -> (r: usize)
    ensures
        r as nat == pad_spec(depth as nat),
{
    if depth > usize::MAX / 3 {
        proof {
            assert(depth * 3 > usize::MAX) by (nonlinear_arith)
                requires
                    depth > usize::MAX / 3,
            ;
        }
        usize::MAX
    } else {
        proof {
            assert(depth * 3 <= usize::MAX) by (nonlinear_arith)
                requires
                    depth <= usize::MAX / 3,
            ;
        }
        depth * 3
    }
}

/// What `fmt_ref` renders when both the source text and a resolvable
/// position are at hand: the source line under its `line:col` prefix,
/// and a caret line pointing at the span.
pub open spec fn rendered_with_source(r_sr: SrcRef, s: Seq<char>, depth: nat, start: Pos) -> Seq<
    char,
> {
    Seq::new(pad_spec(depth), |i: int| ' ') + "|"@ + pos_seq(start) + "| "@ + line_text(
        s,
        sub1_spec(start.line as nat),
    ) + "\n"@ + Seq::new(
        sat_add_spec(
            sat_add_spec(sat_add_spec(pad_spec(depth), pos_seq(start).len()), start.col as nat),
            2,
        ),
        |i: int| ' ',
    ) + Seq::new(caret_count(r_sr), |i: int| '^') + "\n"@
}

/// One less, stopping at zero.
pub open spec fn sub1_spec(n: nat) -> nat {
    if n >= 1 {
        (n - 1) as nat
    } else {
        0
    }
}

/// Renders a span for diagnostics.  With source text and a resolvable
/// position: the source line holding the span's start, prefixed by
/// `line:col`, then a caret line under the spanned columns.  With source
/// text but no position: the span's description alone between bars.
/// With no source text: the bare description.  Every rendering ends in a
/// newline.
pub fn fmt_ref(r: SrcRef, src: Option<&str>, depth: usize) -> (out: String)
    ensures
        (match (src, r) {
            (Some(s), SrcRef::Range { start, end }) => out@ == rendered_with_source(
                r,
                s@,
                depth as nat,
                start,
            ),
            (Some(s), _) => out@ == Seq::new(pad_spec(depth as nat), |i: int| ' ') + "|"@
                + ref_describe_seq(r) + "|\n"@,
            (None, _) => out@ == ref_describe_seq(r) + "\n"@,
        }),
        out@.len() > 0 && out@[out@.len() - 1] == '\n',
    {
    proof {
        reveal_strlit("|");
        reveal_strlit("| ");
        reveal_strlit("|\n");
        reveal_strlit("\n");
    }
    match (src, r) {
        (Some(s), SrcRef::Range { start, end }) => {
            let pad = pad_width(depth);
            let mut out = Repeat(' ', pad).render();
            out.append("|");
            let posstr = fmt_pos(&start);
            out.append(posstr.as_str());
            out.append("| ");
            let lline: usize = if start.line >= 1 {
                start.line - 1
            } else {
                0
            };
            let ltext = line_string(s, lline);
            out.append(ltext.as_str());
            out.append("\n");
            let poslen = posstr.as_str().unicode_len();
            let pad2 = sat_add(sat_add(sat_add(pad, poslen), start.col), 2);
            let spaces2 = Repeat(' ', pad2).render();
            out.append(spaces2.as_str());
            let carets_n = match r {
                SrcRef::Range { start: st2, end: en2 } => {
                    if st2.line == en2.line && st2.col <= en2.col {
                        sat_add(en2.col - st2.col, 1)
                    } else {
                        1
                    }
                },
                _ => 1,
            };
            let carets = Repeat('^', carets_n).render();
            out.append(carets.as_str());
            out.append("\n");
            out
        },
        (Some(s), other) => {
            let pad = pad_width(depth);
            let mut out = Repeat(' ', pad).render();
            out.append("|");
            let d = describe_ref(&other);
            out.append(d.as_str());
            out.append("|\n");
            out
        },
        (None, other) => {
            let mut out = describe_ref(&other);
            out.append("\n");
            out
        },
    }
}

} // verus!
