use scriptparse::ast::{Expr, LVal, Node};
use scriptparse::error::{expected, Item, ParseError, Reason};
use scriptparse::span::{Pos, SrcRef};
use scriptparse::token::Lexeme;

fn at(line: usize, col: usize) -> SrcRef {
    SrcRef::Range { start: Pos { line, col }, end: Pos { line, col } }
}

fn exp_at(r: SrcRef) -> ParseError {
    expected(Item::Primary, Item::Lexeme(Lexeme::Comma), r)
}

#[test]
fn merging_keeps_the_deeper_position_in_either_order() {
    let shallow = exp_at(at(1, 2));
    let deep = exp_at(at(1, 9));
    assert_eq!(shallow.clone().merge(deep.clone()), deep);
    assert_eq!(deep.clone().merge(shallow), deep);
}

#[test]
fn later_line_is_deeper_than_later_column() {
    let a = exp_at(at(1, 80));
    let b = exp_at(at(2, 1));
    assert_eq!(a.clone().merge(b.clone()), b);
    assert_eq!(b.clone().merge(a), b);
}

#[test]
fn end_of_input_is_deeper_than_any_range() {
    let ranged = exp_at(at(9, 9));
    let ended = exp_at(SrcRef::End);
    assert_eq!(ranged.clone().merge(ended.clone()), ended);
    assert_eq!(ended.clone().merge(ranged), ended);
}

#[test]
fn placeholder_is_the_identity_of_merge() {
    let e = exp_at(at(3, 4));
    assert_eq!(ParseError::Phoney.merge(e.clone()), e);
    assert_eq!(e.clone().merge(ParseError::Phoney), e);
    assert_eq!(ParseError::Phoney.merge(ParseError::Phoney), ParseError::Phoney);
}

#[test]
fn merge_associates_over_three_candidates() {
    let a = exp_at(at(1, 1));
    let b = exp_at(at(2, 2));
    let c = exp_at(SrcRef::End);
    let left = a.clone().merge(b.clone()).merge(c.clone());
    let right = a.merge(b.merge(c));
    assert_eq!(left, right);
    assert_eq!(left, exp_at(SrcRef::End));
}

#[test]
fn invalid_target_outranks_expectation_mismatches() {
    let mismatch = exp_at(at(1, 9));
    let target = ParseError::Diag { at: at(1, 1), reason: Reason::NotAnLValue, context: vec![] };
    assert_eq!(mismatch.merge(target.clone()), target);
}

#[test]
fn context_wrapping_keeps_the_rank_and_builds_a_trail() {
    let e = exp_at(at(1, 5));
    let wrapped = e.while_parsing("list").while_parsing("expression");
    match &wrapped {
        ParseError::Diag { at: w_at, reason, context } => {
            assert_eq!(*w_at, at(1, 5));
            assert!(matches!(reason, Reason::Expected(..)));
            assert_eq!(context, &vec!["list", "expression"]);
        },
        other => panic!("expected a diagnostic, got {:?}", other),
    }
    let deep = exp_at(at(1, 9));
    assert_eq!(wrapped.merge(deep.clone()), deep);
}

#[test]
fn placeholder_stays_neutral_under_context() {
    assert_eq!(ParseError::Phoney.while_parsing("list"), ParseError::Phoney);
}

#[test]
fn identifier_expression_becomes_local_target() {
    let node = Node(Expr::Ident(Node("x".to_string(), at(1, 1))), at(1, 1));
    match node.into_lvalue() {
        Ok(Node(LVal::Local(name), sp)) => {
            assert_eq!(name.0, "x");
            assert_eq!(sp, at(1, 1));
        },
        other => panic!("expected a local target, got {:?}", other),
    }
}

#[test]
fn literal_expression_is_not_a_target() {
    let node = Node(Expr::LiteralNumber("1".to_string()), at(2, 7));
    match node.into_lvalue() {
        Err(ParseError::Diag { at: e_at, reason, context }) => {
            assert_eq!(e_at, at(2, 7));
            assert_eq!(reason, Reason::NotAnLValue);
            assert!(context.is_empty());
        },
        other => panic!("expected an invalid-target error, got {:?}", other),
    }
}

#[test]
fn items_describe_themselves_for_diagnostics() {
    assert_eq!(Item::Lexeme(Lexeme::Plus).describe(), "'+'");
    assert_eq!(Item::Lexeme(Lexeme::Ident("x".to_string())).describe(), "identifier 'x'");
    assert_eq!(Item::Lexeme(Lexeme::Number("42".to_string())).describe(), "'42'");
    assert_eq!(Item::Lexeme(Lexeme::While).describe(), "'while'");
    assert_eq!(Item::Lexeme(Lexeme::CharLit('c')).describe(), "'c'");
    assert_eq!(Item::Ident.describe(), "identifier");
    assert_eq!(Item::Primary.describe(), "primary expression");
    assert_eq!(Item::Stmt.describe(), "statement");
    assert_eq!(Item::Assignment.describe(), "assignment");
    assert_eq!(Item::LVal.describe(), "l-value");
    assert_eq!(Item::End.describe(), "end of input");
}

#[test]
fn span_union_is_the_hull_and_empty_is_identity() {
    let a = SrcRef::Range { start: Pos { line: 1, col: 3 }, end: Pos { line: 1, col: 5 } };
    let b = SrcRef::Range { start: Pos { line: 1, col: 9 }, end: Pos { line: 2, col: 1 } };
    let hull = SrcRef::Range { start: Pos { line: 1, col: 3 }, end: Pos { line: 2, col: 1 } };
    assert_eq!(a.union(&b), hull);
    assert_eq!(b.union(&a), hull);
    assert_eq!(SrcRef::Empty.union(&a), a);
    assert_eq!(a.union(&SrcRef::Empty), a);
    assert_eq!(a.union(&SrcRef::End), SrcRef::End);
    assert_eq!(a.start(), Some(Pos { line: 1, col: 3 }));
    assert_eq!(SrcRef::End.start(), None);
    assert_eq!(SrcRef::empty(), SrcRef::Empty);
    assert_eq!(SrcRef::end(), SrcRef::End);
}
