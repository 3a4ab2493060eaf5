use scriptparse::ast::{Expr, LVal, Stmt};
use scriptparse::error::{Item, ParseError, Reason};
use scriptparse::parse::ParseCtx;
use scriptparse::span::{Pos, SrcRef};
use scriptparse::token::{Lexeme, Token};
use std::rc::Rc;

fn sp(col: usize) -> SrcRef {
    SrcRef::Range { start: Pos { line: 1, col }, end: Pos { line: 1, col } }
}

fn span(c1: usize, c2: usize) -> SrcRef {
    SrcRef::Range { start: Pos { line: 1, col: c1 }, end: Pos { line: 1, col: c2 } }
}

fn toks(ls: Vec<Lexeme>) -> Vec<Token> {
    ls.into_iter().enumerate().map(|(i, l)| Token(l, sp(i + 1))).collect()
}

fn num(s: &str) -> Lexeme {
    Lexeme::Number(s.to_string())
}

fn id(s: &str) -> Lexeme {
    Lexeme::Ident(s.to_string())
}

fn parse_expr(ls: Vec<Lexeme>) -> Result<Expr, ParseError> {
    let ts = toks(ls);
    let mut ctx = ParseCtx::new(&ts, Rc::new(String::new()));
    ctx.read_expr_full()
}

fn parse_stmts(ls: Vec<Lexeme>) -> Result<Vec<scriptparse::ast::Node<Stmt>>, ParseError> {
    let ts = toks(ls);
    let mut ctx = ParseCtx::new(&ts, Rc::new(String::new()));
    ctx.read_stmts_full()
}

#[test]
fn empty_brackets_parse_as_empty_list() {
    let e = parse_expr(vec![Lexeme::LBrack, Lexeme::RBrack]).unwrap();
    match e {
        Expr::List(items) => assert_eq!(items.0.len(), 0),
        other => panic!("expected a list, got {:?}", other),
    }
}

#[test]
fn three_numbers_parse_as_list() {
    let e = parse_expr(vec![
        Lexeme::LBrack,
        num("1"),
        Lexeme::Comma,
        num("2"),
        Lexeme::Comma,
        num("3"),
        Lexeme::RBrack,
    ])
    .unwrap();
    match e {
        Expr::List(items) => {
            assert_eq!(items.0.len(), 3);
            assert!(matches!(&items.0[0].0, Expr::LiteralNumber(s) if s == "1"));
            assert!(matches!(&items.0[2].0, Expr::LiteralNumber(s) if s == "3"));
        },
        other => panic!("expected a list, got {:?}", other),
    }
}

#[test]
fn item_semicolon_count_parses_as_list_repeat() {
    let e = parse_expr(vec![
        Lexeme::LBrack,
        num("0"),
        Lexeme::Semicolon,
        num("5"),
        Lexeme::RBrack,
    ])
    .unwrap();
    match e {
        Expr::ListClone(item, count) => {
            assert!(matches!(&item.0, Expr::LiteralNumber(s) if s == "0"));
            assert!(matches!(&count.0, Expr::LiteralNumber(s) if s == "5"));
        },
        other => panic!("expected a list-repeat, got {:?}", other),
    }
}

#[test]
fn key_value_brackets_parse_as_map() {
    let e = parse_expr(vec![
        Lexeme::LBrack,
        Lexeme::Str("a".to_string()),
        Lexeme::Colon,
        num("1"),
        Lexeme::RBrack,
    ])
    .unwrap();
    match e {
        Expr::MapLit(items) => {
            assert_eq!(items.0.len(), 1);
            assert!(matches!(&items.0[0].0 .0, Expr::LiteralString(s) if s == "a"));
            assert!(matches!(&items.0[0].1 .0, Expr::LiteralNumber(s) if s == "1"));
        },
        other => panic!("expected a map, got {:?}", other),
    }
}

#[test]
fn assignment_to_identifier_parses() {
    let stmts = parse_stmts(vec![id("x"), Lexeme::Assign, num("1"), Lexeme::Semicolon]).unwrap();
    assert_eq!(stmts.len(), 1);
    match &stmts[0].0 {
        Stmt::Expr(e) => match &e.0 {
            Expr::BinaryAssign(_, target, value) => {
                assert!(matches!(&target.0, LVal::Local(n) if n.0 == "x"));
                assert!(matches!(&value.0, Expr::LiteralNumber(s) if s == "1"));
            },
            other => panic!("expected an assignment, got {:?}", other),
        },
        other => panic!("expected an expression statement, got {:?}", other),
    }
}

#[test]
fn assignment_to_call_fails_with_target_error_at_call_span() {
    let r = parse_stmts(vec![
        id("f"),
        Lexeme::LParen,
        Lexeme::RParen,
        Lexeme::Assign,
        num("1"),
        Lexeme::Semicolon,
    ]);
    match r {
        Err(ParseError::Diag { at, reason, .. }) => {
            assert_eq!(reason, Reason::NotAnLValue);
            assert_eq!(at, span(1, 3));
        },
        other => panic!("expected an invalid-target error, got {:?}", other),
    }
}

#[test]
fn multiplication_binds_tighter_than_addition() {
    let e = parse_expr(vec![num("1"), Lexeme::Plus, num("2"), Lexeme::Star, num("3")]).unwrap();
    match e {
        Expr::BinaryAdd(_, l, r) => {
            assert!(matches!(&l.0, Expr::LiteralNumber(s) if s == "1"));
            match &r.0 {
                Expr::BinaryMul(_, ml, mr) => {
                    assert!(matches!(&ml.0, Expr::LiteralNumber(s) if s == "2"));
                    assert!(matches!(&mr.0, Expr::LiteralNumber(s) if s == "3"));
                },
                other => panic!("expected a product on the right, got {:?}", other),
            }
        },
        other => panic!("expected a sum, got {:?}", other),
    }
}

#[test]
fn assignment_nests_to_the_right() {
    let e = parse_expr(vec![id("a"), Lexeme::Assign, id("b"), Lexeme::Assign, num("3")]).unwrap();
    match e {
        Expr::BinaryAssign(_, target, value) => {
            assert!(matches!(&target.0, LVal::Local(n) if n.0 == "a"));
            match &value.0 {
                Expr::BinaryAssign(_, inner_target, inner_value) => {
                    assert!(matches!(&inner_target.0, LVal::Local(n) if n.0 == "b"));
                    assert!(matches!(&inner_value.0, Expr::LiteralNumber(s) if s == "3"));
                },
                other => panic!("expected a nested assignment, got {:?}", other),
            }
        },
        other => panic!("expected an assignment, got {:?}", other),
    }
}

#[test]
fn postfix_chain_composes_and_covers_whole_span() {
    // a . b [ 0 ] ( 1 , 2 ) ;   at columns 1..=12
    let stmts = parse_stmts(vec![
        id("a"),
        Lexeme::Dot,
        id("b"),
        Lexeme::LBrack,
        num("0"),
        Lexeme::RBrack,
        Lexeme::LParen,
        num("1"),
        Lexeme::Comma,
        num("2"),
        Lexeme::RParen,
        Lexeme::Semicolon,
    ])
    .unwrap();
    let e = match &stmts[0].0 {
        Stmt::Expr(e) => e,
        other => panic!("expected an expression statement, got {:?}", other),
    };
    assert_eq!(e.1, span(1, 11));
    match &e.0 {
        Expr::Call(call_sp, callee, args) => {
            assert_eq!(args.0.len(), 2);
            assert_eq!(*call_sp, span(7, 11));
            assert_eq!(callee.1, span(1, 6));
            match &callee.0 {
                Expr::Index(_, base, index) => {
                    assert!(matches!(&index.0, Expr::LiteralNumber(s) if s == "0"));
                    assert_eq!(base.1, span(1, 3));
                    match &base.0 {
                        Expr::DotAccess(_, obj, name) => {
                            assert!(matches!(&obj.0, Expr::Ident(n) if n.0 == "a"));
                            assert_eq!(name.0, "b");
                        },
                        other => panic!("expected member access, got {:?}", other),
                    }
                },
                other => panic!("expected an index, got {:?}", other),
            }
        },
        other => panic!("expected a call, got {:?}", other),
    }
}

#[test]
fn postfix_chain_span_covers_every_token() {
    // The span of each node in `a.b[0]` covers its children: check the
    // whole chain's span directly on the statement parse, where the node
    // span is kept.
    let stmts = parse_stmts(vec![
        id("a"),
        Lexeme::Dot,
        id("b"),
        Lexeme::LBrack,
        num("0"),
        Lexeme::RBrack,
        Lexeme::Semicolon,
    ])
    .unwrap();
    match &stmts[0].0 {
        Stmt::Expr(e) => {
            assert_eq!(e.1, span(1, 6));
            assert!(matches!(&e.0, Expr::Index(..)));
        },
        other => panic!("expected an expression statement, got {:?}", other),
    }
    assert_eq!(stmts[0].1, span(1, 7));
}

#[test]
fn end_to_end_declaration_then_if_else() {
    let stmts = parse_stmts(vec![
        Lexeme::Var,
        id("x"),
        Lexeme::Assign,
        num("1"),
        Lexeme::Semicolon,
        Lexeme::If,
        id("x"),
        Lexeme::Greater,
        num("0"),
        Lexeme::LBrace,
        Lexeme::Print,
        id("x"),
        Lexeme::Semicolon,
        Lexeme::RBrace,
        Lexeme::Else,
        Lexeme::LBrace,
        Lexeme::Print,
        num("0"),
        Lexeme::Minus,
        id("x"),
        Lexeme::Semicolon,
        Lexeme::RBrace,
    ])
    .unwrap();
    assert_eq!(stmts.len(), 2);
    match &stmts[0].0 {
        Stmt::Decl(name, value) => {
            assert_eq!(name.0, "x");
            assert!(matches!(&value.0, Expr::LiteralNumber(s) if s == "1"));
        },
        other => panic!("expected a declaration, got {:?}", other),
    }
    match &stmts[1].0 {
        Stmt::IfElse(cond, true_block, false_block) => {
            assert!(matches!(&cond.0, Expr::BinaryGreater(..)));
            assert_eq!(true_block.0 .0.len(), 1);
            assert!(matches!(&true_block.0 .0[0].0, Stmt::Print(_)));
            assert_eq!(false_block.0 .0.len(), 1);
            match &false_block.0 .0[0].0 {
                Stmt::Print(e) => assert!(matches!(&e.0, Expr::BinarySub(..))),
                other => panic!("expected a print, got {:?}", other),
            }
        },
        other => panic!("expected an if-else, got {:?}", other),
    }
}

#[test]
fn truncated_list_reports_missing_bracket_at_end_of_input() {
    let r = parse_expr(vec![Lexeme::LBrack, num("1"), Lexeme::Comma, num("2")]);
    match r {
        Err(ParseError::Diag { at, reason, .. }) => {
            assert_eq!(at, SrcRef::End);
            match reason {
                Reason::Expected(want, found) => {
                    assert!(
                        want == Item::Lexeme(Lexeme::RBrack) || want == Item::Lexeme(Lexeme::Comma)
                    );
                    assert_eq!(found, Item::Lexeme(Lexeme::Eof));
                },
                other => panic!("expected an expectation mismatch, got {:?}", other),
            }
        },
        other => panic!("expected an error at end of input, got {:?}", other),
    }
}

#[test]
fn empty_input_parses_to_empty_expression_and_no_statements() {
    assert!(matches!(parse_expr(vec![]), Ok(Expr::Nil)));
    assert_eq!(parse_stmts(vec![]).unwrap().len(), 0);
}

#[test]
fn trailing_tokens_are_an_error() {
    let r = parse_expr(vec![num("1"), num("2")]);
    match r {
        Err(ParseError::Diag { at, reason, .. }) => {
            assert_eq!(at, sp(2));
            assert!(matches!(reason, Reason::Expected(Item::End, _)));
        },
        other => panic!("expected a trailing-input error, got {:?}", other),
    }
}

#[test]
fn parenthesized_expression_regroups_and_covers_parens() {
    let stmts = parse_stmts(vec![
        Lexeme::LParen,
        num("1"),
        Lexeme::Plus,
        num("2"),
        Lexeme::RParen,
        Lexeme::Star,
        num("3"),
        Lexeme::Semicolon,
    ])
    .unwrap();
    match &stmts[0].0 {
        Stmt::Expr(e) => match &e.0 {
            Expr::BinaryMul(_, l, r) => {
                assert!(matches!(&l.0, Expr::BinaryAdd(..)));
                assert_eq!(l.1, span(1, 5));
                assert!(matches!(&r.0, Expr::LiteralNumber(s) if s == "3"));
            },
            other => panic!("expected a product, got {:?}", other),
        },
        other => panic!("expected an expression statement, got {:?}", other),
    }
}

#[test]
fn bare_if_without_else_succeeds() {
    let stmts = parse_stmts(vec![
        Lexeme::If,
        id("x"),
        Lexeme::LBrace,
        Lexeme::Print,
        id("x"),
        Lexeme::Semicolon,
        Lexeme::RBrace,
    ])
    .unwrap();
    assert_eq!(stmts.len(), 1);
    assert!(matches!(&stmts[0].0, Stmt::If(..)));
}

#[test]
fn while_for_and_return_statements_parse() {
    let stmts = parse_stmts(vec![
        Lexeme::While,
        Lexeme::True,
        Lexeme::LBrace,
        Lexeme::Return,
        num("1"),
        Lexeme::Semicolon,
        Lexeme::RBrace,
        Lexeme::For,
        id("i"),
        Lexeme::In,
        num("0"),
        Lexeme::DotDot,
        num("9"),
        Lexeme::LBrace,
        Lexeme::RBrace,
    ])
    .unwrap();
    assert_eq!(stmts.len(), 2);
    match &stmts[0].0 {
        Stmt::While(cond, body) => {
            assert!(matches!(&cond.0, Expr::LiteralBoolean(true)));
            assert!(matches!(&body.0 .0[0].0, Stmt::Return(_)));
        },
        other => panic!("expected a while, got {:?}", other),
    }
    match &stmts[1].0 {
        Stmt::For(name, iter, _body) => {
            assert_eq!(name.0, "i");
            assert!(matches!(&iter.0, Expr::BinaryRange(..)));
        },
        other => panic!("expected a for, got {:?}", other),
    }
}

#[test]
fn stacked_prefix_operators_parse() {
    let e = parse_expr(vec![Lexeme::CloneOp, Lexeme::Mirror, id("x")]).unwrap();
    match e {
        Expr::UnaryClone(_, inner) => assert!(matches!(&inner.0, Expr::UnaryMirror(..))),
        other => panic!("expected a clone operator, got {:?}", other),
    }
}

#[test]
fn function_literal_shares_the_source_text() {
    let ts = toks(vec![
        Lexeme::Pipe,
        id("a"),
        Lexeme::Pipe,
        Lexeme::LBrace,
        Lexeme::Return,
        id("a"),
        Lexeme::Semicolon,
        Lexeme::RBrace,
    ]);
    let code = Rc::new("|a| { return a; }".to_string());
    let mut ctx = ParseCtx::new(&ts, code.clone());
    let e = ctx.read_expr_full().unwrap();
    match e {
        Expr::Fn(held, payload) => {
            assert_eq!(*held, *code);
            assert!(Rc::ptr_eq(&held, &code));
            let (args, body) = &*payload;
            assert_eq!(args.0 .0.len(), 1);
            assert_eq!(args.0 .0[0].0, "a");
            assert_eq!(body.0 .0.len(), 1);
            assert!(matches!(&body.0 .0[0].0, Stmt::Return(_)));
        },
        other => panic!("expected a function literal, got {:?}", other),
    }
}

#[test]
fn every_parsed_span_covers_the_operator_and_operands() {
    // 1 + 2 * 3 at columns 1..=5: the sum's span covers everything, the
    // product's span covers columns 3..=5.
    let stmts = parse_stmts(vec![
        num("1"),
        Lexeme::Plus,
        num("2"),
        Lexeme::Star,
        num("3"),
        Lexeme::Semicolon,
    ])
    .unwrap();
    assert_eq!(stmts[0].1, span(1, 6));
    match &stmts[0].0 {
        Stmt::Expr(e) => {
            assert_eq!(e.1, span(1, 5));
            match &e.0 {
                Expr::BinaryAdd(op, l, r) => {
                    assert_eq!(*op, sp(2));
                    assert_eq!(l.1, sp(1));
                    assert_eq!(r.1, span(3, 5));
                },
                other => panic!("expected a sum, got {:?}", other),
            }
        },
        other => panic!("expected an expression statement, got {:?}", other),
    }
}

#[test]
fn cursor_peek_and_advance_walk_the_stream() {
    let ts = toks(vec![num("7"), Lexeme::Comma]);
    let mut ctx = ParseCtx::new(&ts, Rc::new(String::new()));
    assert_eq!(ctx.src_ref(), sp(1));
    assert!(matches!(ctx.peek(), Token(Lexeme::Number(s), _) if s == "7"));
    ctx.advance();
    assert!(matches!(ctx.peek(), Token(Lexeme::Comma, _)));
    ctx.advance();
    assert!(matches!(ctx.peek(), Token(Lexeme::Eof, SrcRef::End)));
    assert_eq!(ctx.src_ref(), SrcRef::End);
    ctx.advance();
    assert!(matches!(ctx.peek(), Token(Lexeme::Eof, SrcRef::End)));
}

#[test]
fn read_ident_and_member_consume_exactly_their_tokens() {
    let ts = toks(vec![Lexeme::Dot, id("field"), num("1")]);
    let mut ctx = ParseCtx::new(&ts, Rc::new(String::new()));
    let (dot_sp, name, acc) = ctx.read_member().unwrap();
    assert_eq!(dot_sp, sp(1));
    assert_eq!(name.0, "field");
    assert_eq!(name.1, sp(2));
    assert_eq!(acc, ParseError::Phoney);
    assert!(ctx.read_ident().is_err());
    assert!(matches!(ctx.peek(), Token(Lexeme::Number(_), _)));
}

#[test]
fn compound_assignment_operators_parse() {
    for (lx, want_add) in [(Lexeme::PlusEq, true), (Lexeme::SlashEq, false)] {
        let e = parse_expr(vec![id("x"), lx, num("2")]).unwrap();
        match e {
            Expr::BinaryAddAssign(..) => assert!(want_add),
            Expr::BinaryDivAssign(..) => assert!(!want_add),
            other => panic!("expected a compound assignment, got {:?}", other),
        }
    }
}

#[test]
fn index_target_is_assignable() {
    let e = parse_expr(vec![
        id("xs"),
        Lexeme::LBrack,
        num("0"),
        Lexeme::RBrack,
        Lexeme::Assign,
        num("9"),
    ])
    .unwrap();
    match e {
        Expr::BinaryAssign(_, target, _) => {
            assert!(matches!(&target.0, LVal::Index(..)));
        },
        other => panic!("expected an assignment, got {:?}", other),
    }
}

#[test]
fn every_literal_kind_parses_to_its_own_node() {
    assert!(matches!(parse_expr(vec![num("7")]), Ok(Expr::LiteralNumber(s)) if s == "7"));
    assert!(
        matches!(parse_expr(vec![Lexeme::Str("hi".to_string())]), Ok(Expr::LiteralString(s)) if s == "hi")
    );
    assert!(matches!(parse_expr(vec![Lexeme::CharLit('q')]), Ok(Expr::LiteralChar('q'))));
    assert!(matches!(parse_expr(vec![Lexeme::True]), Ok(Expr::LiteralBoolean(true))));
    assert!(matches!(parse_expr(vec![Lexeme::False]), Ok(Expr::LiteralBoolean(false))));
    assert!(matches!(parse_expr(vec![Lexeme::Null]), Ok(Expr::LiteralNull)));
    assert!(matches!(parse_expr(vec![id("y")]), Ok(Expr::Ident(n)) if n.0 == "y"));
}

#[test]
fn comparison_equivalence_and_remainder_operators_parse() {
    let e = parse_expr(vec![id("a"), Lexeme::Percent, num("2"), Lexeme::LessEq, id("b")]).unwrap();
    match e {
        Expr::BinaryLessEq(_, l, _) => assert!(matches!(&l.0, Expr::BinaryRem(..))),
        other => panic!("expected a comparison, got {:?}", other),
    }
    let e2 = parse_expr(vec![id("a"), Lexeme::BangEq, id("b"), Lexeme::Xor, Lexeme::Input, id(
        "c",
    )])
    .unwrap();
    match e2 {
        Expr::BinaryXor(_, l, r) => {
            assert!(matches!(&l.0, Expr::BinaryNotEq(..)));
            assert!(matches!(&r.0, Expr::UnaryInput(..)));
        },
        other => panic!("expected a logical operation, got {:?}", other),
    }
}

#[test]
fn unary_negation_binds_tighter_than_subtraction() {
    let e = parse_expr(vec![num("1"), Lexeme::Minus, Lexeme::Minus, num("2")]).unwrap();
    match e {
        Expr::BinarySub(_, l, r) => {
            assert!(matches!(&l.0, Expr::LiteralNumber(s) if s == "1"));
            assert!(matches!(&r.0, Expr::UnaryNeg(..)));
        },
        other => panic!("expected a subtraction, got {:?}", other),
    }
}

#[test]
fn print_number_statement_parses_alone() {
    let stmts = parse_stmts(vec![Lexeme::Print, num("1"), Lexeme::Semicolon]).unwrap();
    assert_eq!(stmts.len(), 1);
    match &stmts[0].0 {
        Stmt::Print(e) => assert!(matches!(&e.0, Expr::LiteralNumber(s) if s == "1")),
        other => panic!("expected a print statement, got {:?}", other),
    }
}

#[test]
fn truncated_expression_reports_at_end_of_input() {
    let r = parse_expr(vec![num("1"), Lexeme::Plus]);
    match r {
        Err(ParseError::Diag { at, reason, .. }) => {
            assert_eq!(at, SrcRef::End);
            assert!(matches!(reason, Reason::Expected(Item::Primary, _)));
        },
        other => panic!("expected an error at end of input, got {:?}", other),
    }
}

#[test]
fn as_cast_and_logical_operators_parse() {
    let e = parse_expr(vec![
        id("a"),
        Lexeme::As,
        id("b"),
        Lexeme::And,
        Lexeme::Bang,
        id("c"),
    ])
    .unwrap();
    match e {
        Expr::BinaryAnd(_, l, r) => {
            assert!(matches!(&l.0, Expr::BinaryAs(..)));
            assert!(matches!(&r.0, Expr::UnaryNot(..)));
        },
        other => panic!("expected a logical operation, got {:?}", other),
    }
}
