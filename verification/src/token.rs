//! The span-tagged token stream handed to the parser by the lexer.
//! Number literals carry their source text; the parser never interprets
//! them, it only stores them in the tree.

use vstd::prelude::*;
use crate::span::SrcRef;

verus! {

/// One lexed word of the language.
#[derive(Debug, Clone, PartialEq, Eq)]
pub enum Lexeme {
    Number(String),
    Str(String),
    CharLit(char),
    True,
    False,
    Null,
    Ident(String),
    LParen,
    RParen,
    LBrack,
    RBrack,
    LBrace,
    RBrace,
    Pipe,
    Dot,
    DotDot,
    Comma,
    Colon,
    Semicolon,
    Bang,
    BangEq,
    Assign,
    Eq,
    PlusEq,
    MinusEq,
    StarEq,
    SlashEq,
    PercentEq,
    Plus,
    Minus,
    Star,
    Slash,
    Percent,
    Greater,
    GreaterEq,
    Less,
    LessEq,
    And,
    Or,
    Xor,
    As,
    Input,
    CloneOp,
    Mirror,
    Print,
    If,
    Else,
    While,
    For,
    In,
    Var,
    Return,
    Eof,
}

/// A lexeme together with the span of source text it came from.
#[derive(Debug, Clone, PartialEq, Eq)]
pub struct Token(pub Lexeme, pub SrcRef);

/// The concrete text a lexeme stands for, as diagnostics quote it.
pub open spec fn lexeme_text_seq(l: Lexeme) -> Seq<char> {
    match l {
        Lexeme::Number(s) => s@,
        Lexeme::Str(s) => s@,
        Lexeme::CharLit(c) => Seq::empty().push(c),
        Lexeme::True => "true"@,
        Lexeme::False => "false"@,
        Lexeme::Null => "null"@,
        Lexeme::Ident(s) => s@,
        Lexeme::LParen => "("@,
        Lexeme::RParen => ")"@,
        Lexeme::LBrack => "["@,
        Lexeme::RBrack => "]"@,
        Lexeme::LBrace => "{"@,
        Lexeme::RBrace => "}"@,
        Lexeme::Pipe => "|"@,
        Lexeme::Dot => "."@,
        Lexeme::DotDot => ".."@,
        Lexeme::Comma => ","@,
        Lexeme::Colon => ":"@,
        Lexeme::Semicolon => ";"@,
        Lexeme::Bang => "!"@,
        Lexeme::BangEq => "!="@,
        Lexeme::Assign => "="@,
        Lexeme::Eq => "=="@,
        Lexeme::PlusEq => "+="@,
        Lexeme::MinusEq => "-="@,
        Lexeme::StarEq => "*="@,
        Lexeme::SlashEq => "/="@,
        Lexeme::PercentEq => "%="@,
        Lexeme::Plus => "+"@,
        Lexeme::Minus => "-"@,
        Lexeme::Star => "*"@,
        Lexeme::Slash => "/"@,
        Lexeme::Percent => "%"@,
        Lexeme::Greater => ">"@,
        Lexeme::GreaterEq => ">="@,
        Lexeme::Less => "<"@,
        Lexeme::LessEq => "<="@,
        Lexeme::And => "and"@,
        Lexeme::Or => "or"@,
        Lexeme::Xor => "xor"@,
        Lexeme::As => "as"@,
        Lexeme::Input => "input"@,
        Lexeme::CloneOp => "clone"@,
        Lexeme::Mirror => "mirror"@,
        Lexeme::Print => "print"@,
        Lexeme::If => "if"@,
        Lexeme::Else => "else"@,
        Lexeme::While => "while"@,
        Lexeme::For => "for"@,
        Lexeme::In => "in"@,
        Lexeme::Var => "var"@,
        Lexeme::Return => "return"@,
        Lexeme::Eof => "end of input"@,
    }
}

/// Renders the concrete text a lexeme stands for.
pub fn lexeme_text(l: &Lexeme) -> (r: String)
    ensures
        r@ == lexeme_text_seq(*l),
{
    match l {
        Lexeme::Number(s) => s.clone(),
        Lexeme::Str(s) => s.clone(),
        Lexeme::CharLit(c) => {
            let mut s = String::new();
            s.push(*c);
            proof {
                assert(s@ =~= Seq::empty().push(*c));
            }
            s
        },
        Lexeme::True => String::from_str("true"),
        Lexeme::False => String::from_str("false"),
        Lexeme::Null => String::from_str("null"),
        Lexeme::Ident(s) => s.clone(),
        Lexeme::LParen => String::from_str("("),
        Lexeme::RParen => String::from_str(")"),
        Lexeme::LBrack => String::from_str("["),
        Lexeme::RBrack => String::from_str("]"),
        Lexeme::LBrace => String::from_str("{"),
        Lexeme::RBrace => String::from_str("}"),
        Lexeme::Pipe => String::from_str("|"),
        Lexeme::Dot => String::from_str("."),
        Lexeme::DotDot => String::from_str(".."),
        Lexeme::Comma => String::from_str(","),
        Lexeme::Colon => String::from_str(":"),
        Lexeme::Semicolon => String::from_str(";"),
        Lexeme::Bang => String::from_str("!"),
        Lexeme::BangEq => String::from_str("!="),
        Lexeme::Assign => String::from_str("="),
        Lexeme::Eq => String::from_str("=="),
        Lexeme::PlusEq => String::from_str("+="),
        Lexeme::MinusEq => String::from_str("-="),
        Lexeme::StarEq => String::from_str("*="),
        Lexeme::SlashEq => String::from_str("/="),
        Lexeme::PercentEq => String::from_str("%="),
        Lexeme::Plus => String::from_str("+"),
        Lexeme::Minus => String::from_str("-"),
        Lexeme::Star => String::from_str("*"),
        Lexeme::Slash => String::from_str("/"),
        Lexeme::Percent => String::from_str("%"),
        Lexeme::Greater => String::from_str(">"),
        Lexeme::GreaterEq => String::from_str(">="),
        Lexeme::Less => String::from_str("<"),
        Lexeme::LessEq => String::from_str("<="),
        Lexeme::And => String::from_str("and"),
        Lexeme::Or => String::from_str("or"),
        Lexeme::Xor => String::from_str("xor"),
        Lexeme::As => String::from_str("as"),
        Lexeme::Input => String::from_str("input"),
        Lexeme::CloneOp => String::from_str("clone"),
        Lexeme::Mirror => String::from_str("mirror"),
        Lexeme::Print => String::from_str("print"),
        Lexeme::If => String::from_str("if"),
        Lexeme::Else => String::from_str("else"),
        Lexeme::While => String::from_str("while"),
        Lexeme::For => String::from_str("for"),
        Lexeme::In => String::from_str("in"),
        Lexeme::Var => String::from_str("var"),
        Lexeme::Return => String::from_str("return"),
        Lexeme::Eof => String::from_str("end of input"),
    }
}

/// An exact copy of a lexeme.
pub fn dup_lexeme(l: &Lexeme) -> (r: Lexeme)
    ensures
        r == *l,
{
    match l {
        Lexeme::Number(s) => Lexeme::Number(s.clone()),
        Lexeme::Str(s) => Lexeme::Str(s.clone()),
        Lexeme::CharLit(c) => Lexeme::CharLit(*c),
        Lexeme::True => Lexeme::True,
        Lexeme::False => Lexeme::False,
        Lexeme::Null => Lexeme::Null,
        Lexeme::Ident(s) => Lexeme::Ident(s.clone()),
        Lexeme::LParen => Lexeme::LParen,
        Lexeme::RParen => Lexeme::RParen,
        Lexeme::LBrack => Lexeme::LBrack,
        Lexeme::RBrack => Lexeme::RBrack,
        Lexeme::LBrace => Lexeme::LBrace,
        Lexeme::RBrace => Lexeme::RBrace,
        Lexeme::Pipe => Lexeme::Pipe,
        Lexeme::Dot => Lexeme::Dot,
        Lexeme::DotDot => Lexeme::DotDot,
        Lexeme::Comma => Lexeme::Comma,
        Lexeme::Colon => Lexeme::Colon,
        Lexeme::Semicolon => Lexeme::Semicolon,
        Lexeme::Bang => Lexeme::Bang,
        Lexeme::BangEq => Lexeme::BangEq,
        Lexeme::Assign => Lexeme::Assign,
        Lexeme::Eq => Lexeme::Eq,
        Lexeme::PlusEq => Lexeme::PlusEq,
        Lexeme::MinusEq => Lexeme::MinusEq,
        Lexeme::StarEq => Lexeme::StarEq,
        Lexeme::SlashEq => Lexeme::SlashEq,
        Lexeme::PercentEq => Lexeme::PercentEq,
        Lexeme::Plus => Lexeme::Plus,
        Lexeme::Minus => Lexeme::Minus,
        Lexeme::Star => Lexeme::Star,
        Lexeme::Slash => Lexeme::Slash,
        Lexeme::Percent => Lexeme::Percent,
        Lexeme::Greater => Lexeme::Greater,
        Lexeme::GreaterEq => Lexeme::GreaterEq,
        Lexeme::Less => Lexeme::Less,
        Lexeme::LessEq => Lexeme::LessEq,
        Lexeme::And => Lexeme::And,
        Lexeme::Or => Lexeme::Or,
        Lexeme::Xor => Lexeme::Xor,
        Lexeme::As => Lexeme::As,
        Lexeme::Input => Lexeme::Input,
        Lexeme::CloneOp => Lexeme::CloneOp,
        Lexeme::Mirror => Lexeme::Mirror,
        Lexeme::Print => Lexeme::Print,
        Lexeme::If => Lexeme::If,
        Lexeme::Else => Lexeme::Else,
        Lexeme::While => Lexeme::While,
        Lexeme::For => Lexeme::For,
        Lexeme::In => Lexeme::In,
        Lexeme::Var => Lexeme::Var,
        Lexeme::Return => Lexeme::Return,
        Lexeme::Eof => Lexeme::Eof,
    }
}

/// An exact copy of a token.
pub fn dup_token(t: &Token) -> (r: Token)
    ensures
        r == *t,
{
    Token(dup_lexeme(&t.0), t.1)
}

} // verus!
