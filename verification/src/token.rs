//! Lexical tokens, the parser's input.
//!
//! Tokens are produced by an external lexer before parsing begins; the
//! stream is finite and ends in the [`Token::EOF`] sentinel. A numeric
//! literal is carried as the IEEE-754 bit pattern of the double it denotes:
//! the parser never computes with the number, it only moves it into the tree.

use vstd::prelude::*;

verus! {

/// A binary comparison operator.
#[derive(Debug, PartialEq, Eq, Structural, Clone, Copy)]
pub enum BinOp {
    Less,
    LessEq,
    Greater,
    GreaterEq,
    BangEq,
    EqEq,
}

/// An arithmetic operator.
#[derive(Debug, PartialEq, Eq, Structural, Clone, Copy)]
pub enum MathOp {
    Minus,
    Plus,
    Slash,
    Star,
    Modulus,
    Exponent,
}

/// A logical (short-circuit) operator.
#[derive(Debug, PartialEq, Eq, Structural, Clone, Copy)]
pub enum LogicalOp {
    And,
    Or,
}

/// One lexical token. `NumberF64` holds the bit pattern of the literal.
#[derive(Debug, PartialEq)]
pub enum Token {
    NumberF64(u64),
    String(String),
    Ident(String),
    BinOp(BinOp),
    MathOp(MathOp),
    LogicalOp(LogicalOp),
    InplaceEq(MathOp),
    Begin,
    End,
    Print,
    If,
    Else,
    While,
    For,
    LeftBrace,
    RightBrace,
    LeftParen,
    RightParen,
    Semicolon,
    Eq,
    Column,
    EOF,
}

/// The kind of a token, with the payload stripped. Each comparison,
/// arithmetic and logical operator is its own kind.
#[derive(Debug, PartialEq, Eq, Structural, Clone, Copy)]
pub enum TokenType {
    NumberF64,
    String,
    Ident,
    Less,
    LessEq,
    Greater,
    GreaterEq,
    BangEq,
    EqEq,
    Minus,
    Plus,
    Slash,
    Star,
    Modulo,
    Exponent,
    And,
    Or,
    InplaceAssign,
    Begin,
    End,
    Print,
    If,
    Else,
    While,
    For,
    LeftBrace,
    RightBrace,
    LeftParen,
    RightParen,
    Semicolon,
    Eq,
    Column,
    EOF,
}

/// The kind of a token, as a spec-level function.
pub open spec fn spec_ttype(t: Token) -> TokenType {
    match t {
        Token::NumberF64(_) => TokenType::NumberF64,
        Token::String(_) => TokenType::String,
        Token::Ident(_) => TokenType::Ident,
        Token::BinOp(BinOp::Less) => TokenType::Less,
        Token::BinOp(BinOp::LessEq) => TokenType::LessEq,
        Token::BinOp(BinOp::Greater) => TokenType::Greater,
        Token::BinOp(BinOp::GreaterEq) => TokenType::GreaterEq,
        Token::BinOp(BinOp::BangEq) => TokenType::BangEq,
        Token::BinOp(BinOp::EqEq) => TokenType::EqEq,
        Token::MathOp(MathOp::Minus) => TokenType::Minus,
        Token::MathOp(MathOp::Plus) => TokenType::Plus,
        Token::MathOp(MathOp::Slash) => TokenType::Slash,
        Token::MathOp(MathOp::Star) => TokenType::Star,
        Token::MathOp(MathOp::Modulus) => TokenType::Modulo,
        Token::MathOp(MathOp::Exponent) => TokenType::Exponent,
        Token::LogicalOp(LogicalOp::And) => TokenType::And,
        Token::LogicalOp(LogicalOp::Or) => TokenType::Or,
        Token::InplaceEq(_) => TokenType::InplaceAssign,
        Token::Begin => TokenType::Begin,
        Token::End => TokenType::End,
        Token::Print => TokenType::Print,
        Token::If => TokenType::If,
        Token::Else => TokenType::Else,
        Token::While => TokenType::While,
        Token::For => TokenType::For,
        Token::LeftBrace => TokenType::LeftBrace,
        Token::RightBrace => TokenType::RightBrace,
        Token::LeftParen => TokenType::LeftParen,
        Token::RightParen => TokenType::RightParen,
        Token::Semicolon => TokenType::Semicolon,
        Token::Eq => TokenType::Eq,
        Token::Column => TokenType::Column,
        Token::EOF => TokenType::EOF,
    }
}

impl Token {
    /// `spec_ttype`, phrased on a reference so `t.ttype()` can stand in contracts.
    pub open spec fn spec_kind(&self) -> TokenType {
        spec_ttype(*self)
    }

    /// The kind of this token.
    #[verifier::when_used_as_spec(spec_kind)]
    pub fn ttype(&self) -> (k: TokenType)
        ensures
            k == spec_ttype(*self),
    {
        match self {
            Token::NumberF64(_) => TokenType::NumberF64,
            Token::String(_) => TokenType::String,
            Token::Ident(_) => TokenType::Ident,
            Token::BinOp(BinOp::Less) => TokenType::Less,
            Token::BinOp(BinOp::LessEq) => TokenType::LessEq,
            Token::BinOp(BinOp::Greater) => TokenType::Greater,
            Token::BinOp(BinOp::GreaterEq) => TokenType::GreaterEq,
            Token::BinOp(BinOp::BangEq) => TokenType::BangEq,
            Token::BinOp(BinOp::EqEq) => TokenType::EqEq,
            Token::MathOp(MathOp::Minus) => TokenType::Minus,
            Token::MathOp(MathOp::Plus) => TokenType::Plus,
            Token::MathOp(MathOp::Slash) => TokenType::Slash,
            Token::MathOp(MathOp::Star) => TokenType::Star,
            Token::MathOp(MathOp::Modulus) => TokenType::Modulo,
            Token::MathOp(MathOp::Exponent) => TokenType::Exponent,
            Token::LogicalOp(LogicalOp::And) => TokenType::And,
            Token::LogicalOp(LogicalOp::Or) => TokenType::Or,
            Token::InplaceEq(_) => TokenType::InplaceAssign,
            Token::Begin => TokenType::Begin,
            Token::End => TokenType::End,
            Token::Print => TokenType::Print,
            Token::If => TokenType::If,
            Token::Else => TokenType::Else,
            Token::While => TokenType::While,
            Token::For => TokenType::For,
            Token::LeftBrace => TokenType::LeftBrace,
            Token::RightBrace => TokenType::RightBrace,
            Token::LeftParen => TokenType::LeftParen,
            Token::RightParen => TokenType::RightParen,
            Token::Semicolon => TokenType::Semicolon,
            Token::Eq => TokenType::Eq,
            Token::Column => TokenType::Column,
            Token::EOF => TokenType::EOF,
        }
    }
}

impl Clone for Token {
    /// Cloning a token yields an equal token.
    fn clone(&self) -> (r: Self)
        ensures
            r == *self,
    {
        match self {
            Token::NumberF64(n) => Token::NumberF64(*n),
            Token::String(s) => Token::String(s.clone()),
            Token::Ident(s) => Token::Ident(s.clone()),
            Token::BinOp(op) => Token::BinOp(*op),
            Token::MathOp(op) => Token::MathOp(*op),
            Token::LogicalOp(op) => Token::LogicalOp(*op),
            Token::InplaceEq(op) => Token::InplaceEq(*op),
            Token::Begin => Token::Begin,
            Token::End => Token::End,
            Token::Print => Token::Print,
            Token::If => Token::If,
            Token::Else => Token::Else,
            Token::While => Token::While,
            Token::For => Token::For,
            Token::LeftBrace => Token::LeftBrace,
            Token::RightBrace => Token::RightBrace,
            Token::LeftParen => Token::LeftParen,
            Token::RightParen => Token::RightParen,
            Token::Semicolon => Token::Semicolon,
            Token::Eq => Token::Eq,
            Token::Column => Token::Column,
            Token::EOF => Token::EOF,
        }
    }
}

} // verus!
