//! Parser for a small AWK-like language.
//!
//! A flat stream of lexical tokens is turned into a typed abstract syntax
//! tree organised around the pattern-action execution model: `BEGIN` blocks,
//! `END` blocks, and generic pattern/action rules. The grammar itself is
//! written down as spec functions in [`grammar`]; the executable parser in
//! [`parser`] is proved to return exactly what those spec functions say.

pub mod ast;
pub mod error;
pub mod grammar;
pub mod laws;
pub mod parser;
pub mod token;

pub use ast::{AwkT, Expr, PatternAction, Program, Stmt, TypedExpr};
pub use error::SyntaxError;
pub use parser::{parse, Parser};
pub use token::{BinOp, LogicalOp, MathOp, Token, TokenType};
