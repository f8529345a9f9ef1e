//! The single error class of the parser.
//!
//! The grammar is all-or-nothing: on the first malformed token the parse
//! stops and this value travels up to the caller; no partial program is ever
//! returned. The error carries the human-readable expectation, the token
//! kind that was required (when one single kind was), and the offending
//! token itself, whose kind and payload name what was actually found.

use crate::token::{Token, TokenType};
use vstd::prelude::*;

verus! {

/// A syntax error: what was expected, and the token found instead.
#[derive(Debug, PartialEq)]
pub struct SyntaxError {
    /// Names the construct the parser needed.
    pub message: String,
    /// The kind the parser required, where exactly one kind was required.
    pub expected: Option<TokenType>,
    /// The token found at the cursor.
    pub found: Token,
}

/// Spec-level mirror of [`SyntaxError`].
pub struct SpecSyntaxError {
    pub message: Seq<char>,
    pub expected: Option<TokenType>,
    pub found: Token,
}

impl View for SyntaxError {
    type V = SpecSyntaxError;

    open spec fn view(&self) -> SpecSyntaxError {
        SpecSyntaxError { message: self.message@, expected: self.expected, found: self.found }
    }
}

impl SyntaxError {
    /// Record that `want` was needed at `found`.
    pub fn expected(message: &str, want: TokenType, found: Token) -> (r: SyntaxError)
        ensures
            r@ == (SpecSyntaxError { message: message@, expected: Some(want), found }),
    {
        SyntaxError { message: message.to_owned(), expected: Some(want), found }
    }

    /// Record that no token of any acceptable kind stood at `found`.
    pub fn unexpected(message: &str, found: Token) -> (r: SyntaxError)
        ensures
            r@ == (SpecSyntaxError { message: message@, expected: None, found }),
    {
        SyntaxError { message: message.to_owned(), expected: None, found }
    }
}

} // verus!
