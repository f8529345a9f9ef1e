//! The grammar, written down as spec functions.
//!
//! Each function takes the token sequence and a cursor and returns the
//! parsed value together with the cursor after it, exactly as the executable
//! parser in [`crate::parser`] computes them; that parser's contracts say so.
//!
//! The functions are mutually recursive and terminate lexicographically: the
//! remaining token count first, the grammar level second. Where a recursive
//! call's cursor comes out of another call in the same group, nothing local
//! says it moved forward, so the cursor is passed through [`sp_floor`]; the
//! executable parser's contracts prove the bound never binds, because every
//! successful parse consumes at least one token.

use crate::ast::{
    AwkT, SpecExpr, SpecPatternAction, SpecStmt, SpecTypedExpr, spec_print_record_action,
    F64_BITS_ONE,
};
use crate::error::SpecSyntaxError;
use crate::token::{spec_ttype, BinOp, LogicalOp, MathOp, Token, TokenType};
use vstd::prelude::*;

verus! {

/// The token at `pos`, or the end-of-stream sentinel out of range.
pub open spec fn tok_at(toks: Seq<Token>, pos: int) -> Token {
    if 0 <= pos < toks.len() {
        toks[pos]
    } else {
        Token::EOF
    }
}

/// The kind of the token at `pos`.
pub open spec fn sp_kind(toks: Seq<Token>, pos: int) -> TokenType {
    spec_ttype(tok_at(toks, pos))
}

/// Whether the cursor stands on the end-of-stream sentinel.
pub open spec fn sp_at_end(toks: Seq<Token>, pos: int) -> bool {
    sp_kind(toks, pos) == TokenType::EOF
}

/// How many tokens are left at `pos`; the first termination measure.
pub open spec fn sp_remaining(toks: Seq<Token>, pos: int) -> int {
    if pos <= toks.len() {
        toks.len() - pos
    } else {
        0
    }
}

/// `pos`, bounded below by `lo`. Only the termination measure needs the
/// bound; on every path the executable parser takes, `pos >= lo` already
/// holds and this is the identity.
pub open spec fn sp_floor(pos: int, lo: int) -> int {
    if pos >= lo {
        pos
    } else {
        lo
    }
}

/// Requiring one token of kind `want`: the token and the cursor past it, or
/// the error naming the expectation, with the cursor unmoved.
pub open spec fn sp_consume(toks: Seq<Token>, pos: int, want: TokenType, msg: Seq<char>) -> (
    Result<Token, SpecSyntaxError>,
    int,
) {
    if !sp_at_end(toks, pos) && sp_kind(toks, pos) == want {
        (Ok(tok_at(toks, pos)), pos + 1)
    } else {
        (Err(SpecSyntaxError { message: msg, expected: Some(want), found: tok_at(toks, pos) }), pos)
    }
}

/// An expression wrapped with the not-yet-known type tag, as every node the
/// expression grammar builds is.
pub open spec fn sp_new_var(e: SpecExpr) -> SpecTypedExpr {
    SpecTypedExpr { typ: AwkT::Variable, expr: e }
}

/// An arithmetic node.
pub open spec fn sp_math(l: SpecTypedExpr, op: MathOp, r: SpecTypedExpr) -> SpecTypedExpr {
    sp_new_var(SpecExpr::MathOp(Box::new(l), op, Box::new(r)))
}

/// A comparison node.
pub open spec fn sp_bin(l: SpecTypedExpr, op: BinOp, r: SpecTypedExpr) -> SpecTypedExpr {
    sp_new_var(SpecExpr::BinOp(Box::new(l), op, Box::new(r)))
}

/// A logical node.
pub open spec fn sp_logic(l: SpecTypedExpr, op: LogicalOp, r: SpecTypedExpr) -> SpecTypedExpr {
    sp_new_var(SpecExpr::LogicalOp(Box::new(l), op, Box::new(r)))
}

/// The literal `1.0`, which the increment and decrement rewrites insert.
pub open spec fn sp_one() -> SpecTypedExpr {
    sp_new_var(SpecExpr::NumberF64(F64_BITS_ONE))
}

/// A primary expression: a numeric literal, a parenthesized expression, a
/// variable reference, or a string literal; anything else is a syntax error.
#[verifier::opaque]
pub open spec fn sp_primary(toks: Seq<Token>, pos: int) -> (Result<SpecTypedExpr, SpecSyntaxError>, int)
    decreases sp_remaining(toks, pos), 0int,
{
    if sp_at_end(toks, pos) {
        (
            Err(
                SpecSyntaxError {
                    message: "Primary and at end"@,
                    expected: None,
                    found: tok_at(toks, pos),
                },
            ),
            pos,
        )
    } else {
        match tok_at(toks, pos) {
            Token::NumberF64(bits) => (Ok(sp_new_var(SpecExpr::NumberF64(bits))), pos + 1),
            Token::LeftParen => {
                let (r, p2) = sp_expression(toks, pos + 1);
                match r {
                    Ok(e) => {
                        let (c, p3) = sp_consume(
                            toks,
                            p2,
                            TokenType::RightParen,
                            "Missing closing ')' after group"@,
                        );
                        match c {
                            Ok(_) => (Ok(e), p3),
                            Err(err) => (Err(err), p3),
                        }
                    },
                    Err(err) => (Err(err), p2),
                }
            },
            Token::Ident(name) => (Ok(sp_new_var(SpecExpr::Variable(name))), pos + 1),
            Token::String(s) => (Ok(sp_new_var(SpecExpr::String(s))), pos + 1),
            t => (
                Err(SpecSyntaxError { message: "Unexpected token"@, expected: None, found: t }),
                pos,
            ),
        }
    }
}

/// Zero or more field-access sigils, then a primary, wrapped in one column
/// node per sigil (the innermost is the primary).
#[verifier::opaque]
pub open spec fn sp_column(toks: Seq<Token>, pos: int) -> (Result<SpecTypedExpr, SpecSyntaxError>, int)
    decreases sp_remaining(toks, pos), 1int,
{
    if sp_kind(toks, pos) == TokenType::Column {
        let (r, p2) = sp_column(toks, pos + 1);
        match r {
            Ok(e) => (Ok(sp_new_var(SpecExpr::Column(Box::new(e)))), p2),
            Err(err) => (Err(err), p2),
        }
    } else {
        sp_primary(toks, pos)
    }
}

/// The iteration of the exponent level: fold further `^` operands onto `acc`,
/// left-associatively.
#[verifier::opaque]
pub open spec fn sp_exp_rest(toks: Seq<Token>, pos: int, acc: SpecTypedExpr) -> (
    Result<SpecTypedExpr, SpecSyntaxError>,
    int,
)
    decreases sp_remaining(toks, pos), 2int,
{
    if sp_kind(toks, pos) == TokenType::Exponent {
        let (r, p2) = sp_column(toks, pos + 1);
        match r {
            Ok(rhs) => sp_exp_rest(toks, sp_floor(p2, pos + 1), sp_math(acc, MathOp::Exponent, rhs)),
            Err(err) => (Err(err), p2),
        }
    } else {
        (Ok(acc), pos)
    }
}

/// The exponent level (`^`), left-associative.
#[verifier::opaque]
pub open spec fn sp_exp(toks: Seq<Token>, pos: int) -> (Result<SpecTypedExpr, SpecSyntaxError>, int)
    decreases sp_remaining(toks, pos), 3int,
{
    let (r, p2) = sp_column(toks, pos);
    match r {
        Ok(e) => sp_exp_rest(toks, sp_floor(p2, pos + 1), e),
        Err(err) => (Err(err), p2),
    }
}

/// The arithmetic operator a multiplicative token denotes.
pub open spec fn sp_term_op(k: TokenType) -> MathOp {
    if k == TokenType::Star {
        MathOp::Star
    } else if k == TokenType::Slash {
        MathOp::Slash
    } else {
        MathOp::Modulus
    }
}

/// The iteration of the multiplicative level.
#[verifier::opaque]
pub open spec fn sp_term_rest(toks: Seq<Token>, pos: int, acc: SpecTypedExpr) -> (
    Result<SpecTypedExpr, SpecSyntaxError>,
    int,
)
    decreases sp_remaining(toks, pos), 4int,
{
    let k = sp_kind(toks, pos);
    if k == TokenType::Star || k == TokenType::Slash || k == TokenType::Modulo {
        let (r, p2) = sp_exp(toks, pos + 1);
        match r {
            Ok(rhs) => sp_term_rest(toks, sp_floor(p2, pos + 1), sp_math(acc, sp_term_op(k), rhs)),
            Err(err) => (Err(err), p2),
        }
    } else {
        (Ok(acc), pos)
    }
}

/// The multiplicative level (`*`, `/`, `%`), left-associative.
#[verifier::opaque]
pub open spec fn sp_term(toks: Seq<Token>, pos: int) -> (Result<SpecTypedExpr, SpecSyntaxError>, int)
    decreases sp_remaining(toks, pos), 5int,
{
    let (r, p2) = sp_exp(toks, pos);
    match r {
        Ok(e) => sp_term_rest(toks, sp_floor(p2, pos + 1), e),
        Err(err) => (Err(err), p2),
    }
}

/// The iteration of the additive level. When the left operand is a bare
/// variable and the source reads `var++` or `var--`, the pair of sign tokens
/// is rewritten into the three nodes that yield the pre-mutation value:
/// `((var = var + 1) - 1)` for `++`, and with the signs exchanged for `--`.
#[verifier::opaque]
pub open spec fn sp_additive_rest(toks: Seq<Token>, pos: int, acc: SpecTypedExpr) -> (
    Result<SpecTypedExpr, SpecSyntaxError>,
    int,
)
    decreases sp_remaining(toks, pos), 6int,
{
    let k = sp_kind(toks, pos);
    if k == TokenType::Plus || k == TokenType::Minus {
        let op = if k == TokenType::Plus {
            MathOp::Plus
        } else {
            MathOp::Minus
        };
        match acc.expr {
            SpecExpr::Variable(name) => {
                if k == TokenType::Plus && sp_kind(toks, pos + 1) == TokenType::Plus {
                    let assign = sp_new_var(
                        SpecExpr::Assign(name, Box::new(sp_math(acc, MathOp::Plus, sp_one()))),
                    );
                    sp_additive_rest(toks, pos + 2, sp_math(assign, MathOp::Minus, sp_one()))
                } else if k == TokenType::Minus && sp_kind(toks, pos + 1) == TokenType::Minus {
                    let assign = sp_new_var(
                        SpecExpr::Assign(name, Box::new(sp_math(acc, MathOp::Minus, sp_one()))),
                    );
                    sp_additive_rest(toks, pos + 2, sp_math(assign, MathOp::Plus, sp_one()))
                } else {
                    let (r, p2) = sp_additive(toks, pos + 1);
                    match r {
                        Ok(rhs) => sp_additive_rest(
                            toks,
                            sp_floor(p2, pos + 1),
                            sp_math(acc, op, rhs),
                        ),
                        Err(err) => (Err(err), p2),
                    }
                }
            },
            _ => {
                let (r, p2) = sp_additive(toks, pos + 1);
                match r {
                    Ok(rhs) => sp_additive_rest(toks, sp_floor(p2, pos + 1), sp_math(acc, op, rhs)),
                    Err(err) => (Err(err), p2),
                }
            },
        }
    } else {
        (Ok(acc), pos)
    }
}

/// The additive level (`+`, `-`); the right operand recurses into the whole
/// additive level, and the increment and decrement rewrites live here.
#[verifier::opaque]
pub open spec fn sp_additive(toks: Seq<Token>, pos: int) -> (Result<SpecTypedExpr, SpecSyntaxError>, int)
    decreases sp_remaining(toks, pos), 7int,
{
    let (r, p2) = sp_term(toks, pos);
    match r {
        Ok(e) => sp_additive_rest(toks, sp_floor(p2, pos + 1), e),
        Err(err) => (Err(err), p2),
    }
}

/// The kinds that stop a concatenation: whatever may follow an expression.
pub open spec fn sp_concat_stop(k: TokenType) -> bool {
    ||| k == TokenType::InplaceAssign
    ||| k == TokenType::Less
    ||| k == TokenType::LessEq
    ||| k == TokenType::BangEq
    ||| k == TokenType::EqEq
    ||| k == TokenType::Greater
    ||| k == TokenType::GreaterEq
    ||| k == TokenType::And
    ||| k == TokenType::Or
    ||| k == TokenType::Eq
    ||| k == TokenType::Semicolon
    ||| k == TokenType::RightBrace
    ||| k == TokenType::RightParen
    ||| k == TokenType::LeftBrace
}

/// Fold one further juxtaposed operand onto `acc`: a concatenation grows by
/// one element, anything else starts a two-element concatenation.
pub open spec fn sp_concat_fold(acc: SpecTypedExpr, rhs: SpecTypedExpr) -> SpecTypedExpr {
    match acc.expr {
        SpecExpr::Concatenation(items) => SpecTypedExpr {
            typ: acc.typ,
            expr: SpecExpr::Concatenation(items.push(rhs)),
        },
        _ => sp_new_var(SpecExpr::Concatenation(seq![acc, rhs])),
    }
}

/// The iteration of the concatenation level: keep folding additive-level
/// operands while the next token is no stop kind and no sentinel.
#[verifier::opaque]
pub open spec fn sp_concat_rest(toks: Seq<Token>, pos: int, acc: SpecTypedExpr) -> (
    Result<SpecTypedExpr, SpecSyntaxError>,
    int,
)
    decreases sp_remaining(toks, pos), 8int,
{
    let k = sp_kind(toks, pos);
    if k != TokenType::EOF && !sp_concat_stop(k) {
        let (r, p2) = sp_additive(toks, pos);
        match r {
            Ok(rhs) => sp_concat_rest(toks, sp_floor(p2, pos + 1), sp_concat_fold(acc, rhs)),
            Err(err) => (Err(err), p2),
        }
    } else {
        (Ok(acc), pos)
    }
}

/// The concatenation level: two or more juxtaposed operands collapse into
/// one concatenation node; a single operand passes through unchanged.
#[verifier::opaque]
pub open spec fn sp_concat(toks: Seq<Token>, pos: int) -> (Result<SpecTypedExpr, SpecSyntaxError>, int)
    decreases sp_remaining(toks, pos), 9int,
{
    let (r, p2) = sp_additive(toks, pos);
    match r {
        Ok(e) => sp_concat_rest(toks, sp_floor(p2, pos + 1), e),
        Err(err) => (Err(err), p2),
    }
}

/// Whether a kind is a comparison operator, and which.
pub open spec fn sp_compare_op(k: TokenType) -> Option<BinOp> {
    if k == TokenType::Less {
        Some(BinOp::Less)
    } else if k == TokenType::LessEq {
        Some(BinOp::LessEq)
    } else if k == TokenType::Greater {
        Some(BinOp::Greater)
    } else if k == TokenType::GreaterEq {
        Some(BinOp::GreaterEq)
    } else if k == TokenType::EqEq {
        Some(BinOp::EqEq)
    } else if k == TokenType::BangEq {
        Some(BinOp::BangEq)
    } else {
        None
    }
}

/// The iteration of the comparison level.
#[verifier::opaque]
pub open spec fn sp_compare_rest(toks: Seq<Token>, pos: int, acc: SpecTypedExpr) -> (
    Result<SpecTypedExpr, SpecSyntaxError>,
    int,
)
    decreases sp_remaining(toks, pos), 10int,
{
    match sp_compare_op(sp_kind(toks, pos)) {
        Some(op) => {
            let (r, p2) = sp_concat(toks, pos + 1);
            match r {
                Ok(rhs) => sp_compare_rest(toks, sp_floor(p2, pos + 1), sp_bin(acc, op, rhs)),
                Err(err) => (Err(err), p2),
            }
        },
        None => (Ok(acc), pos),
    }
}

/// The comparison level (`<`, `<=`, `>`, `>=`, `==`, `!=`), left-associative.
#[verifier::opaque]
pub open spec fn sp_compare(toks: Seq<Token>, pos: int) -> (Result<SpecTypedExpr, SpecSyntaxError>, int)
    decreases sp_remaining(toks, pos), 11int,
{
    let (r, p2) = sp_concat(toks, pos);
    match r {
        Ok(e) => sp_compare_rest(toks, sp_floor(p2, pos + 1), e),
        Err(err) => (Err(err), p2),
    }
}

/// The iteration of the logical-and level.
#[verifier::opaque]
pub open spec fn sp_logical_and_rest(toks: Seq<Token>, pos: int, acc: SpecTypedExpr) -> (
    Result<SpecTypedExpr, SpecSyntaxError>,
    int,
)
    decreases sp_remaining(toks, pos), 12int,
{
    if sp_kind(toks, pos) == TokenType::And {
        let (r, p2) = sp_compare(toks, pos + 1);
        match r {
            Ok(rhs) => sp_logical_and_rest(
                toks,
                sp_floor(p2, pos + 1),
                sp_logic(acc, LogicalOp::And, rhs),
            ),
            Err(err) => (Err(err), p2),
        }
    } else {
        (Ok(acc), pos)
    }
}

/// The logical-and level (`&&`), left-associative.
#[verifier::opaque]
pub open spec fn sp_logical_and(toks: Seq<Token>, pos: int) -> (
    Result<SpecTypedExpr, SpecSyntaxError>,
    int,
)
    decreases sp_remaining(toks, pos), 13int,
{
    let (r, p2) = sp_compare(toks, pos);
    match r {
        Ok(e) => sp_logical_and_rest(toks, sp_floor(p2, pos + 1), e),
        Err(err) => (Err(err), p2),
    }
}

/// The iteration of the logical-or level.
#[verifier::opaque]
pub open spec fn sp_logical_or_rest(toks: Seq<Token>, pos: int, acc: SpecTypedExpr) -> (
    Result<SpecTypedExpr, SpecSyntaxError>,
    int,
)
    decreases sp_remaining(toks, pos), 14int,
{
    if sp_kind(toks, pos) == TokenType::Or {
        let (r, p2) = sp_logical_and(toks, pos + 1);
        match r {
            Ok(rhs) => sp_logical_or_rest(
                toks,
                sp_floor(p2, pos + 1),
                sp_logic(acc, LogicalOp::Or, rhs),
            ),
            Err(err) => (Err(err), p2),
        }
    } else {
        (Ok(acc), pos)
    }
}

/// The logical-or level (`||`), left-associative.
#[verifier::opaque]
pub open spec fn sp_logical_or(toks: Seq<Token>, pos: int) -> (
    Result<SpecTypedExpr, SpecSyntaxError>,
    int,
)
    decreases sp_remaining(toks, pos), 15int,
{
    let (r, p2) = sp_logical_and(toks, pos);
    match r {
        Ok(e) => sp_logical_or_rest(toks, sp_floor(p2, pos + 1), e),
        Err(err) => (Err(err), p2),
    }
}

/// The assignment level, right-recursive and not associative: a bare
/// variable followed by `=` assigns the right-hand side to it; followed by a
/// compound-assignment token it assigns `var op rhs` back to the variable.
/// Any other left-hand side passes through unchanged.
#[verifier::opaque]
pub open spec fn sp_assignment(toks: Seq<Token>, pos: int) -> (
    Result<SpecTypedExpr, SpecSyntaxError>,
    int,
)
    decreases sp_remaining(toks, pos), 16int,
{
    let (r, p2raw) = sp_logical_or(toks, pos);
    match r {
        Ok(lhs) => {
            let p2 = sp_floor(p2raw, pos + 1);
            match lhs.expr {
                SpecExpr::Variable(name) => {
                    if sp_kind(toks, p2) == TokenType::Eq {
                        let (r2, p3) = sp_assignment(toks, p2 + 1);
                        match r2 {
                            Ok(rhs) => (
                                Ok(sp_new_var(SpecExpr::Assign(name, Box::new(rhs)))),
                                p3,
                            ),
                            Err(err) => (Err(err), p3),
                        }
                    } else {
                        match tok_at(toks, p2) {
                            Token::InplaceEq(op) => {
                                let (r2, p3) = sp_assignment(toks, p2 + 1);
                                match r2 {
                                    Ok(rhs) => (
                                        Ok(
                                            sp_new_var(
                                                SpecExpr::Assign(
                                                    name,
                                                    Box::new(
                                                        sp_math(
                                                            sp_new_var(SpecExpr::Variable(name)),
                                                            op,
                                                            rhs,
                                                        ),
                                                    ),
                                                ),
                                            ),
                                        ),
                                        p3,
                                    ),
                                    Err(err) => (Err(err), p3),
                                }
                            },
                            _ => (Ok(lhs), p2raw),
                        }
                    }
                },
                _ => (Ok(lhs), p2raw),
            }
        },
        Err(err) => (Err(err), p2raw),
    }
}

/// A whole expression: the assignment level.
#[verifier::opaque]
pub open spec fn sp_expression(toks: Seq<Token>, pos: int) -> (
    Result<SpecTypedExpr, SpecSyntaxError>,
    int,
)
    decreases sp_remaining(toks, pos), 17int,
{
    sp_assignment(toks, pos)
}

/// A statement.
#[verifier::opaque]
pub open spec fn sp_stmt(toks: Seq<Token>, pos: int) -> (Result<SpecStmt, SpecSyntaxError>, int)
    decreases sp_remaining(toks, pos), 21int,
{
    let k = sp_kind(toks, pos);
    if k == TokenType::Print {
        let (r, p2) = sp_expression(toks, pos + 1);
        match r {
            Ok(e) => (Ok(SpecStmt::Print(e)), p2),
            Err(err) => (Err(err), p2),
        }
    } else if k == TokenType::For {
        sp_for_stmt(toks, pos)
    } else if sp_kind(toks, pos + 1) == TokenType::Eq {
        match tok_at(toks, pos) {
            Token::Ident(name) => {
                let (r, p2) = sp_expression(toks, pos + 2);
                match r {
                    Ok(rhs) => (
                        Ok(
                            SpecStmt::Expr(
                                sp_new_var(SpecExpr::Assign(name, Box::new(rhs))),
                            ),
                        ),
                        p2,
                    ),
                    Err(err) => (Err(err), p2),
                }
            },
            t => (
                Err(
                    SpecSyntaxError {
                        message: "Expected identifier before '='"@,
                        expected: Some(TokenType::Ident),
                        found: t,
                    },
                ),
                pos,
            ),
        }
    } else if k == TokenType::While {
        sp_while_stmt(toks, pos)
    } else if k == TokenType::If {
        sp_if_stmt(toks, pos + 1)
    } else if k == TokenType::LeftBrace {
        let (r, p2) = sp_stmts(toks, pos + 1);
        match r {
            Ok(s) => {
                let (c, p3) = sp_consume(
                    toks,
                    p2,
                    TokenType::RightBrace,
                    "Expected a right brace after a group"@,
                );
                match c {
                    Ok(_) => (Ok(s), p3),
                    Err(err) => (Err(err), p3),
                }
            },
            Err(err) => (Err(err), p2),
        }
    } else {
        let (r, p2) = sp_expression(toks, pos);
        match r {
            Ok(e) => (Ok(SpecStmt::Expr(e)), p2),
            Err(err) => (Err(err), p2),
        }
    }
}

/// A `for` statement, desugared as it is parsed: no loop node of its own is
/// built; the result is `Group[init, While(test, Group[body, incr])]`.
#[verifier::opaque]
pub open spec fn sp_for_stmt(toks: Seq<Token>, pos: int) -> (Result<SpecStmt, SpecSyntaxError>, int)
    decreases sp_remaining(toks, pos), 19int,
{
    let (c1, q1) = sp_consume(
        toks,
        pos + 1,
        TokenType::LeftParen,
        "Expected a '(' after the for keyword"@,
    );
    match c1 {
        Err(err) => (Err(err), q1),
        Ok(_) => {
            let (ri, p_init) = sp_stmt(toks, q1);
            match ri {
                Err(err) => (Err(err), p_init),
                Ok(init) => {
                    let (c2, q2) = sp_consume(toks, sp_floor(p_init, pos + 2),
                        TokenType::Semicolon, "Expected a ';' after for loop init statement"@);
                    match c2 {
                        Err(err) => (Err(err), q2),
                        Ok(_) => {
                            let (rt, p_test) = sp_expression(toks, q2);
                            match rt {
                                Err(err) => (Err(err), p_test),
                                Ok(test) => {
                                    let (c3, q3) = sp_consume(toks, p_test, TokenType::Semicolon,
                                        "Expected a ';' after for loop test statement"@);
                                    match c3 {
                                        Err(err) => (Err(err), q3),
                                        Ok(_) => {
                                            let (rc, p_incr) = sp_stmt(
                                                toks,
                                                sp_floor(q3, pos + 2),
                                            );
                                            match rc {
                                                Err(err) => (Err(err), p_incr),
                                                Ok(incr) => sp_for_tail(
                                                    toks,
                                                    sp_floor(p_incr, pos + 2),
                                                    init,
                                                    test,
                                                    incr,
                                                ),
                                            }
                                        },
                                    }
                                },
                            }
                        },
                    }
                },
            }
        },
    }
}

/// The closing half of a `for` statement, from the `')'` on: `') { body }'`,
/// and the desugared group the whole statement becomes.
#[verifier::opaque]
pub open spec fn sp_for_tail(
    toks: Seq<Token>,
    pos: int,
    init: SpecStmt,
    test: SpecTypedExpr,
    incr: SpecStmt,
) -> (Result<SpecStmt, SpecSyntaxError>, int)
    decreases sp_remaining(toks, pos), 18int,
{
    let (c4, q4) = sp_consume(toks, pos, TokenType::RightParen,
        "Expected a ')' to end for loop"@);
    match c4 {
        Err(err) => (Err(err), q4),
        Ok(_) => {
            let (c5, q5) = sp_consume(toks, q4, TokenType::LeftBrace,
                "Expected a '{' to begin for loop body"@);
            match c5 {
                Err(err) => (Err(err), q5),
                Ok(_) => {
                    let (rb, p_body) = sp_stmts(toks, q5);
                    match rb {
                        Err(err) => (Err(err), p_body),
                        Ok(body) => {
                            let (c6, q6) = sp_consume(toks, p_body, TokenType::RightBrace,
                                "Expected a '}' after for loop body"@);
                            match c6 {
                                Err(err) => (Err(err), q6),
                                Ok(_) => (
                                    Ok(
                                        SpecStmt::Group(
                                            seq![
                                                init,
                                                SpecStmt::While(
                                                    test,
                                                    Box::new(SpecStmt::Group(seq![body, incr])),
                                                ),
                                            ],
                                        ),
                                    ),
                                    q6,
                                ),
                            }
                        },
                    }
                },
            }
        },
    }
}

/// A `while` statement: `while ( test ) { body }`.
#[verifier::opaque]
pub open spec fn sp_while_stmt(toks: Seq<Token>, pos: int) -> (Result<SpecStmt, SpecSyntaxError>, int)
    decreases sp_remaining(toks, pos), 20int,
{
    let (c1, q1) = sp_consume(toks, pos + 1, TokenType::LeftParen,
        "Must have paren after while"@);
    match c1 {
        Err(err) => (Err(err), q1),
        Ok(_) => {
            let (rt, p_test) = sp_expression(toks, q1);
            match rt {
                Err(err) => (Err(err), p_test),
                Ok(test) => {
                    let (c2, q2) = sp_consume(toks, p_test, TokenType::RightParen,
                        "Must have right parent after while statement test expression"@);
                    match c2 {
                        Err(err) => (Err(err), q2),
                        Ok(_) => {
                            let (c3, q3) = sp_consume(toks, q2, TokenType::LeftBrace,
                                "Must have brace after `while (expr)`"@);
                            match c3 {
                                Err(err) => (Err(err), q3),
                                Ok(_) => {
                                    let (rb, p_body) = sp_stmts(toks, sp_floor(q3, pos + 2));
                                    match rb {
                                        Err(err) => (Err(err), p_body),
                                        Ok(body) => {
                                            let (c4, q4) = sp_consume(toks, p_body,
                                                TokenType::RightBrace,
                                                "While loop must be followed by '}'"@);
                                            match c4 {
                                                Err(err) => (Err(err), q4),
                                                Ok(_) => (
                                                    Ok(SpecStmt::While(test, Box::new(body))),
                                                    q4,
                                                ),
                                            }
                                        },
                                    }
                                },
                            }
                        },
                    }
                },
            }
        },
    }
}

/// An `if` statement, from past the `if` keyword on: `( test ) group`, then
/// an optional `else group`.
#[verifier::opaque]
pub open spec fn sp_if_stmt(toks: Seq<Token>, pos: int) -> (Result<SpecStmt, SpecSyntaxError>, int)
    decreases sp_remaining(toks, pos), 26int,
{
    let (c1, q1) = sp_consume(toks, pos, TokenType::LeftParen, "Expected '(' after if"@);
    match c1 {
        Err(err) => (Err(err), q1),
        Ok(_) => {
            let (rt, p_test) = sp_expression(toks, q1);
            match rt {
                Err(err) => (Err(err), p_test),
                Ok(test) => {
                    let (c2, q2) = sp_consume(toks, p_test, TokenType::RightParen,
                        "Expected ')' after if predicate"@);
                    match c2 {
                        Err(err) => (Err(err), q2),
                        Ok(_) => {
                            let (rb, p_then) = sp_group(toks, sp_floor(q2, pos + 1));
                            match rb {
                                Err(err) => (Err(err), p_then),
                                Ok(then_blk) => {
                                    if sp_kind(toks, p_then) == TokenType::Else {
                                        let (re, p_else) = sp_group(
                                            toks,
                                            sp_floor(p_then + 1, pos + 1),
                                        );
                                        match re {
                                            Err(err) => (Err(err), p_else),
                                            Ok(else_blk) => (
                                                Ok(
                                                    SpecStmt::If(
                                                        test,
                                                        Box::new(then_blk),
                                                        Some(Box::new(else_blk)),
                                                    ),
                                                ),
                                                p_else,
                                            ),
                                        }
                                    } else {
                                        (
                                            Ok(SpecStmt::If(test, Box::new(then_blk), None)),
                                            p_then,
                                        )
                                    }
                                },
                            }
                        },
                    }
                },
            }
        },
    }
}

/// A braced group: `{ stmts }`, with a single statement passing through
/// unwrapped.
#[verifier::opaque]
pub open spec fn sp_group(toks: Seq<Token>, pos: int) -> (Result<SpecStmt, SpecSyntaxError>, int)
    decreases sp_remaining(toks, pos), 25int,
{
    let (c1, q1) = sp_consume(toks, pos, TokenType::LeftBrace, "Expected a '}'"@);
    match c1 {
        Err(err) => (Err(err), q1),
        Ok(_) => {
            let (r, p2) = sp_stmts(toks, q1);
            match r {
                Err(err) => (Err(err), p2),
                Ok(s) => {
                    let (c2, q2) = sp_consume(toks, p2, TokenType::RightBrace, "Expected a '}'"@);
                    match c2 {
                        Err(err) => (Err(err), q2),
                        Ok(_) => (Ok(s), q2),
                    }
                },
            }
        },
    }
}

/// One statement followed by an optional separator, which is discarded.
#[verifier::opaque]
pub open spec fn sp_stmt_and_optional_semicolon(toks: Seq<Token>, pos: int) -> (
    Result<SpecStmt, SpecSyntaxError>,
    int,
)
    decreases sp_remaining(toks, pos), 22int,
{
    let (r, p2) = sp_stmt(toks, pos);
    match r {
        Ok(s) => {
            if sp_kind(toks, p2) == TokenType::Semicolon {
                (Ok(s), p2 + 1)
            } else {
                (Ok(s), p2)
            }
        },
        Err(err) => (Err(err), p2),
    }
}

/// The statements of a block, one after the other until a closing brace.
#[verifier::opaque]
pub open spec fn sp_stmts_list(toks: Seq<Token>, pos: int) -> (
    Result<Seq<SpecStmt>, SpecSyntaxError>,
    int,
)
    decreases sp_remaining(toks, pos), 23int,
{
    if sp_kind(toks, pos) == TokenType::RightBrace {
        (Ok(Seq::empty()), pos)
    } else if pos >= toks.len() {
        // The cursor has left the sequence; reading on would find the
        // sentinel where a primary expression is required, so this names the
        // error directly. The executable parser's cursor never leaves the
        // sequence.
        (
            Err(
                SpecSyntaxError {
                    message: "Primary and at end"@,
                    expected: None,
                    found: Token::EOF,
                },
            ),
            pos,
        )
    } else {
        let (r, p2) = sp_stmt_and_optional_semicolon(toks, pos);
        match r {
            Ok(s) => {
                let (rest, p3) = sp_stmts_list(toks, sp_floor(p2, pos + 1));
                match rest {
                    Ok(list) => (Ok(seq![s] + list), p3),
                    Err(err) => (Err(err), p3),
                }
            },
            Err(err) => (Err(err), p2),
        }
    }
}

/// A statement sequence collapsed as the tree holds it: one statement stands
/// alone, any other number stands in a group.
pub open spec fn sp_collapse(list: Seq<SpecStmt>) -> SpecStmt {
    if list.len() == 1 {
        list[0]
    } else {
        SpecStmt::Group(list)
    }
}

/// The body of a block: its statements, collapsed.
#[verifier::opaque]
pub open spec fn sp_stmts(toks: Seq<Token>, pos: int) -> (Result<SpecStmt, SpecSyntaxError>, int)
    decreases sp_remaining(toks, pos), 24int,
{
    let (r, p2) = sp_stmts_list(toks, pos);
    match r {
        Ok(list) => (Ok(sp_collapse(list)), p2),
        Err(err) => (Err(err), p2),
    }
}

/// One top-level unit: an action-only rule, a `BEGIN` block, an `END` block,
/// or a pattern rule with an optional action.
pub enum SpecPaType {
    Normal(SpecPatternAction),
    Begin(SpecStmt),
    End(SpecStmt),
}

/// One top-level unit of the program.
#[verifier::opaque]
pub open spec fn sp_pattern_action(toks: Seq<Token>, pos: int) -> (
    Result<SpecPaType, SpecSyntaxError>,
    int,
) {
    let k = sp_kind(toks, pos);
    if k == TokenType::LeftBrace {
        let (r, p2) = sp_stmts(toks, pos + 1);
        match r {
            Err(err) => (Err(err), p2),
            Ok(body) => {
                let (c, p3) = sp_consume(toks, p2, TokenType::RightBrace,
                    "Expected '}' after action block"@);
                match c {
                    Err(err) => (Err(err), p3),
                    Ok(_) => (
                        Ok(SpecPaType::Normal(SpecPatternAction { pattern: None, action: body })),
                        p3,
                    ),
                }
            },
        }
    } else if k == TokenType::Begin {
        let (c1, q1) = sp_consume(toks, pos + 1, TokenType::LeftBrace,
            "Expected a '{' after a begin"@);
        match c1 {
            Err(err) => (Err(err), q1),
            Ok(_) => {
                let (r, p2) = sp_stmts(toks, q1);
                match r {
                    Err(err) => (Err(err), p2),
                    Ok(body) => {
                        let (c2, p3) = sp_consume(toks, p2, TokenType::RightBrace,
                            "Begin action should end with '}'"@);
                        match c2 {
                            Err(err) => (Err(err), p3),
                            Ok(_) => (Ok(SpecPaType::Begin(body)), p3),
                        }
                    },
                }
            },
        }
    } else if k == TokenType::End {
        let (c1, q1) = sp_consume(toks, pos + 1, TokenType::LeftBrace,
            "Expected a {' after a end"@);
        match c1 {
            Err(err) => (Err(err), q1),
            Ok(_) => {
                let (r, p2) = sp_stmts(toks, q1);
                match r {
                    Err(err) => (Err(err), p2),
                    Ok(body) => {
                        let (c2, p3) = sp_consume(toks, p2, TokenType::RightBrace,
                            "End action should end with '}'"@);
                        match c2 {
                            Err(err) => (Err(err), p3),
                            Ok(_) => (Ok(SpecPaType::End(body)), p3),
                        }
                    },
                }
            },
        }
    } else {
        let (r, p2) = sp_expression(toks, pos);
        match r {
            Err(err) => (Err(err), p2),
            Ok(test) => {
                if sp_kind(toks, p2) == TokenType::LeftBrace {
                    let (rb, p3) = sp_stmts(toks, p2 + 1);
                    match rb {
                        Err(err) => (Err(err), p3),
                        Ok(body) => {
                            let (c, p4) = sp_consume(toks, p3, TokenType::RightBrace,
                                "Patern action should end with '}'"@);
                            match c {
                                Err(err) => (Err(err), p4),
                                Ok(_) => (
                                    Ok(
                                        SpecPaType::Normal(
                                            SpecPatternAction {
                                                pattern: Some(test),
                                                action: body,
                                            },
                                        ),
                                    ),
                                    p4,
                                ),
                            }
                        },
                    }
                } else {
                    (
                        Ok(
                            SpecPaType::Normal(
                                SpecPatternAction {
                                    pattern: Some(test),
                                    action: spec_print_record_action(),
                                },
                            ),
                        ),
                        p2,
                    )
                }
            },
        }
    }
}

/// All top-level units from `pos` to the sentinel, sorted into the three
/// ordered lists of the program: `BEGIN` bodies, `END` bodies, generic rules.
#[verifier::opaque]
pub open spec fn sp_parse_units(toks: Seq<Token>, pos: int) -> (
    Result<(Seq<SpecStmt>, Seq<SpecStmt>, Seq<SpecPatternAction>), SpecSyntaxError>,
    int,
)
    decreases sp_remaining(toks, pos),
{
    if sp_at_end(toks, pos) {
        (Ok((Seq::empty(), Seq::empty(), Seq::empty())), pos)
    } else {
        let (r, p2) = sp_pattern_action(toks, pos);
        match r {
            Err(err) => (Err(err), p2),
            Ok(unit) => {
                let (rest, p3) = sp_parse_units(toks, sp_floor(p2, pos + 1));
                match rest {
                    Err(err) => (Err(err), p3),
                    Ok(lists) => (
                        Ok(
                            match unit {
                                SpecPaType::Begin(s) => (seq![s] + lists.0, lists.1, lists.2),
                                SpecPaType::End(s) => (lists.0, seq![s] + lists.1, lists.2),
                                SpecPaType::Normal(pa) => (lists.0, lists.1, seq![pa] + lists.2),
                            },
                        ),
                        p3,
                    ),
                }
            },
        }
    }
}

/// The three collected lists assembled into a program, errors passed
/// through.
pub open spec fn sp_units_to_program(
    u: Result<(Seq<SpecStmt>, Seq<SpecStmt>, Seq<SpecPatternAction>), SpecSyntaxError>,
) -> Result<crate::ast::SpecProgram, SpecSyntaxError> {
    match u {
        Ok(lists) => Ok(
            crate::ast::SpecProgram {
                begins: lists.0,
                ends: lists.1,
                pattern_actions: lists.2,
            },
        ),
        Err(err) => Err(err),
    }
}

/// What parsing a whole token sequence yields: the program, or the one fatal
/// syntax error.
pub open spec fn sp_parse(toks: Seq<Token>) -> Result<
    crate::ast::SpecProgram,
    SpecSyntaxError,
> {
    sp_units_to_program(sp_parse_units(toks, 0).0)
}

} // verus!
