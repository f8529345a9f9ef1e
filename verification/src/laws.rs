//! Laws of the parser, stated and proved once and for all.
//!
//! Each law here holds for every token sequence, not just for chosen
//! examples; the examples live in the test suite.

use crate::ast::{SpecPatternAction, SpecStmt, SpecTypedExpr, spec_print_record_action};
use crate::error::SpecSyntaxError;
use crate::grammar::{
    sp_at_end, sp_expression, sp_floor, sp_for_tail, sp_kind, sp_parse, sp_parse_units,
    sp_pattern_action, sp_stmt, sp_stmt_and_optional_semicolon, sp_stmts, sp_stmts_list,
    SpecPaType,
};
use crate::token::{Token, TokenType};
use vstd::prelude::*;

verus! {

/// Parsing is deterministic: what a parse yields is a function of the token
/// sequence alone, so equal token sequences parse to structurally equal
/// trees or to equal errors. The contract of [`crate::parser::parse`] pins
/// its result to `sp_parse`, so this carries over to the executable parser.
pub proof fn lemma_parse_deterministic(t1: Seq<Token>, t2: Seq<Token>)
    requires
        t1 == t2,
    ensures
        sp_parse(t1) == sp_parse(t2),
{
}

/// A `for (init; test; incr) { body }` statement builds no loop node of its
/// own: where its closing half `') { body }'` parses, the statement the
/// whole `for` yields is exactly `Group[init, While(test, Group[body,
/// incr])]`.
#[verifier::rlimit(100)]
#[verifier::spinoff_prover]
pub proof fn lemma_for_desugars(
    toks: Seq<Token>,
    pos: int,
    init: SpecStmt,
    test: SpecTypedExpr,
    incr: SpecStmt,
    body: SpecStmt,
    p_body: int,
)
    requires
        sp_kind(toks, pos) == TokenType::RightParen,
        sp_kind(toks, pos + 1) == TokenType::LeftBrace,
        sp_stmts(toks, pos + 2) == (Ok::<SpecStmt, SpecSyntaxError>(body), p_body),
        sp_kind(toks, p_body) == TokenType::RightBrace,
    ensures
        sp_for_tail(toks, pos, init, test, incr) == (
            Ok::<SpecStmt, SpecSyntaxError>(
                SpecStmt::Group(
                    seq![
                        init,
                        SpecStmt::While(test, Box::new(SpecStmt::Group(seq![body, incr]))),
                    ],
                ),
            ),
            p_body + 1,
        ),
{
    reveal(sp_for_tail);
}

/// A bare pattern with no action block implicitly prints the whole record:
/// a top-level unit that begins with an expression and is not followed by a
/// brace becomes a rule whose pattern is that expression and whose action is
/// the record-printing statement.
pub proof fn lemma_pattern_only_prints_record(
    toks: Seq<Token>,
    pos: int,
    e: SpecTypedExpr,
    p2: int,
)
    requires
        sp_kind(toks, pos) != TokenType::LeftBrace,
        sp_kind(toks, pos) != TokenType::Begin,
        sp_kind(toks, pos) != TokenType::End,
        sp_expression(toks, pos) == (Ok::<SpecTypedExpr, SpecSyntaxError>(e), p2),
        sp_kind(toks, p2) != TokenType::LeftBrace,
    ensures
        sp_pattern_action(toks, pos) == (
            Ok::<SpecPaType, SpecSyntaxError>(
                SpecPaType::Normal(
                    SpecPatternAction {
                        pattern: Some(e),
                        action: spec_print_record_action(),
                    },
                ),
            ),
            p2,
        ),
{
    reveal(sp_pattern_action);
}

/// A block holding exactly one statement is represented as that statement
/// itself, not wrapped in a group; a block of any other size is a group of
/// all its statements.
pub proof fn lemma_single_statement_block(
    toks: Seq<Token>,
    pos: int,
    list: Seq<SpecStmt>,
    p2: int,
)
    requires
        sp_stmts_list(toks, pos) == (Ok::<Seq<SpecStmt>, SpecSyntaxError>(list), p2),
    ensures
        list.len() == 1 ==> sp_stmts(toks, pos) == (
            Ok::<SpecStmt, SpecSyntaxError>(list[0]),
            p2,
        ),
        list.len() != 1 ==> sp_stmts(toks, pos) == (
            Ok::<SpecStmt, SpecSyntaxError>(SpecStmt::Group(list)),
            p2,
        ),
{
    reveal(sp_stmts);
}

/// A trailing separator after a statement is accepted and discarded: it
/// moves the cursor past itself and leaves the tree untouched.
pub proof fn lemma_trailing_semicolon_discarded(toks: Seq<Token>, pos: int, s: SpecStmt, p2: int)
    requires
        sp_stmt(toks, pos) == (Ok::<SpecStmt, SpecSyntaxError>(s), p2),
        sp_kind(toks, p2) == TokenType::Semicolon,
    ensures
        sp_stmt_and_optional_semicolon(toks, pos) == (
            Ok::<SpecStmt, SpecSyntaxError>(s),
            p2 + 1,
        ),
{
    reveal(sp_stmt_and_optional_semicolon);
}

/// `BEGIN` bodies, `END` bodies and generic rules are collected into three
/// separate lists, each in source order, wherever each unit stands among the
/// others: the unit parsed first stands before whatever the rest of the
/// sequence contributes to its own list, and the other two lists are exactly
/// what the rest contributes.
pub proof fn lemma_units_collected_in_order(
    toks: Seq<Token>,
    pos: int,
    unit: SpecPaType,
    p2: int,
    begins: Seq<SpecStmt>,
    ends: Seq<SpecStmt>,
    generic: Seq<SpecPatternAction>,
    p3: int,
)
    requires
        !sp_at_end(toks, pos),
        sp_pattern_action(toks, pos) == (Ok::<SpecPaType, SpecSyntaxError>(unit), p2),
        p2 > pos,
        sp_parse_units(toks, p2) == (
            Ok::<(Seq<SpecStmt>, Seq<SpecStmt>, Seq<SpecPatternAction>), SpecSyntaxError>(
                (begins, ends, generic),
            ),
            p3,
        ),
    ensures
        sp_parse_units(toks, pos) == (
            Ok::<(Seq<SpecStmt>, Seq<SpecStmt>, Seq<SpecPatternAction>), SpecSyntaxError>(
                match unit {
                    SpecPaType::Begin(s) => (seq![s] + begins, ends, generic),
                    SpecPaType::End(s) => (begins, seq![s] + ends, generic),
                    SpecPaType::Normal(pa) => (begins, ends, seq![pa] + generic),
                },
            ),
            p3,
        ),
{
    reveal(sp_parse_units);
    assert(sp_floor(p2, pos + 1) == p2);
}

} // verus!
