//! The executable parser.
//!
//! A single cursor walks the token sequence once; the grammar functions are
//! mutually recursive, one per precedence level, and each one's contract
//! says that it returns exactly what the matching spec function in
//! [`crate::grammar`] returns and leaves the cursor exactly where that
//! function says. Parsing therefore cannot help being deterministic.
//!
//! The cursor keeps the well-formedness invariant [`Parser::wf`]: the
//! sequence is non-empty, its last token is the end-of-stream sentinel, and
//! the cursor never leaves the sequence.

use crate::ast::{
    lemma_pattern_action_seq_view_cons, lemma_stmt_seq_view_cons, lemma_stmt_seq_view_two,
    lemma_typed_expr_seq_view_push,
    lemma_typed_expr_seq_view_two, pattern_action_seq_view, program_view, stmt_seq_view, Expr,
    PatternAction, Program, Stmt, TypedExpr, F64_BITS_ONE,
};
use crate::error::{SpecSyntaxError, SyntaxError};
use crate::grammar::{
    sp_additive, sp_additive_rest, sp_assignment, sp_at_end, sp_column, sp_compare,
    sp_compare_op, sp_compare_rest, sp_concat, sp_concat_rest, sp_concat_stop, sp_consume,
    sp_exp, sp_exp_rest, sp_expression, sp_floor, sp_for_stmt, sp_for_tail, sp_group, sp_if_stmt,
    sp_kind, sp_logical_and, sp_logical_and_rest, sp_logical_or, sp_logical_or_rest, sp_math,
    sp_new_var, sp_one, sp_parse, sp_parse_units, sp_pattern_action, sp_primary, sp_remaining,
    sp_stmt, sp_stmt_and_optional_semicolon, sp_stmts, sp_stmts_list, sp_term, sp_term_rest,
    sp_units_to_program, sp_while_stmt, tok_at, SpecPaType,
};
use crate::token::{spec_ttype, MathOp, Token, TokenType};
use vstd::prelude::*;

verus! {

/// A result of the expression grammar, mirrored.
pub open spec fn expr_result_view(r: Result<TypedExpr, SyntaxError>) -> Result<
    crate::ast::SpecTypedExpr,
    SpecSyntaxError,
> {
    match r {
        Ok(e) => Ok(crate::ast::typed_expr_view(e)),
        Err(err) => Err(err@),
    }
}

/// A result of the statement grammar, mirrored.
pub open spec fn stmt_result_view(r: Result<Stmt, SyntaxError>) -> Result<
    crate::ast::SpecStmt,
    SpecSyntaxError,
> {
    match r {
        Ok(s) => Ok(crate::ast::stmt_view(s)),
        Err(err) => Err(err@),
    }
}

/// A parsed statement list or the error, mirrored.
pub open spec fn stmt_list_result_view(r: Result<Vec<Stmt>, SyntaxError>) -> Result<
    Seq<crate::ast::SpecStmt>,
    SpecSyntaxError,
> {
    match r {
        Ok(v) => Ok(stmt_seq_view(v@)),
        Err(err) => Err(err@),
    }
}

/// A consumed token or the error, mirrored.
pub open spec fn token_result_view(r: Result<Token, SyntaxError>) -> Result<
    Token,
    SpecSyntaxError,
> {
    match r {
        Ok(t) => Ok(t),
        Err(err) => Err(err@),
    }
}

/// One top-level unit as the executable parser sorts it.
pub enum PaType {
    Normal(PatternAction),
    Begin(Stmt),
    End(Stmt),
}

/// Mirror of a top-level unit.
pub open spec fn pa_type_view(p: PaType) -> SpecPaType {
    match p {
        PaType::Normal(pa) => SpecPaType::Normal(crate::ast::pattern_action_view(pa)),
        PaType::Begin(s) => SpecPaType::Begin(crate::ast::stmt_view(s)),
        PaType::End(s) => SpecPaType::End(crate::ast::stmt_view(s)),
    }
}

/// A top-level unit or the error, mirrored.
pub open spec fn pa_result_view(r: Result<PaType, SyntaxError>) -> Result<
    SpecPaType,
    SpecSyntaxError,
> {
    match r {
        Ok(u) => Ok(pa_type_view(u)),
        Err(err) => Err(err@),
    }
}

/// The three collected lists or the error, mirrored.
pub open spec fn units_result_view(
    r: Result<(Vec<Stmt>, Vec<Stmt>, Vec<PatternAction>), SyntaxError>,
) -> Result<(Seq<crate::ast::SpecStmt>, Seq<crate::ast::SpecStmt>, Seq<
    crate::ast::SpecPatternAction,
>), SpecSyntaxError> {
    match r {
        Ok(lists) => Ok(
            (stmt_seq_view(lists.0@), stmt_seq_view(lists.1@), pattern_action_seq_view(lists.2@)),
        ),
        Err(err) => Err(err@),
    }
}

/// A whole parse's outcome, mirrored.
pub open spec fn program_result_view(r: Result<Program, SyntaxError>) -> Result<
    crate::ast::SpecProgram,
    SpecSyntaxError,
> {
    match r {
        Ok(p) => Ok(program_view(p)),
        Err(err) => Err(err@),
    }
}

/// Whether `k` stops a concatenation.
pub fn concat_stop(k: TokenType) -> (b: bool)
    ensures
        b == sp_concat_stop(k),
{
    k == TokenType::InplaceAssign || k == TokenType::Less || k == TokenType::LessEq || k
        == TokenType::BangEq || k == TokenType::EqEq || k == TokenType::Greater || k
        == TokenType::GreaterEq || k == TokenType::And || k == TokenType::Or || k == TokenType::Eq
        || k == TokenType::Semicolon || k == TokenType::RightBrace || k == TokenType::RightParen
        || k == TokenType::LeftBrace
}

/// The cursor over the token sequence.
pub struct Parser {
    pub tokens: Vec<Token>,
    pub current: usize,
}

impl Parser {
    /// The token sequence being parsed.
    pub open spec fn toks(&self) -> Seq<Token> {
        self.tokens@
    }

    /// The cursor.
    pub open spec fn pos(&self) -> int {
        self.current as int
    }

    /// Well-formedness: a non-empty sequence ending in the sentinel, with
    /// the cursor inside it.
    pub open spec fn wf(&self) -> bool {
        &&& self.tokens@.len() >= 1
        &&& spec_ttype(self.tokens@.last()) == TokenType::EOF
        &&& self.current < self.tokens@.len()
    }

    /// Whether the cursor stands on the end-of-stream sentinel.
    pub fn is_at_end(&self) -> (b: bool)
        requires
            self.wf(),
        ensures
            b == sp_at_end(self.toks(), self.pos()),
    {
        (&self.tokens[self.current]).ttype() == TokenType::EOF
    }

    /// The kind of the token at the cursor.
    pub fn peek_kind(&self) -> (k: TokenType)
        requires
            self.wf(),
        ensures
            k == sp_kind(self.toks(), self.pos()),
    {
        (&self.tokens[self.current]).ttype()
    }

    /// The token at the cursor, without consuming it.
    pub fn peek(&self) -> (t: Token)
        requires
            self.wf(),
        ensures
            t == tok_at(self.toks(), self.pos()),
    {
        (&self.tokens[self.current]).clone()
    }

    /// The token one past the cursor, or the sentinel where none stands;
    /// the one-token lookahead that tells an assignment statement apart.
    pub fn peek_next(&self) -> (t: Token)
        requires
            self.wf(),
        ensures
            t == tok_at(self.toks(), self.pos() + 1),
    {
        let n = self.tokens.len();
        if self.current + 1 < n {
            (&self.tokens[self.current + 1]).clone()
        } else {
            Token::EOF
        }
    }

    /// The token before the cursor, if any has been consumed.
    pub fn previous(&self) -> (r: Option<Token>)
        requires
            self.wf(),
        ensures
            r == if self.pos() == 0 {
                Option::<Token>::None
            } else {
                Some(self.toks()[self.pos() - 1])
            },
    {
        if self.current == 0 {
            None
        } else {
            Some((&self.tokens[self.current - 1]).clone())
        }
    }

    /// Consume and return the token at the cursor, saturating at the
    /// sentinel.
    pub fn advance(&mut self) -> (t: Token)
        requires
            old(self).wf(),
        ensures
            final(self).wf(),
            final(self).tokens == old(self).tokens,
            t == tok_at(old(self).toks(), old(self).pos()),
            final(self).pos() == if sp_at_end(old(self).toks(), old(self).pos()) {
                old(self).pos()
            } else {
                old(self).pos() + 1
            },
    {
        let t = self.peek();
        if !self.is_at_end() {
            let n = self.tokens.len();
            assert(self.current + 1 <= n);
            self.current = self.current + 1;
        }
        t
    }

    /// Whether the token at the cursor has kind `typ`; nothing is consumed.
    pub fn check(&mut self, typ: TokenType) -> (b: bool)
        requires
            old(self).wf(),
        ensures
            *final(self) == *old(self),
            b == (!sp_at_end(old(self).toks(), old(self).pos()) && sp_kind(
                old(self).toks(),
                old(self).pos(),
            ) == typ),
    {
        if self.is_at_end() {
            false
        } else {
            typ == self.peek_kind()
        }
    }

    /// Whether the token at the cursor has one of the given kinds,
    /// consuming it when it has.
    pub fn matches(&mut self, types: Vec<TokenType>) -> (b: bool)
        requires
            old(self).wf(),
        ensures
            final(self).wf(),
            final(self).tokens == old(self).tokens,
            b == types@.contains(sp_kind(old(self).toks(), old(self).pos())),
            b ==> final(self).pos() == if sp_at_end(old(self).toks(), old(self).pos()) {
                old(self).pos()
            } else {
                old(self).pos() + 1
            },
            !b ==> *final(self) == *old(self),
    {
        let k = self.peek_kind();
        let mut i: usize = 0;
        while i < types.len()
            invariant
                old(self).wf(),
                self.tokens == old(self).tokens,
                self.current == old(self).current,
                k == sp_kind(old(self).toks(), old(self).pos()),
                i <= types@.len(),
                forall|j: int| 0 <= j < i ==> types@[j] != k,
            decreases types@.len() - i,
        {
            if types[i] == k {
                assert(types@.contains(k));
                self.advance();
                return true;
            }
            i = i + 1;
        }
        false
    }

    /// Require one token of kind `typ`: consume and return it, or stop with
    /// the error naming `message` and what stood there instead.
    pub fn consume(&mut self, typ: TokenType, message: &str) -> (r: Result<Token, SyntaxError>)
        requires
            old(self).wf(),
        ensures
            final(self).wf(),
            final(self).tokens == old(self).tokens,
            (token_result_view(r), final(self).pos()) == sp_consume(
                old(self).toks(),
                old(self).pos(),
                typ,
                message@,
            ),
    {
        if self.check(typ) {
            Ok(self.advance())
        } else {
            Err(SyntaxError::expected(message, typ, self.peek()))
        }
    }

    /// A primary expression: a numeric literal, a parenthesized expression,
    /// a variable reference, or a string literal.
    #[verifier::rlimit(100)]
    #[verifier::spinoff_prover]
    fn primary(&mut self) -> (r: Result<TypedExpr, SyntaxError>)
        requires
            old(self).wf(),
        ensures
            final(self).wf(),
            final(self).tokens == old(self).tokens,
            (expr_result_view(r), final(self).pos()) == sp_primary(old(self).toks(), old(self).pos()),
            final(self).pos() >= old(self).pos(),
            r is Ok ==> final(self).pos() > old(self).pos(),
        decreases sp_remaining(self.toks(), self.pos()), 0int,
    {
        reveal(sp_primary);
        if self.is_at_end() {
            Err(SyntaxError::unexpected("Primary and at end", self.peek()))
        } else {
            let t = self.peek();
            match t {
                Token::NumberF64(bits) => {
                    self.advance();
                    Ok(TypedExpr::new_var(Expr::NumberF64(bits)))
                },
                Token::LeftParen => {
                    self.advance();
                    match self.expression() {
                        Ok(e) => {
                            match self.consume(
                                TokenType::RightParen,
                                "Missing closing ')' after group",
                            ) {
                                Ok(_) => Ok(e),
                                Err(err) => Err(err),
                            }
                        },
                        Err(err) => Err(err),
                    }
                },
                Token::Ident(name) => {
                    self.advance();
                    Ok(TypedExpr::new_var(Expr::Variable(name)))
                },
                Token::String(s) => {
                    self.advance();
                    Ok(TypedExpr::new_var(Expr::String(s)))
                },
                other => Err(SyntaxError::unexpected("Unexpected token", other)),
            }
        }
    }

    /// Zero or more field-access sigils, then a primary, wrapped in one
    /// column node per sigil.
    #[verifier::rlimit(100)]
    #[verifier::spinoff_prover]
    fn column(&mut self) -> (r: Result<TypedExpr, SyntaxError>)
        requires
            old(self).wf(),
        ensures
            final(self).wf(),
            final(self).tokens == old(self).tokens,
            (expr_result_view(r), final(self).pos()) == sp_column(old(self).toks(), old(self).pos()),
            final(self).pos() >= old(self).pos(),
            r is Ok ==> final(self).pos() > old(self).pos(),
        decreases sp_remaining(self.toks(), self.pos()), 1int,
    {
        reveal(sp_column);
        if self.peek_kind() == TokenType::Column {
            self.advance();
            match self.column() {
                Ok(e) => Ok(TypedExpr::new_var(Expr::Column(Box::new(e)))),
                Err(err) => Err(err),
            }
        } else {
            self.primary()
        }
    }

    /// Fold further `^` operands onto `acc`, left-associatively.
    #[verifier::rlimit(100)]
    #[verifier::spinoff_prover]
    fn exp_rest(&mut self, acc: TypedExpr) -> (r: Result<TypedExpr, SyntaxError>)
        requires
            old(self).wf(),
        ensures
            final(self).wf(),
            final(self).tokens == old(self).tokens,
            (expr_result_view(r), final(self).pos()) == sp_exp_rest(old(self).toks(), old(self).pos(), acc@),
            final(self).pos() >= old(self).pos(),
        decreases sp_remaining(self.toks(), self.pos()), 2int,
    {
        reveal(sp_exp_rest);
        if self.peek_kind() == TokenType::Exponent {
            self.advance();
            match self.column() {
                Ok(rhs) => {
                    let acc2 = TypedExpr::new_var(
                        Expr::MathOp(Box::new(acc), MathOp::Exponent, Box::new(rhs)),
                    );
                    self.exp_rest(acc2)
                },
                Err(err) => Err(err),
            }
        } else {
            Ok(acc)
        }
    }

    /// The exponent level (`^`).
    #[verifier::rlimit(100)]
    #[verifier::spinoff_prover]
    fn exp(&mut self) -> (r: Result<TypedExpr, SyntaxError>)
        requires
            old(self).wf(),
        ensures
            final(self).wf(),
            final(self).tokens == old(self).tokens,
            (expr_result_view(r), final(self).pos()) == sp_exp(old(self).toks(), old(self).pos()),
            final(self).pos() >= old(self).pos(),
            r is Ok ==> final(self).pos() > old(self).pos(),
        decreases sp_remaining(self.toks(), self.pos()), 3int,
    {
        reveal(sp_exp);
        match self.column() {
            Ok(e) => self.exp_rest(e),
            Err(err) => Err(err),
        }
    }

    /// Fold further `*`, `/`, `%` operands onto `acc`, left-associatively.
    #[verifier::rlimit(100)]
    #[verifier::spinoff_prover]
    fn term_rest(&mut self, acc: TypedExpr) -> (r: Result<TypedExpr, SyntaxError>)
        requires
            old(self).wf(),
        ensures
            final(self).wf(),
            final(self).tokens == old(self).tokens,
            (expr_result_view(r), final(self).pos()) == sp_term_rest(old(self).toks(), old(self).pos(), acc@),
            final(self).pos() >= old(self).pos(),
        decreases sp_remaining(self.toks(), self.pos()), 4int,
    {
        reveal(sp_term_rest);
        let k = self.peek_kind();
        if k == TokenType::Star || k == TokenType::Slash || k == TokenType::Modulo {
            let op = if k == TokenType::Star {
                MathOp::Star
            } else if k == TokenType::Slash {
                MathOp::Slash
            } else {
                MathOp::Modulus
            };
            self.advance();
            match self.exp() {
                Ok(rhs) => {
                    let acc2 = TypedExpr::new_var(Expr::MathOp(Box::new(acc), op, Box::new(rhs)));
                    self.term_rest(acc2)
                },
                Err(err) => Err(err),
            }
        } else {
            Ok(acc)
        }
    }

    /// The multiplicative level (`*`, `/`, `%`).
    #[verifier::rlimit(100)]
    #[verifier::spinoff_prover]
    fn term(&mut self) -> (r: Result<TypedExpr, SyntaxError>)
        requires
            old(self).wf(),
        ensures
            final(self).wf(),
            final(self).tokens == old(self).tokens,
            (expr_result_view(r), final(self).pos()) == sp_term(old(self).toks(), old(self).pos()),
            final(self).pos() >= old(self).pos(),
            r is Ok ==> final(self).pos() > old(self).pos(),
        decreases sp_remaining(self.toks(), self.pos()), 5int,
    {
        reveal(sp_term);
        match self.exp() {
            Ok(e) => self.term_rest(e),
            Err(err) => Err(err),
        }
    }

    /// Fold further `+`, `-` operands onto `acc`, rewriting `var++` and
    /// `var--` into the three nodes that yield the pre-mutation value.
    #[verifier::rlimit(100)]
    #[verifier::spinoff_prover]
    fn additive_rest(&mut self, acc: TypedExpr) -> (r: Result<TypedExpr, SyntaxError>)
        requires
            old(self).wf(),
        ensures
            final(self).wf(),
            final(self).tokens == old(self).tokens,
            (expr_result_view(r), final(self).pos()) == sp_additive_rest(old(self).toks(), old(self).pos(), acc@),
            final(self).pos() >= old(self).pos(),
        decreases sp_remaining(self.toks(), self.pos()), 6int,
    {
        reveal(sp_additive_rest);
        let k = self.peek_kind();
        if k == TokenType::Plus || k == TokenType::Minus {
            let op = if k == TokenType::Plus {
                MathOp::Plus
            } else {
                MathOp::Minus
            };
            let var_name: Option<String> = match &acc.expr {
                Expr::Variable(name) => Some(name.clone()),
                _ => None,
            };
            let next_k = self.peek_next().ttype();
            match var_name {
                Some(name) => {
                    if k == TokenType::Plus && next_k == TokenType::Plus {
                        self.advance();
                        self.advance();
                        let ghost acc_v = acc@;
                        let ghost name_v = name;
                        let one_a = TypedExpr::new_var(Expr::NumberF64(F64_BITS_ONE));
                        assert(one_a@ == sp_one());
                        let incr = TypedExpr::new_var(
                            Expr::MathOp(Box::new(acc), MathOp::Plus, Box::new(one_a)),
                        );
                        assert(incr@ == sp_math(acc_v, MathOp::Plus, sp_one()));
                        let assign = TypedExpr::new_var(Expr::Assign(name, Box::new(incr)));
                        assert(assign@ == sp_new_var(
                            crate::ast::SpecExpr::Assign(
                                name_v,
                                Box::new(sp_math(acc_v, MathOp::Plus, sp_one())),
                            ),
                        ));
                        let one_b = TypedExpr::new_var(Expr::NumberF64(F64_BITS_ONE));
                        assert(one_b@ == sp_one());
                        let ghost assign_v = assign@;
                        let acc2 = TypedExpr::new_var(
                            Expr::MathOp(Box::new(assign), MathOp::Minus, Box::new(one_b)),
                        );
                        assert(acc2@ == sp_math(assign_v, MathOp::Minus, sp_one()));
                        self.additive_rest(acc2)
                    } else if k == TokenType::Minus && next_k == TokenType::Minus {
                        self.advance();
                        self.advance();
                        let ghost acc_v = acc@;
                        let ghost name_v = name;
                        let one_a = TypedExpr::new_var(Expr::NumberF64(F64_BITS_ONE));
                        assert(one_a@ == sp_one());
                        let decr = TypedExpr::new_var(
                            Expr::MathOp(Box::new(acc), MathOp::Minus, Box::new(one_a)),
                        );
                        assert(decr@ == sp_math(acc_v, MathOp::Minus, sp_one()));
                        let assign = TypedExpr::new_var(Expr::Assign(name, Box::new(decr)));
                        assert(assign@ == sp_new_var(
                            crate::ast::SpecExpr::Assign(
                                name_v,
                                Box::new(sp_math(acc_v, MathOp::Minus, sp_one())),
                            ),
                        ));
                        let one_b = TypedExpr::new_var(Expr::NumberF64(F64_BITS_ONE));
                        assert(one_b@ == sp_one());
                        let ghost assign_v = assign@;
                        let acc2 = TypedExpr::new_var(
                            Expr::MathOp(Box::new(assign), MathOp::Plus, Box::new(one_b)),
                        );
                        assert(acc2@ == sp_math(assign_v, MathOp::Plus, sp_one()));
                        self.additive_rest(acc2)
                    } else {
                        self.advance();
                        match self.additive() {
                            Ok(rhs) => {
                                let acc2 = TypedExpr::new_var(
                                    Expr::MathOp(Box::new(acc), op, Box::new(rhs)),
                                );
                                self.additive_rest(acc2)
                            },
                            Err(err) => Err(err),
                        }
                    }
                },
                None => {
                    self.advance();
                    match self.additive() {
                        Ok(rhs) => {
                            let acc2 = TypedExpr::new_var(
                                Expr::MathOp(Box::new(acc), op, Box::new(rhs)),
                            );
                            self.additive_rest(acc2)
                        },
                        Err(err) => Err(err),
                    }
                },
            }
        } else {
            Ok(acc)
        }
    }

    /// The additive level (`+`, `-`).
    #[verifier::rlimit(100)]
    #[verifier::spinoff_prover]
    fn additive(&mut self) -> (r: Result<TypedExpr, SyntaxError>)
        requires
            old(self).wf(),
        ensures
            final(self).wf(),
            final(self).tokens == old(self).tokens,
            (expr_result_view(r), final(self).pos()) == sp_additive(old(self).toks(), old(self).pos()),
            final(self).pos() >= old(self).pos(),
            r is Ok ==> final(self).pos() > old(self).pos(),
        decreases sp_remaining(self.toks(), self.pos()), 7int,
    {
        reveal(sp_additive);
        match self.term() {
            Ok(e) => self.additive_rest(e),
            Err(err) => Err(err),
        }
    }

    /// Fold further juxtaposed operands onto `acc` while the next token is
    /// no stop kind and no sentinel.
    #[verifier::rlimit(100)]
    #[verifier::spinoff_prover]
    fn concat_rest(&mut self, acc: TypedExpr) -> (r: Result<TypedExpr, SyntaxError>)
        requires
            old(self).wf(),
        ensures
            final(self).wf(),
            final(self).tokens == old(self).tokens,
            (expr_result_view(r), final(self).pos()) == sp_concat_rest(old(self).toks(), old(self).pos(), acc@),
            final(self).pos() >= old(self).pos(),
        decreases sp_remaining(self.toks(), self.pos()), 8int,
    {
        reveal(sp_concat_rest);
        let k = self.peek_kind();
        if k != TokenType::EOF && !concat_stop(k) {
            match self.additive() {
                Ok(rhs) => {
                    let acc2 = match acc {
                        TypedExpr { typ, expr: Expr::Concatenation(mut items) } => {
                            proof {
                                lemma_typed_expr_seq_view_push(items@, rhs);
                            }
                            items.push(rhs);
                            TypedExpr { typ, expr: Expr::Concatenation(items) }
                        },
                        other => {
                            proof {
                                lemma_typed_expr_seq_view_two(other, rhs);
                            }
                            let mut items = Vec::new();
                            items.push(other);
                            items.push(rhs);
                            assert(items@ =~= seq![other, rhs]);
                            TypedExpr::new_var(Expr::Concatenation(items))
                        },
                    };
                    self.concat_rest(acc2)
                },
                Err(err) => Err(err),
            }
        } else {
            Ok(acc)
        }
    }

    /// The concatenation level: juxtaposed operands collapse into one
    /// concatenation node.
    #[verifier::rlimit(100)]
    #[verifier::spinoff_prover]
    fn string_concat(&mut self) -> (r: Result<TypedExpr, SyntaxError>)
        requires
            old(self).wf(),
        ensures
            final(self).wf(),
            final(self).tokens == old(self).tokens,
            (expr_result_view(r), final(self).pos()) == sp_concat(old(self).toks(), old(self).pos()),
            final(self).pos() >= old(self).pos(),
            r is Ok ==> final(self).pos() > old(self).pos(),
        decreases sp_remaining(self.toks(), self.pos()), 9int,
    {
        reveal(sp_concat);
        match self.additive() {
            Ok(e) => self.concat_rest(e),
            Err(err) => Err(err),
        }
    }

    /// Fold further comparison operands onto `acc`, left-associatively.
    #[verifier::rlimit(100)]
    #[verifier::spinoff_prover]
    fn compare_rest(&mut self, acc: TypedExpr) -> (r: Result<TypedExpr, SyntaxError>)
        requires
            old(self).wf(),
        ensures
            final(self).wf(),
            final(self).tokens == old(self).tokens,
            (expr_result_view(r), final(self).pos()) == sp_compare_rest(old(self).toks(), old(self).pos(), acc@),
            final(self).pos() >= old(self).pos(),
        decreases sp_remaining(self.toks(), self.pos()), 10int,
    {
        reveal(sp_compare_rest);
        let k = self.peek_kind();
        let op_opt = if k == TokenType::Less {
            Some(crate::token::BinOp::Less)
        } else if k == TokenType::LessEq {
            Some(crate::token::BinOp::LessEq)
        } else if k == TokenType::Greater {
            Some(crate::token::BinOp::Greater)
        } else if k == TokenType::GreaterEq {
            Some(crate::token::BinOp::GreaterEq)
        } else if k == TokenType::EqEq {
            Some(crate::token::BinOp::EqEq)
        } else if k == TokenType::BangEq {
            Some(crate::token::BinOp::BangEq)
        } else {
            None
        };
        assert(op_opt == sp_compare_op(k));
        match op_opt {
            Some(op) => {
                self.advance();
                match self.string_concat() {
                    Ok(rhs) => {
                        let acc2 = TypedExpr::new_var(
                            Expr::BinOp(Box::new(acc), op, Box::new(rhs)),
                        );
                        self.compare_rest(acc2)
                    },
                    Err(err) => Err(err),
                }
            },
            None => Ok(acc),
        }
    }

    /// The comparison level (`<`, `<=`, `>`, `>=`, `==`, `!=`).
    #[verifier::rlimit(100)]
    #[verifier::spinoff_prover]
    fn compare(&mut self) -> (r: Result<TypedExpr, SyntaxError>)
        requires
            old(self).wf(),
        ensures
            final(self).wf(),
            final(self).tokens == old(self).tokens,
            (expr_result_view(r), final(self).pos()) == sp_compare(old(self).toks(), old(self).pos()),
            final(self).pos() >= old(self).pos(),
            r is Ok ==> final(self).pos() > old(self).pos(),
        decreases sp_remaining(self.toks(), self.pos()), 11int,
    {
        reveal(sp_compare);
        match self.string_concat() {
            Ok(e) => self.compare_rest(e),
            Err(err) => Err(err),
        }
    }

    /// Fold further `&&` operands onto `acc`, left-associatively.
    #[verifier::rlimit(100)]
    #[verifier::spinoff_prover]
    fn logical_and_rest(&mut self, acc: TypedExpr) -> (r: Result<TypedExpr, SyntaxError>)
        requires
            old(self).wf(),
        ensures
            final(self).wf(),
            final(self).tokens == old(self).tokens,
            (expr_result_view(r), final(self).pos()) == sp_logical_and_rest(old(self).toks(), old(self).pos(), acc@),
            final(self).pos() >= old(self).pos(),
        decreases sp_remaining(self.toks(), self.pos()), 12int,
    {
        reveal(sp_logical_and_rest);
        if self.peek_kind() == TokenType::And {
            self.advance();
            match self.compare() {
                Ok(rhs) => {
                    let acc2 = TypedExpr::new_var(
                        Expr::LogicalOp(
                            Box::new(acc),
                            crate::token::LogicalOp::And,
                            Box::new(rhs),
                        ),
                    );
                    self.logical_and_rest(acc2)
                },
                Err(err) => Err(err),
            }
        } else {
            Ok(acc)
        }
    }

    /// The logical-and level (`&&`).
    #[verifier::rlimit(100)]
    #[verifier::spinoff_prover]
    fn logical_and(&mut self) -> (r: Result<TypedExpr, SyntaxError>)
        requires
            old(self).wf(),
        ensures
            final(self).wf(),
            final(self).tokens == old(self).tokens,
            (expr_result_view(r), final(self).pos()) == sp_logical_and(old(self).toks(), old(self).pos()),
            final(self).pos() >= old(self).pos(),
            r is Ok ==> final(self).pos() > old(self).pos(),
        decreases sp_remaining(self.toks(), self.pos()), 13int,
    {
        reveal(sp_logical_and);
        match self.compare() {
            Ok(e) => self.logical_and_rest(e),
            Err(err) => Err(err),
        }
    }

    /// Fold further `||` operands onto `acc`, left-associatively.
    #[verifier::rlimit(100)]
    #[verifier::spinoff_prover]
    fn logical_or_rest(&mut self, acc: TypedExpr) -> (r: Result<TypedExpr, SyntaxError>)
        requires
            old(self).wf(),
        ensures
            final(self).wf(),
            final(self).tokens == old(self).tokens,
            (expr_result_view(r), final(self).pos()) == sp_logical_or_rest(old(self).toks(), old(self).pos(), acc@),
            final(self).pos() >= old(self).pos(),
        decreases sp_remaining(self.toks(), self.pos()), 14int,
    {
        reveal(sp_logical_or_rest);
        if self.peek_kind() == TokenType::Or {
            self.advance();
            match self.logical_and() {
                Ok(rhs) => {
                    let acc2 = TypedExpr::new_var(
                        Expr::LogicalOp(Box::new(acc), crate::token::LogicalOp::Or, Box::new(rhs)),
                    );
                    self.logical_or_rest(acc2)
                },
                Err(err) => Err(err),
            }
        } else {
            Ok(acc)
        }
    }

    /// The logical-or level (`||`).
    #[verifier::rlimit(100)]
    #[verifier::spinoff_prover]
    fn logical_or(&mut self) -> (r: Result<TypedExpr, SyntaxError>)
        requires
            old(self).wf(),
        ensures
            final(self).wf(),
            final(self).tokens == old(self).tokens,
            (expr_result_view(r), final(self).pos()) == sp_logical_or(old(self).toks(), old(self).pos()),
            final(self).pos() >= old(self).pos(),
            r is Ok ==> final(self).pos() > old(self).pos(),
        decreases sp_remaining(self.toks(), self.pos()), 15int,
    {
        reveal(sp_logical_or);
        match self.logical_and() {
            Ok(e) => self.logical_or_rest(e),
            Err(err) => Err(err),
        }
    }

    /// The assignment level: a bare variable followed by `=` or by a
    /// compound-assignment token becomes an assignment; anything else passes
    /// through unchanged.
    #[verifier::rlimit(100)]
    #[verifier::spinoff_prover]
    fn assignment(&mut self) -> (r: Result<TypedExpr, SyntaxError>)
        requires
            old(self).wf(),
        ensures
            final(self).wf(),
            final(self).tokens == old(self).tokens,
            (expr_result_view(r), final(self).pos()) == sp_assignment(old(self).toks(), old(self).pos()),
            final(self).pos() >= old(self).pos(),
            r is Ok ==> final(self).pos() > old(self).pos(),
        decreases sp_remaining(self.toks(), self.pos()), 16int,
    {
        reveal(sp_assignment);
        match self.logical_or() {
            Err(err) => Err(err),
            Ok(lhs) => {
                let var_name: Option<String> = match &lhs.expr {
                    Expr::Variable(name) => Some(name.clone()),
                    _ => None,
                };
                match var_name {
                    None => Ok(lhs),
                    Some(name) => {
                        if self.peek_kind() == TokenType::Eq {
                            self.advance();
                            match self.assignment() {
                                Ok(rhs) => Ok(
                                    TypedExpr::new_var(Expr::Assign(name, Box::new(rhs))),
                                ),
                                Err(err) => Err(err),
                            }
                        } else {
                            let t = self.peek();
                            match t {
                                Token::InplaceEq(op) => {
                                    self.advance();
                                    match self.assignment() {
                                        Ok(rhs) => {
                                            let ghost name_v = name;
                                            let ghost rhs_v = rhs@;
                                            let var_ref = TypedExpr::new_var(
                                                Expr::Variable(name.clone()),
                                            );
                                            assert(var_ref@ == sp_new_var(
                                                crate::ast::SpecExpr::Variable(name_v),
                                            ));
                                            let inner = TypedExpr::new_var(
                                                Expr::MathOp(Box::new(var_ref), op, Box::new(rhs)),
                                            );
                                            assert(inner@ == sp_math(
                                                sp_new_var(crate::ast::SpecExpr::Variable(name_v)),
                                                op,
                                                rhs_v,
                                            ));
                                            Ok(
                                                TypedExpr::new_var(
                                                    Expr::Assign(name, Box::new(inner)),
                                                ),
                                            )
                                        },
                                        Err(err) => Err(err),
                                    }
                                },
                                _ => Ok(lhs),
                            }
                        }
                    },
                }
            },
        }
    }

    /// A whole expression.
    #[verifier::rlimit(100)]
    #[verifier::spinoff_prover]
    fn expression(&mut self) -> (r: Result<TypedExpr, SyntaxError>)
        requires
            old(self).wf(),
        ensures
            final(self).wf(),
            final(self).tokens == old(self).tokens,
            (expr_result_view(r), final(self).pos()) == sp_expression(old(self).toks(), old(self).pos()),
            final(self).pos() >= old(self).pos(),
            r is Ok ==> final(self).pos() > old(self).pos(),
        decreases sp_remaining(self.toks(), self.pos()), 17int,
    {
        reveal(sp_expression);
        self.assignment()
    }

    /// The closing half of a `for` statement, from the `')'` on, and the
    /// desugared group the whole statement becomes.
    #[verifier::rlimit(100)]
    #[verifier::spinoff_prover]
    fn for_tail(&mut self, init: Stmt, test: TypedExpr, incr: Stmt) -> (r: Result<
        Stmt,
        SyntaxError,
    >)
        requires
            old(self).wf(),
        ensures
            final(self).wf(),
            final(self).tokens == old(self).tokens,
            (stmt_result_view(r), final(self).pos()) == sp_for_tail(
                old(self).toks(),
                old(self).pos(),
                init@,
                test@,
                incr@,
            ),
            final(self).pos() >= old(self).pos(),
        decreases sp_remaining(self.toks(), self.pos()), 18int,
    {
        reveal(sp_for_tail);
        match self.consume(TokenType::RightParen, "Expected a ')' to end for loop") {
            Err(err) => Err(err),
            Ok(_) => {
                match self.consume(TokenType::LeftBrace, "Expected a '{' to begin for loop body") {
                    Err(err) => Err(err),
                    Ok(_) => {
                        match self.stmts() {
                            Err(err) => Err(err),
                            Ok(body) => {
                                match self.consume(
                                    TokenType::RightBrace,
                                    "Expected a '}' after for loop body",
                                ) {
                                    Err(err) => Err(err),
                                    Ok(_) => {
                                        let ghost body_v = body@;
                                        let ghost incr_v = incr@;
                                        let ghost init_v = init@;
                                        let ghost test_v = test@;
                                        proof {
                                            lemma_stmt_seq_view_two(body, incr);
                                        }
                                        let mut inner: Vec<Stmt> = Vec::new();
                                        inner.push(body);
                                        inner.push(incr);
                                        assert(inner@ =~= seq![inner@[0], inner@[1]]);
                                        let inner_group = Stmt::Group(inner);
                                        assert(inner_group@ == crate::ast::SpecStmt::Group(
                                            seq![body_v, incr_v],
                                        ));
                                        let w = Stmt::While(test, Box::new(inner_group));
                                        assert(w@ == crate::ast::SpecStmt::While(
                                            test_v,
                                            Box::new(
                                                crate::ast::SpecStmt::Group(seq![body_v, incr_v]),
                                            ),
                                        ));
                                        proof {
                                            lemma_stmt_seq_view_two(init, w);
                                        }
                                        let mut outer: Vec<Stmt> = Vec::new();
                                        outer.push(init);
                                        outer.push(w);
                                        assert(outer@ =~= seq![outer@[0], outer@[1]]);
                                        Ok(Stmt::Group(outer))
                                    },
                                }
                            },
                        }
                    },
                }
            },
        }
    }

    /// A `for` statement, desugared as it is parsed into
    /// `Group[init, While(test, Group[body, incr])]`.
    #[verifier::rlimit(100)]
    #[verifier::spinoff_prover]
    fn for_stmt(&mut self) -> (r: Result<Stmt, SyntaxError>)
        requires
            old(self).wf(),
            sp_kind(old(self).toks(), old(self).pos()) == TokenType::For,
        ensures
            final(self).wf(),
            final(self).tokens == old(self).tokens,
            (stmt_result_view(r), final(self).pos()) == sp_for_stmt(old(self).toks(), old(self).pos()),
            final(self).pos() >= old(self).pos(),
            r is Ok ==> final(self).pos() > old(self).pos(),
        decreases sp_remaining(self.toks(), self.pos()), 19int,
    {
        reveal(sp_for_stmt);
        self.advance();
        match self.consume(TokenType::LeftParen, "Expected a '(' after the for keyword") {
            Err(err) => Err(err),
            Ok(_) => {
                match self.stmt() {
                    Err(err) => Err(err),
                    Ok(init) => {
                        match self.consume(
                            TokenType::Semicolon,
                            "Expected a ';' after for loop init statement",
                        ) {
                            Err(err) => Err(err),
                            Ok(_) => {
                                match self.expression() {
                                    Err(err) => Err(err),
                                    Ok(test) => {
                                        match self.consume(
                                            TokenType::Semicolon,
                                            "Expected a ';' after for loop test statement",
                                        ) {
                                            Err(err) => Err(err),
                                            Ok(_) => {
                                                match self.stmt() {
                                                    Err(err) => Err(err),
                                                    Ok(incr) => self.for_tail(init, test, incr),
                                                }
                                            },
                                        }
                                    },
                                }
                            },
                        }
                    },
                }
            },
        }
    }

    /// A `while` statement: `while ( test ) { body }`.
    #[verifier::rlimit(100)]
    #[verifier::spinoff_prover]
    fn while_stmt(&mut self) -> (r: Result<Stmt, SyntaxError>)
        requires
            old(self).wf(),
            sp_kind(old(self).toks(), old(self).pos()) == TokenType::While,
        ensures
            final(self).wf(),
            final(self).tokens == old(self).tokens,
            (stmt_result_view(r), final(self).pos()) == sp_while_stmt(old(self).toks(), old(self).pos()),
            final(self).pos() >= old(self).pos(),
            r is Ok ==> final(self).pos() > old(self).pos(),
        decreases sp_remaining(self.toks(), self.pos()), 20int,
    {
        reveal(sp_while_stmt);
        self.advance();
        match self.consume(TokenType::LeftParen, "Must have paren after while") {
            Err(err) => Err(err),
            Ok(_) => {
                match self.expression() {
                    Err(err) => Err(err),
                    Ok(test) => {
                        match self.consume(
                            TokenType::RightParen,
                            "Must have right parent after while statement test expression",
                        ) {
                            Err(err) => Err(err),
                            Ok(_) => {
                                match self.consume(
                                    TokenType::LeftBrace,
                                    "Must have brace after `while (expr)`",
                                ) {
                                    Err(err) => Err(err),
                                    Ok(_) => {
                                        match self.stmts() {
                                            Err(err) => Err(err),
                                            Ok(body) => {
                                                match self.consume(
                                                    TokenType::RightBrace,
                                                    "While loop must be followed by '}'",
                                                ) {
                                                    Err(err) => Err(err),
                                                    Ok(_) => Ok(
                                                        Stmt::While(test, Box::new(body)),
                                                    ),
                                                }
                                            },
                                        }
                                    },
                                }
                            },
                        }
                    },
                }
            },
        }
    }

    /// An `if` statement, from past the `if` keyword on.
    #[verifier::rlimit(100)]
    #[verifier::spinoff_prover]
    fn if_stmt(&mut self) -> (r: Result<Stmt, SyntaxError>)
        requires
            old(self).wf(),
        ensures
            final(self).wf(),
            final(self).tokens == old(self).tokens,
            (stmt_result_view(r), final(self).pos()) == sp_if_stmt(old(self).toks(), old(self).pos()),
            final(self).pos() >= old(self).pos(),
        decreases sp_remaining(self.toks(), self.pos()), 26int,
    {
        reveal(sp_if_stmt);
        match self.consume(TokenType::LeftParen, "Expected '(' after if") {
            Err(err) => Err(err),
            Ok(_) => {
                match self.expression() {
                    Err(err) => Err(err),
                    Ok(predicate) => {
                        match self.consume(TokenType::RightParen, "Expected ')' after if predicate")
                            {
                            Err(err) => Err(err),
                            Ok(_) => {
                                match self.group() {
                                    Err(err) => Err(err),
                                    Ok(then_blk) => {
                                        if self.peek_kind() == TokenType::Else {
                                            self.advance();
                                            match self.group() {
                                                Err(err) => Err(err),
                                                Ok(else_blk) => Ok(
                                                    Stmt::If(
                                                        predicate,
                                                        Box::new(then_blk),
                                                        Some(Box::new(else_blk)),
                                                    ),
                                                ),
                                            }
                                        } else {
                                            Ok(Stmt::If(predicate, Box::new(then_blk), None))
                                        }
                                    },
                                }
                            },
                        }
                    },
                }
            },
        }
    }

    /// A braced group: `{ stmts }`.
    #[verifier::rlimit(100)]
    #[verifier::spinoff_prover]
    fn group(&mut self) -> (r: Result<Stmt, SyntaxError>)
        requires
            old(self).wf(),
        ensures
            final(self).wf(),
            final(self).tokens == old(self).tokens,
            (stmt_result_view(r), final(self).pos()) == sp_group(old(self).toks(), old(self).pos()),
            final(self).pos() >= old(self).pos(),
        decreases sp_remaining(self.toks(), self.pos()), 25int,
    {
        reveal(sp_group);
        match self.consume(TokenType::LeftBrace, "Expected a '}'") {
            Err(err) => Err(err),
            Ok(_) => {
                match self.stmts() {
                    Err(err) => Err(err),
                    Ok(s) => {
                        match self.consume(TokenType::RightBrace, "Expected a '}'") {
                            Err(err) => Err(err),
                            Ok(_) => Ok(s),
                        }
                    },
                }
            },
        }
    }

    /// A statement.
    #[verifier::rlimit(100)]
    #[verifier::spinoff_prover]
    fn stmt(&mut self) -> (r: Result<Stmt, SyntaxError>)
        requires
            old(self).wf(),
        ensures
            final(self).wf(),
            final(self).tokens == old(self).tokens,
            (stmt_result_view(r), final(self).pos()) == sp_stmt(old(self).toks(), old(self).pos()),
            final(self).pos() >= old(self).pos(),
            r is Ok ==> final(self).pos() > old(self).pos(),
        decreases sp_remaining(self.toks(), self.pos()), 21int,
    {
        reveal(sp_stmt);
        let k = self.peek_kind();
        if k == TokenType::Print {
            self.advance();
            match self.expression() {
                Ok(e) => Ok(Stmt::Print(e)),
                Err(err) => Err(err),
            }
        } else if k == TokenType::For {
            self.for_stmt()
        } else if self.peek_next().ttype() == TokenType::Eq {
            let t = self.peek();
            match t {
                Token::Ident(name) => {
                    self.advance();
                    self.advance();
                    match self.expression() {
                        Ok(rhs) => Ok(
                            Stmt::Expr(TypedExpr::new_var(Expr::Assign(name, Box::new(rhs)))),
                        ),
                        Err(err) => Err(err),
                    }
                },
                other => Err(
                    SyntaxError::expected(
                        "Expected identifier before '='",
                        TokenType::Ident,
                        other,
                    ),
                ),
            }
        } else if k == TokenType::While {
            self.while_stmt()
        } else if k == TokenType::If {
            self.advance();
            self.if_stmt()
        } else if k == TokenType::LeftBrace {
            self.advance();
            match self.stmts() {
                Err(err) => Err(err),
                Ok(s) => {
                    match self.consume(
                        TokenType::RightBrace,
                        "Expected a right brace after a group",
                    ) {
                        Ok(_) => Ok(s),
                        Err(err) => Err(err),
                    }
                },
            }
        } else {
            match self.expression() {
                Ok(e) => Ok(Stmt::Expr(e)),
                Err(err) => Err(err),
            }
        }
    }

    /// One statement followed by an optional separator, which is discarded.
    #[verifier::rlimit(100)]
    #[verifier::spinoff_prover]
    fn stmt_and_optional_semicolon(&mut self) -> (r: Result<Stmt, SyntaxError>)
        requires
            old(self).wf(),
        ensures
            final(self).wf(),
            final(self).tokens == old(self).tokens,
            (stmt_result_view(r), final(self).pos()) == sp_stmt_and_optional_semicolon(
                old(self).toks(),
                old(self).pos(),
            ),
            final(self).pos() >= old(self).pos(),
            r is Ok ==> final(self).pos() > old(self).pos(),
        decreases sp_remaining(self.toks(), self.pos()), 22int,
    {
        reveal(sp_stmt_and_optional_semicolon);
        match self.stmt() {
            Err(err) => Err(err),
            Ok(s) => {
                if self.peek_kind() == TokenType::Semicolon {
                    self.advance();
                }
                Ok(s)
            },
        }
    }

    /// The statements of a block, one after the other until a closing brace.
    #[verifier::rlimit(100)]
    #[verifier::spinoff_prover]
    fn stmts_list(&mut self) -> (r: Result<Vec<Stmt>, SyntaxError>)
        requires
            old(self).wf(),
        ensures
            final(self).wf(),
            final(self).tokens == old(self).tokens,
            (stmt_list_result_view(r), final(self).pos()) == sp_stmts_list(old(self).toks(), old(self).pos()),
            final(self).pos() >= old(self).pos(),
        decreases sp_remaining(self.toks(), self.pos()), 23int,
    {
        reveal(sp_stmts_list);
        if self.peek_kind() == TokenType::RightBrace {
            let r: Vec<Stmt> = Vec::new();
            assert(stmt_seq_view(r@) =~= Seq::<crate::ast::SpecStmt>::empty());
            Ok(r)
        } else {
            match self.stmt_and_optional_semicolon() {
                Err(err) => Err(err),
                Ok(s) => {
                    match self.stmts_list() {
                        Err(err) => Err(err),
                        Ok(mut rest) => {
                            proof {
                                lemma_stmt_seq_view_cons(rest@, s);
                            }
                            rest.insert(0, s);
                            Ok(rest)
                        },
                    }
                },
            }
        }
    }

    /// The body of a block: its statements, with a single statement passing
    /// through unwrapped and any other number grouped.
    #[verifier::rlimit(100)]
    #[verifier::spinoff_prover]
    fn stmts(&mut self) -> (r: Result<Stmt, SyntaxError>)
        requires
            old(self).wf(),
        ensures
            final(self).wf(),
            final(self).tokens == old(self).tokens,
            (stmt_result_view(r), final(self).pos()) == sp_stmts(old(self).toks(), old(self).pos()),
            final(self).pos() >= old(self).pos(),
        decreases sp_remaining(self.toks(), self.pos()), 24int,
    {
        reveal(sp_stmts);
        match self.stmts_list() {
            Err(err) => Err(err),
            Ok(mut list) => {
                proof {
                    crate::ast::lemma_stmt_seq_view_len(list@);
                    reveal_with_fuel(stmt_seq_view, 2);
                }
                if list.len() == 1 {
                    match list.pop() {
                        Some(s) => Ok(s),
                        None => {
                            // A list of length one always pops a value.
                            proof {
                                assert(false);
                            }
                            Err(SyntaxError::unexpected("Unexpected token", Token::EOF))
                        },
                    }
                } else {
                    Ok(Stmt::Group(list))
                }
            },
        }
    }

    /// One top-level unit: an action-only rule, a `BEGIN` block, an `END`
    /// block, or a pattern with an optional action. A pattern with no action
    /// becomes a rule that prints the whole record.
    #[verifier::rlimit(100)]
    #[verifier::spinoff_prover]
    fn pattern_action(&mut self) -> (r: Result<PaType, SyntaxError>)
        requires
            old(self).wf(),
        ensures
            final(self).wf(),
            final(self).tokens == old(self).tokens,
            (pa_result_view(r), final(self).pos()) == sp_pattern_action(old(self).toks(), old(self).pos()),
            final(self).pos() >= old(self).pos(),
            r is Ok ==> final(self).pos() > old(self).pos(),
    {
        reveal(sp_pattern_action);
        let k = self.peek_kind();
        if k == TokenType::LeftBrace {
            self.advance();
            match self.stmts() {
                Err(err) => Err(err),
                Ok(body) => {
                    match self.consume(TokenType::RightBrace, "Expected '}' after action block") {
                        Err(err) => Err(err),
                        Ok(_) => Ok(PaType::Normal(PatternAction::new_action_only(body))),
                    }
                },
            }
        } else if k == TokenType::Begin {
            self.advance();
            match self.consume(TokenType::LeftBrace, "Expected a '{' after a begin") {
                Err(err) => Err(err),
                Ok(_) => {
                    match self.stmts() {
                        Err(err) => Err(err),
                        Ok(body) => {
                            match self.consume(
                                TokenType::RightBrace,
                                "Begin action should end with '}'",
                            ) {
                                Err(err) => Err(err),
                                Ok(_) => Ok(PaType::Begin(body)),
                            }
                        },
                    }
                },
            }
        } else if k == TokenType::End {
            self.advance();
            match self.consume(TokenType::LeftBrace, "Expected a {' after a end") {
                Err(err) => Err(err),
                Ok(_) => {
                    match self.stmts() {
                        Err(err) => Err(err),
                        Ok(body) => {
                            match self.consume(
                                TokenType::RightBrace,
                                "End action should end with '}'",
                            ) {
                                Err(err) => Err(err),
                                Ok(_) => Ok(PaType::End(body)),
                            }
                        },
                    }
                },
            }
        } else {
            match self.expression() {
                Err(err) => Err(err),
                Ok(test) => {
                    if self.peek_kind() == TokenType::LeftBrace {
                        self.advance();
                        match self.stmts() {
                            Err(err) => Err(err),
                            Ok(body) => {
                                match self.consume(
                                    TokenType::RightBrace,
                                    "Patern action should end with '}'",
                                ) {
                                    Err(err) => Err(err),
                                    Ok(_) => Ok(
                                        PaType::Normal(PatternAction::new(Some(test), body)),
                                    ),
                                }
                            },
                        }
                    } else {
                        Ok(PaType::Normal(PatternAction::new_pattern_only(test)))
                    }
                },
            }
        }
    }

    /// All top-level units to the sentinel, sorted into the three ordered
    /// lists: `BEGIN` bodies, `END` bodies, generic rules.
    #[verifier::rlimit(100)]
    #[verifier::spinoff_prover]
    fn parse_units(&mut self) -> (r: Result<(Vec<Stmt>, Vec<Stmt>, Vec<PatternAction>), SyntaxError>)
        requires
            old(self).wf(),
        ensures
            final(self).wf(),
            final(self).tokens == old(self).tokens,
            (units_result_view(r), final(self).pos()) == sp_parse_units(old(self).toks(), old(self).pos()),
        decreases sp_remaining(self.toks(), self.pos()),
    {
        reveal(sp_parse_units);
        if self.is_at_end() {
            let r: (Vec<Stmt>, Vec<Stmt>, Vec<PatternAction>) = (Vec::new(), Vec::new(), Vec::new());
            assert(stmt_seq_view(r.0@) =~= Seq::<crate::ast::SpecStmt>::empty());
            assert(pattern_action_seq_view(r.2@) =~= Seq::<crate::ast::SpecPatternAction>::empty());
            Ok(r)
        } else {
            match self.pattern_action() {
                Err(err) => Err(err),
                Ok(unit) => {
                    match self.parse_units() {
                        Err(err) => Err(err),
                        Ok(lists) => {
                            let (mut begins, mut ends, mut generic) = lists;
                            match unit {
                                PaType::Begin(s) => {
                                    proof {
                                        lemma_stmt_seq_view_cons(begins@, s);
                                    }
                                    begins.insert(0, s);
                                },
                                PaType::End(s) => {
                                    proof {
                                        lemma_stmt_seq_view_cons(ends@, s);
                                    }
                                    ends.insert(0, s);
                                },
                                PaType::Normal(pa) => {
                                    proof {
                                        lemma_pattern_action_seq_view_cons(generic@, pa);
                                    }
                                    generic.insert(0, pa);
                                },
                            }
                            Ok((begins, ends, generic))
                        },
                    }
                },
            }
        }
    }

    /// Run the whole parse from the cursor on.
    #[verifier::rlimit(100)]
    #[verifier::spinoff_prover]
    fn parse(&mut self) -> (r: Result<Program, SyntaxError>)
        requires
            old(self).wf(),
        ensures
            final(self).wf(),
            final(self).tokens == old(self).tokens,
            program_result_view(r) == sp_units_to_program(
                sp_parse_units(old(self).toks(), old(self).pos()).0,
            ),
    {
        match self.parse_units() {
            Err(err) => Err(err),
            Ok(lists) => {
                let (begins, ends, generic) = lists;
                Ok(Program::new(begins, ends, generic))
            },
        }
    }
}

/// Parse one owned token sequence into one program, or stop at the first
/// malformed token with the single fatal syntax error; no partial program is
/// ever returned. The caller (the lexer) guarantees that the sequence is
/// non-empty and that its last token is the end-of-stream sentinel.
#[verifier::rlimit(100)]
#[verifier::spinoff_prover]
pub fn parse(tokens: Vec<Token>) -> (r: Result<Program, SyntaxError>)
    requires
        tokens@.len() >= 1,
        spec_ttype(tokens@.last()) == TokenType::EOF,
    ensures
        program_result_view(r) == sp_parse(tokens@),
{
    let mut parser = Parser { tokens, current: 0 };
    parser.parse()
}

} // verus!
