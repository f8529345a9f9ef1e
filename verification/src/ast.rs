//! The abstract syntax tree the parser builds.
//!
//! Every expression node is wrapped in a [`TypedExpr`] carrying a provisional
//! type tag for a later inference pass; raw [`Expr`] values never appear
//! unwrapped in the tree. Each executable type has a spec-level mirror
//! (`Spec*`) in which `Vec` becomes `Seq`; the mirrors are what the grammar's
//! spec functions build, and the view functions here relate the two.

use vstd::prelude::*;

verus! {

/// Bit pattern of the double `0.0`, as a numeric literal is carried.
pub const F64_BITS_ZERO: u64 = 0;

/// Bit pattern of the double `1.0`.
pub const F64_BITS_ONE: u64 = 0x3FF0_0000_0000_0000;

/// The provisional type tag of an expression: known string, known float, or
/// not yet known (left to a later inference pass).
#[derive(Debug, PartialEq, Eq, Structural, Clone, Copy)]
pub enum AwkT {
    String,
    Float,
    Variable,
}

/// An expression tagged with its provisional type.
#[derive(Debug, PartialEq)]
pub struct TypedExpr {
    pub typ: AwkT,
    pub expr: Expr,
}

/// An expression. A numeric literal holds the bit pattern of the double it
/// denotes, exactly as the token did.
#[derive(Debug, PartialEq)]
pub enum Expr {
    Assign(String, Box<TypedExpr>),
    NumberF64(u64),
    String(String),
    Concatenation(Vec<TypedExpr>),
    BinOp(Box<TypedExpr>, crate::token::BinOp, Box<TypedExpr>),
    MathOp(Box<TypedExpr>, crate::token::MathOp, Box<TypedExpr>),
    LogicalOp(Box<TypedExpr>, crate::token::LogicalOp, Box<TypedExpr>),
    Variable(String),
    Column(Box<TypedExpr>),
    Call,
}

/// A statement.
#[derive(Debug, PartialEq)]
pub enum Stmt {
    Expr(TypedExpr),
    Print(TypedExpr),
    Group(Vec<Stmt>),
    If(TypedExpr, Box<Stmt>, Option<Box<Stmt>>),
    While(TypedExpr, Box<Stmt>),
}

/// One generic rule: an optional pattern and a mandatory action.
#[derive(Debug, PartialEq)]
pub struct PatternAction {
    pub pattern: Option<TypedExpr>,
    pub action: Stmt,
}

/// A whole parsed program: the bodies of all `BEGIN` blocks, the bodies of
/// all `END` blocks, and all generic rules, each list in source order.
#[derive(Debug, PartialEq)]
pub struct Program {
    pub begins: Vec<Stmt>,
    pub ends: Vec<Stmt>,
    pub pattern_actions: Vec<PatternAction>,
}

/// Spec-level mirror of [`TypedExpr`].
pub struct SpecTypedExpr {
    pub typ: AwkT,
    pub expr: SpecExpr,
}

/// Spec-level mirror of [`Expr`]; `Vec` becomes `Seq`.
pub enum SpecExpr {
    Assign(String, Box<SpecTypedExpr>),
    NumberF64(u64),
    String(String),
    Concatenation(Seq<SpecTypedExpr>),
    BinOp(Box<SpecTypedExpr>, crate::token::BinOp, Box<SpecTypedExpr>),
    MathOp(Box<SpecTypedExpr>, crate::token::MathOp, Box<SpecTypedExpr>),
    LogicalOp(Box<SpecTypedExpr>, crate::token::LogicalOp, Box<SpecTypedExpr>),
    Variable(String),
    Column(Box<SpecTypedExpr>),
    Call,
}

/// Spec-level mirror of [`Stmt`].
pub enum SpecStmt {
    Expr(SpecTypedExpr),
    Print(SpecTypedExpr),
    Group(Seq<SpecStmt>),
    If(SpecTypedExpr, Box<SpecStmt>, Option<Box<SpecStmt>>),
    While(SpecTypedExpr, Box<SpecStmt>),
}

/// Spec-level mirror of [`PatternAction`].
pub struct SpecPatternAction {
    pub pattern: Option<SpecTypedExpr>,
    pub action: SpecStmt,
}

/// Spec-level mirror of [`Program`].
pub struct SpecProgram {
    pub begins: Seq<SpecStmt>,
    pub ends: Seq<SpecStmt>,
    pub pattern_actions: Seq<SpecPatternAction>,
}

/// Mirror of an expression.
pub open spec fn expr_view(e: Expr) -> SpecExpr
    decreases e,
{
    match e {
        Expr::Assign(name, val) => SpecExpr::Assign(name, Box::new(typed_expr_view(*val))),
        Expr::NumberF64(bits) => SpecExpr::NumberF64(bits),
        Expr::String(s) => SpecExpr::String(s),
        Expr::Concatenation(items) => SpecExpr::Concatenation(typed_expr_seq_view(items@)),
        Expr::BinOp(l, op, r) => SpecExpr::BinOp(
            Box::new(typed_expr_view(*l)),
            op,
            Box::new(typed_expr_view(*r)),
        ),
        Expr::MathOp(l, op, r) => SpecExpr::MathOp(
            Box::new(typed_expr_view(*l)),
            op,
            Box::new(typed_expr_view(*r)),
        ),
        Expr::LogicalOp(l, op, r) => SpecExpr::LogicalOp(
            Box::new(typed_expr_view(*l)),
            op,
            Box::new(typed_expr_view(*r)),
        ),
        Expr::Variable(name) => SpecExpr::Variable(name),
        Expr::Column(inner) => SpecExpr::Column(Box::new(typed_expr_view(*inner))),
        Expr::Call => SpecExpr::Call,
    }
}

/// Mirror of a typed expression.
pub open spec fn typed_expr_view(e: TypedExpr) -> SpecTypedExpr
    decreases e,
{
    SpecTypedExpr { typ: e.typ, expr: expr_view(e.expr) }
}

/// Mirror of a sequence of typed expressions, element by element.
pub open spec fn typed_expr_seq_view(s: Seq<TypedExpr>) -> Seq<SpecTypedExpr>
    decreases s,
{
    if s.len() == 0 {
        Seq::empty()
    } else {
        seq![typed_expr_view(s[0])] + typed_expr_seq_view(s.drop_first())
    }
}

/// Mirror of a statement.
pub open spec fn stmt_view(s: Stmt) -> SpecStmt
    decreases s,
{
    match s {
        Stmt::Expr(e) => SpecStmt::Expr(typed_expr_view(e)),
        Stmt::Print(e) => SpecStmt::Print(typed_expr_view(e)),
        Stmt::Group(items) => SpecStmt::Group(stmt_seq_view(items@)),
        Stmt::If(test, if_so, if_not) => SpecStmt::If(
            typed_expr_view(test),
            Box::new(stmt_view(*if_so)),
            match if_not {
                Some(e) => Some(Box::new(stmt_view(*e))),
                None => None,
            },
        ),
        Stmt::While(test, body) => SpecStmt::While(
            typed_expr_view(test),
            Box::new(stmt_view(*body)),
        ),
    }
}

/// Mirror of a sequence of statements, element by element.
pub open spec fn stmt_seq_view(s: Seq<Stmt>) -> Seq<SpecStmt>
    decreases s,
{
    if s.len() == 0 {
        Seq::empty()
    } else {
        seq![stmt_view(s[0])] + stmt_seq_view(s.drop_first())
    }
}

/// Mirror of a rule.
pub open spec fn pattern_action_view(p: PatternAction) -> SpecPatternAction {
    SpecPatternAction {
        pattern: match p.pattern {
            Some(e) => Some(typed_expr_view(e)),
            None => None,
        },
        action: stmt_view(p.action),
    }
}

/// Mirror of a sequence of rules, element by element.
pub open spec fn pattern_action_seq_view(s: Seq<PatternAction>) -> Seq<SpecPatternAction>
    decreases s,
{
    if s.len() == 0 {
        Seq::empty()
    } else {
        seq![pattern_action_view(s[0])] + pattern_action_seq_view(s.drop_first())
    }
}

/// Mirror of a program.
pub open spec fn program_view(p: Program) -> SpecProgram {
    SpecProgram {
        begins: stmt_seq_view(p.begins@),
        ends: stmt_seq_view(p.ends@),
        pattern_actions: pattern_action_seq_view(p.pattern_actions@),
    }
}

/// Extending a sequence of typed expressions at the back extends its mirror
/// at the back.
pub proof fn lemma_typed_expr_seq_view_push(s: Seq<TypedExpr>, x: TypedExpr)
    ensures
        typed_expr_seq_view(s.push(x)) == typed_expr_seq_view(s).push(typed_expr_view(x)),
    decreases s.len(),
{
    if s.len() == 0 {
        reveal_with_fuel(typed_expr_seq_view, 2);
        assert(s.push(x).drop_first() =~= Seq::<TypedExpr>::empty());
        assert(s.push(x)[0] == x);
        assert(typed_expr_seq_view(s.push(x)) =~= typed_expr_seq_view(s).push(
            typed_expr_view(x),
        ));
    } else {
        lemma_typed_expr_seq_view_push(s.drop_first(), x);
        assert(s.push(x).drop_first() =~= s.drop_first().push(x));
        assert(s.push(x)[0] == s[0]);
        assert(seq![typed_expr_view(s[0])] + typed_expr_seq_view(s.drop_first()).push(
            typed_expr_view(x),
        ) =~= (seq![typed_expr_view(s[0])] + typed_expr_seq_view(s.drop_first())).push(
            typed_expr_view(x),
        ));
        assert(typed_expr_seq_view(s.push(x)) =~= typed_expr_seq_view(s).push(
            typed_expr_view(x),
        ));
    }
}

/// The mirror of a two-element sequence, written out.
pub proof fn lemma_typed_expr_seq_view_two(a: TypedExpr, b: TypedExpr)
    ensures
        typed_expr_seq_view(seq![a, b]) == seq![typed_expr_view(a), typed_expr_view(b)],
{
    reveal_with_fuel(typed_expr_seq_view, 3);
    assert(seq![a, b].drop_first() =~= seq![b]);
    assert(seq![b].drop_first() =~= Seq::<TypedExpr>::empty());
    assert(typed_expr_seq_view(seq![a, b]) =~= seq![typed_expr_view(a), typed_expr_view(b)]);
}

/// A sequence of statements and its mirror have the same length.
pub proof fn lemma_stmt_seq_view_len(s: Seq<Stmt>)
    ensures
        stmt_seq_view(s).len() == s.len(),
    decreases s.len(),
{
    if s.len() > 0 {
        lemma_stmt_seq_view_len(s.drop_first());
    }
}

/// The mirror of a two-element statement sequence, written out.
pub proof fn lemma_stmt_seq_view_two(a: Stmt, b: Stmt)
    ensures
        stmt_seq_view(seq![a, b]) == seq![stmt_view(a), stmt_view(b)],
{
    reveal_with_fuel(stmt_seq_view, 3);
    assert(seq![a, b].drop_first() =~= seq![b]);
    assert(seq![b].drop_first() =~= Seq::<Stmt>::empty());
    assert(stmt_seq_view(seq![a, b]) =~= seq![stmt_view(a), stmt_view(b)]);
}

/// Extending a sequence of statements at the front extends its mirror at the
/// front.
pub proof fn lemma_stmt_seq_view_cons(s: Seq<Stmt>, x: Stmt)
    ensures
        stmt_seq_view(s.insert(0, x)) == seq![stmt_view(x)] + stmt_seq_view(s),
{
    let s2 = s.insert(0, x);
    assert(s2[0] == x);
    assert(s2.drop_first() =~= s);
    assert(stmt_seq_view(s2) =~= seq![stmt_view(x)] + stmt_seq_view(s));
}

/// Extending a sequence of rules at the front extends its mirror at the
/// front.
pub proof fn lemma_pattern_action_seq_view_cons(s: Seq<PatternAction>, x: PatternAction)
    ensures
        pattern_action_seq_view(s.insert(0, x)) == seq![pattern_action_view(x)]
            + pattern_action_seq_view(s),
{
    let s2 = s.insert(0, x);
    assert(s2[0] == x);
    assert(s2.drop_first() =~= s);
    assert(pattern_action_seq_view(s2) =~= seq![pattern_action_view(x)]
        + pattern_action_seq_view(s));
}

impl View for TypedExpr {
    type V = SpecTypedExpr;

    open spec fn view(&self) -> SpecTypedExpr {
        typed_expr_view(*self)
    }
}

impl View for Expr {
    type V = SpecExpr;

    open spec fn view(&self) -> SpecExpr {
        expr_view(*self)
    }
}

impl View for Stmt {
    type V = SpecStmt;

    open spec fn view(&self) -> SpecStmt {
        stmt_view(*self)
    }
}

impl View for PatternAction {
    type V = SpecPatternAction;

    open spec fn view(&self) -> SpecPatternAction {
        pattern_action_view(*self)
    }
}

impl View for Program {
    type V = SpecProgram;

    open spec fn view(&self) -> SpecProgram {
        program_view(*self)
    }
}

impl TypedExpr {
    /// Wrap an expression already known to be a float.
    pub fn new_num(expr: Expr) -> (r: TypedExpr)
        ensures
            r == (TypedExpr { typ: AwkT::Float, expr }),
    {
        TypedExpr { typ: AwkT::Float, expr }
    }

    /// Wrap an expression already known to be a string.
    pub fn new_str(expr: Expr) -> (r: TypedExpr)
        ensures
            r == (TypedExpr { typ: AwkT::String, expr }),
    {
        TypedExpr { typ: AwkT::String, expr }
    }

    /// Wrap an expression whose type is not yet known.
    pub fn new_var(expr: Expr) -> (r: TypedExpr)
        ensures
            r == (TypedExpr { typ: AwkT::Variable, expr }),
    {
        TypedExpr { typ: AwkT::Variable, expr }
    }
}

/// The action of a pattern-only rule: print the whole input record, that is
/// the column addressed by the literal `0.0`.
pub open spec fn spec_print_record_action() -> SpecStmt {
    SpecStmt::Print(
        SpecTypedExpr {
            typ: AwkT::String,
            expr: SpecExpr::Column(
                Box::new(
                    SpecTypedExpr { typ: AwkT::Float, expr: SpecExpr::NumberF64(F64_BITS_ZERO) },
                ),
            ),
        },
    )
}

impl PatternAction {
    /// Pair a pattern with an action.
    pub fn new(pattern: Option<TypedExpr>, action: Stmt) -> (r: PatternAction)
        ensures
            r == (PatternAction { pattern, action }),
    {
        PatternAction { pattern, action }
    }

    /// A rule with a pattern and no action: it implicitly prints the whole
    /// input record when the pattern matches.
    pub fn new_pattern_only(test: TypedExpr) -> (r: PatternAction)
        ensures
            r.pattern == Some(test),
            stmt_view(r.action) == spec_print_record_action(),
    {
        let r = PatternAction::new(
            Some(test),
            Stmt::Print(
                TypedExpr::new_str(
                    Expr::Column(Box::new(TypedExpr::new_num(Expr::NumberF64(F64_BITS_ZERO)))),
                ),
            ),
        );
        proof {
            reveal_with_fuel(stmt_view, 2);
            reveal_with_fuel(typed_expr_view, 3);
            reveal_with_fuel(expr_view, 3);
        }
        r
    }

    /// A rule with an action and no pattern: it matches every record.
    pub fn new_action_only(body: Stmt) -> (r: PatternAction)
        ensures
            r == (PatternAction { pattern: None, action: body }),
    {
        PatternAction::new(None, body)
    }
}

impl Program {
    /// Assemble a program from its three ordered lists.
    pub fn new(begins: Vec<Stmt>, ends: Vec<Stmt>, pattern_actions: Vec<PatternAction>) -> (r:
        Program)
        ensures
            r == (Program { begins, ends, pattern_actions }),
    {
        Program { begins, ends, pattern_actions }
    }

    /// A program holding one action-only rule and nothing else.
    pub fn new_action_only(stmt: Stmt) -> (r: Program)
        ensures
            r.begins@ == Seq::<Stmt>::empty(),
            r.ends@ == Seq::<Stmt>::empty(),
            r.pattern_actions@ == seq![PatternAction { pattern: None, action: stmt }],
    {
        Program {
            begins: vec![],
            ends: vec![],
            pattern_actions: vec![PatternAction::new_action_only(stmt)],
        }
    }
}

} // verus!
