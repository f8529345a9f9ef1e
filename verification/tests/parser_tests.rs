//! Tests for the pattern-action parser, driving it through `parse` with
//! token sequences produced by a small test-local lexer.

use jawk_parser::{
    parse, BinOp, Expr, LogicalOp, MathOp, PatternAction, Program, Stmt, Token, TokenType,
    TypedExpr,
};

/// A minimal lexer for the test inputs: it mirrors the external lexer's
/// interface, producing the token sequence ending in the sentinel.
fn lex(src: &str) -> Vec<Token> {
    let chars: Vec<char> = src.chars().collect();
    let mut out = Vec::new();
    let mut i: usize = 0;
    while i < chars.len() {
        let c = chars[i];
        match c {
            ' ' | '\t' | '\n' | '\r' => {
                i += 1;
            }
            '{' => {
                out.push(Token::LeftBrace);
                i += 1;
            }
            '}' => {
                out.push(Token::RightBrace);
                i += 1;
            }
            '(' => {
                out.push(Token::LeftParen);
                i += 1;
            }
            ')' => {
                out.push(Token::RightParen);
                i += 1;
            }
            ';' => {
                out.push(Token::Semicolon);
                i += 1;
            }
            '$' => {
                out.push(Token::Column);
                i += 1;
            }
            '+' | '-' | '*' | '/' | '%' | '^' => {
                let op = match c {
                    '+' => MathOp::Plus,
                    '-' => MathOp::Minus,
                    '*' => MathOp::Star,
                    '/' => MathOp::Slash,
                    '%' => MathOp::Modulus,
                    _ => MathOp::Exponent,
                };
                if chars.get(i + 1) == Some(&'=') {
                    out.push(Token::InplaceEq(op));
                    i += 2;
                } else {
                    out.push(Token::MathOp(op));
                    i += 1;
                }
            }
            '<' => {
                if chars.get(i + 1) == Some(&'=') {
                    out.push(Token::BinOp(BinOp::LessEq));
                    i += 2;
                } else {
                    out.push(Token::BinOp(BinOp::Less));
                    i += 1;
                }
            }
            '>' => {
                if chars.get(i + 1) == Some(&'=') {
                    out.push(Token::BinOp(BinOp::GreaterEq));
                    i += 2;
                } else {
                    out.push(Token::BinOp(BinOp::Greater));
                    i += 1;
                }
            }
            '=' => {
                if chars.get(i + 1) == Some(&'=') {
                    out.push(Token::BinOp(BinOp::EqEq));
                    i += 2;
                } else {
                    out.push(Token::Eq);
                    i += 1;
                }
            }
            '!' => {
                assert_eq!(chars.get(i + 1), Some(&'='));
                out.push(Token::BinOp(BinOp::BangEq));
                i += 2;
            }
            '&' => {
                assert_eq!(chars.get(i + 1), Some(&'&'));
                out.push(Token::LogicalOp(LogicalOp::And));
                i += 2;
            }
            '|' => {
                assert_eq!(chars.get(i + 1), Some(&'|'));
                out.push(Token::LogicalOp(LogicalOp::Or));
                i += 2;
            }
            '"' => {
                let mut j: usize = i + 1;
                let mut s = String::new();
                while chars[j] != '"' {
                    s.push(chars[j]);
                    j += 1;
                }
                out.push(Token::String(s));
                i = j + 1;
            }
            d if d.is_ascii_digit() => {
                let mut j: usize = i;
                let mut s = String::new();
                while j < chars.len() && (chars[j].is_ascii_digit() || chars[j] == '.') {
                    s.push(chars[j]);
                    j += 1;
                }
                let value: f64 = s.parse().unwrap();
                out.push(Token::NumberF64(value.to_bits()));
                i = j;
            }
            a if a.is_ascii_alphabetic() || a == '_' => {
                let mut j: usize = i;
                let mut s = String::new();
                while j < chars.len() && (chars[j].is_ascii_alphanumeric() || chars[j] == '_') {
                    s.push(chars[j]);
                    j += 1;
                }
                match s.as_str() {
                    "BEGIN" | "begin" => out.push(Token::Begin),
                    "END" | "end" => out.push(Token::End),
                    "print" => out.push(Token::Print),
                    "if" => out.push(Token::If),
                    "else" => out.push(Token::Else),
                    "while" => out.push(Token::While),
                    "for" => out.push(Token::For),
                    _ => out.push(Token::Ident(s)),
                }
                i = j;
            }
            other => panic!("test lexer cannot read {:?}", other),
        }
    }
    out.push(Token::EOF);
    out
}

fn texpr(e: Expr) -> TypedExpr {
    TypedExpr::new_var(e)
}

fn btexpr(e: Expr) -> Box<TypedExpr> {
    Box::new(texpr(e))
}

fn num(v: f64) -> TypedExpr {
    texpr(Expr::NumberF64(v.to_bits()))
}

fn bnum(v: f64) -> Box<TypedExpr> {
    Box::new(num(v))
}

fn mathop(a: Box<TypedExpr>, op: MathOp, b: Box<TypedExpr>) -> TypedExpr {
    texpr(Expr::MathOp(a, op, b))
}

fn binop(a: Box<TypedExpr>, op: BinOp, b: Box<TypedExpr>) -> TypedExpr {
    texpr(Expr::BinOp(a, op, b))
}

fn sprogram(body: Stmt) -> Program {
    Program::new(vec![], vec![], vec![PatternAction::new_action_only(body)])
}

fn actual(src: &str) -> Program {
    parse(lex(src)).unwrap()
}

#[test]
fn test_ast_number() {
    assert_eq!(
        actual("{1 + 2;}"),
        Program::new(
            vec![],
            vec![],
            vec![PatternAction::new_action_only(Stmt::Expr(mathop(
                bnum(1.0),
                MathOp::Plus,
                bnum(2.0)
            )))]
        )
    );
}

#[test]
fn test_ast_oop() {
    let left = bnum(1.0);
    let right = Box::new(mathop(bnum(3.0), MathOp::Star, bnum(2.0)));
    let mult = Stmt::Expr(mathop(left, MathOp::Plus, right));
    assert_eq!(actual("{1 + 3 * 2;}"), Program::new_action_only(mult));
}

#[test]
fn test_ast_oop_2() {
    let left = bnum(2.0);
    let right = Box::new(texpr(Expr::MathOp(bnum(1.0), MathOp::Star, bnum(3.0))));
    let mult = Stmt::Expr(texpr(Expr::MathOp(right, MathOp::Plus, left)));
    assert_eq!(actual("{1 * 3 + 2;}"), Program::new_action_only(mult));
}

#[test]
fn test_ast_assign() {
    let stmt = Stmt::Expr(texpr(Expr::Assign(format!("abc"), bnum(2.0))));
    assert_eq!(actual("{abc = 2.0; }"), Program::new_action_only(stmt));
}

#[test]
fn test_mathop_exponent() {
    assert_eq!(
        actual("{2 ^ 2;}"),
        Program::new(
            vec![],
            vec![],
            vec![PatternAction::new_action_only(Stmt::Expr(mathop(
                bnum(2.0),
                MathOp::Exponent,
                bnum(2.0)
            )))]
        )
    );
}

#[test]
fn test_mathop_exponent_2() {
    let right = bnum(3.0);
    let left = Box::new(texpr(Expr::MathOp(bnum(2.0), MathOp::Exponent, bnum(2.0))));
    let expo = Stmt::Expr(texpr(Expr::MathOp(left, MathOp::Star, right)));
    assert_eq!(actual("{2 ^ 2 * 3;}"), Program::new_action_only(expo));
}

#[test]
fn test_if_else() {
    let str = "{ if (1) { print 2; } else { print 3; }}";
    assert_eq!(
        actual(str),
        Program::new_action_only(Stmt::If(
            num(1.0),
            Box::new(Stmt::Print(num(2.0))),
            Some(Box::new(Stmt::Print(num(3.0))))
        ))
    );
}

#[test]
fn test_if_only() {
    let str = "{if (1) { print 2; }}";
    assert_eq!(
        actual(str),
        Program::new_action_only(Stmt::If(num(1.0), Box::new(Stmt::Print(num(2.0))), None))
    );
}

#[test]
fn test_print() {
    let str = "{print 1;}";
    assert_eq!(
        actual(str),
        Program::new_action_only(Stmt::Print(num(1.0)))
    );
}

#[test]
fn test_group() {
    let str = "{{print 1; print 2;}}";
    assert_eq!(
        actual(str),
        Program::new_action_only(Stmt::Group(vec![
            Stmt::Print(num(1.0)),
            Stmt::Print(num(2.0))
        ]))
    );
}

#[test]
fn test_if_else_continues() {
    let str = "{if (1) { print 2; } else { print 3; } 4.0;}";
    assert_eq!(
        actual(str),
        Program::new_action_only(Stmt::Group(vec![
            Stmt::If(
                num(1.0),
                Box::new(Stmt::Print(num(2.0))),
                Some(Box::new(Stmt::Print(num(3.0))))
            ),
            Stmt::Expr(num(4.0))
        ]))
    );
}

#[test]
fn test_paser_begin_end() {
    let str =
        "a { print 5; } BEGIN { print 1; } begin { print 2; } END { print 3; } end { print 4; }";
    let begins = vec![Stmt::Print(num(1.0)), Stmt::Print(num(2.0))];
    let ends = vec![Stmt::Print(num(3.0)), Stmt::Print(num(4.0))];
    let generic = PatternAction::new(
        Some(texpr(Expr::Variable("a".to_string()))),
        Stmt::Print(num(5.0)),
    );
    assert_eq!(actual(str), Program::new(begins, ends, vec![generic]));
}

#[test]
fn test_pattern_only() {
    assert_eq!(
        actual("test"),
        Program::new(
            vec![],
            vec![],
            vec![PatternAction::new_pattern_only(texpr(Expr::Variable(
                "test".to_string()
            )))]
        )
    );
}

#[test]
fn test_print_no_semicolon() {
    assert_eq!(
        actual("{ print 1 }"),
        Program::new(
            vec![],
            vec![],
            vec![PatternAction::new_action_only(Stmt::Print(num(1.0)))]
        )
    );
}

#[test]
fn test_column() {
    let str = "$0+2 { print a; }";
    let body = Stmt::Print(texpr(Expr::Variable("a".to_string())));
    let col = Expr::Column(bnum(0.0));
    let bop = texpr(Expr::MathOp(btexpr(col), MathOp::Plus, bnum(2.0)));
    let pa = PatternAction::new(Some(bop), body);
    assert_eq!(actual(str), Program::new(vec![], vec![], vec![pa]));
}

#[test]
fn test_nested_column() {
    let str = "$$0 { print a; }";
    let body = Stmt::Print(texpr(Expr::Variable("a".to_string())));
    let col = Expr::Column(bnum(0.0));
    let col = Expr::Column(btexpr(col));
    let pa = PatternAction::new(Some(texpr(col)), body);
    assert_eq!(actual(str), Program::new(vec![], vec![], vec![pa]));
}

#[test]
fn test_while_l00p() {
    let str = "{ while (123) { print 1; } }";
    let body = Stmt::While(num(123.0), Box::new(Stmt::Print(num(1.0))));
    assert_eq!(
        actual(str),
        Program::new(vec![], vec![], vec![PatternAction::new_action_only(body)])
    );
}

#[test]
fn test_lt() {
    let body = Stmt::Expr(texpr(Expr::BinOp(bnum(1.0), BinOp::Less, bnum(3.0))));
    assert_eq!(actual("{ 1 < 3 }"), sprogram(body));
}

#[test]
fn test_gt() {
    let body = Stmt::Expr(texpr(Expr::BinOp(bnum(1.0), BinOp::Greater, bnum(3.0))));
    assert_eq!(actual("{ 1 > 3 }"), sprogram(body));
}

#[test]
fn test_lteq() {
    let body = Stmt::Expr(texpr(Expr::BinOp(bnum(1.0), BinOp::LessEq, bnum(3.0))));
    assert_eq!(actual("{ 1 <= 3 }"), sprogram(body));
}

#[test]
fn test_gteq() {
    let body = Stmt::Expr(texpr(Expr::BinOp(bnum(1.0), BinOp::GreaterEq, bnum(3.0))));
    assert_eq!(actual("{ 1 >= 3 }"), sprogram(body));
}

#[test]
fn test_eqeq() {
    let body = Stmt::Expr(texpr(Expr::BinOp(bnum(1.0), BinOp::EqEq, bnum(3.0))));
    assert_eq!(actual("{ 1 == 3 }"), sprogram(body));
}

#[test]
fn test_bangeq() {
    let body = Stmt::Expr(texpr(Expr::BinOp(bnum(1.0), BinOp::BangEq, bnum(3.0))));
    assert_eq!(actual("{ 1 != 3 }"), sprogram(body));
}

#[test]
fn test_bangeq_oo() {
    let body = Stmt::Expr(texpr(Expr::BinOp(
        bnum(1.0),
        BinOp::BangEq,
        Box::new(texpr(Expr::MathOp(bnum(3.0), MathOp::Star, bnum(4.0)))),
    )));
    assert_eq!(actual("{ 1 != 3*4 }"), sprogram(body));
}

#[test]
fn test_cmp_oop1() {
    let left = mathop(bnum(3.0), MathOp::Star, bnum(3.0));
    let body = Stmt::Expr(binop(Box::new(left), BinOp::EqEq, bnum(9.0)));
    assert_eq!(actual("{ 3*3 == 9 }"), sprogram(body));
}

#[test]
fn test_cmp_oop2() {
    let left = texpr(Expr::MathOp(bnum(1.0), MathOp::Star, bnum(3.0)));
    let body = btexpr(Expr::BinOp(Box::new(left), BinOp::EqEq, bnum(4.0)));
    let stmt = Stmt::Expr(texpr(Expr::Assign(format!("a"), body)));
    assert_eq!(actual("{ a = 1*3 == 4 }"), sprogram(stmt));
}

#[test]
fn test_for_loop() {
    let a = format!("a");
    let init = texpr(Expr::Assign(a.clone(), btexpr(Expr::NumberF64(0.0f64.to_bits()))));
    let test = texpr(Expr::BinOp(
        btexpr(Expr::Variable(a.clone())),
        BinOp::Less,
        bnum(1000.0),
    ));
    let incr = texpr(Expr::Assign(
        a.clone(),
        btexpr(Expr::MathOp(
            btexpr(Expr::Variable(a.clone())),
            MathOp::Plus,
            btexpr(Expr::NumberF64(1.0f64.to_bits())),
        )),
    ));
    let body = Stmt::Print(texpr(Expr::Variable(a.clone())));
    let expected = Stmt::Group(vec![
        Stmt::Expr(init),
        Stmt::While(test, Box::new(Stmt::Group(vec![body, Stmt::Expr(incr)]))),
    ]);
    assert_eq!(
        actual("{ for (a = 0; a < 1000; a = a + 1) { print a; } }"),
        sprogram(expected)
    )
}

#[test]
fn test_logical_and() {
    let a = btexpr(Expr::Variable("a".to_string()));
    let b = btexpr(Expr::Variable("b".to_string()));
    let c = btexpr(Expr::Variable("c".to_string()));
    let a_and_b = btexpr(Expr::LogicalOp(a, LogicalOp::And, b));
    let expected = Stmt::Expr(texpr(Expr::LogicalOp(a_and_b, LogicalOp::And, c)));
    assert_eq!(actual("{ a && b && c }"), sprogram(expected))
}

#[test]
fn test_logical_or() {
    let a = btexpr(Expr::Variable("a".to_string()));
    let b = btexpr(Expr::Variable("b".to_string()));
    let c = btexpr(Expr::Variable("c".to_string()));
    let a_and_b = btexpr(Expr::LogicalOp(a, LogicalOp::Or, b));
    let expected = Stmt::Expr(texpr(Expr::LogicalOp(a_and_b, LogicalOp::Or, c)));
    assert_eq!(actual("{ a || b || c }"), sprogram(expected))
}

#[test]
fn string_concat() {
    let a = texpr(Expr::Variable("a".to_string()));
    let b = texpr(Expr::Variable("b".to_string()));
    let print = Stmt::Print(texpr(Expr::Concatenation(vec![a, b])));
    assert_eq!(actual("{ print (a b) } "), sprogram(print));
}

#[test]
fn string_concat2() {
    let a = texpr(Expr::String("a".to_string()));
    let b = texpr(Expr::String("b".to_string()));
    let print = Stmt::Print(texpr(Expr::Concatenation(vec![a, b])));
    assert_eq!(actual("{ print (\"a\" \"b\") } "), sprogram(print));
}

#[test]
fn string_concat_ooo() {
    let a = texpr(Expr::Variable("a".to_string()));
    let b = btexpr(Expr::Variable("b".to_string()));
    let c = btexpr(Expr::Variable("c".to_string()));
    let b_minus_c = texpr(Expr::MathOp(b, MathOp::Minus, c));
    let expected = Stmt::Print(texpr(Expr::Concatenation(vec![a, b_minus_c])));
    assert_eq!(actual("{ print (a b - c) } "), sprogram(expected));
}

#[test]
fn string_concat_ooo_2() {
    let a = btexpr(Expr::Variable("a".to_string()));
    let b = texpr(Expr::Variable("b".to_string()));
    let c = btexpr(Expr::Variable("c".to_string()));
    let a_minus_c = texpr(Expr::MathOp(a, MathOp::Minus, c));
    let expected = Stmt::Print(texpr(Expr::Concatenation(vec![a_minus_c, b])));
    assert_eq!(actual("{ print (a - c b ) } "), sprogram(expected));
}

#[test]
fn string_concat_ooo_3() {
    let a = btexpr(Expr::Variable("a".to_string()));
    let b = texpr(Expr::Variable("b".to_string()));
    let c = texpr(Expr::Variable("c".to_string()));
    let b_concat_c = Box::new(texpr(Expr::Concatenation(vec![b, c])));
    let expected = Stmt::Print(texpr(Expr::BinOp(a, BinOp::Less, b_concat_c)));
    assert_eq!(actual("{ print (a < b c ) } "), sprogram(expected));
}

#[test]
fn string_concat_ooo_4() {
    let a = texpr(Expr::Variable("a".to_string()));
    let b = texpr(Expr::Variable("b".to_string()));
    let c = btexpr(Expr::Variable("c".to_string()));
    let a_concat_b = Box::new(texpr(Expr::Concatenation(vec![a, b])));
    let expected = Stmt::Print(texpr(Expr::BinOp(a_concat_b, BinOp::Less, c)));
    assert_eq!(actual("{ print (a b < c ) } "), sprogram(expected));
}

#[test]
fn string_concat_two_cols() {
    let one = texpr(Expr::Column(bnum(1.0)));
    let two = texpr(Expr::Column(bnum(2.0)));
    let concat = texpr(Expr::Concatenation(vec![one, two]));
    let print = Stmt::Print(concat);
    assert_eq!(actual("{ print $1 $2 } "), sprogram(print));
}

#[test]
fn parse_is_deterministic() {
    let src = "BEGIN { print 1; } $1 $2 { x = x + 1; } END { print x; }";
    assert_eq!(parse(lex(src)).unwrap(), parse(lex(src)).unwrap());
}

#[test]
fn begin_end_collected_in_order() {
    let src = "BEGIN { print 1; } begin { print 2; } END { print 3; }";
    let expected = Program::new(
        vec![Stmt::Print(num(1.0)), Stmt::Print(num(2.0))],
        vec![Stmt::Print(num(3.0))],
        vec![],
    );
    assert_eq!(actual(src), expected);
}

#[test]
fn empty_token_stream_is_empty_program() {
    assert_eq!(
        parse(vec![Token::EOF]).unwrap(),
        Program::new(vec![], vec![], vec![])
    );
}

#[test]
fn compound_assignment_desugars() {
    // a += 2  parses as  a = a + (2)
    let inner = mathop(
        btexpr(Expr::Variable("a".to_string())),
        MathOp::Plus,
        bnum(2.0),
    );
    let body = Stmt::Expr(texpr(Expr::Assign("a".to_string(), Box::new(inner))));
    assert_eq!(actual("{ a += 2 }"), sprogram(body));
}

#[test]
fn post_increment_desugars() {
    // a++  parses as  ((a = a + 1) - 1)
    let a_plus_one = mathop(
        btexpr(Expr::Variable("a".to_string())),
        MathOp::Plus,
        bnum(1.0),
    );
    let assign = texpr(Expr::Assign("a".to_string(), Box::new(a_plus_one)));
    let body = Stmt::Expr(mathop(Box::new(assign), MathOp::Minus, bnum(1.0)));
    assert_eq!(actual("{ a++ }"), sprogram(body));
}

#[test]
fn post_decrement_desugars() {
    // a--  parses as  ((a = a - 1) + 1)
    let a_minus_one = mathop(
        btexpr(Expr::Variable("a".to_string())),
        MathOp::Minus,
        bnum(1.0),
    );
    let assign = texpr(Expr::Assign("a".to_string(), Box::new(a_minus_one)));
    let body = Stmt::Expr(mathop(Box::new(assign), MathOp::Plus, bnum(1.0)));
    assert_eq!(actual("{ a-- }"), sprogram(body));
}

#[test]
fn error_names_expected_kind() {
    // A BEGIN block must open with a brace.
    let err = parse(lex("BEGIN print 1; }")).unwrap_err();
    assert_eq!(err.expected, Some(TokenType::LeftBrace));
    assert_eq!(err.found, Token::Print);
    assert_eq!(err.message, "Expected a '{' after a begin");
}

#[test]
fn error_on_unexpected_token() {
    let err = parse(lex("{ ; }")).unwrap_err();
    assert_eq!(err.expected, None);
    assert_eq!(err.found, Token::Semicolon);
    assert_eq!(err.message, "Unexpected token");
}

#[test]
fn error_at_end_of_stream() {
    let err = parse(lex("1 +")).unwrap_err();
    assert_eq!(err.expected, None);
    assert_eq!(err.found, Token::EOF);
    assert_eq!(err.message, "Primary and at end");
}

#[test]
fn pattern_only_prints_whole_record() {
    // The implicit action prints the column addressed by 0.
    let expected_action = Stmt::Print(TypedExpr::new_str(Expr::Column(Box::new(
        TypedExpr::new_num(Expr::NumberF64(0.0f64.to_bits())),
    ))));
    let program = actual("test");
    assert_eq!(program.pattern_actions.len(), 1);
    assert_eq!(program.pattern_actions[0].action, expected_action);
    assert_eq!(
        program.pattern_actions[0].pattern,
        Some(texpr(Expr::Variable("test".to_string())))
    );
}
