use symdiff::lexer::{Lexer, Token};
use symdiff::node::{BKind, Node};
use symdiff::parser::{Output, ParseError, Parser};

fn session(code: &str) -> (Parser, Result<(), ParseError>) {
    let tokens = Lexer::new(code.to_string()).tokenize();
    let mut parser = Parser::new(&tokens);
    let r = parser.prog();
    (parser, r)
}

fn printed(p: &Parser) -> Vec<String> {
    p.log
        .iter()
        .filter_map(|o| match o {
            Output::Print(s) => Some(s.clone()),
            _ => None,
        })
        .collect()
}

fn var(n: &str) -> Node {
    Node::Var { name: n.to_string(), point: None }
}

fn c(v: u32) -> Node {
    Node::Num { val: v }
}

#[test]
fn chain_through_binding() {
    let (p, r) = session("var x; var y = x*x; print dif(y, x); print dif(x*x, x);");
    assert!(r.is_ok());
    assert_eq!(printed(&p), vec!["1 * x + x * 1".to_string(), "1 * x + x * 1".to_string()]);
}

#[test]
fn macro_expansion_is_literal() {
    let tokens = Lexer::new("op f(a,b){ a + b }; f(1,2)".to_string()).tokenize();
    let mut p = Parser::new(&tokens);
    assert!(p.stmt().is_ok());
    let e = p.expr().ok().unwrap();
    assert_eq!(e, Node::binary(BKind::Add, c(1), c(2)));
    assert_eq!(e.render(), "1 + 2");
    let (q, r) = session("op f(a,b){ a + b }; print f(1,2);");
    assert!(r.is_ok());
    assert_eq!(printed(&q), vec!["1 + 2".to_string()]);
}

#[test]
fn macro_keeps_free_variables() {
    let (p, r) = session("var k; op g(a){ a * k }; print g(3);");
    assert!(r.is_ok());
    assert_eq!(printed(&p), vec!["3 * k".to_string()]);
}

#[test]
fn undeclared_assignment_reported() {
    let (p, r) = session("var x = 1; z = 2; print x;");
    assert!(r.is_ok());
    assert!(matches!(&p.log[0], Output::Error(ParseError::UndeclaredVariable(n)) if n == "z"));
    assert_eq!(p.symbol_table.vec.len(), 1);
    assert_eq!(p.symbol_table.vec[0], Node::Var { name: "x".to_string(), point: Some(Box::new(c(1))) });
    assert_eq!(printed(&p), vec!["1".to_string()]);
}

#[test]
fn shadowing_uses_newest_declaration() {
    let (p, r) = session("var x = 1; var x = 2; print x;");
    assert!(r.is_ok());
    assert_eq!(printed(&p), vec!["2".to_string()]);
    assert_eq!(p.symbol_table.vec.len(), 2);
    assert_eq!(p.symbol_table.vec[0], Node::Var { name: "x".to_string(), point: Some(Box::new(c(1))) });
    assert_eq!(p.symbol_table.find(&"x".to_string()), Some(Node::Var { name: "x".to_string(), point: Some(Box::new(c(2))) }));
}

#[test]
fn assignment_rebinds_newest() {
    let (p, r) = session("var x = 1, x; x = 5; print x;");
    assert!(r.is_ok());
    assert_eq!(printed(&p), vec!["5".to_string()]);
    assert_eq!(p.symbol_table.vec[0], Node::Var { name: "x".to_string(), point: Some(Box::new(c(1))) });
}

#[test]
fn precedence_and_associativity() {
    let (p, r) = session("var x; print sin x + 1; print 2 - 3 - 4; print 2 ^ 3 ^ 2; print -x * 2;");
    assert!(r.is_ok());
    assert_eq!(printed(&p), vec!["sin x + 1", "2 - 3 - 4", "2 ^ 3 ^ 2", "- x * 2"]);
    let tokens = Lexer::new("2 ^ 3 ^ 2".to_string()).tokenize();
    let mut q = Parser::new(&tokens);
    let e = q.expr().ok().unwrap();
    assert_eq!(e, Node::binary(BKind::Pow, c(2), Node::binary(BKind::Pow, c(3), c(2))));
    let tokens = Lexer::new("8 / 4 / 2".to_string()).tokenize();
    let mut q = Parser::new(&tokens);
    let e = q.expr().ok().unwrap();
    assert_eq!(e, Node::binary(BKind::Div, Node::binary(BKind::Div, c(8), c(4)), c(2)));
}

#[test]
fn unary_plus_and_parentheses() {
    let (p, r) = session("var x; print +(x + 1) * 2;");
    assert!(r.is_ok());
    assert_eq!(printed(&p), vec!["x + 1 * 2"]);
    let tokens = Lexer::new("(x + 1) * 2".to_string()).tokenize();
    let mut q = Parser::new(&tokens);
    let e = q.expr().ok().unwrap();
    assert_eq!(e, Node::binary(BKind::Mul, Node::binary(BKind::Add, c(0), c(1)), c(2)));
    assert!(matches!(&q.log[0], Output::Error(ParseError::UndeclaredVariable(n)) if n == "x"));
    assert_eq!(var("x").render(), "x");
}

#[test]
fn missing_semicolon_stops() {
    let (p, r) = session("var x print x;");
    match r {
        Err(ParseError::UnexpectedToken { expected, found }) => {
            assert_eq!(expected, ";");
            assert_eq!(found, Some(Token::Reserved("print".to_string())));
        }
        other => panic!("unexpected outcome {:?}", other),
    }
    assert_eq!(p.pos, 2);
}

#[test]
fn unexpected_end_of_input() {
    let (_, r) = session("print 1 +");
    match r {
        Err(ParseError::UnexpectedToken { expected, found }) => {
            assert_eq!(expected, "an expression");
            assert_eq!(found, None);
        }
        other => panic!("unexpected outcome {:?}", other),
    }
}

#[test]
fn missing_identifier_after_var() {
    let (_, r) = session("var 1;");
    assert!(matches!(r, Err(ParseError::MissingIdentifier)));
}

#[test]
fn undeclared_operator_reported_and_replaced() {
    let (p, r) = session("print g(1, 2) + 3;");
    assert!(r.is_ok());
    assert!(matches!(&p.log[0], Output::Error(ParseError::UndeclaredOperator(n)) if n == "g"));
    assert_eq!(printed(&p), vec!["0 + 3"]);
}

#[test]
fn undeclared_variable_reported_and_replaced() {
    let (p, r) = session("print q * 2;");
    assert!(r.is_ok());
    assert!(matches!(&p.log[0], Output::Error(ParseError::UndeclaredVariable(n)) if n == "q"));
    assert_eq!(printed(&p), vec!["0 * 2"]);
}

#[test]
fn op_parameters_join_symbol_table() {
    let (p, r) = session("op h(a, b){ a - b };");
    assert!(r.is_ok());
    assert_eq!(p.symbol_table.vec, vec![var("a"), var("b")]);
    assert_eq!(p.op_table.vec.len(), 1);
    assert_eq!(p.op_table.vec[0].name, "h");
}

#[test]
fn bare_expression_statement_is_discarded() {
    let (p, r) = session("var x; x * 2; dif(x, x);");
    assert!(r.is_ok());
    assert!(p.log.is_empty());
}

#[test]
fn dif_with_respect_to_compound() {
    let (p, r) = session("var x; print dif(sin x + 1, sin x + 1); print dif(x, 3);");
    assert!(r.is_ok());
    assert_eq!(printed(&p), vec!["1", "0"]);
}
