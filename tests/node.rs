use symdiff::node::{BKind, Node, UKind};

fn var(n: &str) -> Node {
    Node::Var { name: n.to_string(), point: None }
}

fn bound_var(n: &str, e: Node) -> Node {
    Node::Var { name: n.to_string(), point: Some(Box::new(e)) }
}

fn c(v: u32) -> Node {
    Node::Num { val: v }
}

fn b(kind: BKind, l: Node, r: Node) -> Node {
    Node::binary(kind, l, r)
}

fn u(kind: UKind, o: Node) -> Node {
    Node::unary(kind, o)
}

#[test]
fn derivative_of_self_is_one() {
    let e = b(BKind::Add, u(UKind::Sin, var("x")), c(2));
    assert_eq!(Node::dif(e.clone(), e), c(1));
    assert_eq!(Node::dif(c(7), c(7)), c(1));
}

#[test]
fn sum_rule() {
    let a = b(BKind::Mul, var("x"), var("y"));
    let bb = u(UKind::Exp, var("x"));
    let whole = Node::dif(b(BKind::Add, a.clone(), bb.clone()), var("x"));
    let parts = b(BKind::Add, Node::dif(a, var("x")), Node::dif(bb, var("x")));
    assert_eq!(whole, parts);
}

#[test]
fn product_rule_literal() {
    let d = Node::dif(b(BKind::Mul, var("x"), var("x")), var("x"));
    assert_eq!(d, b(BKind::Add, b(BKind::Mul, c(1), var("x")), b(BKind::Mul, var("x"), c(1))));
    assert_eq!(d.render(), "1 * x + x * 1");
}

#[test]
fn chain_through_binding_node() {
    let y = bound_var("y", b(BKind::Mul, var("x"), var("x")));
    assert_eq!(Node::dif(y, var("x")), Node::dif(b(BKind::Mul, var("x"), var("x")), var("x")));
}

#[test]
fn elementary_derivatives() {
    let x = var("x");
    assert_eq!(Node::dif(u(UKind::Sin, x.clone()), x.clone()), b(BKind::Mul, c(1), u(UKind::Cos, x.clone())));
    assert_eq!(Node::dif(u(UKind::Exp, x.clone()), x.clone()), b(BKind::Mul, c(1), u(UKind::Exp, x.clone())));
    assert_eq!(Node::dif(u(UKind::Log, x.clone()), x.clone()), b(BKind::Div, c(1), x.clone()));
}

#[test]
fn remaining_unary_rules() {
    let x = var("x");
    assert_eq!(Node::dif(u(UKind::Neg, x.clone()), x.clone()), u(UKind::Neg, c(1)));
    assert_eq!(
        Node::dif(u(UKind::Cos, x.clone()), x.clone()),
        u(UKind::Neg, b(BKind::Mul, c(1), u(UKind::Sin, x.clone())))
    );
    assert_eq!(
        Node::dif(u(UKind::Tan, x.clone()), x.clone()),
        b(BKind::Div, c(1), b(BKind::Pow, u(UKind::Cos, x.clone()), c(2)))
    );
}

#[test]
fn quotient_rule_squares_denominator() {
    let x = var("x");
    let y = var("y");
    let d = Node::dif(b(BKind::Div, x.clone(), y.clone()), x.clone());
    let expected = b(
        BKind::Div,
        b(BKind::Sub, b(BKind::Mul, c(1), y.clone()), b(BKind::Mul, x.clone(), c(0))),
        b(BKind::Mul, y.clone(), y.clone()),
    );
    assert_eq!(d, expected);
}

#[test]
fn generalized_power_rule() {
    let x = var("x");
    let d = Node::dif(b(BKind::Pow, x.clone(), c(3)), x.clone());
    let expected = b(
        BKind::Add,
        b(BKind::Mul, b(BKind::Mul, c(3), b(BKind::Pow, x.clone(), b(BKind::Sub, c(3), c(1)))), c(1)),
        b(BKind::Mul, b(BKind::Mul, b(BKind::Pow, x.clone(), c(3)), u(UKind::Log, x.clone())), c(0)),
    );
    assert_eq!(d, expected);
    assert_eq!(d.render(), "3 * x ^ 3 - 1 * 1 + x ^ 3 * log x * 0");
}

#[test]
fn subtraction_and_constants() {
    let x = var("x");
    assert_eq!(Node::dif(b(BKind::Sub, x.clone(), c(5)), x.clone()), b(BKind::Sub, c(1), c(0)));
    assert_eq!(Node::dif(var("z"), x.clone()), c(0));
}

#[test]
fn bound_variable_not_target_recurses() {
    let x = var("x");
    assert_eq!(Node::dif(bound_var("y", c(4)), x.clone()), c(0));
    assert_eq!(Node::dif(bound_var("y", x.clone()), x.clone()), c(1));
}

#[test]
fn equivalence_is_structural() {
    let one_plus_x = b(BKind::Add, c(1), var("x"));
    let x_plus_one = b(BKind::Add, var("x"), c(1));
    assert!(!Node::equiv(&one_plus_x, &x_plus_one));
    assert!(Node::equiv(&x_plus_one, &x_plus_one.clone()));
    assert!(Node::equiv(&var("x"), &bound_var("x", c(3))));
    assert!(!Node::equiv(&u(UKind::Sin, var("x")), &u(UKind::Cos, var("x"))));
    assert!(!Node::equiv(&c(1), &c(2)));
}

#[test]
fn render_forms() {
    assert_eq!(b(BKind::Add, u(UKind::Sin, var("x")), c(1)).render(), "sin x + 1");
    assert_eq!(u(UKind::Neg, var("x")).render(), "- x");
    assert_eq!(c(1234567).render(), "1234567");
    assert_eq!(c(0).render(), "0");
    assert_eq!(bound_var("y", b(BKind::Pow, var("x"), c(2))).render(), "x ^ 2");
    assert_eq!(b(BKind::Div, u(UKind::Tan, var("a")), u(UKind::Exp, var("b"))).render(), "tan a / exp b");
}
