use symdiff::env::{Operator, OperatorTable, SymbolTable};
use symdiff::node::{BKind, Node};

fn named(n: &str, v: Option<u32>) -> Node {
    Node::Var { name: n.to_string(), point: v.map(|x| Box::new(Node::Num { val: x })) }
}

#[test]
fn set_on_undeclared_name_changes_nothing() {
    let mut t = SymbolTable::new();
    t.push(named("x", Some(1)));
    assert!(!t.set(&"y".to_string(), Node::Num { val: 9 }));
    assert_eq!(t.vec, vec![named("x", Some(1))]);
}

#[test]
fn set_rebinds_newest_entry() {
    let mut t = SymbolTable::new();
    t.push(named("x", Some(1)));
    t.push(named("x", None));
    assert!(t.set(&"x".to_string(), Node::Num { val: 7 }));
    assert_eq!(t.vec, vec![named("x", Some(1)), named("x", Some(7))]);
}

#[test]
fn find_returns_newest_declaration() {
    let mut t = SymbolTable::new();
    t.push(named("x", Some(1)));
    t.push(named("y", None));
    t.push(named("x", Some(2)));
    assert_eq!(t.find(&"x".to_string()), Some(named("x", Some(2))));
    assert_eq!(t.find(&"y".to_string()), Some(named("y", None)));
    assert_eq!(t.find(&"z".to_string()), None);
}

#[test]
fn operator_lookup_prefers_newest() {
    let mut t = OperatorTable::new();
    let body = Node::binary(BKind::Add, named("a", None), Node::Num { val: 1 });
    t.push(Operator { name: "f".to_string(), args: vec![named("a", None)], cont: body.clone() });
    t.push(Operator { name: "g".to_string(), args: vec![named("a", None)], cont: body.clone() });
    t.push(Operator { name: "f".to_string(), args: vec![named("a", None)], cont: body });
    assert_eq!(t.find(&"f".to_string()), Some(2));
    assert_eq!(t.find(&"g".to_string()), Some(1));
    assert_eq!(t.find(&"h".to_string()), None);
}

#[test]
fn construct_substitutes_by_position() {
    let body = Node::binary(BKind::Sub, named("b", None), Node::binary(BKind::Mul, named("a", None), named("k", None)));
    let op = Operator { name: "f".to_string(), args: vec![named("a", None), named("b", None)], cont: body };
    let params = vec![Node::Num { val: 3 }, named("x", None)];
    let r = op.construct(&op.cont, &params);
    assert_eq!(
        r,
        Node::binary(BKind::Sub, named("x", None), Node::binary(BKind::Mul, Node::Num { val: 3 }, named("k", None)))
    );
}
