use vstd::prelude::*;
use crate::text::{decimal, push_decimal, push_text, string_of};

verus! {

/// Binary operator kinds.
#[derive(Clone, Copy, Debug, PartialEq, Eq, Structural)]
pub enum BKind {
    Add,
    Sub,
    Mul,
    Div,
    Pow,
}

/// Unary operator kinds: negation and the elementary functions.
#[derive(Clone, Copy, Debug, PartialEq, Eq, Structural)]
pub enum UKind {
    Neg,
    Sin,
    Cos,
    Tan,
    Exp,
    Log,
}

/// An expression tree. A `Var` carries the expression most recently assigned
/// to it, if any.
#[derive(Debug)]
pub enum Node {
    BinaryOperator { kind: BKind, lhs: Box<Node>, rhs: Box<Node> },
    UnaryOperator { kind: UKind, operand: Box<Node> },
    Var { name: String, point: Option<Box<Node>> },
    Num { val: u32 },
}

/// Mathematical model of an expression: names are character sequences.
pub enum Expr {
    Bin { kind: BKind, lhs: Box<Expr>, rhs: Box<Expr> },
    Un { kind: UKind, operand: Box<Expr> },
    Var { name: Seq<char>, point: Option<Box<Expr>> },
    Num { val: u32 },
}

pub open spec fn model(n: &Node) -> Expr
    decreases n,
{
    match n {
        Node::BinaryOperator { kind, lhs, rhs } => Expr::Bin {
            kind: *kind,
            lhs: Box::new(model(lhs)),
            rhs: Box::new(model(rhs)),
        },
        Node::UnaryOperator { kind, operand } => Expr::Un {
            kind: *kind,
            operand: Box::new(model(operand)),
        },
        Node::Var { name, point } => Expr::Var {
            name: name@,
            point: match point {
                Some(b) => Some(Box::new(model(b))),
                None => None,
            },
        },
        Node::Num { val } => Expr::Num { val: *val },
    }
}

impl View for Node {
    type V = Expr;

    open spec fn view(&self) -> Expr {
        model(self)
    }
}

impl Clone for Node {
    fn clone(&self) -> (r: Node)
        ensures
            r@ == self@,
        decreases self,
    {
        match self {
            Node::BinaryOperator { kind, lhs, rhs } => Node::BinaryOperator {
                kind: *kind,
                lhs: Box::new((**lhs).clone()),
                rhs: Box::new((**rhs).clone()),
            },
            Node::UnaryOperator { kind, operand } => Node::UnaryOperator {
                kind: *kind,
                operand: Box::new((**operand).clone()),
            },
            Node::Var { name, point } => Node::Var {
                name: name.clone(),
                point: match point {
                    Some(b) => Some(Box::new((**b).clone())),
                    None => None,
                },
            },
            Node::Num { val } => Node::Num { val: *val },
        }
    }
}

/// Structural equivalence: same shape, same operator kinds, same variable
/// names (bindings ignored) and equal constants.
pub open spec fn equivalent(a: Expr, b: Expr) -> bool
    decreases a,
{
    match (a, b) {
        (Expr::Bin { kind: k1, lhs: l1, rhs: r1 }, Expr::Bin { kind: k2, lhs: l2, rhs: r2 }) =>
            k1 == k2 && equivalent(*l1, *l2) && equivalent(*r1, *r2),
        (Expr::Un { kind: k1, operand: o1 }, Expr::Un { kind: k2, operand: o2 }) =>
            k1 == k2 && equivalent(*o1, *o2),
        (Expr::Var { name: n1, .. }, Expr::Var { name: n2, .. }) => n1 == n2,
        (Expr::Num { val: v1 }, Expr::Num { val: v2 }) => v1 == v2,
        _ => false,
    }
}


pub open spec fn bin(kind: BKind, lhs: Expr, rhs: Expr) -> Expr {
    Expr::Bin { kind, lhs: Box::new(lhs), rhs: Box::new(rhs) }
}

pub open spec fn un(kind: UKind, operand: Expr) -> Expr {
    Expr::Un { kind, operand: Box::new(operand) }
}

pub open spec fn num(val: u32) -> Expr {
    Expr::Num { val }
}

/// The derivative of `e` with respect to `t`, as an unsimplified formula.
pub open spec fn derivative(e: Expr, t: Expr) -> Expr
    decreases e,
{
    if equivalent(e, t) {
        num(1)
    } else {
        match e {
            Expr::Bin { kind, lhs, rhs } => {
                let (u, v) = (*lhs, *rhs);
                let (du, dv) = (derivative(u, t), derivative(v, t));
                match kind {
                    BKind::Add => bin(BKind::Add, du, dv),
                    BKind::Sub => bin(BKind::Sub, du, dv),
                    BKind::Mul => bin(BKind::Add, bin(BKind::Mul, du, v), bin(BKind::Mul, u, dv)),
                    BKind::Div => bin(
                        BKind::Div,
                        bin(BKind::Sub, bin(BKind::Mul, du, v), bin(BKind::Mul, u, dv)),
                        bin(BKind::Mul, v, v),
                    ),
                    BKind::Pow => bin(
                        BKind::Add,
                        bin(
                            BKind::Mul,
                            bin(BKind::Mul, v, bin(BKind::Pow, u, bin(BKind::Sub, v, num(1)))),
                            du,
                        ),
                        bin(BKind::Mul, bin(BKind::Mul, bin(BKind::Pow, u, v), un(UKind::Log, u)), dv),
                    ),
                }
            },
            Expr::Un { kind, operand } => {
                let f = *operand;
                let df = derivative(f, t);
                match kind {
                    UKind::Neg => un(UKind::Neg, df),
                    UKind::Sin => bin(BKind::Mul, df, un(UKind::Cos, f)),
                    UKind::Cos => un(UKind::Neg, bin(BKind::Mul, df, un(UKind::Sin, f))),
                    UKind::Tan => bin(BKind::Div, df, bin(BKind::Pow, un(UKind::Cos, f), num(2))),
                    UKind::Exp => bin(BKind::Mul, df, un(UKind::Exp, f)),
                    UKind::Log => bin(BKind::Div, df, f),
                }
            },
            Expr::Var { point, .. } => match point {
                Some(b) => derivative(*b, t),
                None => num(0),
            },
            Expr::Num { .. } => num(0),
        }
    }
}

impl Node {

    /// Builds `lhs kind rhs`.
    pub fn binary(kind: BKind, lhs: Node, rhs: Node) -> (r: Node)
        ensures
            r@ == bin(kind, lhs@, rhs@),
    {
        Node::BinaryOperator { kind, lhs: Box::new(lhs), rhs: Box::new(rhs) }
    }

    /// Builds `kind operand`.
    pub fn unary(kind: UKind, operand: Node) -> (r: Node)
        ensures
            r@ == un(kind, operand@),
    {
        Node::UnaryOperator { kind, operand: Box::new(operand) }
    }

    /// Differentiates `node1` with respect to `node2` (see `derivative`).
    pub fn dif(node1: Node, node2: Node) -> (r: Node)
        ensures
            r@ == derivative(node1@, node2@),
        decreases node1@,
    {
        if Node::equiv(&node1, &node2) {
            return Node::Num { val: 1 };
        }
        match node1 {
            Node::BinaryOperator { kind, lhs, rhs } => {
                let u = *lhs;
                let v = *rhs;
                let du = Node::dif(u.clone(), node2.clone());
                let dv = Node::dif(v.clone(), node2);
                match kind {
                    BKind::Add => Node::binary(BKind::Add, du, dv),
                    BKind::Sub => Node::binary(BKind::Sub, du, dv),
                    BKind::Mul => Node::binary(
                        BKind::Add,
                        Node::binary(BKind::Mul, du, v.clone()),
                        Node::binary(BKind::Mul, u, dv),
                    ),
                    BKind::Div => Node::binary(
                        BKind::Div,
                        Node::binary(
                            BKind::Sub,
                            Node::binary(BKind::Mul, du, v.clone()),
                            Node::binary(BKind::Mul, u, dv),
                        ),
                        Node::binary(BKind::Mul, v.clone(), v),
                    ),
                    BKind::Pow => {
                        let exponent = Node::binary(BKind::Sub, v.clone(), Node::Num { val: 1 });
                        let first = Node::binary(
                            BKind::Mul,
                            Node::binary(
                                BKind::Mul,
                                v.clone(),
                                Node::binary(BKind::Pow, u.clone(), exponent),
                            ),
                            du,
                        );
                        let second = Node::binary(
                            BKind::Mul,
                            Node::binary(
                                BKind::Mul,
                                Node::binary(BKind::Pow, u.clone(), v),
                                Node::unary(UKind::Log, u),
                            ),
                            dv,
                        );
                        Node::binary(BKind::Add, first, second)
                    },
                }
            },
            Node::UnaryOperator { kind, operand } => {
                let f = *operand;
                let df = Node::dif(f.clone(), node2);
                match kind {
                    UKind::Neg => Node::unary(UKind::Neg, df),
                    UKind::Sin => Node::binary(BKind::Mul, df, Node::unary(UKind::Cos, f)),
                    UKind::Cos => Node::unary(
                        UKind::Neg,
                        Node::binary(BKind::Mul, df, Node::unary(UKind::Sin, f)),
                    ),
                    UKind::Tan => Node::binary(
                        BKind::Div,
                        df,
                        Node::binary(BKind::Pow, Node::unary(UKind::Cos, f), Node::Num { val: 2 }),
                    ),
                    UKind::Exp => Node::binary(BKind::Mul, df, Node::unary(UKind::Exp, f)),
                    UKind::Log => Node::binary(BKind::Div, df, f),
                }
            },
            Node::Var { point, .. } => match point {
                Some(b) => Node::dif(*b, node2),
                None => Node::Num { val: 0 },
            },
            Node::Num { .. } => Node::Num { val: 0 },
        }
    }

    /// Decides structural equivalence of two expressions.
    pub fn equiv(node1: &Node, node2: &Node) -> (r: bool)
        ensures
            r == equivalent(node1@, node2@),
        decreases node1,
    {
        match (node1, node2) {
            (
                Node::BinaryOperator { kind: k1, lhs: l1, rhs: r1 },
                Node::BinaryOperator { kind: k2, lhs: l2, rhs: r2 },
            ) => *k1 == *k2 && Node::equiv(l1, l2) && Node::equiv(r1, r2),
            (
                Node::UnaryOperator { kind: k1, operand: o1 },
                Node::UnaryOperator { kind: k2, operand: o2 },
            ) => *k1 == *k2 && Node::equiv(o1, o2),
            (Node::Var { name: n1, .. }, Node::Var { name: n2, .. }) => *n1 == *n2,
            (Node::Num { val: v1 }, Node::Num { val: v2 }) => *v1 == *v2,
            _ => false,
        }
    }
}

} // verus!

verus! {

/// Structural equivalence is reflexive.
pub proof fn lemma_equivalent_refl(e: Expr)
    ensures
        equivalent(e, e),
    decreases e,
{
    match e {
        Expr::Bin { lhs, rhs, .. } => {
            lemma_equivalent_refl(*lhs);
            lemma_equivalent_refl(*rhs);
        },
        Expr::Un { operand, .. } => lemma_equivalent_refl(*operand),
        _ => {},
    }
}

/// The derivative of any expression with respect to itself is the constant 1.
pub proof fn lemma_derivative_of_self(e: Expr)
    ensures
        derivative(e, e) == num(1),
{
    lemma_equivalent_refl(e);
}

/// Sum rule: unless `a + b` is itself the target, the derivative of a sum is
/// the sum of the derivatives.
pub proof fn lemma_sum_rule(a: Expr, b: Expr, x: Expr)
    requires
        !equivalent(bin(BKind::Add, a, b), x),
    ensures
        derivative(bin(BKind::Add, a, b), x) == bin(
            BKind::Add,
            derivative(a, x),
            derivative(b, x),
        ),
{
}

/// A free (unbound) variable named `n`.
pub open spec fn free_var(n: Seq<char>) -> Expr {
    Expr::Var { name: n, point: None }
}

/// Product rule, unsimplified: the derivative of `x * x` by a free `x` is
/// `1 * x + x * 1`.
pub proof fn lemma_square_derivative(n: Seq<char>)
    ensures
        derivative(bin(BKind::Mul, free_var(n), free_var(n)), free_var(n)) == bin(
            BKind::Add,
            bin(BKind::Mul, num(1), free_var(n)),
            bin(BKind::Mul, free_var(n), num(1)),
        ),
{
    let x = free_var(n);
    lemma_derivative_of_self(x);
    assert(!equivalent(bin(BKind::Mul, x, x), x));
}

/// A variable that is not the target is differentiated through its binding.
pub proof fn lemma_chain_through_binding(n: Seq<char>, b: Expr, x: Expr)
    requires
        !equivalent(Expr::Var { name: n, point: Some(Box::new(b)) }, x),
    ensures
        derivative(Expr::Var { name: n, point: Some(Box::new(b)) }, x) == derivative(b, x),
{
}

/// The elementary functions applied to a free `x`, differentiated by `x`:
/// `sin x` gives `1 * cos x`, `exp x` gives `1 * exp x`, `log x` gives `1 / x`.
pub proof fn lemma_elementary_derivatives(n: Seq<char>)
    ensures
        derivative(un(UKind::Sin, free_var(n)), free_var(n)) == bin(
            BKind::Mul,
            num(1),
            un(UKind::Cos, free_var(n)),
        ),
        derivative(un(UKind::Exp, free_var(n)), free_var(n)) == bin(
            BKind::Mul,
            num(1),
            un(UKind::Exp, free_var(n)),
        ),
        derivative(un(UKind::Log, free_var(n)), free_var(n)) == bin(
            BKind::Div,
            num(1),
            free_var(n),
        ),
{
    lemma_derivative_of_self(free_var(n));
}

} // verus!

verus! {

/// The text between the operands of a binary operator.
pub open spec fn infix(kind: BKind) -> Seq<char> {
    match kind {
        BKind::Add => seq![' ', '+', ' '],
        BKind::Sub => seq![' ', '-', ' '],
        BKind::Mul => seq![' ', '*', ' '],
        BKind::Div => seq![' ', '/', ' '],
        BKind::Pow => seq![' ', '^', ' '],
    }
}

/// The text before the operand of a unary operator.
pub open spec fn prefix(kind: UKind) -> Seq<char> {
    match kind {
        UKind::Neg => seq!['-', ' '],
        UKind::Sin => seq!['s', 'i', 'n', ' '],
        UKind::Cos => seq!['c', 'o', 's', ' '],
        UKind::Tan => seq!['t', 'a', 'n', ' '],
        UKind::Exp => seq!['e', 'x', 'p', ' '],
        UKind::Log => seq!['l', 'o', 'g', ' '],
    }
}

/// Infix text of an expression. A bound variable shows its binding.
pub open spec fn rendered(e: Expr) -> Seq<char>
    decreases e,
{
    match e {
        Expr::Bin { kind, lhs, rhs } => rendered(*lhs) + infix(kind) + rendered(*rhs),
        Expr::Un { kind, operand } => prefix(kind) + rendered(*operand),
        Expr::Var { name, point } => match point {
            Some(b) => rendered(*b),
            None => name,
        },
        Expr::Num { val } => decimal(val),
    }
}

fn push_infix(out: &mut Vec<char>, kind: BKind)
    ensures
        final(out)@ == old(out)@ + infix(kind),
{
    let c = match kind {
        BKind::Add => '+',
        BKind::Sub => '-',
        BKind::Mul => '*',
        BKind::Div => '/',
        BKind::Pow => '^',
    };
    out.push(' ');
    out.push(c);
    out.push(' ');
}

fn push_prefix(out: &mut Vec<char>, kind: UKind)
    ensures
        final(out)@ == old(out)@ + prefix(kind),
{
    match kind {
        UKind::Neg => {
            out.push('-');
        },
        UKind::Sin => {
            out.push('s');
            out.push('i');
            out.push('n');
        },
        UKind::Cos => {
            out.push('c');
            out.push('o');
            out.push('s');
        },
        UKind::Tan => {
            out.push('t');
            out.push('a');
            out.push('n');
        },
        UKind::Exp => {
            out.push('e');
            out.push('x');
            out.push('p');
        },
        UKind::Log => {
            out.push('l');
            out.push('o');
            out.push('g');
        },
    }
    out.push(' ');
}

impl Node {
    fn render_into(&self, out: &mut Vec<char>)
        ensures
            final(out)@ == old(out)@ + rendered(self@),
        decreases self,
    {
        match self {
            Node::BinaryOperator { kind, lhs, rhs } => {
                lhs.render_into(out);
                push_infix(out, *kind);
                rhs.render_into(out);
            },
            Node::UnaryOperator { kind, operand } => {
                push_prefix(out, *kind);
                operand.render_into(out);
            },
            Node::Var { name, point } => match point {
                Some(b) => b.render_into(out),
                None => push_text(out, name.as_str()),
            },
            Node::Num { val } => push_decimal(out, *val),
        }
    }

    /// The infix text of this expression, as a `print` statement shows it.
    pub fn render(&self) -> (r: String)
        ensures
            r@ == rendered(self@),
    {
        let mut out: Vec<char> = Vec::new();
        self.render_into(&mut out);
        string_of(&out)
    }
}

} // verus!

verus! {

/// Whether two expressions are identical, bindings included.
fn same(a: &Node, b: &Node) -> (r: bool)
    ensures
        r == (a@ == b@),
    decreases a,
{
    match (a, b) {
        (
            Node::BinaryOperator { kind: k1, lhs: l1, rhs: r1 },
            Node::BinaryOperator { kind: k2, lhs: l2, rhs: r2 },
        ) => *k1 == *k2 && same(l1, l2) && same(r1, r2),
        (Node::UnaryOperator { kind: k1, operand: o1 }, Node::UnaryOperator { kind: k2, operand: o2 }) =>
            *k1 == *k2 && same(o1, o2),
        (Node::Var { name: n1, point: p1 }, Node::Var { name: n2, point: p2 }) => {
            if *n1 != *n2 {
                return false;
            }
            match (p1, p2) {
                (Some(x), Some(y)) => same(x, y),
                (None, None) => true,
                _ => false,
            }
        },
        (Node::Num { val: v1 }, Node::Num { val: v2 }) => *v1 == *v2,
        _ => false,
    }
}

impl PartialEq for Node {
    fn eq(&self, other: &Node) -> (r: bool)
        ensures
            r == (self@ == other@),
    {
        same(self, other)
    }
}

impl vstd::std_specs::cmp::PartialEqSpecImpl for Node {
    open spec fn obeys_eq_spec() -> bool {
        true
    }

    open spec fn eq_spec(&self, other: &Node) -> bool {
        self@ == other@
    }
}

} // verus!
