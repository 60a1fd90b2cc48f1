use vstd::prelude::*;
use crate::node::{bin, free_var, BKind, Expr, Node};

verus! {

/// Models of a sequence of nodes.
pub open spec fn models(v: Seq<Node>) -> Seq<Expr> {
    v.map_values(|n: Node| n@)
}

/// Whether `e` is a variable named `n`.
pub open spec fn is_named(e: Expr, n: Seq<char>) -> bool {
    e matches Expr::Var { name, .. } && name == n
}

/// Index of the newest variable named `n` among the first `k` entries of `s`.
pub open spec fn newest_within(s: Seq<Expr>, n: Seq<char>, k: int) -> Option<int>
    decreases k,
{
    if k <= 0 {
        None
    } else if is_named(s[k - 1], n) {
        Some(k - 1)
    } else {
        newest_within(s, n, k - 1)
    }
}

/// Index of the newest variable named `n` in `s`: later declarations shadow
/// earlier ones.
pub open spec fn newest(s: Seq<Expr>, n: Seq<char>) -> Option<int> {
    newest_within(s, n, s.len() as int)
}

/// What `newest_within` finds is in range, names `n`, and nothing after it
/// within the first `k` does.
pub proof fn lemma_newest_within(s: Seq<Expr>, n: Seq<char>, k: int)
    requires
        k <= s.len(),
    ensures
        match newest_within(s, n, k) {
            Some(i) => 0 <= i < k && is_named(s[i], n) && forall|j: int|
                i < j < k ==> !is_named(#[trigger] s[j], n),
            None => forall|j: int| 0 <= j < k ==> !is_named(#[trigger] s[j], n),
        },
    decreases k,
{
    if k > 0 {
        lemma_newest_within(s, n, k - 1);
    }
}

/// Shadowing: after a declaration of `v` named `n`, the newest entry of that
/// name is `v`, and every earlier entry is still in place.
pub proof fn lemma_shadowing(s: Seq<Expr>, v: Expr, n: Seq<char>)
    requires
        is_named(v, n),
    ensures
        newest(s.push(v), n) == Some(s.len() as int),
        s.push(v).subrange(0, s.len() as int) == s,
{
    assert(s.push(v).subrange(0, s.len() as int) =~= s);
}

/// The argument that replaces a variable named `n` in a macro body: the one
/// at the position of the first formal parameter named `n`, looking from
/// position `i` on.
pub open spec fn argument_for(formals: Seq<Expr>, args: Seq<Expr>, n: Seq<char>, i: int) -> Option<Expr>
    decreases formals.len() - i,
{
    if i < 0 || i >= formals.len() {
        None
    } else if is_named(formals[i], n) {
        if i < args.len() {
            Some(args[i])
        } else {
            None
        }
    } else {
        argument_for(formals, args, n, i + 1)
    }
}

/// Macro substitution: every variable of `body` named like a formal parameter
/// is replaced by the argument at that parameter's position; all else is
/// rebuilt unchanged.
pub open spec fn substitute(body: Expr, formals: Seq<Expr>, args: Seq<Expr>) -> Expr
    decreases body,
{
    match body {
        Expr::Bin { kind, lhs, rhs } => Expr::Bin {
            kind,
            lhs: Box::new(substitute(*lhs, formals, args)),
            rhs: Box::new(substitute(*rhs, formals, args)),
        },
        Expr::Un { kind, operand } => Expr::Un {
            kind,
            operand: Box::new(substitute(*operand, formals, args)),
        },
        Expr::Var { name, point } => match argument_for(formals, args, name, 0) {
            Some(a) => a,
            None => Expr::Var { name, point },
        },
        Expr::Num { val } => Expr::Num { val },
    }
}

/// A parametric macro: `name(args...) { cont }`.
pub struct Operator {
    pub name: String,
    pub args: Vec<Node>,
    pub cont: Node,
}

/// Model of a macro.
pub struct Macro {
    pub name: Seq<char>,
    pub params: Seq<Expr>,
    pub body: Expr,
}

impl View for Operator {
    type V = Macro;

    open spec fn view(&self) -> Macro {
        Macro { name: self.name@, params: models(self.args@), body: self.cont@ }
    }
}

/// Models of a sequence of macros.
pub open spec fn macros(v: Seq<Operator>) -> Seq<Macro> {
    v.map_values(|o: Operator| o@)
}

/// The expansion of a call of `m` with arguments `args`.
pub open spec fn expand(m: Macro, args: Seq<Expr>) -> Expr {
    substitute(m.body, m.params, args)
}

impl Operator {
    fn argument_of(&self, name: &String, params: &Vec<Node>) -> (r: Option<Node>)
        ensures
            match argument_for(models(self.args@), models(params@), name@, 0) {
                Some(a) => r is Some && r->0@ == a,
                None => r is None,
            },
    {
        let ghost formals = models(self.args@);
        let ghost actuals = models(params@);
        let mut i: usize = 0;
        while i < self.args.len()
            invariant
                i <= self.args@.len(),
                formals == models(self.args@),
                actuals == models(params@),
                argument_for(formals, actuals, name@, 0) == argument_for(formals, actuals, name@, i as int),
            decreases self.args@.len() - i,
        {
            match &self.args[i] {
                Node::Var { name: n, .. } => {
                    if *n == *name {
                        if i < params.len() {
                            return Some(params[i].clone());
                        }
                        return None;
                    }
                },
                _ => {},
            }
            i = i + 1;
        }
        None
    }

    /// Expands the body `cont` with the call's arguments `params`.
    pub fn construct(&self, cont: &Node, params: &Vec<Node>) -> (r: Node)
        ensures
            r@ == substitute(cont@, models(self.args@), models(params@)),
        decreases cont,
    {
        match cont {
            Node::BinaryOperator { kind, lhs, rhs } => Node::BinaryOperator {
                kind: *kind,
                lhs: Box::new(self.construct(lhs, params)),
                rhs: Box::new(self.construct(rhs, params)),
            },
            Node::UnaryOperator { kind, operand } => Node::UnaryOperator {
                kind: *kind,
                operand: Box::new(self.construct(operand, params)),
            },
            Node::Var { name, .. } => match self.argument_of(name, params) {
                Some(a) => a,
                None => cont.clone(),
            },
            Node::Num { val } => Node::Num { val: *val },
        }
    }
}

} // verus!

verus! {

/// Variables in order of declaration; the newest of a name shadows the rest.
pub struct SymbolTable {
    pub vec: Vec<Node>,
}

impl View for SymbolTable {
    type V = Seq<Expr>;

    open spec fn view(&self) -> Seq<Expr> {
        models(self.vec@)
    }
}

/// The entry that assigning `value` to the variable `n` installs.
pub open spec fn bound(n: Seq<char>, value: Expr) -> Expr {
    Expr::Var { name: n, point: Some(Box::new(value)) }
}

impl SymbolTable {
    pub fn new() -> (r: SymbolTable)
        ensures
            r@ == Seq::<Expr>::empty(),
    {
        SymbolTable { vec: Vec::new() }
    }

    /// Declares a variable: appends it, whatever was declared before.
    pub fn push(&mut self, node: Node)
        ensures
            final(self)@ == old(self)@.push(node@),
    {
        self.vec.push(node);
        assert(models(self.vec@) =~= models(old(self).vec@).push(node@));
    }

    fn index_of(&self, name: &String) -> (r: Option<usize>)
        ensures
            newest(self@, name@) == match r {
                Some(i) => Some(i as int),
                None => None::<int>,
            },
    {
        let mut k: usize = self.vec.len();
        while k > 0
            invariant
                k <= self.vec@.len(),
                newest(self@, name@) == newest_within(self@, name@, k as int),
            decreases k,
        {
            match &self.vec[k - 1] {
                Node::Var { name: n, .. } => {
                    if *n == *name {
                        return Some(k - 1);
                    }
                },
                _ => {},
            }
            k = k - 1;
        }
        None
    }

    /// The newest variable named `name`, with its current binding.
    pub fn find(&self, name: &String) -> (r: Option<Node>)
        ensures
            match newest(self@, name@) {
                Some(i) => r is Some && r->0@ == self@[i],
                None => r is None,
            },
    {
        proof {
            lemma_newest_within(self@, name@, self@.len() as int);
            assert(self@.len() == self.vec@.len());
        }
        match self.index_of(name) {
            Some(i) => {
                let r = self.vec[i].clone();
                assert(self@[i as int] == self.vec@[i as int]@);
                Some(r)
            },
            None => None,
        }
    }

    /// Binds the newest variable named `name` to `value`. Returns false, and
    /// leaves the table as it was, when no such variable was declared.
    pub fn set(&mut self, name: &String, value: Node) -> (r: bool)
        ensures
            match newest(old(self)@, name@) {
                Some(i) => r && final(self)@ == old(self)@.update(i, bound(name@, value@)),
                None => !r && final(self)@ == old(self)@,
            },
    {
        proof {
            lemma_newest_within(self@, name@, self@.len() as int);
            assert(self@.len() == self.vec@.len());
        }
        match self.index_of(name) {
            Some(i) => {
                let ghost v = value@;
                let entry = Node::Var { name: name.clone(), point: Some(Box::new(value)) };
                self.vec.set(i, entry);
                assert(models(self.vec@) =~= models(old(self).vec@).update(i as int, bound(name@, v)));
                true
            },
            None => false,
        }
    }
}

/// Macros in order of definition; the newest of a name shadows the rest.
pub struct OperatorTable {
    pub vec: Vec<Operator>,
}

impl View for OperatorTable {
    type V = Seq<Macro>;

    open spec fn view(&self) -> Seq<Macro> {
        macros(self.vec@)
    }
}

impl OperatorTable {
    pub fn new() -> (r: OperatorTable)
        ensures
            r@ == Seq::<Macro>::empty(),
    {
        OperatorTable { vec: Vec::new() }
    }

    /// Defines a macro: appends it, whatever was defined before.
    pub fn push(&mut self, item: Operator)
        ensures
            final(self)@ == old(self)@.push(item@),
    {
        self.vec.push(item);
        assert(macros(self.vec@) =~= macros(old(self).vec@).push(item@));
    }

    /// Position of the newest macro named `name`.
    pub fn find(&self, name: &String) -> (r: Option<usize>)
        ensures
            newest_operator(self@, name@) == match r {
                Some(i) => Some(i as int),
                None => None::<int>,
            },
            r matches Some(i) ==> i < self.vec@.len(),
    {
        let mut k: usize = self.vec.len();
        while k > 0
            invariant
                k <= self.vec@.len(),
                newest_operator(self@, name@) == newest_operator_within(self@, name@, k as int),
            decreases k,
        {
            assert(self@[k - 1] == self.vec@[k - 1]@);
            if self.vec[k - 1].name == *name {
                return Some(k - 1);
            }
            k = k - 1;
        }
        None
    }
}

/// Index of the newest macro named `n` among the first `k` of `s`.
pub open spec fn newest_operator_within(s: Seq<Macro>, n: Seq<char>, k: int) -> Option<int>
    decreases k,
{
    if k <= 0 {
        None
    } else if s[k - 1].name == n {
        Some(k - 1)
    } else {
        newest_operator_within(s, n, k - 1)
    }
}

/// Index of the newest macro named `n` in `s`.
pub open spec fn newest_operator(s: Seq<Macro>, n: Seq<char>) -> Option<int> {
    newest_operator_within(s, n, s.len() as int)
}

} // verus!

verus! {

/// Macro expansion is literal: a macro whose body adds its two distinct
/// parameters expands to the sum of the arguments themselves, unevaluated.
pub proof fn lemma_literal_expansion(f: Seq<char>, a: Seq<char>, b: Seq<char>, x: Expr, y: Expr)
    requires
        a != b,
    ensures
        expand(
            Macro {
                name: f,
                params: seq![free_var(a), free_var(b)],
                body: bin(BKind::Add, free_var(a), free_var(b)),
            },
            seq![x, y],
        ) == bin(BKind::Add, x, y),
{
    let formals = seq![free_var(a), free_var(b)];
    let actuals = seq![x, y];
    assert(argument_for(formals, actuals, a, 0) == Some(x));
    assert(argument_for(formals, actuals, b, 1) == Some(y));
    assert(argument_for(formals, actuals, b, 0) == Some(y));
    assert(substitute(free_var(a), formals, actuals) == x);
    assert(substitute(free_var(b), formals, actuals) == y);
}

} // verus!
