use vstd::prelude::*;
use crate::env::{models, Operator, OperatorTable, SymbolTable};
use crate::grammar;
use crate::grammar::{Fault, Note, State};
use crate::lexer::{toks, Tok, Token};
use crate::node::{BKind, Expr, Node, UKind};
use crate::text::text_is;

verus! {

/// Why parsing failed, or what it reported and went on after.
#[derive(Debug)]
pub enum ParseError {
    UndeclaredVariable(String),
    UndeclaredOperator(String),
    UnexpectedToken { expected: String, found: Option<Token> },
    MissingIdentifier,
}

pub open spec fn tok_opt(o: Option<Token>) -> Option<Tok> {
    match o {
        Some(t) => Some(t@),
        None => None,
    }
}

impl View for ParseError {
    type V = Fault;

    open spec fn view(&self) -> Fault {
        match self {
            ParseError::UndeclaredVariable(n) => Fault::UndeclaredVariable(n@),
            ParseError::UndeclaredOperator(n) => Fault::UndeclaredOperator(n@),
            ParseError::UnexpectedToken { expected, found } => Fault::UnexpectedToken {
                expected: expected@,
                found: tok_opt(*found),
            },
            ParseError::MissingIdentifier => Fault::MissingIdentifier,
        }
    }
}

/// One entry of a session's output.
#[derive(Debug)]
pub enum Output {
    /// The text of a `print` statement.
    Print(String),
    /// An error that was reported, after which parsing went on.
    Error(ParseError),
}

impl View for Output {
    type V = Note;

    open spec fn view(&self) -> Note {
        match self {
            Output::Print(s) => Note::Print(s@),
            Output::Error(e) => Note::Error(e@),
        }
    }
}

pub open spec fn notes(v: Seq<Output>) -> Seq<Note> {
    v.map_values(|o: Output| o@)
}

pub open spec fn res(r: Result<Node, ParseError>) -> Result<Expr, Fault> {
    match r {
        Ok(n) => Ok(n@),
        Err(e) => Err(e@),
    }
}

pub open spec fn res_list(r: Result<Vec<Node>, ParseError>) -> Result<Seq<Expr>, Fault> {
    match r {
        Ok(v) => Ok(models(v@)),
        Err(e) => Err(e@),
    }
}

pub open spec fn res_unit(r: Result<(), ParseError>) -> Result<(), Fault> {
    match r {
        Ok(_) => Ok(()),
        Err(e) => Err(e@),
    }
}

/// A parsing session: the tokens, the position in them, the environment, and
/// the output so far. Parsing executes each statement as it is recognized.
pub struct Parser {
    pub token_list: Vec<Token>,
    pub pos: usize,
    pub symbol_table: SymbolTable,
    pub op_table: OperatorTable,
    pub log: Vec<Output>,
}

impl Parser {
    pub open spec fn tokens(&self) -> Seq<Tok> {
        toks(self.token_list@)
    }

    pub open spec fn state(&self) -> State {
        State {
            pos: self.pos as int,
            syms: self.symbol_table@,
            ops: self.op_table@,
            log: notes(self.log@),
        }
    }

    pub open spec fn wf(&self) -> bool {
        self.pos <= self.token_list@.len()
    }

    /// `self` came from `o` by parsing: same tokens, position not behind.
    pub open spec fn follows(&self, o: &Parser) -> bool {
        &&& self.token_list@ == o.token_list@
        &&& self.wf()
        &&& o.pos <= self.pos
    }

    /// `self` has the environment of `o`.
    pub open spec fn same_env(&self, o: &Parser) -> bool {
        &&& self.symbol_table == o.symbol_table
        &&& self.op_table == o.op_table
    }

    pub fn new(token_list: &Vec<Token>) -> (r: Parser)
        ensures
            r.token_list@ == token_list@,
            r.state() == grammar::start(),
            r.wf(),
    {
        let mut v: Vec<Token> = Vec::new();
        let mut i: usize = 0;
        while i < token_list.len()
            invariant
                i <= token_list@.len(),
                v@ == token_list@.subrange(0, i as int),
            decreases token_list@.len() - i,
        {
            v.push(token_list[i].clone());
            assert(token_list@.subrange(0, i + 1) == token_list@.subrange(0, i as int).push(token_list@[i as int]));
            i = i + 1;
        }
        assert(token_list@.subrange(0, i as int) == token_list@);
        let r = Parser {
            token_list: v,
            pos: 0,
            symbol_table: SymbolTable::new(),
            op_table: OperatorTable::new(),
            log: Vec::new(),
        };
        assert(notes(r.log@) =~= Seq::<Note>::empty());
        r
    }

    /// Whether token `i` is the reserved text `x`.
    fn reserved_at(&self, i: usize, x: &str) -> (r: bool)
        ensures
            r == (i < self.tokens().len() && self.tokens()[i as int] == Tok::Reserved(x@)),
            r ==> i < self.token_list@.len(),
    {
        if i < self.token_list.len() {
            assert(self.tokens()[i as int] == self.token_list@[i as int]@);
            match &self.token_list[i] {
                Token::Reserved(sym) => text_is(sym, x),
                _ => false,
            }
        } else {
            false
        }
    }

    /// Whether the current token is the reserved text `x`.
    fn at(&self, x: &str) -> (r: bool)
        ensures
            r == grammar::at(self.tokens(), self.state(), x@),
            r ==> self.pos < self.token_list@.len(),
    {
        self.reserved_at(self.pos, x)
    }

    /// Consumes the current token if it is the reserved text `x`.
    fn expect(&mut self, x: &str) -> (r: bool)
        requires
            old(self).wf(),
        ensures
            r == grammar::at(old(self).tokens(), old(self).state(), x@),
            final(self).state() == (if r {
                grammar::step(old(self).state())
            } else {
                old(self).state()
            }),
            final(self).follows(old(self)),
            final(self).same_env(old(self)),
    {
        let n = self.token_list.len();
        if self.at(x) {
            assert(self.pos < n);
            self.pos = self.pos + 1;
            true
        } else {
            false
        }
    }

    fn unexpected(&self, x: &str) -> (r: ParseError)
        ensures
            r@ == grammar::unexpected(self.tokens(), self.state(), x@),
    {
        let found = if self.pos < self.token_list.len() {
            assert(self.tokens()[self.pos as int] == self.token_list@[self.pos as int]@);
            Some(self.token_list[self.pos].clone())
        } else {
            None
        };
        ParseError::UnexpectedToken { expected: String::from_str(x), found }
    }

    /// Consumes the reserved text `x`, or fails without moving.
    fn consume(&mut self, x: &str) -> (r: Result<(), ParseError>)
        requires
            old(self).wf(),
        ensures
            final(self).follows(old(self)),
            final(self).same_env(old(self)),
            match grammar::consume(old(self).tokens(), old(self).state(), x@) {
                Ok(s1) => r is Ok && final(self).state() == s1,
                Err(e) => res_unit(r) == Err::<(), Fault>(e) && final(self).state() == old(self).state(),
            },
    {
        if self.expect(x) {
            Ok(())
        } else {
            Err(self.unexpected(x))
        }
    }

    /// The identifier at the current position, if there is one.
    fn ident_here(&self) -> (r: Option<String>)
        ensures
            match grammar::ident_at(self.tokens(), self.state()) {
                Some(n) => r is Some && r->0@ == n,
                None => r is None,
            },
            r is Some ==> self.pos < self.token_list@.len(),
    {
        if self.pos < self.token_list.len() {
            assert(self.tokens()[self.pos as int] == self.token_list@[self.pos as int]@);
            match &self.token_list[self.pos] {
                Token::Ident(n) => Some(n.clone()),
                _ => None,
            }
        } else {
            None
        }
    }

    /// Consumes an identifier, or fails without moving.
    fn next_ident(&mut self) -> (r: Result<String, ParseError>)
        requires
            old(self).wf(),
        ensures
            final(self).follows(old(self)),
            final(self).same_env(old(self)),
            match grammar::ident_at(old(self).tokens(), old(self).state()) {
                Some(n) => r is Ok && r->Ok_0@ == n && final(self).state() == grammar::step(
                    old(self).state(),
                ),
                None => r is Err && r->Err_0@ == Fault::MissingIdentifier && final(self).state()
                    == old(self).state(),
            },
    {
        let len = self.token_list.len();
        match self.ident_here() {
            Some(n) => {
                assert(self.pos < len);
                self.pos = self.pos + 1;
                Ok(n)
            },
            None => Err(ParseError::MissingIdentifier),
        }
    }

    /// Appends an entry to the output.
    fn report(&mut self, o: Output)
        requires
            old(self).wf(),
        ensures
            final(self).follows(old(self)),
            final(self).same_env(old(self)),
            final(self).pos == old(self).pos,
            final(self).state() == grammar::note(old(self).state(), o@),
    {
        let ghost v = o@;
        self.log.push(o);
        assert(notes(self.log@) =~= notes(old(self).log@).push(v));
    }
}

} // verus!

verus! {

impl Parser {
    /// `self` came from `o` by a parse whose outcome is `r`, as `p` states.
    pub open spec fn parsed(&self, o: &Parser, r: Result<Node, ParseError>, p: grammar::Parsed) -> bool {
        &&& self.follows(o)
        &&& self.same_env(o)
        &&& (self.state(), res(r)) == p
    }

    fn additive(&mut self) -> (r: Option<BKind>)
        requires
            old(self).wf(),
        ensures
            r == grammar::additive(old(self).tokens(), old(self).state()),
            final(self).state() == (if r is Some {
                grammar::step(old(self).state())
            } else {
                old(self).state()
            }),
            final(self).follows(old(self)),
            final(self).same_env(old(self)),
    {
        if self.expect("+") {
            Some(BKind::Add)
        } else if self.expect("-") {
            Some(BKind::Sub)
        } else {
            None
        }
    }

    fn multiplicative(&mut self) -> (r: Option<BKind>)
        requires
            old(self).wf(),
        ensures
            r == grammar::multiplicative(old(self).tokens(), old(self).state()),
            final(self).state() == (if r is Some {
                grammar::step(old(self).state())
            } else {
                old(self).state()
            }),
            final(self).follows(old(self)),
            final(self).same_env(old(self)),
    {
        if self.expect("*") {
            Some(BKind::Mul)
        } else if self.expect("/") {
            Some(BKind::Div)
        } else {
            None
        }
    }

    fn prefix(&mut self) -> (r: Option<UKind>)
        requires
            old(self).wf(),
        ensures
            r == grammar::prefix_op(old(self).tokens(), old(self).state()),
            final(self).state() == (if r is Some {
                grammar::step(old(self).state())
            } else {
                old(self).state()
            }),
            final(self).follows(old(self)),
            final(self).same_env(old(self)),
    {
        if self.expect("-") {
            Some(UKind::Neg)
        } else if self.expect("sin") {
            Some(UKind::Sin)
        } else if self.expect("cos") {
            Some(UKind::Cos)
        } else if self.expect("tan") {
            Some(UKind::Tan)
        } else if self.expect("exp") {
            Some(UKind::Exp)
        } else if self.expect("log") {
            Some(UKind::Log)
        } else {
            None
        }
    }

    /// Parses an expression.
    pub fn expr(&mut self) -> (r: Result<Node, ParseError>)
        requires
            old(self).wf(),
        ensures
            final(self).parsed(old(self), r, grammar::expr(old(self).tokens(), old(self).state())),
            r is Ok ==> old(self).pos < final(self).pos,
        decreases old(self).token_list@.len() - old(self).pos, 6nat,
    {
        self.add()
    }

    fn add(&mut self) -> (r: Result<Node, ParseError>)
        requires
            old(self).wf(),
        ensures
            final(self).parsed(old(self), r, grammar::sum(old(self).tokens(), old(self).state())),
            r is Ok ==> old(self).pos < final(self).pos,
        decreases old(self).token_list@.len() - old(self).pos, 5nat,
    {
        match self.mul() {
            Ok(n) => self.add_rest(n),
            Err(e) => Err(e),
        }
    }

    fn add_rest(&mut self, acc: Node) -> (r: Result<Node, ParseError>)
        requires
            old(self).wf(),
        ensures
            final(self).parsed(
                old(self),
                r,
                grammar::sum_rest(old(self).tokens(), old(self).state(), acc@),
            ),
        decreases old(self).token_list@.len() - old(self).pos, 0nat,
    {
        match self.additive() {
            Some(k) => match self.mul() {
                Ok(n) => self.add_rest(Node::binary(k, acc, n)),
                Err(e) => Err(e),
            },
            None => Ok(acc),
        }
    }

    fn mul(&mut self) -> (r: Result<Node, ParseError>)
        requires
            old(self).wf(),
        ensures
            final(self).parsed(old(self), r, grammar::term(old(self).tokens(), old(self).state())),
            r is Ok ==> old(self).pos < final(self).pos,
        decreases old(self).token_list@.len() - old(self).pos, 4nat,
    {
        match self.power() {
            Ok(n) => self.mul_rest(n),
            Err(e) => Err(e),
        }
    }

    fn mul_rest(&mut self, acc: Node) -> (r: Result<Node, ParseError>)
        requires
            old(self).wf(),
        ensures
            final(self).parsed(
                old(self),
                r,
                grammar::term_rest(old(self).tokens(), old(self).state(), acc@),
            ),
        decreases old(self).token_list@.len() - old(self).pos, 0nat,
    {
        match self.multiplicative() {
            Some(k) => match self.power() {
                Ok(n) => self.mul_rest(Node::binary(k, acc, n)),
                Err(e) => Err(e),
            },
            None => Ok(acc),
        }
    }

    fn power(&mut self) -> (r: Result<Node, ParseError>)
        requires
            old(self).wf(),
        ensures
            final(self).parsed(old(self), r, grammar::power(old(self).tokens(), old(self).state())),
            r is Ok ==> old(self).pos < final(self).pos,
        decreases old(self).token_list@.len() - old(self).pos, 3nat,
    {
        match self.unary() {
            Ok(n) => if self.expect("^") {
                match self.power() {
                    Ok(m) => Ok(Node::binary(BKind::Pow, n, m)),
                    Err(e) => Err(e),
                }
            } else {
                Ok(n)
            },
            Err(e) => Err(e),
        }
    }

    fn unary(&mut self) -> (r: Result<Node, ParseError>)
        requires
            old(self).wf(),
        ensures
            final(self).parsed(old(self), r, grammar::unary(old(self).tokens(), old(self).state())),
            r is Ok ==> old(self).pos < final(self).pos,
        decreases old(self).token_list@.len() - old(self).pos, 2nat,
    {
        if self.expect("+") {
            return self.unary();
        }
        match self.prefix() {
            Some(k) => match self.unary() {
                Ok(n) => Ok(Node::unary(k, n)),
                Err(e) => Err(e),
            },
            None => self.prim(),
        }
    }

    fn prim(&mut self) -> (r: Result<Node, ParseError>)
        requires
            old(self).wf(),
        ensures
            final(self).parsed(old(self), r, grammar::prim(old(self).tokens(), old(self).state())),
            r is Ok ==> old(self).pos < final(self).pos,
        decreases old(self).token_list@.len() - old(self).pos, 1nat,
    {
        if self.pos >= self.token_list.len() {
            return Err(self.unexpected("an expression"));
        }
        assert(self.tokens()[self.pos as int] == self.token_list@[self.pos as int]@);
        let token = self.token_list[self.pos].clone();
        match token {
            Token::Reserved(x) => {
                if text_is(&x, "(") {
                    self.pos = self.pos + 1;
                    match self.expr() {
                        Ok(n) => match self.consume(")") {
                            Ok(()) => Ok(n),
                            Err(e) => Err(e),
                        },
                        Err(e) => Err(e),
                    }
                } else if text_is(&x, "dif") {
                    self.pos = self.pos + 1;
                    self.dif_call()
                } else {
                    Err(self.unexpected("an expression"))
                }
            },
            Token::Ident(name) => match self.symbol_table.find(&name) {
                Some(v) => {
                    self.pos = self.pos + 1;
                    Ok(v)
                },
                None => match self.op_table.find(&name) {
                    Some(j) => {
                        self.pos = self.pos + 1;
                        self.invoke(j)
                    },
                    None => {
                        self.pos = self.pos + 1;
                        self.undeclared(name)
                    },
                },
            },
            Token::Num(v) => {
                self.pos = self.pos + 1;
                Ok(Node::Num { val: v })
            },
        }
    }

    fn dif_call(&mut self) -> (r: Result<Node, ParseError>)
        requires
            old(self).wf(),
        ensures
            final(self).parsed(old(self), r, grammar::dif_call(old(self).tokens(), old(self).state())),
        decreases old(self).token_list@.len() - old(self).pos, 0nat,
    {
        match self.consume("(") {
            Ok(()) => {},
            Err(e) => return Err(e),
        }
        let a = match self.expr() {
            Ok(a) => a,
            Err(e) => return Err(e),
        };
        match self.consume(",") {
            Ok(()) => {},
            Err(e) => return Err(e),
        }
        let b = match self.expr() {
            Ok(b) => b,
            Err(e) => return Err(e),
        };
        match self.consume(")") {
            Ok(()) => {},
            Err(e) => return Err(e),
        }
        Ok(Node::dif(a, b))
    }

    /// The arguments of a call of macro `j`, and the expansion.
    fn invoke(&mut self, j: usize) -> (r: Result<Node, ParseError>)
        requires
            old(self).wf(),
            j < old(self).op_table@.len(),
        ensures
            final(self).parsed(
                old(self),
                r,
                grammar::invoke(old(self).tokens(), old(self).state(), old(self).op_table@[j as int]),
            ),
        decreases old(self).token_list@.len() - old(self).pos, 0nat,
    {
        match self.consume("(") {
            Ok(()) => {},
            Err(e) => return Err(e),
        }
        assert(models(Seq::<Node>::empty()) =~= Seq::<Expr>::empty());
        match self.args(Vec::new()) {
            Ok(a) => {
                let op = &self.op_table.vec[j];
                assert(self.op_table@[j as int] == op@);
                Ok(op.construct(&op.cont, &a))
            },
            Err(e) => Err(e),
        }
    }

    fn undeclared(&mut self, name: String) -> (r: Result<Node, ParseError>)
        requires
            old(self).wf(),
        ensures
            final(self).parsed(
                old(self),
                r,
                grammar::undeclared(old(self).tokens(), old(self).state(), name@),
            ),
        decreases old(self).token_list@.len() - old(self).pos, 0nat,
    {
        assert(models(Seq::<Node>::empty()) =~= Seq::<Expr>::empty());
        if self.expect("(") {
            match self.args(Vec::new()) {
                Ok(_) => {
                    self.report(Output::Error(ParseError::UndeclaredOperator(name)));
                    Ok(Node::Num { val: 0 })
                },
                Err(e) => Err(e),
            }
        } else {
            self.report(Output::Error(ParseError::UndeclaredVariable(name)));
            Ok(Node::Num { val: 0 })
        }
    }

    /// `expr (',' expr)* ')'`, appended to `acc`.
    fn args(&mut self, acc: Vec<Node>) -> (r: Result<Vec<Node>, ParseError>)
        requires
            old(self).wf(),
        ensures
            final(self).follows(old(self)),
            final(self).same_env(old(self)),
            (final(self).state(), res_list(r)) == grammar::args(
                old(self).tokens(),
                old(self).state(),
                models(acc@),
            ),
        decreases old(self).token_list@.len() - old(self).pos, 7nat,
    {
        match self.expr() {
            Ok(e) => {
                let mut acc = acc;
                let ghost before = models(acc@);
                let ghost m = e@;
                acc.push(e);
                assert(models(acc@) =~= before.push(m));
                if self.expect(",") {
                    self.args(acc)
                } else {
                    match self.consume(")") {
                        Ok(()) => Ok(acc),
                        Err(err) => Err(err),
                    }
                }
            },
            Err(err) => Err(err),
        }
    }
}

} // verus!

verus! {

impl Parser {
    /// `self` came from `o` by a statement parse whose outcome is `r`, as `d`
    /// states.
    pub open spec fn did(&self, o: &Parser, r: Result<(), ParseError>, d: grammar::Done) -> bool {
        &&& self.follows(o)
        &&& (self.state(), res_unit(r)) == d
    }

    /// `ident ('=' expr)? (',' ident ('=' expr)?)*` after `var`.
    fn decls(&mut self) -> (r: Result<(), ParseError>)
        requires
            old(self).wf(),
        ensures
            final(self).did(old(self), r, grammar::decls(old(self).tokens(), old(self).state())),
        decreases old(self).token_list@.len() - old(self).pos,
    {
        let name = match self.next_ident() {
            Ok(n) => n,
            Err(e) => return Err(e),
        };
        let var = if self.expect("=") {
            match self.expr() {
                Ok(n) => Node::Var { name, point: Some(Box::new(n)) },
                Err(e) => return Err(e),
            }
        } else {
            Node::Var { name, point: None }
        };
        self.symbol_table.push(var);
        if self.expect(",") {
            self.decls()
        } else {
            Ok(())
        }
    }

    /// `ident (',' ident)* ')'`: formal parameters, appended to `acc`.
    fn params(&mut self, acc: Vec<Node>) -> (r: Result<Vec<Node>, ParseError>)
        requires
            old(self).wf(),
        ensures
            final(self).follows(old(self)),
            (final(self).state(), res_list(r)) == grammar::params(
                old(self).tokens(),
                old(self).state(),
                models(acc@),
            ),
        decreases old(self).token_list@.len() - old(self).pos,
    {
        let name = match self.next_ident() {
            Ok(n) => n,
            Err(e) => return Err(e),
        };
        let v = Node::Var { name, point: None };
        self.symbol_table.push(v.clone());
        let mut acc = acc;
        let ghost before = models(acc@);
        let ghost m = v@;
        acc.push(v);
        assert(models(acc@) =~= before.push(m));
        if self.expect(",") {
            self.params(acc)
        } else {
            match self.consume(")") {
                Ok(()) => Ok(acc),
                Err(e) => Err(e),
            }
        }
    }

    /// `ident '(' params '{' expr '}'` after `op`.
    fn define(&mut self) -> (r: Result<(), ParseError>)
        requires
            old(self).wf(),
        ensures
            final(self).did(old(self), r, grammar::define(old(self).tokens(), old(self).state())),
    {
        let name = match self.next_ident() {
            Ok(n) => n,
            Err(e) => return Err(e),
        };
        match self.consume("(") {
            Ok(()) => {},
            Err(e) => return Err(e),
        }
        assert(models(Seq::<Node>::empty()) =~= Seq::<Expr>::empty());
        let formals = match self.params(Vec::new()) {
            Ok(f) => f,
            Err(e) => return Err(e),
        };
        match self.consume("{") {
            Ok(()) => {},
            Err(e) => return Err(e),
        }
        let body = match self.expr() {
            Ok(b) => b,
            Err(e) => return Err(e),
        };
        match self.consume("}") {
            Ok(()) => {},
            Err(e) => return Err(e),
        }
        self.op_table.push(Operator { name, args: formals, cont: body });
        Ok(())
    }

    /// Binds the newest variable named `name` to `value`, or reports it
    /// undeclared.
    fn assign(&mut self, name: String, value: Node)
        requires
            old(self).wf(),
        ensures
            final(self).follows(old(self)),
            final(self).state() == grammar::assign(old(self).state(), name@, value@),
    {
        if !self.symbol_table.set(&name, value) {
            self.report(Output::Error(ParseError::UndeclaredVariable(name)));
        }
    }

    fn statement_body(&mut self) -> (r: Result<(), ParseError>)
        requires
            old(self).wf(),
        ensures
            final(self).did(
                old(self),
                r,
                grammar::statement_body(old(self).tokens(), old(self).state()),
            ),
    {
        if self.expect("var") {
            return self.decls();
        }
        if self.expect("op") {
            return self.define();
        }
        if self.expect("print") {
            return match self.expr() {
                Ok(n) => {
                    let text = n.render();
                    self.report(Output::Print(text));
                    Ok(())
                },
                Err(e) => Err(e),
            };
        }
        let len = self.token_list.len();
        let target = self.ident_here();
        match target {
            Some(name) => {
                assert(self.pos < len);
                if self.reserved_at(self.pos + 1, "=") {
                    self.pos = self.pos + 2;
                    return match self.expr() {
                        Ok(n) => {
                            self.assign(name, n);
                            Ok(())
                        },
                        Err(e) => Err(e),
                    };
                }
            },
            None => {},
        }
        match self.expr() {
            Ok(_) => Ok(()),
            Err(e) => Err(e),
        }
    }

    /// Parses and executes one statement, up to and with its `;`.
    pub fn stmt(&mut self) -> (r: Result<(), ParseError>)
        requires
            old(self).wf(),
        ensures
            final(self).did(old(self), r, grammar::statement(old(self).tokens(), old(self).state())),
            r is Ok ==> old(self).pos < final(self).pos,
    {
        match self.statement_body() {
            Ok(()) => self.consume(";"),
            Err(e) => Err(e),
        }
    }

    /// Parses and executes statements until the tokens run out. A grammar
    /// error stops parsing and is returned; an undeclared name is reported in
    /// `log` and parsing goes on.
    pub fn prog(&mut self) -> (r: Result<(), ParseError>)
        requires
            old(self).wf(),
        ensures
            final(self).did(old(self), r, grammar::program(old(self).tokens(), old(self).state())),
    {
        let n = self.token_list.len();
        while self.pos < n
            invariant
                self.follows(old(self)),
                n == self.token_list@.len(),
                grammar::program(old(self).tokens(), old(self).state()) == grammar::program(
                    self.tokens(),
                    self.state(),
                ),
            decreases n - self.pos,
        {
            match self.stmt() {
                Ok(()) => {},
                Err(e) => return Err(e),
            }
        }
        Ok(())
    }
}

} // verus!
