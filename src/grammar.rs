use vstd::prelude::*;
use crate::env::{bound, expand, newest, newest_operator, Macro};
use crate::lexer::Tok;
use crate::node::{bin, derivative, num, rendered, un, BKind, Expr, UKind};

verus! {

/// Model of a parse error.
pub enum Fault {
    UndeclaredVariable(Seq<char>),
    UndeclaredOperator(Seq<char>),
    UnexpectedToken { expected: Seq<char>, found: Option<Tok> },
    MissingIdentifier,
}

/// Model of one entry of the output: a printed line, or a reported error
/// after which parsing went on.
pub enum Note {
    Print(Seq<char>),
    Error(Fault),
}

/// The state that parsing threads through: the position in the tokens, the
/// symbol table, the operator table and the output so far.
pub struct State {
    pub pos: int,
    pub syms: Seq<Expr>,
    pub ops: Seq<Macro>,
    pub log: Seq<Note>,
}

/// Result of parsing an expression.
pub type Parsed = (State, Result<Expr, Fault>);

/// Result of parsing a statement or a program.
pub type Done = (State, Result<(), Fault>);

pub open spec fn step(s: State) -> State {
    State { pos: s.pos + 1, ..s }
}

pub open spec fn note(s: State, n: Note) -> State {
    State { log: s.log.push(n), ..s }
}

/// Whether the token at the current position is the reserved text `x`.
pub open spec fn at(t: Seq<Tok>, s: State, x: Seq<char>) -> bool {
    0 <= s.pos < t.len() && t[s.pos] == Tok::Reserved(x)
}

/// The token at the current position, if any.
pub open spec fn found(t: Seq<Tok>, s: State) -> Option<Tok> {
    if 0 <= s.pos < t.len() {
        Some(t[s.pos])
    } else {
        None
    }
}

pub open spec fn unexpected(t: Seq<Tok>, s: State, x: Seq<char>) -> Fault {
    Fault::UnexpectedToken { expected: x, found: found(t, s) }
}

/// Consumes the reserved text `x`, or fails.
pub open spec fn consume(t: Seq<Tok>, s: State, x: Seq<char>) -> Result<State, Fault> {
    if at(t, s, x) {
        Ok(step(s))
    } else {
        Err(unexpected(t, s, x))
    }
}

/// The identifier at the current position, if there is one.
pub open spec fn ident_at(t: Seq<Tok>, s: State) -> Option<Seq<char>> {
    if 0 <= s.pos < t.len() {
        match t[s.pos] {
            Tok::Ident(n) => Some(n),
            _ => None,
        }
    } else {
        None
    }
}

/// What a failed expression parse expects.
pub open spec fn an_expression() -> Seq<char> {
    "an expression"@
}

/// The additive operator at the current position.
pub open spec fn additive(t: Seq<Tok>, s: State) -> Option<BKind> {
    if at(t, s, "+"@) {
        Some(BKind::Add)
    } else if at(t, s, "-"@) {
        Some(BKind::Sub)
    } else {
        None
    }
}

/// The multiplicative operator at the current position.
pub open spec fn multiplicative(t: Seq<Tok>, s: State) -> Option<BKind> {
    if at(t, s, "*"@) {
        Some(BKind::Mul)
    } else if at(t, s, "/"@) {
        Some(BKind::Div)
    } else {
        None
    }
}

/// The prefix operator at the current position (a leading `+` is none).
pub open spec fn prefix_op(t: Seq<Tok>, s: State) -> Option<UKind> {
    if at(t, s, "-"@) {
        Some(UKind::Neg)
    } else if at(t, s, "sin"@) {
        Some(UKind::Sin)
    } else if at(t, s, "cos"@) {
        Some(UKind::Cos)
    } else if at(t, s, "tan"@) {
        Some(UKind::Tan)
    } else if at(t, s, "exp"@) {
        Some(UKind::Exp)
    } else if at(t, s, "log"@) {
        Some(UKind::Log)
    } else {
        None
    }
}

// Every parse that succeeds consumes input. The definitions below check
// that where a later step depends on it, which keeps them total; the parser
// proves that the check always passes.

/// `expr := sum`
pub open spec fn expr(t: Seq<Tok>, s: State) -> Parsed
    decreases t.len() - s.pos, 6nat,
{
    sum(t, s)
}

/// `sum := term (('+'|'-') term)*`, left-associative.
pub open spec fn sum(t: Seq<Tok>, s: State) -> Parsed
    decreases t.len() - s.pos, 5nat,
{
    let (s1, r) = term(t, s);
    match r {
        Ok(n) => if s.pos < s1.pos <= t.len() {
            sum_rest(t, s1, n)
        } else {
            (s1, Ok(n))
        },
        Err(e) => (s1, Err(e)),
    }
}

/// The operators and terms that follow `acc` in a sum.
pub open spec fn sum_rest(t: Seq<Tok>, s: State, acc: Expr) -> Parsed
    decreases t.len() - s.pos, 0nat,
{
    match additive(t, s) {
        Some(k) => {
            let (s1, r) = term(t, step(s));
            match r {
                Ok(n) => if s.pos < s1.pos <= t.len() {
                    sum_rest(t, s1, bin(k, acc, n))
                } else {
                    (s1, Ok(bin(k, acc, n)))
                },
                Err(e) => (s1, Err(e)),
            }
        },
        None => (s, Ok(acc)),
    }
}

/// `term := power (('*'|'/') power)*`, left-associative.
pub open spec fn term(t: Seq<Tok>, s: State) -> Parsed
    decreases t.len() - s.pos, 4nat,
{
    let (s1, r) = power(t, s);
    match r {
        Ok(n) => if s.pos < s1.pos <= t.len() {
            term_rest(t, s1, n)
        } else {
            (s1, Ok(n))
        },
        Err(e) => (s1, Err(e)),
    }
}

/// The operators and powers that follow `acc` in a term.
pub open spec fn term_rest(t: Seq<Tok>, s: State, acc: Expr) -> Parsed
    decreases t.len() - s.pos, 0nat,
{
    match multiplicative(t, s) {
        Some(k) => {
            let (s1, r) = power(t, step(s));
            match r {
                Ok(n) => if s.pos < s1.pos <= t.len() {
                    term_rest(t, s1, bin(k, acc, n))
                } else {
                    (s1, Ok(bin(k, acc, n)))
                },
                Err(e) => (s1, Err(e)),
            }
        },
        None => (s, Ok(acc)),
    }
}

/// `power := unary ('^' power)?`, right-associative.
pub open spec fn power(t: Seq<Tok>, s: State) -> Parsed
    decreases t.len() - s.pos, 3nat,
{
    let (s1, r) = unary(t, s);
    match r {
        Ok(n) => if at(t, s1, "^"@) && s.pos <= s1.pos {
            let (s2, r2) = power(t, step(s1));
            match r2 {
                Ok(m) => (s2, Ok(bin(BKind::Pow, n, m))),
                Err(e) => (s2, Err(e)),
            }
        } else {
            (s1, Ok(n))
        },
        Err(e) => (s1, Err(e)),
    }
}

/// `unary := ('+'|'-'|'sin'|'cos'|'tan'|'exp'|'log') unary | prim`
pub open spec fn unary(t: Seq<Tok>, s: State) -> Parsed
    decreases t.len() - s.pos, 2nat,
{
    if at(t, s, "+"@) {
        unary(t, step(s))
    } else {
        match prefix_op(t, s) {
            Some(k) => {
                let (s1, r) = unary(t, step(s));
                match r {
                    Ok(n) => (s1, Ok(un(k, n))),
                    Err(e) => (s1, Err(e)),
                }
            },
            None => prim(t, s),
        }
    }
}

/// `prim := '(' expr ')' | 'dif' '(' expr ',' expr ')' | identifier | number`
///
/// An identifier is a variable if one of that name is declared (it yields
/// the variable with its binding), else a macro call if a macro of that name
/// is defined. Otherwise the error is reported and parsing goes on with the
/// constant 0.
pub open spec fn prim(t: Seq<Tok>, s: State) -> Parsed
    decreases t.len() - s.pos, 1nat,
{
    if !(0 <= s.pos < t.len()) {
        (s, Err(unexpected(t, s, an_expression())))
    } else {
        match t[s.pos] {
            Tok::Reserved(x) => if x == "("@ {
                let (s1, r) = expr(t, step(s));
                match r {
                    Ok(n) => match consume(t, s1, ")"@) {
                        Ok(s2) => (s2, Ok(n)),
                        Err(e) => (s1, Err(e)),
                    },
                    Err(e) => (s1, Err(e)),
                }
            } else if x == "dif"@ {
                dif_call(t, step(s))
            } else {
                (s, Err(unexpected(t, s, an_expression())))
            },
            Tok::Ident(name) => match newest(s.syms, name) {
                Some(i) => (step(s), Ok(s.syms[i])),
                None => match newest_operator(s.ops, name) {
                    Some(j) => invoke(t, step(s), s.ops[j]),
                    None => undeclared(t, step(s), name),
                },
            },
            Tok::Num(v) => (step(s), Ok(num(v))),
        }
    }
}

/// `'(' expr ',' expr ')'` after `dif`: the derivative of the first
/// expression with respect to the second.
pub open spec fn dif_call(t: Seq<Tok>, s: State) -> Parsed
    decreases t.len() - s.pos, 0nat,
{
    match consume(t, s, "("@) {
        Ok(s1) => {
            let (s2, r) = expr(t, s1);
            match r {
                Ok(a) => match consume(t, s2, ","@) {
                    Ok(s3) => if s.pos <= s2.pos {
                        let (s4, r2) = expr(t, s3);
                        match r2 {
                            Ok(b) => match consume(t, s4, ")"@) {
                                Ok(s5) => (s5, Ok(derivative(a, b))),
                                Err(e) => (s4, Err(e)),
                            },
                            Err(e) => (s4, Err(e)),
                        }
                    } else {
                        (s3, Ok(a))
                    },
                    Err(e) => (s2, Err(e)),
                },
                Err(e) => (s2, Err(e)),
            }
        },
        Err(e) => (s, Err(e)),
    }
}

/// The argument list of a call of the macro `m`, and its expansion.
pub open spec fn invoke(t: Seq<Tok>, s: State, m: Macro) -> Parsed
    decreases t.len() - s.pos, 0nat,
{
    match consume(t, s, "("@) {
        Ok(s1) => {
            let (s2, r) = args(t, s1, Seq::empty());
            match r {
                Ok(a) => (s2, Ok(expand(m, a))),
                Err(e) => (s2, Err(e)),
            }
        },
        Err(e) => (s, Err(e)),
    }
}

/// An identifier that names neither a variable nor a macro: with an argument
/// list it is an undeclared macro (the arguments are still parsed), else an
/// undeclared variable. Either is reported, and stands for the constant 0.
pub open spec fn undeclared(t: Seq<Tok>, s: State, name: Seq<char>) -> Parsed
    decreases t.len() - s.pos, 0nat,
{
    if at(t, s, "("@) {
        let (s1, r) = args(t, step(s), Seq::empty());
        match r {
            Ok(_) => (note(s1, Note::Error(Fault::UndeclaredOperator(name))), Ok(num(0))),
            Err(e) => (s1, Err(e)),
        }
    } else {
        (note(s, Note::Error(Fault::UndeclaredVariable(name))), Ok(num(0)))
    }
}

/// `expr (',' expr)* ')'`, appended to `acc`.
pub open spec fn args(t: Seq<Tok>, s: State, acc: Seq<Expr>) -> (State, Result<Seq<Expr>, Fault>)
    decreases t.len() - s.pos, 7nat,
{
    let (s1, r) = expr(t, s);
    match r {
        Ok(e) => if at(t, s1, ","@) && s.pos <= s1.pos {
            args(t, step(s1), acc.push(e))
        } else {
            match consume(t, s1, ")"@) {
                Ok(s2) => (s2, Ok(acc.push(e))),
                Err(e) => (s1, Err(e)),
            }
        },
        Err(e) => (s1, Err(e)),
    }
}

} // verus!

verus! {

/// Assignment: binds the newest variable named `name` to `value`, or reports
/// it undeclared and leaves the symbol table as it was.
pub open spec fn assign(s: State, name: Seq<char>, value: Expr) -> State {
    match newest(s.syms, name) {
        Some(i) => State { syms: s.syms.update(i, bound(name, value)), ..s },
        None => note(s, Note::Error(Fault::UndeclaredVariable(name))),
    }
}

/// `ident ('=' expr)? (',' ident ('=' expr)?)*` after `var`: each variable is
/// declared once its initializer is parsed.
pub open spec fn decls(t: Seq<Tok>, s: State) -> Done
    decreases t.len() - s.pos,
{
    match ident_at(t, s) {
        Some(name) => {
            let s1 = step(s);
            let (s2, r) = if at(t, s1, "="@) {
                let (s2, r) = expr(t, step(s1));
                match r {
                    Ok(n) => (s2, Ok(Expr::Var { name, point: Some(Box::new(n)) })),
                    Err(e) => (s2, Err(e)),
                }
            } else {
                (s1, Ok(Expr::Var { name, point: None }))
            };
            match r {
                Ok(v) => {
                    let s3 = State { syms: s2.syms.push(v), ..s2 };
                    if at(t, s3, ","@) && s.pos <= s3.pos {
                        decls(t, step(s3))
                    } else {
                        (s3, Ok(()))
                    }
                },
                Err(e) => (s2, Err(e)),
            }
        },
        None => (s, Err(Fault::MissingIdentifier)),
    }
}

/// `ident (',' ident)* ')'`: formal parameters, each declared as an unbound
/// variable and appended to `acc`.
pub open spec fn params(t: Seq<Tok>, s: State, acc: Seq<Expr>) -> (State, Result<Seq<Expr>, Fault>)
    decreases t.len() - s.pos,
{
    match ident_at(t, s) {
        Some(name) => {
            let v = Expr::Var { name, point: None };
            let s1 = State { syms: s.syms.push(v), ..step(s) };
            if at(t, s1, ","@) {
                params(t, step(s1), acc.push(v))
            } else {
                match consume(t, s1, ")"@) {
                    Ok(s2) => (s2, Ok(acc.push(v))),
                    Err(e) => (s1, Err(e)),
                }
            }
        },
        None => (s, Err(Fault::MissingIdentifier)),
    }
}

/// `ident '(' params '{' expr '}'` after `op`: defines a macro.
pub open spec fn define(t: Seq<Tok>, s: State) -> Done {
    match ident_at(t, s) {
        Some(name) => match consume(t, step(s), "("@) {
            Ok(s1) => {
                let (s2, r) = params(t, s1, Seq::empty());
                match r {
                    Ok(formals) => match consume(t, s2, "{"@) {
                        Ok(s3) => {
                            let (s4, r2) = expr(t, s3);
                            match r2 {
                                Ok(body) => match consume(t, s4, "}"@) {
                                    Ok(s5) => (
                                        State {
                                            ops: s5.ops.push(Macro { name, params: formals, body }),
                                            ..s5
                                        },
                                        Ok(()),
                                    ),
                                    Err(e) => (s4, Err(e)),
                                },
                                Err(e) => (s4, Err(e)),
                            }
                        },
                        Err(e) => (s2, Err(e)),
                    },
                    Err(e) => (s2, Err(e)),
                }
            },
            Err(e) => (step(s), Err(e)),
        },
        None => (s, Err(Fault::MissingIdentifier)),
    }
}

/// A statement without its closing `;`.
pub open spec fn statement_body(t: Seq<Tok>, s: State) -> Done {
    if at(t, s, "var"@) {
        decls(t, step(s))
    } else if at(t, s, "op"@) {
        define(t, step(s))
    } else if at(t, s, "print"@) {
        let (s1, r) = expr(t, step(s));
        match r {
            Ok(n) => (note(s1, Note::Print(rendered(n))), Ok(())),
            Err(e) => (s1, Err(e)),
        }
    } else if ident_at(t, s) is Some && at(t, step(s), "="@) {
        let (s1, r) = expr(t, step(step(s)));
        match r {
            Ok(n) => (assign(s1, ident_at(t, s)->0, n), Ok(())),
            Err(e) => (s1, Err(e)),
        }
    } else {
        let (s1, r) = expr(t, s);
        match r {
            Ok(_) => (s1, Ok(())),
            Err(e) => (s1, Err(e)),
        }
    }
}

/// A statement and its closing `;`.
pub open spec fn statement(t: Seq<Tok>, s: State) -> Done {
    let (s1, r) = statement_body(t, s);
    match r {
        Ok(_) => match consume(t, s1, ";"@) {
            Ok(s2) => (s2, Ok(())),
            Err(e) => (s1, Err(e)),
        },
        Err(e) => (s1, Err(e)),
    }
}

/// Statements until the tokens run out, or the first error that stops
/// parsing.
pub open spec fn program(t: Seq<Tok>, s: State) -> Done
    decreases t.len() - s.pos,
{
    if !(0 <= s.pos < t.len()) {
        (s, Ok(()))
    } else {
        let (s1, r) = statement(t, s);
        match r {
            Ok(_) => if s.pos < s1.pos <= t.len() {
                program(t, s1)
            } else {
                (s1, Ok(()))
            },
            Err(e) => (s1, Err(e)),
        }
    }
}

/// The empty state at the start of a session.
pub open spec fn start() -> State {
    State { pos: 0, syms: Seq::empty(), ops: Seq::empty(), log: Seq::empty() }
}

} // verus!

verus! {

/// Assigning to a name that no declaration introduced reports it as an
/// undeclared variable and leaves the symbol table and the macros as they
/// were.
pub proof fn lemma_undeclared_assignment(s: State, name: Seq<char>, value: Expr)
    requires
        newest(s.syms, name) is None,
    ensures
        assign(s, name, value).syms == s.syms,
        assign(s, name, value).ops == s.ops,
        assign(s, name, value).log == s.log.push(Note::Error(Fault::UndeclaredVariable(name))),
{
}

} // verus!
