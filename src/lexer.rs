use vstd::prelude::*;
use crate::text::{string_of, text_is};

verus! {

/// A token: a reserved word or symbol, an identifier, or an unsigned number.
#[derive(Debug)]
pub enum Token {
    Reserved(String),
    Ident(String),
    Num(u32),
}

/// Model of a token: texts are character sequences.
pub enum Tok {
    Reserved(Seq<char>),
    Ident(Seq<char>),
    Num(u32),
}

impl View for Token {
    type V = Tok;

    open spec fn view(&self) -> Tok {
        match self {
            Token::Reserved(s) => Tok::Reserved(s@),
            Token::Ident(s) => Tok::Ident(s@),
            Token::Num(v) => Tok::Num(*v),
        }
    }
}

impl Clone for Token {
    fn clone(&self) -> (r: Token)
        ensures
            r == *self,
    {
        match self {
            Token::Reserved(s) => Token::Reserved(s.clone()),
            Token::Ident(s) => Token::Ident(s.clone()),
            Token::Num(v) => Token::Num(*v),
        }
    }
}

impl PartialEq for Token {
    fn eq(&self, other: &Token) -> (r: bool)
        ensures
            r == (self@ == other@),
    {
        match (self, other) {
            (Token::Reserved(a), Token::Reserved(b)) => *a == *b,
            (Token::Ident(a), Token::Ident(b)) => *a == *b,
            (Token::Num(a), Token::Num(b)) => *a == *b,
            _ => false,
        }
    }
}

impl vstd::std_specs::cmp::PartialEqSpecImpl for Token {
    open spec fn obeys_eq_spec() -> bool {
        true
    }

    open spec fn eq_spec(&self, other: &Token) -> bool {
        self@ == other@
    }
}

/// Models of a sequence of tokens.
pub open spec fn toks(v: Seq<Token>) -> Seq<Tok> {
    v.map_values(|t: Token| t@)
}

/// Whether `c` has Unicode's White_Space property.
pub open spec fn white_space(c: char) -> bool {
    ('\u{9}' <= c && c <= '\u{d}') || c == ' ' || c == '\u{85}' || c == '\u{a0}' || c == '\u{1680}'
        || ('\u{2000}' <= c && c <= '\u{200a}') || c == '\u{2028}' || c == '\u{2029}'
        || c == '\u{202f}' || c == '\u{205f}' || c == '\u{3000}'
}

fn is_white(c: char) -> (r: bool)
    ensures
        r == white_space(c),
{
    ('\u{9}' <= c && c <= '\u{d}') || c == ' ' || c == '\u{85}' || c == '\u{a0}' || c == '\u{1680}'
        || ('\u{2000}' <= c && c <= '\u{200a}') || c == '\u{2028}' || c == '\u{2029}'
        || c == '\u{202f}' || c == '\u{205f}' || c == '\u{3000}'
}

/// Relies on `str::chars` collected into a `Vec`: the characters of `s` in
/// order.
#[verifier::external_body]
fn chars_of(s: &str) -> (r: Vec<char>)
    ensures
        r@ == s@,
{
    s.chars().collect()
}

pub open spec fn is_punct(c: char) -> bool {
    c == '=' || c == '+' || c == '-' || c == '*' || c == '/' || c == '^' || c == '.' || c == ','
        || c == ':' || c == ';' || c == '(' || c == ')' || c == '{' || c == '}' || c == '['
        || c == ']'
}

pub open spec fn is_letter(c: char) -> bool {
    ('a' <= c && c <= 'z') || ('A' <= c && c <= 'Z') || c == '_'
}

pub open spec fn is_digit(c: char) -> bool {
    '0' <= c && c <= '9'
}

pub open spec fn is_word_char(c: char) -> bool {
    is_letter(c) || is_digit(c)
}

pub open spec fn is_keyword(w: Seq<char>) -> bool {
    w == "var"@ || w == "op"@ || w == "sin"@ || w == "cos"@ || w == "tan"@ || w == "exp"@
        || w == "log"@ || w == "dif"@ || w == "print"@
}

/// Position of the first newline at or after `i`, or the end.
pub open spec fn line_end(c: Seq<char>, i: int) -> int
    decreases c.len() - i,
{
    if i >= c.len() || c[i] == '\n' {
        i
    } else {
        line_end(c, i + 1)
    }
}

/// End of the run of word characters that starts at `i`.
pub open spec fn word_end(c: Seq<char>, i: int) -> int
    decreases c.len() - i,
{
    if i >= c.len() || !is_word_char(c[i]) {
        i
    } else {
        word_end(c, i + 1)
    }
}

/// End of the run of decimal digits that starts at `i`.
pub open spec fn digits_end(c: Seq<char>, i: int) -> int
    decreases c.len() - i,
{
    if i >= c.len() || !is_digit(c[i]) {
        i
    } else {
        digits_end(c, i + 1)
    }
}

pub open spec fn digit_value(c: char) -> u32 {
    (c as u32 - '0' as u32) as u32
}

/// The value of the digits `c[i..j]`, modulo 2^32.
pub open spec fn digits_value(c: Seq<char>, i: int, j: int) -> u32
    decreases j - i,
{
    if j <= i {
        0
    } else {
        digits_value(c, i, j - 1).wrapping_mul(10).wrapping_add(digit_value(c[j - 1]))
    }
}

/// `line_end` stays within `i..=c.len()`.
pub proof fn lemma_line_end(c: Seq<char>, i: int)
    ensures
        i <= line_end(c, i),
        i <= c.len() ==> line_end(c, i) <= c.len(),
    decreases c.len() - i,
{
    if !(i >= c.len() || c[i] == '\n') {
        lemma_line_end(c, i + 1);
    }
}

/// `word_end` ends a run of word characters.
pub proof fn lemma_word_end(c: Seq<char>, i: int)
    ensures
        i <= word_end(c, i),
        i <= c.len() ==> word_end(c, i) <= c.len(),
        forall|k: int| i <= k < word_end(c, i) ==> is_word_char(#[trigger] c[k]),
        word_end(c, i) < c.len() ==> !is_word_char(c[word_end(c, i)]),
    decreases c.len() - i,
{
    if !(i >= c.len() || !is_word_char(c[i])) {
        lemma_word_end(c, i + 1);
    }
}

/// `digits_end` ends a run of digits.
pub proof fn lemma_digits_end(c: Seq<char>, i: int)
    ensures
        i <= digits_end(c, i),
        i <= c.len() ==> digits_end(c, i) <= c.len(),
        forall|k: int| i <= k < digits_end(c, i) ==> is_digit(#[trigger] c[k]),
        digits_end(c, i) < c.len() ==> !is_digit(c[digits_end(c, i)]),
    decreases c.len() - i,
{
    if !(i >= c.len() || !is_digit(c[i])) {
        lemma_digits_end(c, i + 1);
    }
}

/// The tokens of `c` from position `i` on. Comments run from `//` to the end
/// of the line; scanning stops at the first character that starts no token.
pub open spec fn lex(c: Seq<char>, i: int) -> Seq<Tok>
    decreases c.len() - i,
{
    if i < 0 || i >= c.len() {
        Seq::empty()
    } else if c[i] == '/' && i + 1 < c.len() && c[i + 1] == '/' {
        proof {
            lemma_line_end(c, i + 2);
        }
        lex(c, line_end(c, i + 2))
    } else if white_space(c[i]) {
        lex(c, i + 1)
    } else if is_punct(c[i]) {
        seq![Tok::Reserved(seq![c[i]])] + lex(c, i + 1)
    } else if is_letter(c[i]) {
        proof {
            lemma_word_end(c, i);
        }
        let w = c.subrange(i, word_end(c, i));
        let t = if is_keyword(w) {
            Tok::Reserved(w)
        } else {
            Tok::Ident(w)
        };
        seq![t] + lex(c, word_end(c, i))
    } else if is_digit(c[i]) {
        proof {
            lemma_digits_end(c, i);
        }
        seq![Tok::Num(digits_value(c, i, digits_end(c, i)))] + lex(c, digits_end(c, i))
    } else {
        Seq::empty()
    }
}

} // verus!

verus! {

fn punct(c: char) -> (r: bool)
    ensures
        r == is_punct(c),
{
    c == '=' || c == '+' || c == '-' || c == '*' || c == '/' || c == '^' || c == '.' || c == ','
        || c == ':' || c == ';' || c == '(' || c == ')' || c == '{' || c == '}' || c == '['
        || c == ']'
}

fn letter(c: char) -> (r: bool)
    ensures
        r == is_letter(c),
{
    ('a' <= c && c <= 'z') || ('A' <= c && c <= 'Z') || c == '_'
}

fn digit(c: char) -> (r: bool)
    ensures
        r == is_digit(c),
{
    '0' <= c && c <= '9'
}

fn keyword(w: &String) -> (r: bool)
    ensures
        r == is_keyword(w@),
{
    text_is(w, "var") || text_is(w, "op") || text_is(w, "sin") || text_is(w, "cos") || text_is(
        w,
        "tan",
    ) || text_is(w, "exp") || text_is(w, "log") || text_is(w, "dif") || text_is(w, "print")
}

/// Scans source text into tokens.
pub struct Lexer {
    pub chs: Vec<char>,
    pub pos: usize,
}

impl Lexer {
    pub fn new(code: String) -> (r: Lexer)
        ensures
            r.chs@ == code@,
            r.pos == 0,
    {
        Lexer { chs: chars_of(code.as_str()), pos: 0 }
    }

    /// The tokens of the text from the current position on (see `lex`).
    pub fn tokenize(&mut self) -> (r: Vec<Token>)
        ensures
            toks(r@) == lex(old(self).chs@, old(self).pos as int),
            final(self).chs@ == old(self).chs@,
    {
        let ghost c = self.chs@;
        let ghost start = self.pos as int;
        let n = self.chs.len();
        let mut token_list: Vec<Token> = Vec::new();
        if self.pos >= n {
            return token_list;
        }
        loop
            invariant
                self.chs@ == c,
                n == c.len(),
                self.pos <= n,
                lex(c, start) == toks(token_list@) + lex(c, self.pos as int),
            ensures
                lex(c, start) == toks(token_list@),
            decreases n - self.pos,
        {
            if self.pos >= n {
                assert(toks(token_list@) + lex(c, self.pos as int) =~= toks(token_list@));
                break;
            }
            let ghost i = self.pos as int;
            let ghost before = toks(token_list@);
            let ch = self.chs[self.pos];
            if ch == '/' && self.pos + 1 < n && self.chs[self.pos + 1] == '/' {
                let mut j = self.pos + 2;
                while j < n && self.chs[j] != '\n'
                    invariant
                        self.chs@ == c,
                        n == c.len(),
                        i + 2 <= j <= n,
                        line_end(c, i + 2) == line_end(c, j as int),
                    decreases n - j,
                {
                    j = j + 1;
                }
                self.pos = j;
                continue;
            }
            if is_white(ch) {
                self.pos = self.pos + 1;
                continue;
            }
            if punct(ch) {
                let mut text: Vec<char> = Vec::new();
                text.push(ch);
                let t = Token::Reserved(string_of(&text));
                assert(t@ == Tok::Reserved(seq![ch])) by {
                    assert(text@ =~= seq![ch]);
                }
                token_list.push(t);
                assert(toks(token_list@) =~= before + seq![t@]);
                self.pos = self.pos + 1;
                continue;
            }
            if letter(ch) {
                proof {
                    lemma_word_end(c, i);
                }
                let mut w: Vec<char> = Vec::new();
                let mut j = self.pos;
                while j < n && (letter(self.chs[j]) || digit(self.chs[j]))
                    invariant
                        self.chs@ == c,
                        n == c.len(),
                        0 <= i <= j <= n,
                        word_end(c, i) == word_end(c, j as int),
                        w@ == c.subrange(i, j as int),
                    decreases n - j,
                {
                    let ghost prev = w@;
                    w.push(self.chs[j]);
                    assert(w@ == prev.push(c[j as int]));
                    assert(c.subrange(i, j as int + 1) =~= prev.push(c[j as int]));
                    j = j + 1;
                }
                let name = string_of(&w);
                let t = if keyword(&name) {
                    Token::Reserved(name)
                } else {
                    Token::Ident(name)
                };
                token_list.push(t);
                assert(toks(token_list@) =~= before + seq![t@]);
                self.pos = j;
                continue;
            }
            if digit(ch) {
                proof {
                    lemma_digits_end(c, i);
                }
                let mut val: u32 = 0;
                let mut j = self.pos;
                while j < n && digit(self.chs[j])
                    invariant
                        self.chs@ == c,
                        n == c.len(),
                        0 <= i <= j <= n,
                        digits_end(c, i) == digits_end(c, j as int),
                        val == digits_value(c, i, j as int),
                    decreases n - j,
                {
                    let d = self.chs[j] as u32 - '0' as u32;
                    val = val.wrapping_mul(10).wrapping_add(d);
                    j = j + 1;
                }
                let t = Token::Num(val);
                token_list.push(t);
                assert(toks(token_list@) =~= before + seq![t@]);
                self.pos = j;
                continue;
            }
            assert(lex(c, i) =~= Seq::<Tok>::empty());
            assert(toks(token_list@) + lex(c, self.pos as int) =~= toks(token_list@));
            break;
        }
        token_list
    }
}

} // verus!
