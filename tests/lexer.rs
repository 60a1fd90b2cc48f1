use symdiff::lexer::{Lexer, Token};

fn lex_text(code: &str) -> Vec<Token> {
    Lexer::new(code.to_string()).tokenize()
}

fn reserved(s: &str) -> Token {
    Token::Reserved(s.to_string())
}

fn ident(s: &str) -> Token {
    Token::Ident(s.to_string())
}

#[test]
fn lexer_new_starts_at_zero() {
    let lexer = Lexer::new("ab".to_string());
    assert_eq!(lexer.chs, vec!['a', 'b']);
    assert_eq!(lexer.pos, 0);
}

#[test]
fn tokenize_statement() {
    assert_eq!(
        lex_text("var x = 12;"),
        vec![reserved("var"), ident("x"), reserved("="), Token::Num(12), reserved(";")]
    );
}

#[test]
fn tokenize_keywords_and_identifiers() {
    assert_eq!(
        lex_text("print sin cos tan exp log dif op var vary _a1"),
        vec![
            reserved("print"),
            reserved("sin"),
            reserved("cos"),
            reserved("tan"),
            reserved("exp"),
            reserved("log"),
            reserved("dif"),
            reserved("op"),
            reserved("var"),
            ident("vary"),
            ident("_a1"),
        ]
    );
}

#[test]
fn tokenize_all_punctuation() {
    let expected: Vec<Token> = "=+-*/^.,:;(){}[]".chars().map(|c| Token::Reserved(c.to_string())).collect();
    assert_eq!(lex_text("= + - * / ^ . , : ; ( ) { } [ ]"), expected);
}

#[test]
fn tokenize_skips_comments() {
    assert_eq!(lex_text("x // note here\ny"), vec![ident("x"), ident("y")]);
    assert_eq!(lex_text("x // to the end"), vec![ident("x")]);
}

#[test]
fn tokenize_slash_at_end() {
    assert_eq!(lex_text("x /"), vec![ident("x"), reserved("/")]);
}

#[test]
fn tokenize_name_and_number_at_end() {
    assert_eq!(lex_text("abc"), vec![ident("abc")]);
    assert_eq!(lex_text("42"), vec![Token::Num(42)]);
    assert_eq!(lex_text("2x"), vec![Token::Num(2), ident("x")]);
}

#[test]
fn tokenize_stops_at_unknown_character() {
    assert_eq!(lex_text("a # b"), vec![ident("a")]);
}

#[test]
fn tokenize_number_wraps_at_u32() {
    assert_eq!(lex_text("4294967295"), vec![Token::Num(4294967295)]);
    assert_eq!(lex_text("4294967296"), vec![Token::Num(0)]);
}

#[test]
fn tokenize_empty_and_blank() {
    assert_eq!(lex_text(""), Vec::<Token>::new());
    assert_eq!(lex_text(" \t\n"), Vec::<Token>::new());
}

#[test]
fn tokenize_whitespace_matches_unicode() {
    for code in 0u32..=0x10FFFF {
        if let Some(ch) = char::from_u32(code) {
            let text = format!("a{}b", ch);
            let got = lex_text(&text);
            if ch.is_whitespace() {
                assert_eq!(got, vec![ident("a"), ident("b")], "char {:#x}", code);
            } else if !ch.is_ascii_alphanumeric() && ch != '_' && !"=+-*/^.,:;(){}[]".contains(ch) {
                assert_eq!(got, vec![ident("a")], "char {:#x}", code);
            }
        }
    }
}
