use hello_proc_macro_derive::hello_proc_macro_derive;
use hello_proc_macro_derive::token::{render, Token};

fn ident(s: &str) -> Token {
    Token::Ident(s.to_string())
}

fn punct(c: char) -> Token {
    Token::Punct(c)
}

#[test]
fn renders_tokens_joined_by_spaces() {
    let ts = vec![ident("struct"), ident("Mountain"), punct(';')];
    assert_eq!(render(&ts), "struct Mountain ;");
}

#[test]
fn renders_empty_sequence_as_empty_text() {
    let ts: Vec<Token> = Vec::new();
    assert_eq!(render(&ts), "");
}

#[test]
fn renders_literal_with_quotes() {
    let ts = vec![Token::Lit("hello there".to_string()), punct(';')];
    assert_eq!(render(&ts), "\"hello there\" ;");
}

#[test]
fn renders_the_mountain_fragment_as_source_text() {
    let input = vec![ident("struct"), ident("Mountain"), punct(';')];
    let fragment = hello_proc_macro_derive(&input).unwrap();
    assert_eq!(
        render(&fragment),
        "impl HelloProcMacro for Mountain { fn hello_proc_macro ( ) { \
         println ! ( \"Hello, the name of your type is {}\" , \
         stringify ! ( Mountain ) ) } }"
    );
}
