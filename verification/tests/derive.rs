use hello_proc_macro_derive::decl::Error;
use hello_proc_macro_derive::hello_proc_macro_derive;
use hello_proc_macro_derive::token::Token;

fn ident(s: &str) -> Token {
    Token::Ident(s.to_string())
}

fn punct(c: char) -> Token {
    Token::Punct(c)
}

fn lit(s: &str) -> Token {
    Token::Lit(s.to_string())
}

/// The fragment expected for a type named `name`:
/// `impl HelloProcMacro for <name> { fn hello_proc_macro ( ) { println ! ( "..." , stringify ! ( <name> ) ) } }`
fn expected_fragment(name: &str) -> Vec<Token> {
    vec![
        ident("impl"),
        ident("HelloProcMacro"),
        ident("for"),
        ident(name),
        punct('{'),
        ident("fn"),
        ident("hello_proc_macro"),
        punct('('),
        punct(')'),
        punct('{'),
        ident("println"),
        punct('!'),
        punct('('),
        lit("Hello, the name of your type is {}"),
        punct(','),
        ident("stringify"),
        punct('!'),
        punct('('),
        ident(name),
        punct(')'),
        punct(')'),
        punct('}'),
        punct('}'),
    ]
}

fn unit_mountain() -> Vec<Token> {
    vec![ident("struct"), ident("Mountain"), punct(';')]
}

#[test]
fn unit_mountain_derives_fragment() {
    let r = hello_proc_macro_derive(&unit_mountain()).unwrap();
    assert_eq!(r, expected_fragment("Mountain"));
}

#[test]
fn fragment_header_targets_the_type() {
    let r = hello_proc_macro_derive(&unit_mountain()).unwrap();
    assert_eq!(r[2], ident("for"));
    // The implemented type is the identifier `Mountain`, not a literal.
    assert_eq!(r[3], ident("Mountain"));
    assert!(!matches!(r[3], Token::Lit(_)));
}

#[test]
fn named_field_pebble_derives_fragment() {
    let input = vec![
        ident("struct"),
        ident("Pebble"),
        punct('{'),
        ident("weight"),
        punct(':'),
        ident("u32"),
        punct('}'),
    ];
    let r = hello_proc_macro_derive(&input).unwrap();
    assert_eq!(r, expected_fragment("Pebble"));
}

#[test]
fn enum_signal_derives_fragment() {
    let input = vec![
        ident("enum"),
        ident("Signal"),
        punct('{'),
        ident("Go"),
        punct(','),
        ident("Slow"),
        punct(','),
        ident("Stop"),
        punct('}'),
    ];
    let r = hello_proc_macro_derive(&input).unwrap();
    // Variant details are not reflected in the emitted body.
    assert_eq!(r, expected_fragment("Signal"));
}

#[test]
fn determinism_two_invocations_agree() {
    let input = unit_mountain();
    let first = hello_proc_macro_derive(&input).unwrap();
    let second = hello_proc_macro_derive(&input).unwrap();
    assert_eq!(first, second);
}

#[test]
fn shape_independence_same_name_same_fragment() {
    let unit = unit_mountain();
    let named = vec![
        ident("struct"),
        ident("Mountain"),
        punct('{'),
        ident("height"),
        punct(':'),
        ident("u64"),
        punct('}'),
    ];
    let from_unit = hello_proc_macro_derive(&unit).unwrap();
    let from_named = hello_proc_macro_derive(&named).unwrap();
    assert_eq!(from_unit, from_named);
}

#[test]
fn truncated_declaration_is_malformed() {
    let input = vec![ident("struct"), ident("Mountain")];
    let r = hello_proc_macro_derive(&input);
    assert_eq!(r.unwrap_err(), Error::MalformedDeclaration);
}

#[test]
fn empty_input_is_malformed() {
    let input: Vec<Token> = Vec::new();
    let r = hello_proc_macro_derive(&input);
    assert_eq!(r.unwrap_err(), Error::MalformedDeclaration);
}

#[test]
fn function_item_is_malformed() {
    let input = vec![
        ident("fn"),
        ident("main"),
        punct('('),
        punct(')'),
        punct('{'),
        punct('}'),
    ];
    let r = hello_proc_macro_derive(&input);
    assert_eq!(r.unwrap_err(), Error::MalformedDeclaration);
}

#[test]
fn unterminated_body_is_malformed() {
    let input = vec![
        ident("struct"),
        ident("Pebble"),
        punct('{'),
        ident("weight"),
        punct(':'),
        ident("u32"),
    ];
    let r = hello_proc_macro_derive(&input);
    assert_eq!(r.unwrap_err(), Error::MalformedDeclaration);
}
