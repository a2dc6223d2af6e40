use hello_proc_macro_derive::decl::{Error, Shape};
use hello_proc_macro_derive::parse::parse_declaration;
use hello_proc_macro_derive::token::Token;

fn ident(s: &str) -> Token {
    Token::Ident(s.to_string())
}

fn punct(c: char) -> Token {
    Token::Punct(c)
}

fn pair(a: &str, b: &str) -> (String, String) {
    (a.to_string(), b.to_string())
}

#[test]
fn parses_unit_struct() {
    let d = parse_declaration(&vec![ident("struct"), ident("Mountain"), punct(';')]).unwrap();
    assert_eq!(d.name, "Mountain");
    assert!(matches!(d.shape, Shape::Unit));
}

#[test]
fn parses_tuple_struct() {
    let input = vec![
        ident("struct"),
        ident("Pair"),
        punct('('),
        ident("u32"),
        punct(','),
        ident("u64"),
        punct(')'),
        punct(';'),
    ];
    let d = parse_declaration(&input).unwrap();
    assert_eq!(d.name, "Pair");
    match d.shape {
        Shape::TupleFields(tys) => assert_eq!(tys, vec!["u32".to_string(), "u64".to_string()]),
        other => panic!("expected tuple fields, got {:?}", other),
    }
}

#[test]
fn parses_empty_tuple_struct() {
    let input = vec![ident("struct"), ident("Husk"), punct('('), punct(')'), punct(';')];
    let d = parse_declaration(&input).unwrap();
    match d.shape {
        Shape::TupleFields(tys) => assert!(tys.is_empty()),
        other => panic!("expected tuple fields, got {:?}", other),
    }
}

#[test]
fn parses_named_fields() {
    let input = vec![
        ident("struct"),
        ident("Pebble"),
        punct('{'),
        ident("weight"),
        punct(':'),
        ident("u32"),
        punct('}'),
    ];
    let d = parse_declaration(&input).unwrap();
    assert_eq!(d.name, "Pebble");
    match d.shape {
        Shape::NamedFields(fields) => assert_eq!(fields, vec![pair("weight", "u32")]),
        other => panic!("expected named fields, got {:?}", other),
    }
}

#[test]
fn parses_named_fields_with_trailing_comma() {
    let input = vec![
        ident("struct"),
        ident("Rock"),
        punct('{'),
        ident("mass"),
        punct(':'),
        ident("u64"),
        punct(','),
        ident("hue"),
        punct(':'),
        ident("u8"),
        punct(','),
        punct('}'),
    ];
    let d = parse_declaration(&input).unwrap();
    match d.shape {
        Shape::NamedFields(fields) => {
            assert_eq!(fields, vec![pair("mass", "u64"), pair("hue", "u8")])
        },
        other => panic!("expected named fields, got {:?}", other),
    }
}

#[test]
fn parses_enum_variants() {
    let input = vec![
        ident("enum"),
        ident("Signal"),
        punct('{'),
        ident("Go"),
        punct(','),
        ident("Slow"),
        punct(','),
        ident("Stop"),
        punct('}'),
    ];
    let d = parse_declaration(&input).unwrap();
    assert_eq!(d.name, "Signal");
    match d.shape {
        Shape::Enum(variants) => assert_eq!(
            variants,
            vec!["Go".to_string(), "Slow".to_string(), "Stop".to_string()]
        ),
        other => panic!("expected enum variants, got {:?}", other),
    }
}

#[test]
fn parses_empty_enum() {
    let input = vec![ident("enum"), ident("Never"), punct('{'), punct('}')];
    let d = parse_declaration(&input).unwrap();
    match d.shape {
        Shape::Enum(variants) => assert!(variants.is_empty()),
        other => panic!("expected enum variants, got {:?}", other),
    }
}

#[test]
fn rejects_unknown_keyword() {
    let input = vec![ident("union"), ident("Blob"), punct(';')];
    assert_eq!(parse_declaration(&input).unwrap_err(), Error::MalformedDeclaration);
}

#[test]
fn rejects_punct_in_name_position() {
    let input = vec![ident("struct"), punct('!'), punct(';')];
    assert_eq!(parse_declaration(&input).unwrap_err(), Error::MalformedDeclaration);
}

#[test]
fn rejects_ill_formed_name_token() {
    // An identifier token may not begin with a digit.
    let input = vec![ident("struct"), ident("3sided"), punct(';')];
    assert_eq!(parse_declaration(&input).unwrap_err(), Error::MalformedDeclaration);
}

#[test]
fn rejects_empty_name_token() {
    let input = vec![ident("struct"), ident(""), punct(';')];
    assert_eq!(parse_declaration(&input).unwrap_err(), Error::MalformedDeclaration);
}

#[test]
fn rejects_missing_semicolon_after_tuple() {
    let input = vec![
        ident("struct"),
        ident("Pair"),
        punct('('),
        ident("u32"),
        punct(')'),
    ];
    assert_eq!(parse_declaration(&input).unwrap_err(), Error::MalformedDeclaration);
}

#[test]
fn rejects_field_without_type() {
    let input = vec![
        ident("struct"),
        ident("Pebble"),
        punct('{'),
        ident("weight"),
        punct('}'),
    ];
    assert_eq!(parse_declaration(&input).unwrap_err(), Error::MalformedDeclaration);
}
