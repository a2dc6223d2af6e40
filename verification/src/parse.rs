//! The declaration parser: from a raw token sequence to a structured
//! declaration, or failure.
//!
//! The accepted grammar is a token-level core of type declarations:
//!
//! ```text
//! declaration  ::=  "struct" ident ";"
//!                |  "struct" ident "(" ident-list ")" ";"
//!                |  "struct" ident "{" field-list "}"
//!                |  "enum"   ident "{" ident-list "}"
//! ident-list   ::=  empty | ident ("," ident)* ","?
//! field-list   ::=  empty | field ("," field)* ","?
//! field        ::=  ident ":" ident
//! ```
//!
//! Field types are single identifiers; enumerated variants carry no payload.
//! Any token sequence outside this grammar is rejected as a malformed
//! declaration, with no partial result.
use vstd::prelude::*;

use crate::decl::{DeclV, Declaration, Error, Shape, ShapeV};
use crate::token::{check_ident, wf_ident, Token, TokenV};

verus! {

/// Parses `ident ("," ident)*` with an optional trailing comma, yielding the
/// identifiers in order; `None` when the tokens do not have that form.
pub open spec fn spec_parse_ident_list(ts: Seq<TokenV>) -> Option<Seq<Seq<char>>>
    decreases ts.len(),
{
    if ts.len() == 0 {
        Some(Seq::empty())
    } else if !(ts[0] is Ident && wf_ident(ts[0]->Ident_0)) {
        None
    } else if ts.len() == 1 {
        Some(seq![ts[0]->Ident_0])
    } else if ts[1] == TokenV::Punct(',') {
        match spec_parse_ident_list(ts.subrange(2, ts.len() as int)) {
            Some(rest) => Some(seq![ts[0]->Ident_0] + rest),
            None => None,
        }
    } else {
        None
    }
}

/// Parses `ident ":" ident ("," ident ":" ident)*` with an optional trailing
/// comma, yielding the (field name, type name) pairs in order.
pub open spec fn spec_parse_field_list(ts: Seq<TokenV>) -> Option<Seq<(Seq<char>, Seq<char>)>>
    decreases ts.len(),
{
    if ts.len() == 0 {
        Some(Seq::empty())
    } else if ts.len() < 3 {
        None
    } else if ts[0] is Ident && wf_ident(ts[0]->Ident_0) && ts[1] == TokenV::Punct(':')
        && ts[2] is Ident && wf_ident(ts[2]->Ident_0) {
        if ts.len() == 3 {
            Some(seq![(ts[0]->Ident_0, ts[2]->Ident_0)])
        } else if ts[3] == TokenV::Punct(',') {
            match spec_parse_field_list(ts.subrange(4, ts.len() as int)) {
                Some(rest) => Some(seq![(ts[0]->Ident_0, ts[2]->Ident_0)] + rest),
                None => None,
            }
        } else {
            None
        }
    } else {
        None
    }
}

/// The shape of a `struct` declaration: everything after the keyword and the
/// name, which stand at positions 0 and 1 of `ts`.
pub open spec fn spec_parse_struct_shape(ts: Seq<TokenV>) -> Option<ShapeV>
    recommends
        ts.len() >= 3,
{
    if ts.len() == 3 && ts[2] == TokenV::Punct(';') {
        Some(ShapeV::Unit)
    } else if ts.len() >= 5 && ts[2] == TokenV::Punct('(') && ts[ts.len() - 2]
        == TokenV::Punct(')') && ts[ts.len() - 1] == TokenV::Punct(';') {
        match spec_parse_ident_list(ts.subrange(3, ts.len() - 2)) {
            Some(tys) => Some(ShapeV::TupleFields(tys)),
            None => None,
        }
    } else if ts.len() >= 4 && ts[2] == TokenV::Punct('{') && ts[ts.len() - 1]
        == TokenV::Punct('}') {
        match spec_parse_field_list(ts.subrange(3, ts.len() - 1)) {
            Some(fields) => Some(ShapeV::NamedFields(fields)),
            None => None,
        }
    } else {
        None
    }
}

/// The declaration grammar: `Some` with the structured declaration exactly
/// when `ts` is a valid type declaration, `None` otherwise.
pub open spec fn spec_parse(ts: Seq<TokenV>) -> Option<DeclV> {
    if ts.len() < 3 {
        None
    } else if !(ts[1] is Ident && wf_ident(ts[1]->Ident_0)) {
        None
    } else if ts[0] == TokenV::Ident("struct"@) {
        match spec_parse_struct_shape(ts) {
            Some(shape) => Some(DeclV { name: ts[1]->Ident_0, shape }),
            None => None,
        }
    } else if ts[0] == TokenV::Ident("enum"@) {
        if ts.len() >= 4 && ts[2] == TokenV::Punct('{') && ts[ts.len() - 1]
            == TokenV::Punct('}') {
            match spec_parse_ident_list(ts.subrange(3, ts.len() - 1)) {
                Some(variants) => Some(DeclV { name: ts[1]->Ident_0, shape: ShapeV::Enum(variants) }),
                None => None,
            }
        } else {
            None
        }
    } else {
        None
    }
}

/// The canonical token form of an identifier list: the identifiers joined
/// by commas, without a trailing comma.
pub open spec fn ident_list_tokens(l: Seq<Seq<char>>) -> Seq<TokenV>
    decreases l.len(),
{
    if l.len() == 0 {
        Seq::empty()
    } else if l.len() == 1 {
        seq![TokenV::Ident(l[0])]
    } else {
        seq![TokenV::Ident(l[0]), TokenV::Punct(',')] + ident_list_tokens(
            l.subrange(1, l.len() as int),
        )
    }
}

/// The canonical token form of a field list: `name : type` pairs joined by
/// commas, without a trailing comma.
pub open spec fn field_list_tokens(l: Seq<(Seq<char>, Seq<char>)>) -> Seq<TokenV>
    decreases l.len(),
{
    if l.len() == 0 {
        Seq::empty()
    } else if l.len() == 1 {
        seq![TokenV::Ident(l[0].0), TokenV::Punct(':'), TokenV::Ident(l[0].1)]
    } else {
        seq![
            TokenV::Ident(l[0].0),
            TokenV::Punct(':'),
            TokenV::Ident(l[0].1),
            TokenV::Punct(','),
        ] + field_list_tokens(l.subrange(1, l.len() as int))
    }
}

/// The canonical token form of a declaration: the token sequence that
/// writes it out, one way among those the grammar accepts.
pub open spec fn decl_tokens(d: DeclV) -> Seq<TokenV> {
    match d.shape {
        ShapeV::Unit => seq![
            TokenV::Ident("struct"@),
            TokenV::Ident(d.name),
            TokenV::Punct(';'),
        ],
        ShapeV::TupleFields(tys) => seq![
            TokenV::Ident("struct"@),
            TokenV::Ident(d.name),
            TokenV::Punct('('),
        ] + ident_list_tokens(tys) + seq![TokenV::Punct(')'), TokenV::Punct(';')],
        ShapeV::NamedFields(fields) => seq![
            TokenV::Ident("struct"@),
            TokenV::Ident(d.name),
            TokenV::Punct('{'),
        ] + field_list_tokens(fields) + seq![TokenV::Punct('}')],
        ShapeV::Enum(variants) => seq![
            TokenV::Ident("enum"@),
            TokenV::Ident(d.name),
            TokenV::Punct('{'),
        ] + ident_list_tokens(variants) + seq![TokenV::Punct('}')],
    }
}

/// Is `t` exactly the punctuation token `c`?
fn is_punct(t: &Token, c: char) -> (r: bool)
    ensures
        r == (t@ == TokenV::Punct(c)),
{
    match t {
        Token::Punct(c2) => *c2 == c,
        _ => false,
    }
}

/// Parses the identifier list standing at positions `lo..hi` of `input`.
fn parse_ident_list(input: &Vec<Token>, lo: usize, hi: usize) -> (r: Option<Vec<String>>)
    requires
        lo <= hi <= input.len(),
    ensures
        match r {
            Some(v) => spec_parse_ident_list(input.deep_view().subrange(lo as int, hi as int))
                == Some(v.deep_view()),
            None => spec_parse_ident_list(input.deep_view().subrange(lo as int, hi as int))
                is None,
        },
    decreases hi - lo,
{
    let ghost sub = input.deep_view().subrange(lo as int, hi as int);
    if lo == hi {
        let v: Vec<String> = Vec::new();
        proof {
            assert(v.deep_view() =~= Seq::<Seq<char>>::empty());
        }
        Some(v)
    } else {
        match &input[lo] {
            Token::Ident(s) => {
                if !check_ident(s) {
                    return None;
                }
                if lo + 1 == hi {
                    let mut v: Vec<String> = Vec::new();
                    v.push(s.clone());
                    proof {
                        assert(v.deep_view() =~= seq![s@]);
                    }
                    Some(v)
                } else if is_punct(&input[lo + 1], ',') {
                    proof {
                        assert(sub.subrange(2, sub.len() as int) =~= input.deep_view().subrange(
                            lo as int + 2,
                            hi as int,
                        ));
                    }
                    match parse_ident_list(input, lo + 2, hi) {
                        Some(rest) => {
                            let ghost r0 = rest.deep_view();
                            let mut v = rest;
                            v.insert(0, s.clone());
                            proof {
                                assert(v.deep_view() =~= seq![s@] + r0);
                            }
                            Some(v)
                        },
                        None => None,
                    }
                } else {
                    None
                }
            },
            _ => None,
        }
    }
}

/// Parses the field list standing at positions `lo..hi` of `input`.
fn parse_field_list(input: &Vec<Token>, lo: usize, hi: usize) -> (r: Option<Vec<(String, String)>>)
    requires
        lo <= hi <= input.len(),
    ensures
        match r {
            Some(v) => spec_parse_field_list(input.deep_view().subrange(lo as int, hi as int))
                == Some(v.deep_view()),
            None => spec_parse_field_list(input.deep_view().subrange(lo as int, hi as int))
                is None,
        },
    decreases hi - lo,
{
    let ghost sub = input.deep_view().subrange(lo as int, hi as int);
    if lo == hi {
        let v: Vec<(String, String)> = Vec::new();
        proof {
            assert(v.deep_view() =~= Seq::<(Seq<char>, Seq<char>)>::empty());
        }
        Some(v)
    } else if hi - lo < 3 {
        None
    } else {
        let field_name: &String = match &input[lo] {
            Token::Ident(s) => s,
            _ => {
                return None;
            },
        };
        if !check_ident(field_name) {
            return None;
        }
        if !is_punct(&input[lo + 1], ':') {
            return None;
        }
        let field_ty: &String = match &input[lo + 2] {
            Token::Ident(s) => s,
            _ => {
                return None;
            },
        };
        if !check_ident(field_ty) {
            return None;
        }
        if lo + 3 == hi {
            let mut v: Vec<(String, String)> = Vec::new();
            v.push((field_name.clone(), field_ty.clone()));
            proof {
                assert(v.deep_view() =~= seq![(field_name@, field_ty@)]);
            }
            Some(v)
        } else if is_punct(&input[lo + 3], ',') {
            proof {
                assert(sub.subrange(4, sub.len() as int) =~= input.deep_view().subrange(
                    lo as int + 4,
                    hi as int,
                ));
            }
            match parse_field_list(input, lo + 4, hi) {
                Some(rest) => {
                    let ghost r0 = rest.deep_view();
                    let mut v = rest;
                    v.insert(0, (field_name.clone(), field_ty.clone()));
                    proof {
                        assert(v.deep_view() =~= seq![(field_name@, field_ty@)] + r0);
                    }
                    Some(v)
                },
                None => None,
            }
        } else {
            None
        }
    }
}

/// The declaration parser: produces the structured declaration exactly when
/// the token sequence is a valid type declaration, and fails with
/// [`Error::MalformedDeclaration`], with no partial result, otherwise.
pub fn parse_declaration(input: &Vec<Token>) -> (r: Result<Declaration, Error>)
    ensures
        (r matches Ok(d) ==> spec_parse(input.deep_view()) == Some(d@)),
        r is Err <==> spec_parse(input.deep_view()) is None,
        (r matches Err(e) ==> e == Error::MalformedDeclaration),
{
    let ghost ts = input.deep_view();
    let n: usize = input.len();
    if n < 3 {
        return Err(Error::MalformedDeclaration);
    }
    let name: String = match &input[1] {
        Token::Ident(s) => {
            if !check_ident(s) {
                return Err(Error::MalformedDeclaration);
            }
            s.clone()
        },
        _ => {
            return Err(Error::MalformedDeclaration);
        },
    };
    let kw: &String = match &input[0] {
        Token::Ident(s) => s,
        _ => {
            return Err(Error::MalformedDeclaration);
        },
    };
    let kw_struct: String = String::from_str("struct");
    let kw_enum: String = String::from_str("enum");
    if *kw == kw_struct {
        if n == 3 && is_punct(&input[2], ';') {
            return Ok(Declaration { name, shape: Shape::Unit });
        }
        if n >= 5 && is_punct(&input[2], '(') && is_punct(&input[n - 2], ')') && is_punct(
            &input[n - 1],
            ';',
        ) {
            return match parse_ident_list(input, 3, n - 2) {
                Some(tys) => Ok(Declaration { name, shape: Shape::TupleFields(tys) }),
                None => Err(Error::MalformedDeclaration),
            };
        }
        if n >= 4 && is_punct(&input[2], '{') && is_punct(&input[n - 1], '}') {
            return match parse_field_list(input, 3, n - 1) {
                Some(fields) => Ok(Declaration { name, shape: Shape::NamedFields(fields) }),
                None => Err(Error::MalformedDeclaration),
            };
        }
        Err(Error::MalformedDeclaration)
    } else if *kw == kw_enum {
        if n >= 4 && is_punct(&input[2], '{') && is_punct(&input[n - 1], '}') {
            return match parse_ident_list(input, 3, n - 1) {
                Some(variants) => Ok(Declaration { name, shape: Shape::Enum(variants) }),
                None => Err(Error::MalformedDeclaration),
            };
        }
        Err(Error::MalformedDeclaration)
    } else {
        Err(Error::MalformedDeclaration)
    }
}

} // verus!
