//! The library's stated laws: determinism, name propagation, shape
//! independence, failure on malformation, and well-formedness of every
//! generated fragment.
use vstd::prelude::*;

use crate::decl::{wf_decl, DeclV, Error, ShapeV};
use crate::generate::{spec_fragment, spec_generate};
use crate::parse::{
    decl_tokens, field_list_tokens, ident_list_tokens, spec_parse, spec_parse_field_list,
    spec_parse_ident_list, spec_parse_struct_shape,
};
use crate::spec_derive;
use crate::token::{balanced, balanced_from, wf_ident, wf_token, wf_tokens, TokenV};

verus! {

/// Determinism: two invocations on the same token sequence yield the same
/// outcome — the identical fragment, or the identical failure.
pub proof fn lemma_determinism(ts1: Seq<TokenV>, ts2: Seq<TokenV>)
    requires
        ts1 == ts2,
    ensures
        spec_derive(ts1) == spec_derive(ts2),
{
}

/// Name propagation: for a declaration named `name`, the fragment's
/// implementation header is `impl HelloProcMacro for <name>`, with the name
/// standing as the identifier token being implemented against — not as a
/// string literal.
pub proof fn lemma_name_propagation(ts: Seq<TokenV>, d: DeclV)
    requires
        spec_parse(ts) == Some(d),
    ensures
        spec_derive(ts) == Ok::<Seq<TokenV>, Error>(spec_fragment(d.name)),
        spec_fragment(d.name)[0] == TokenV::Ident("impl"@),
        spec_fragment(d.name)[1] == TokenV::Ident("HelloProcMacro"@),
        spec_fragment(d.name)[2] == TokenV::Ident("for"@),
        spec_fragment(d.name)[3] == TokenV::Ident(d.name),
{
}

/// Shape independence: two declarations with the same name receive the
/// identical fragment, whatever their shapes.
pub proof fn lemma_shape_independence(d1: DeclV, d2: DeclV)
    requires
        d1.name == d2.name,
    ensures
        spec_generate(d1) == spec_generate(d2),
{
}

/// Failure on malformation: a token sequence that does not parse as a type
/// declaration yields `MalformedDeclaration` and no fragment.
pub proof fn lemma_failure_on_malformation(ts: Seq<TokenV>)
    requires
        spec_parse(ts) is None,
    ensures
        spec_derive(ts) == Err::<Seq<TokenV>, Error>(Error::MalformedDeclaration),
{
}

/// Every identifier an identifier list yields is well-formed.
proof fn lemma_ident_list_wf(ts: Seq<TokenV>)
    ensures
        spec_parse_ident_list(ts) matches Some(l) ==> forall|i: int|
            0 <= i < l.len() ==> wf_ident(#[trigger] l[i]),
    decreases ts.len(),
{
    if ts.len() == 0 {
    } else if ts[0] is Ident && wf_ident(ts[0]->Ident_0) {
        if ts.len() == 1 {
        } else if ts[1] == TokenV::Punct(',') {
            lemma_ident_list_wf(ts.subrange(2, ts.len() as int));
            if spec_parse_ident_list(ts) is Some {
                let l = spec_parse_ident_list(ts)->Some_0;
                let rest = spec_parse_ident_list(ts.subrange(2, ts.len() as int))->Some_0;
                assert forall|i: int| 0 <= i < l.len() implies wf_ident(#[trigger] l[i]) by {
                    if i > 0 {
                        assert(l[i] == rest[i - 1]);
                    }
                }
            }
        }
    }
}

/// Every name a field list yields is well-formed, on both sides of each
/// field.
proof fn lemma_field_list_wf(ts: Seq<TokenV>)
    ensures
        spec_parse_field_list(ts) matches Some(l) ==> forall|i: int|
            0 <= i < l.len() ==> wf_ident(#[trigger] l[i].0) && wf_ident(l[i].1),
    decreases ts.len(),
{
    if ts.len() < 3 {
    } else if ts[0] is Ident && wf_ident(ts[0]->Ident_0) && ts[1] == TokenV::Punct(':')
        && ts[2] is Ident && wf_ident(ts[2]->Ident_0) {
        if ts.len() == 3 {
        } else if ts[3] == TokenV::Punct(',') {
            lemma_field_list_wf(ts.subrange(4, ts.len() as int));
            if spec_parse_field_list(ts) is Some {
                let l = spec_parse_field_list(ts)->Some_0;
                let rest = spec_parse_field_list(ts.subrange(4, ts.len() as int))->Some_0;
                assert forall|i: int| 0 <= i < l.len() implies wf_ident(#[trigger] l[i].0)
                    && wf_ident(l[i].1) by {
                    if i > 0 {
                        assert(l[i] == rest[i - 1]);
                    }
                }
            }
        }
    }
}

/// Parser soundness for the data model: whatever the parser accepts
/// satisfies the declaration invariant — the name and every name inside the
/// shape are well-formed identifiers.
pub proof fn lemma_parse_sound(ts: Seq<TokenV>, d: DeclV)
    requires
        spec_parse(ts) == Some(d),
    ensures
        wf_decl(d),
{
    assert(ts.len() >= 3);
    assert(ts[1] is Ident && wf_ident(ts[1]->Ident_0));
    assert(d.name == ts[1]->Ident_0);
    if ts[0] == TokenV::Ident("struct"@) {
        let sh = spec_parse_struct_shape(ts);
        assert(sh is Some && d.shape == sh->Some_0);
        if ts.len() == 3 && ts[2] == TokenV::Punct(';') {
            assert(d.shape == ShapeV::Unit);
        } else if ts.len() >= 5 && ts[2] == TokenV::Punct('(') && ts[ts.len() - 2]
            == TokenV::Punct(')') && ts[ts.len() - 1] == TokenV::Punct(';') {
            let inner = ts.subrange(3, ts.len() - 2);
            lemma_ident_list_wf(inner);
            assert(d.shape == ShapeV::TupleFields(spec_parse_ident_list(inner)->Some_0));
        } else if ts.len() >= 4 && ts[2] == TokenV::Punct('{') && ts[ts.len() - 1]
            == TokenV::Punct('}') {
            let inner = ts.subrange(3, ts.len() - 1);
            lemma_field_list_wf(inner);
            assert(d.shape == ShapeV::NamedFields(spec_parse_field_list(inner)->Some_0));
        } else {
            assert(false);
        }
    } else {
        assert(ts[0] == TokenV::Ident("enum"@));
        let inner = ts.subrange(3, ts.len() - 1);
        lemma_ident_list_wf(inner);
        assert(d.shape == ShapeV::Enum(spec_parse_ident_list(inner)->Some_0));
    }
}

/// Parsing inverts the canonical printing of an identifier list.
proof fn lemma_ident_list_round_trip(l: Seq<Seq<char>>)
    requires
        forall|i: int| 0 <= i < l.len() ==> wf_ident(#[trigger] l[i]),
    ensures
        spec_parse_ident_list(ident_list_tokens(l)) == Some(l),
    decreases l.len(),
{
    let ts = ident_list_tokens(l);
    if l.len() == 0 {
        assert(Seq::<Seq<char>>::empty() =~= l);
    } else if l.len() == 1 {
        assert(seq![l[0]] =~= l);
    } else {
        let rest = l.subrange(1, l.len() as int);
        lemma_ident_list_round_trip(rest);
        assert(ts.subrange(2, ts.len() as int) =~= ident_list_tokens(rest));
        assert(seq![l[0]] + rest =~= l);
    }
}

/// Parsing inverts the canonical printing of a field list.
proof fn lemma_field_list_round_trip(l: Seq<(Seq<char>, Seq<char>)>)
    requires
        forall|i: int| 0 <= i < l.len() ==> wf_ident(#[trigger] l[i].0) && wf_ident(l[i].1),
    ensures
        spec_parse_field_list(field_list_tokens(l)) == Some(l),
    decreases l.len(),
{
    let ts = field_list_tokens(l);
    if l.len() == 0 {
        assert(Seq::<(Seq<char>, Seq<char>)>::empty() =~= l);
    } else if l.len() == 1 {
        assert(seq![(l[0].0, l[0].1)] =~= l);
    } else {
        let rest = l.subrange(1, l.len() as int);
        lemma_field_list_round_trip(rest);
        assert(ts.subrange(4, ts.len() as int) =~= field_list_tokens(rest));
        assert(seq![(l[0].0, l[0].1)] + rest =~= l);
    }
}

/// Faithful mirroring: writing any well-formed declaration out in canonical
/// token form and parsing it back yields that declaration, name and shape
/// intact.
pub proof fn lemma_parse_inverts_printing(d: DeclV)
    requires
        wf_decl(d),
    ensures
        spec_parse(decl_tokens(d)) == Some(d),
{
    reveal_strlit("struct");
    reveal_strlit("enum");
    let ts = decl_tokens(d);
    assert(DeclV { name: d.name, shape: d.shape } == d);
    match d.shape {
        ShapeV::Unit => {
            assert(ts.len() == 3);
            assert(ts[0] == TokenV::Ident("struct"@));
            assert(ts[1] == TokenV::Ident(d.name));
            assert(ts[2] == TokenV::Punct(';'));
            assert(spec_parse_struct_shape(ts) == Some(ShapeV::Unit));
            assert(spec_parse(ts) == Some(d));
        },
        ShapeV::TupleFields(tys) => {
            lemma_ident_list_round_trip(tys);
            assert(ts.len() >= 5);
            assert(ts[0] == TokenV::Ident("struct"@));
            assert(ts[1] == TokenV::Ident(d.name));
            assert(ts[2] == TokenV::Punct('('));
            assert(ts[ts.len() - 2] == TokenV::Punct(')'));
            assert(ts[ts.len() - 1] == TokenV::Punct(';'));
            assert(ts.subrange(3, ts.len() - 2) =~= ident_list_tokens(tys));
            assert(spec_parse_struct_shape(ts) == Some(ShapeV::TupleFields(tys)));
            assert(spec_parse(ts) == Some(d));
        },
        ShapeV::NamedFields(fields) => {
            lemma_field_list_round_trip(fields);
            assert(ts.len() >= 4);
            assert(ts[0] == TokenV::Ident("struct"@));
            assert(ts[1] == TokenV::Ident(d.name));
            assert(ts[2] == TokenV::Punct('{'));
            assert(ts[ts.len() - 1] == TokenV::Punct('}'));
            assert(ts.subrange(3, ts.len() - 1) =~= field_list_tokens(fields));
            assert(spec_parse_struct_shape(ts) == Some(ShapeV::NamedFields(fields)));
            assert(spec_parse(ts) == Some(d));
        },
        ShapeV::Enum(variants) => {
            lemma_ident_list_round_trip(variants);
            assert(ts.len() >= 4);
            assert(ts[0] == TokenV::Ident("enum"@));
            assert(ts[1] == TokenV::Ident(d.name));
            assert(ts[2] == TokenV::Punct('{'));
            assert(ts[ts.len() - 1] == TokenV::Punct('}'));
            assert(("struct"@).len() == 6);
            assert(("enum"@).len() == 4);
            assert(ts[0] != TokenV::Ident("struct"@));
            assert(ts.subrange(3, ts.len() - 1) =~= ident_list_tokens(variants));
            assert(spec_parse(ts) == Some(d));
        },
    }
}

/// Idempotent composition, as far as the fragment itself can promise it:
/// for any well-formed name the generated fragment is a well-formed token
/// sequence — every token well-formed, every delimiter matched in kind and
/// in order — so splicing it beside its declaration adds no malformed
/// tokens.
pub proof fn lemma_fragment_well_formed(name: Seq<char>)
    requires
        wf_ident(name),
    ensures
        wf_tokens(spec_fragment(name)),
        balanced(spec_fragment(name)),
{
    reveal_strlit("impl");
    reveal_strlit("HelloProcMacro");
    reveal_strlit("for");
    reveal_strlit("fn");
    reveal_strlit("hello_proc_macro");
    reveal_strlit("println");
    reveal_strlit("stringify");
    let f = spec_fragment(name);
    assert forall|i: int| 0 <= i < f.len() implies wf_token(#[trigger] f[i]) by {
        assert(wf_ident("impl"@));
        assert(wf_ident("HelloProcMacro"@));
        assert(wf_ident("for"@));
        assert(wf_ident("fn"@));
        assert(wf_ident("hello_proc_macro"@));
        assert(wf_ident("println"@));
        assert(wf_ident("stringify"@));
    }
    reveal_with_fuel(balanced_from, 30);
    assert(balanced(f));
}

/// Every fragment one invocation can emit is well-formed: the parsed name
/// is a valid identifier, and the fragment built from it has well-formed
/// tokens and matched delimiters.
pub proof fn lemma_derive_output_well_formed(ts: Seq<TokenV>)
    requires
        spec_derive(ts) is Ok,
    ensures
        wf_tokens(spec_derive(ts)->Ok_0),
        balanced(spec_derive(ts)->Ok_0),
{
    let d = spec_parse(ts)->Some_0;
    lemma_parse_sound(ts, d);
    lemma_fragment_well_formed(d.name);
}

} // verus!
