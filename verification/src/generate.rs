//! The fragment generator: from a structured declaration to the token
//! sequence of a `HelloProcMacro` implementation for the declared type.
//!
//! The emitted implementation header targets the declared type itself: the
//! token after `for` is the identifier carrying the declaration's name, not
//! a string literal. The declaration's shape is accepted but deliberately
//! unused: every shape receives the same implementation body.
use vstd::prelude::*;

use crate::decl::{DeclV, Declaration};
use crate::token::{Token, TokenV};

verus! {

/// The generated fragment for a type named `name`, as tokens:
///
/// ```text
/// impl HelloProcMacro for <name> {
///     fn hello_proc_macro ( ) {
///         println ! ( "Hello, the name of your type is {}" , stringify ! ( <name> ) )
///     }
/// }
/// ```
pub open spec fn spec_fragment(name: Seq<char>) -> Seq<TokenV> {
    seq![
        TokenV::Ident("impl"@),
        TokenV::Ident("HelloProcMacro"@),
        TokenV::Ident("for"@),
        TokenV::Ident(name),
        TokenV::Punct('{'),
        TokenV::Ident("fn"@),
        TokenV::Ident("hello_proc_macro"@),
        TokenV::Punct('('),
        TokenV::Punct(')'),
        TokenV::Punct('{'),
        TokenV::Ident("println"@),
        TokenV::Punct('!'),
        TokenV::Punct('('),
        TokenV::Lit("Hello, the name of your type is {}"@),
        TokenV::Punct(','),
        TokenV::Ident("stringify"@),
        TokenV::Punct('!'),
        TokenV::Punct('('),
        TokenV::Ident(name),
        TokenV::Punct(')'),
        TokenV::Punct(')'),
        TokenV::Punct('}'),
        TokenV::Punct('}'),
    ]
}

/// What the generator emits for a declaration: a fragment determined by the
/// declaration's name alone.
pub open spec fn spec_generate(d: DeclV) -> Seq<TokenV> {
    spec_fragment(d.name)
}

/// An identifier token with the given text.
fn ident_tok(s: &str) -> (t: Token)
    ensures
        t@ == TokenV::Ident(s@),
{
    Token::Ident(String::from_str(s))
}

/// The fragment generator: emits the `HelloProcMacro` implementation tokens
/// for the declared type.
pub fn generate_fragment(d: &Declaration) -> (r: Vec<Token>)
    ensures
        r.deep_view() == spec_generate(d@),
{
    let mut out: Vec<Token> = Vec::new();
    out.push(ident_tok("impl"));
    out.push(ident_tok("HelloProcMacro"));
    out.push(ident_tok("for"));
    out.push(Token::Ident(d.name.clone()));
    out.push(Token::Punct('{'));
    out.push(ident_tok("fn"));
    out.push(ident_tok("hello_proc_macro"));
    out.push(Token::Punct('('));
    out.push(Token::Punct(')'));
    out.push(Token::Punct('{'));
    out.push(ident_tok("println"));
    out.push(Token::Punct('!'));
    out.push(Token::Punct('('));
    out.push(Token::Lit(String::from_str("Hello, the name of your type is {}")));
    out.push(Token::Punct(','));
    out.push(ident_tok("stringify"));
    out.push(Token::Punct('!'));
    out.push(Token::Punct('('));
    out.push(Token::Ident(d.name.clone()));
    out.push(Token::Punct(')'));
    out.push(Token::Punct(')'));
    out.push(Token::Punct('}'));
    out.push(Token::Punct('}'));
    proof {
        assert(out.deep_view() =~= spec_fragment(d.name@));
    }
    out
}

} // verus!
