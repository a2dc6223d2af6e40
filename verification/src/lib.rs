//! A minimal compile-time style code generator: it reads a token sequence
//! holding one annotated type declaration, parses it into a structured
//! declaration (name and shape), and emits a new token sequence holding an
//! implementation of the `HelloProcMacro` trait for that type.
//!
//! The transformation is pure: no I/O, no state across invocations. A token
//! sequence that does not parse as a type declaration is rejected with
//! [`Error::MalformedDeclaration`] and no fragment is produced.
use vstd::prelude::*;

pub mod decl;
pub mod generate;
pub mod laws;
pub mod parse;
pub mod token;

use crate::decl::Error;
use crate::generate::{generate_fragment, spec_generate};
use crate::parse::{parse_declaration, spec_parse};
use crate::token::{Token, TokenV};

verus! {

/// What one invocation yields on a given token sequence: the generated
/// fragment when the tokens parse as a type declaration, and
/// [`Error::MalformedDeclaration`] otherwise.
pub open spec fn spec_derive(ts: Seq<TokenV>) -> Result<Seq<TokenV>, Error> {
    match spec_parse(ts) {
        Some(d) => Ok(spec_generate(d)),
        None => Err(Error::MalformedDeclaration),
    }
}

/// One whole invocation: parse the declaration's tokens, then emit the
/// `HelloProcMacro` implementation tokens for the declared type. Fails with
/// [`Error::MalformedDeclaration`], producing no fragment, exactly when the
/// input does not parse as a type declaration.
pub fn hello_proc_macro_derive(input: &Vec<Token>) -> (r: Result<Vec<Token>, Error>)
    ensures
        (r matches Ok(f) ==> spec_derive(input.deep_view()) == Ok::<Seq<TokenV>, Error>(
            f.deep_view(),
        )),
        (r matches Err(e) ==> spec_derive(input.deep_view()) == Err::<Seq<TokenV>, Error>(e)),
{
    match parse_declaration(input) {
        Ok(d) => Ok(generate_fragment(&d)),
        Err(e) => Err(e),
    }
}

} // verus!

