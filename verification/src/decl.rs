//! The structured form of one type declaration: its name together with its
//! shape (unit, tuple fields, named fields, or enumerated variants).
use vstd::prelude::*;

use crate::token::wf_ident;

verus! {

/// The shape of a declaration.
#[derive(Debug, Clone)]
pub enum Shape {
    /// A unit type: `struct Mountain ;`
    Unit,
    /// A tuple of fields, each described by its type name:
    /// `struct Pair ( u32 , u32 ) ;`
    TupleFields(Vec<String>),
    /// Named fields, each a (field name, type name) pair:
    /// `struct Pebble { weight : u32 }`
    NamedFields(Vec<(String, String)>),
    /// Enumerated variants, each described by its name:
    /// `enum Signal { Go , Slow , Stop }`
    Enum(Vec<String>),
}

/// A parsed type declaration.
#[derive(Debug, Clone)]
pub struct Declaration {
    /// The type's name as written in source.
    pub name: String,
    /// The declaration's structure, mirroring what was written faithfully.
    pub shape: Shape,
}

/// Why an invocation failed.
#[derive(Debug, Clone, Copy, PartialEq, Eq, Structural)]
pub enum Error {
    /// The token sequence does not parse as a type declaration. Terminal for
    /// the invocation: no fragment is produced.
    MalformedDeclaration,
    /// Reserved for a stricter variant that restricts which shapes are
    /// derivable; the minimal contract accepts every shape and never
    /// returns this.
    UnsupportedShape,
}

/// The mathematical form of a shape.
pub enum ShapeV {
    Unit,
    TupleFields(Seq<Seq<char>>),
    NamedFields(Seq<(Seq<char>, Seq<char>)>),
    Enum(Seq<Seq<char>>),
}

/// The mathematical form of a declaration.
pub struct DeclV {
    pub name: Seq<char>,
    pub shape: ShapeV,
}

impl View for Shape {
    type V = ShapeV;

    open spec fn view(&self) -> ShapeV {
        match self {
            Shape::Unit => ShapeV::Unit,
            Shape::TupleFields(tys) => ShapeV::TupleFields(tys.deep_view()),
            Shape::NamedFields(fields) => ShapeV::NamedFields(fields.deep_view()),
            Shape::Enum(variants) => ShapeV::Enum(variants.deep_view()),
        }
    }
}

impl View for Declaration {
    type V = DeclV;

    open spec fn view(&self) -> DeclV {
        DeclV { name: self.name@, shape: self.shape@ }
    }
}

/// The declaration invariant: the name is a well-formed identifier and so is
/// every field name, field type name and variant name in the shape.
pub open spec fn wf_decl(d: DeclV) -> bool {
    &&& wf_ident(d.name)
    &&& match d.shape {
        ShapeV::Unit => true,
        ShapeV::TupleFields(tys) => forall|i: int|
            0 <= i < tys.len() ==> wf_ident(#[trigger] tys[i]),
        ShapeV::NamedFields(fields) => forall|i: int|
            0 <= i < fields.len() ==> wf_ident(#[trigger] fields[i].0) && wf_ident(fields[i].1),
        ShapeV::Enum(variants) => forall|i: int|
            0 <= i < variants.len() ==> wf_ident(#[trigger] variants[i]),
    }
}

} // verus!
