//! The structured representation of a type declaration: name, generics and
//! body shape. A declaration is built once per generation request from the
//! output of an upstream parser, is immutable while the generator runs, and
//! is discarded afterwards.

use vstd::prelude::*;

verus! {

/// The generic parameters of a declaration: lifetime parameter names, type
/// parameter names and the opaque predicates of a `where` clause, each in
/// declaration order.
pub struct Generics {
    pub lifetime_params: Vec<String>,
    pub type_params: Vec<String>,
    pub where_predicates: Vec<String>,
}

/// The shape of one set of fields: named fields (in declaration order),
/// positional fields (a count), or no fields at all.
pub enum FieldsShape {
    Named(Vec<String>),
    Positional(usize),
    Unit,
}

/// One variant of a tagged union: its name and the shape of its payload.
/// A variant's payload is itself a `FieldsShape`, never a nested set of
/// variants.
pub struct VariantDecl {
    pub name: String,
    pub shape: FieldsShape,
}

/// The body of a declaration: a single set of fields, or a closed list of
/// tagged variants in declaration order.
pub enum BodyShape {
    Fields(FieldsShape),
    Variants(Vec<VariantDecl>),
}

/// A complete type declaration: the type's name, its generics and its body
/// shape.
pub struct TypeDeclaration {
    pub name: String,
    pub generics: Generics,
    pub body: BodyShape,
}

} // verus!
