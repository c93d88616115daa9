//! The structural model of a type declaration.
//!
//! A declaration is the name of the type, its generic parameters, and its
//! shape: a record with one field set, or an enum with an ordered list of
//! variants. Union-like declarations are represented so that generation can
//! reject them; recursive field access is not sound for them.

use vstd::prelude::*;

verus! {

/// One named field of a record or of a struct-like variant: field name and
/// the literal text of its type.
pub struct NamedField {
    pub name: String,
    pub ty: String,
}

/// The field set of a record: named fields, positional fields (types only),
/// or no fields at all.
pub enum FieldSet {
    Named(Vec<NamedField>),
    Positional(Vec<String>),
    Empty,
}

/// One field of an enum variant. The name may be absent; variants are
/// classified by which of their fields carry names.
pub struct FieldDecl {
    pub name: Option<String>,
    pub ty: String,
}

/// One enum variant: its name and its ordered fields.
pub struct VariantDeclaration {
    pub name: String,
    pub fields: Vec<FieldDecl>,
}

/// A generic type parameter: its name and its pre-existing constraint
/// predicates (opaque bound texts such as `"Debug"`, preserved verbatim).
pub struct GenericParameter {
    pub name: String,
    pub bounds: Vec<String>,
}

/// The shape of a declaration.
pub enum Shape {
    Record(FieldSet),
    Enum(Vec<VariantDeclaration>),
    Union,
}

/// A full type declaration handed to the generator.
pub struct TypeDeclaration {
    pub name: String,
    pub generics: Vec<GenericParameter>,
    pub shape: Shape,
}

/// One annotation occurrence on a declaration: the annotation's own name and
/// its payload, a path given as its segments plus a flag for generic
/// arguments. The payload of a recognized context annotation must be a bare
/// identifier: exactly one segment, no generic arguments.
pub struct Annotation {
    pub name: String,
    pub segments: Vec<String>,
    pub has_generic_args: bool,
}

/// The fatal generation errors.
#[derive(Clone, Copy, Debug, PartialEq, Eq, Structural)]
pub enum GenError {
    /// A context annotation whose payload is not a bare identifier.
    MalformedBindingPayload,
    /// The declaration is union-like; such shapes are never supported.
    UnsupportedShape,
}

/// The context a generated implementation targets: a declared context type,
/// or a synthesized placeholder parameter standing for any context.
pub enum ContextTarget {
    Declared(String),
    Synthesized,
}

/// One generated implementation: the identity of the implemented type, its
/// generic parameter names, the targeted context, the full constraint set,
/// and the formatting body.
pub struct EmissionUnit {
    pub type_ident: String,
    pub generic_params: Vec<String>,
    pub target: ContextTarget,
    pub constraints: Vec<String>,
    pub body: String,
}

} // verus!
