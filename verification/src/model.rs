//! The shape model: a type declaration reduced to the plain values that the
//! generator reads, and the errors with which a derivation is refused.

use vstd::prelude::*;

verus! {

/// Field layout of a struct or of one enum variant.
pub enum FieldList {
    /// Record syntax: the field names, in declaration order.
    Named(Vec<String>),
    /// Tuple syntax: the number of positional fields.
    Unnamed(usize),
    /// No field list at all.
    Unit,
}

/// One variant of an enum.
pub struct VariantDef {
    /// The variant's name.
    pub name: String,
    /// The variant's field layout.
    pub fields: FieldList,
}

/// The body of the type declaration.
pub enum TypeBody {
    /// A struct with the given field layout.
    Struct(FieldList),
    /// An enum with the given variants, in declaration order.
    Enum(Vec<VariantDef>),
    /// A union, which the generator refuses.
    Union,
}

/// One attribute on the declaration, reduced to what the driver reads:
/// `name` is the attribute's path when that path is a single identifier
/// (empty otherwise), and `ident_arg` is the argument when the argument
/// list is a single identifier.
pub struct AttrDef {
    /// The attribute path, when it is a single identifier.
    pub name: String,
    /// The attribute argument, when it is a single identifier.
    pub ident_arg: Option<String>,
}

/// A type declaration, reduced to the parts the generator reads.
pub struct DeriveIn {
    /// The declared name of the type.
    pub ident: String,
    /// The attributes on the declaration.
    pub attrs: Vec<AttrDef>,
    /// The generic parameter list as source text; empty when there is none.
    pub generics: String,
    /// The `where` clause as source text; empty when there is none.
    pub where_clause: String,
    /// The field or variant layout.
    pub body: TypeBody,
}

/// Why a derivation is refused.
#[derive(Debug, PartialEq, Eq, Clone, Copy)]
pub enum DeriveError {
    /// An enum variant declares named fields.
    NamedVariantFields,
    /// The declaration is a union.
    Unions,
    /// The generated text did not lex as a token stream.
    Lex,
}

/// The diagnostic text of each refusal.
pub open spec fn message_text(e: DeriveError) -> Seq<char> {
    match e {
        DeriveError::NamedVariantFields => "Named fields are not yet supported"@,
        DeriveError::Unions => "Unions are not yet supported"@,
        DeriveError::Lex => "the generated impl did not lex as a token stream"@,
    }
}

impl DeriveError {
    /// The diagnostic text reported for this refusal.
    pub fn message(&self) -> (r: String)
        ensures
            r@ == message_text(*self),
    {
        match self {
            DeriveError::NamedVariantFields => "Named fields are not yet supported".to_owned(),
            DeriveError::Unions => "Unions are not yet supported".to_owned(),
            DeriveError::Lex => "the generated impl did not lex as a token stream".to_owned(),
        }
    }
}

} // verus!
