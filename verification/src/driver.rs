//! The top-level driver: resolve the output type from the declaration's
//! attributes, dispatch on the declared shape, wrap the generated body in an
//! impl bound to the declaration's generic text, and lex the finished text
//! into a token stream.

use vstd::prelude::*;
use crate::generate::{
    enum_body_text,
    get_enum_body,
    get_struct_body,
    has_named_variant,
    lemma_take_step,
    struct_body_text,
};
use crate::model::{AttrDef, DeriveError, DeriveIn, TypeBody};

verus! {

// ---------------------------------------------------------------------------
// Output type resolution.
// ---------------------------------------------------------------------------

/// The name under which the literal is rebuilt: the argument of the last
/// `OutType` attribute whose argument is a single identifier, or `base`
/// (the declared name) when there is no such attribute.
pub open spec fn out_type_text(base: Seq<char>, attrs: Seq<AttrDef>) -> Seq<char>
    decreases attrs.len(),
{
    if attrs.len() == 0 {
        base
    } else {
        match attrs.last().ident_arg {
            Option::Some(id) => if attrs.last().name@ == "OutType"@ {
                id@
            } else {
                out_type_text(base, attrs.drop_last())
            },
            Option::None => out_type_text(base, attrs.drop_last()),
        }
    }
}

fn resolve_out_type(input: &DeriveIn) -> (r: String)
    ensures
        r@ == out_type_text(input.ident@, input.attrs@),
{
    let mut out = input.ident.clone();
    let key: String = "OutType".to_owned();
    let mut i: usize = 0;
    while i < input.attrs.len()
        invariant
            i <= input.attrs.len(),
            key@ == "OutType"@,
            out@ == out_type_text(input.ident@, input.attrs@.take(i as int)),
        decreases input.attrs@.len() - i,
    {
        let a = &input.attrs[i];
        if a.name == key {
            match &a.ident_arg {
                Option::Some(id) => {
                    out = id.clone();
                }
                Option::None => {}
            }
        }
        proof {
            lemma_take_step(input.attrs@, i as int);
        }
        i += 1;
    }
    proof {
        assert(input.attrs@.take(input.attrs@.len() as int) =~= input.attrs@);
    }
    out
}

// ---------------------------------------------------------------------------
// The generated impl.
// ---------------------------------------------------------------------------

/// Whether the declared shape is one the generator supports: any struct, or
/// an enum none of whose variants declares named fields. Unions are refused.
pub open spec fn derive_ok(input: DeriveIn) -> bool {
    match input.body {
        TypeBody::Struct(_) => true,
        TypeBody::Enum(vs) => !has_named_variant(vs@),
        TypeBody::Union => false,
    }
}

/// The refusal reported for an unsupported shape.
pub open spec fn refusal_of(input: DeriveIn) -> DeriveError {
    match input.body {
        TypeBody::Union => DeriveError::Unions,
        _ => DeriveError::NamedVariantFields,
    }
}

/// The body of the generated `to_toks`, under the resolved output type.
pub open spec fn body_text(input: DeriveIn) -> Seq<char> {
    match input.body {
        TypeBody::Struct(fl) => struct_body_text(out_type_text(input.ident@, input.attrs@), fl),
        TypeBody::Enum(vs) => enum_body_text(out_type_text(input.ident@, input.attrs@), vs@),
        TypeBody::Union => Seq::empty(),
    }
}

/// The whole generated impl: `ToTokenStream` for the declared type, bound to
/// the declaration's generic text, with `to_toks` around the generated body.
pub open spec fn derive_text(input: DeriveIn) -> Seq<char> {
    "impl "@ + input.generics@ + " rustifact::ToTokenStream for "@ + input.ident@
        + input.generics@ + " "@ + input.where_clause@
        + " { fn to_toks(&self, toks: &mut rustifact::internal::TokenStream) { "@
        + body_text(input) + " } }"@
}

/// Generate the impl as source text.
pub fn derive_source(input: &DeriveIn) -> (r: Result<String, DeriveError>)
    ensures
        match r {
            Ok(s) => derive_ok(*input) && s@ == derive_text(*input),
            Err(e) => !derive_ok(*input) && e == refusal_of(*input),
        },
{
    let out_type = resolve_out_type(input);
    let body: String = match &input.body {
        TypeBody::Struct(fl) => get_struct_body(&out_type, fl),
        TypeBody::Enum(vs) => match get_enum_body(&out_type, vs) {
            Ok(s) => s,
            Err(e) => {
                return Err(e);
            },
        },
        TypeBody::Union => {
            return Err(DeriveError::Unions);
        },
    };
    let mut out = "impl ".to_owned();
    out.append(input.generics.as_str());
    out.append(" rustifact::ToTokenStream for ");
    out.append(input.ident.as_str());
    out.append(input.generics.as_str());
    out.append(" ");
    out.append(input.where_clause.as_str());
    out.append(" { fn to_toks(&self, toks: &mut rustifact::internal::TokenStream) { ");
    out.append(body.as_str());
    out.append(" } }");
    Ok(out)
}

// ---------------------------------------------------------------------------
// The trusted lexing layer.
// ---------------------------------------------------------------------------

#[verifier::external_type_specification]
#[verifier::external_body]
pub struct ExTokenStream(proc_macro2::TokenStream);

#[verifier::external_type_specification]
#[verifier::external_body]
pub struct ExLexError(proc_macro2::LexError);

/// Relies on proc_macro2's `FromStr` impl for `TokenStream`: it lexes source
/// text into a token stream and fails on text that is not lexically valid.
/// Nothing is claimed of the stream itself, which stays opaque here.
#[verifier::external_body]
fn lex_token_stream(s: &str) -> (r: Result<proc_macro2::TokenStream, proc_macro2::LexError>) {
    s.parse()
}

/// Generate the impl and lex it into a token stream. The stream itself is
/// opaque; which inputs are refused, and with which error, is exact.
pub fn derive_token_stream(input: &DeriveIn) -> (r: Result<
    proc_macro2::TokenStream,
    DeriveError,
>)
    ensures
        match r {
            Ok(_) => derive_ok(*input),
            Err(e) => if derive_ok(*input) {
                e == DeriveError::Lex
            } else {
                e == refusal_of(*input)
            },
        },
{
    let source = match derive_source(input) {
        Ok(text) => text,
        Err(e) => {
            return Err(e);
        },
    };
    match lex_token_stream(source.as_str()) {
        Ok(stream) => Ok(stream),
        Err(_) => Err(DeriveError::Lex),
    }
}

} // verus!
