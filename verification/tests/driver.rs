use rustifact_derive::driver::{derive_source, derive_token_stream};
use rustifact_derive::model::{AttrDef, DeriveError, DeriveIn, FieldList, TypeBody, VariantDef};

fn plain_input(ident: &str, body: TypeBody) -> DeriveIn {
    DeriveIn {
        ident: ident.to_string(),
        attrs: Vec::new(),
        generics: String::new(),
        where_clause: String::new(),
        body,
    }
}

fn attr(name: &str, ident_arg: Option<&str>) -> AttrDef {
    AttrDef {
        name: name.to_string(),
        ident_arg: ident_arg.map(|s| s.to_string()),
    }
}

#[test]
fn source_for_named_struct() {
    let input = plain_input(
        "Point",
        TypeBody::Struct(FieldList::Named(vec!["x".to_string(), "y".to_string()])),
    );
    let src = derive_source(&input).unwrap();
    assert_eq!(
        src,
        "impl  rustifact::ToTokenStream for Point  \
         { fn to_toks(&self, toks: &mut rustifact::internal::TokenStream) { \
         let x = self.x.to_tok_stream(); let y = self.y.to_tok_stream(); \
         let element = rustifact::internal::quote! { Point { x: #x, y: #y, } }; \
         toks.extend(element); } }"
    );
}

#[test]
fn source_for_unit_struct() {
    let input = plain_input("Marker", TypeBody::Struct(FieldList::Unit));
    let src = derive_source(&input).unwrap();
    assert_eq!(
        src,
        "impl  rustifact::ToTokenStream for Marker  \
         { fn to_toks(&self, toks: &mut rustifact::internal::TokenStream) { \
         let element = rustifact::internal::quote! { Marker }; \
         toks.extend(element); } }"
    );
}

#[test]
fn unit_struct_literal_uses_the_output_type() {
    let mut input = plain_input("MarkerIn", TypeBody::Struct(FieldList::Unit));
    input.attrs = vec![attr("OutType", Some("Marker"))];
    let src = derive_source(&input).unwrap();
    assert!(src.contains("rustifact::ToTokenStream for MarkerIn"));
    assert!(src.contains("quote! { Marker }; toks.extend(element);"));
}

#[test]
fn source_for_enum() {
    let input = plain_input(
        "Shade",
        TypeBody::Enum(vec![
            VariantDef { name: "Dark".to_string(), fields: FieldList::Unit },
            VariantDef { name: "Gray".to_string(), fields: FieldList::Unnamed(1) },
        ]),
    );
    let src = derive_source(&input).unwrap();
    assert_eq!(
        src,
        "impl  rustifact::ToTokenStream for Shade  \
         { fn to_toks(&self, toks: &mut rustifact::internal::TokenStream) { \
         let element = match self { \
         Shade::Dark => rustifact::internal::quote! { Shade::Dark }, \
         Shade::Gray( ident0, ) => { let ident0_toks = ident0.to_tok_stream(); \
         rustifact::internal::quote! { Shade::Gray( #ident0_toks, ) } }, \
         }; toks.extend(element); } }"
    );
}

#[test]
fn source_splices_generic_text() {
    let mut input = plain_input("Wrap", TypeBody::Struct(FieldList::Unnamed(1)));
    input.generics = "< T >".to_string();
    input.where_clause = "where T : Clone".to_string();
    let src = derive_source(&input).unwrap();
    assert!(src.starts_with("impl < T > rustifact::ToTokenStream for Wrap< T > where T : Clone {"));
}

#[test]
fn out_type_attribute_renames_literal() {
    let mut input = plain_input(
        "StructWithStrIn",
        TypeBody::Struct(FieldList::Named(vec!["s".to_string()])),
    );
    input.attrs = vec![attr("OutType", Some("StructWithStr"))];
    let src = derive_source(&input).unwrap();
    // The impl is still for the declared type; only the rebuilt literal
    // carries the output type's name.
    assert!(src.contains("rustifact::ToTokenStream for StructWithStrIn"));
    assert!(src.contains("quote! { StructWithStr { s: #s, } }"));
}

#[test]
fn out_type_scan_takes_the_last_match() {
    let mut input = plain_input("In", TypeBody::Struct(FieldList::Named(vec!["a".to_string()])));
    input.attrs = vec![
        attr("OutType", Some("First")),
        attr("serde", Some("Ignored")),
        attr("OutType", None),
        attr("OutType", Some("Second")),
    ];
    let src = derive_source(&input).unwrap();
    assert!(src.contains("quote! { Second { a: #a, } }"));
}

#[test]
fn source_refuses_union() {
    let input = plain_input("U", TypeBody::Union);
    assert_eq!(derive_source(&input), Err(DeriveError::Unions));
}

#[test]
fn source_refuses_named_variant_fields() {
    let input = plain_input(
        "E",
        TypeBody::Enum(vec![VariantDef {
            name: "Record".to_string(),
            fields: FieldList::Named(vec!["a".to_string()]),
        }]),
    );
    assert_eq!(derive_source(&input), Err(DeriveError::NamedVariantFields));
}

#[test]
fn refusal_messages() {
    assert_eq!(
        DeriveError::NamedVariantFields.message(),
        "Named fields are not yet supported"
    );
    assert_eq!(DeriveError::Unions.message(), "Unions are not yet supported");
}

#[test]
fn token_stream_matches_lexed_source() {
    let input = plain_input(
        "Point",
        TypeBody::Struct(FieldList::Named(vec!["x".to_string(), "y".to_string()])),
    );
    let src = derive_source(&input).unwrap();
    let stream = derive_token_stream(&input).unwrap();
    let lexed: proc_macro2::TokenStream = src.parse().unwrap();
    assert_eq!(stream.to_string(), lexed.to_string());
}

#[test]
fn token_stream_renders_the_impl() {
    let input = plain_input(
        "Shade",
        TypeBody::Enum(vec![
            VariantDef { name: "Dark".to_string(), fields: FieldList::Unit },
            VariantDef { name: "Gray".to_string(), fields: FieldList::Unnamed(2) },
        ]),
    );
    let stream = derive_token_stream(&input).unwrap();
    let rendered = stream.to_string();
    assert!(rendered.starts_with("impl rustifact :: ToTokenStream for Shade"));
    assert!(rendered.contains("fn to_toks"));
    assert!(rendered.contains("ident1_toks"));
}

#[test]
fn token_stream_refuses_union() {
    let input = plain_input("U", TypeBody::Union);
    assert!(matches!(
        derive_token_stream(&input),
        Err(DeriveError::Unions)
    ));
}
