//! Body generation: for each field layout, the exact source text of the
//! `to_toks` body that rebuilds a matching literal expression, converting
//! every field through its own `to_tok_stream` call.

use vstd::prelude::*;
use crate::model::{DeriveError, FieldList, VariantDef};
use crate::text::{dec_string, dec_text};

verus! {

// ---------------------------------------------------------------------------
// Shared lemma for loops that grow a prefix of a sequence.
// ---------------------------------------------------------------------------

/// Taking one element more appends exactly that element.
pub proof fn lemma_take_step<T>(s: Seq<T>, i: int)
    requires
        0 <= i < s.len(),
    ensures
        s.take(i + 1).drop_last() =~= s.take(i),
        s.take(i + 1).last() == s[i],
{
}

// ---------------------------------------------------------------------------
// Struct bodies: named fields.
// ---------------------------------------------------------------------------

/// Conversion statement for one named field: `let f = self.f.to_tok_stream(); `.
pub open spec fn named_init_text(f: Seq<char>) -> Seq<char> {
    "let "@ + f + " = self."@ + f + ".to_tok_stream(); "@
}

/// The conversion statements of all named fields, in declaration order.
pub open spec fn named_inits_text(fs: Seq<String>) -> Seq<char>
    decreases fs.len(),
{
    if fs.len() == 0 {
        Seq::empty()
    } else {
        named_inits_text(fs.drop_last()) + named_init_text(fs.last()@)
    }
}

/// Field initializer inside the rebuilt literal: `f: #f, `.
pub open spec fn named_field_text(f: Seq<char>) -> Seq<char> {
    f + ": #"@ + f + ", "@
}

/// The field initializers of all named fields, in declaration order.
pub open spec fn named_fields_text(fs: Seq<String>) -> Seq<char>
    decreases fs.len(),
{
    if fs.len() == 0 {
        Seq::empty()
    } else {
        named_fields_text(fs.drop_last()) + named_field_text(fs.last()@)
    }
}

fn named_init_string(f: &String) -> (r: String)
    ensures
        r@ == named_init_text(f@),
{
    let mut s = "let ".to_owned();
    s.append(f.as_str());
    s.append(" = self.");
    s.append(f.as_str());
    s.append(".to_tok_stream(); ");
    s
}

fn named_field_string(f: &String) -> (r: String)
    ensures
        r@ == named_field_text(f@),
{
    let mut s = f.clone();
    s.append(": #");
    s.append(f.as_str());
    s.append(", ");
    s
}

fn named_inits_string(fields: &Vec<String>) -> (r: String)
    ensures
        r@ == named_inits_text(fields@),
{
    let mut out = String::new();
    let mut i: usize = 0;
    while i < fields.len()
        invariant
            i <= fields.len(),
            out@ == named_inits_text(fields@.take(i as int)),
        decreases fields@.len() - i,
    {
        let piece = named_init_string(&fields[i]);
        out.append(piece.as_str());
        proof {
            lemma_take_step(fields@, i as int);
        }
        i += 1;
    }
    proof {
        assert(fields@.take(fields@.len() as int) =~= fields@);
    }
    out
}

fn named_fields_string(fields: &Vec<String>) -> (r: String)
    ensures
        r@ == named_fields_text(fields@),
{
    let mut out = String::new();
    let mut i: usize = 0;
    while i < fields.len()
        invariant
            i <= fields.len(),
            out@ == named_fields_text(fields@.take(i as int)),
        decreases fields@.len() - i,
    {
        let piece = named_field_string(&fields[i]);
        out.append(piece.as_str());
        proof {
            lemma_take_step(fields@, i as int);
        }
        i += 1;
    }
    proof {
        assert(fields@.take(fields@.len() as int) =~= fields@);
    }
    out
}

// ---------------------------------------------------------------------------
// Struct bodies: positional fields.
// ---------------------------------------------------------------------------

/// Conversion statement for one positional field:
/// `let ident{i} = self.{i}.to_tok_stream(); `.
pub open spec fn unnamed_init_text(i: nat) -> Seq<char> {
    "let ident"@ + dec_text(i) + " = self."@ + dec_text(i) + ".to_tok_stream(); "@
}

/// The conversion statements of the first `n` positional fields.
pub open spec fn unnamed_inits_text(n: nat) -> Seq<char>
    decreases n,
{
    if n == 0 {
        Seq::empty()
    } else {
        unnamed_inits_text((n - 1) as nat) + unnamed_init_text((n - 1) as nat)
    }
}

/// Field entry inside the rebuilt literal: `#ident{i}, `.
pub open spec fn unnamed_field_text(i: nat) -> Seq<char> {
    "#ident"@ + dec_text(i) + ", "@
}

/// The field entries of the first `n` positional fields.
pub open spec fn unnamed_fields_text(n: nat) -> Seq<char>
    decreases n,
{
    if n == 0 {
        Seq::empty()
    } else {
        unnamed_fields_text((n - 1) as nat) + unnamed_field_text((n - 1) as nat)
    }
}

fn unnamed_init_string(i: usize) -> (r: String)
    ensures
        r@ == unnamed_init_text(i as nat),
{
    let mut s = "let ident".to_owned();
    let d = dec_string(i);
    s.append(d.as_str());
    s.append(" = self.");
    s.append(d.as_str());
    s.append(".to_tok_stream(); ");
    s
}

fn unnamed_field_string(i: usize) -> (r: String)
    ensures
        r@ == unnamed_field_text(i as nat),
{
    let mut s = "#ident".to_owned();
    let d = dec_string(i);
    s.append(d.as_str());
    s.append(", ");
    s
}

fn unnamed_inits_string(n: usize) -> (r: String)
    ensures
        r@ == unnamed_inits_text(n as nat),
{
    let mut out = String::new();
    let mut i: usize = 0;
    while i < n
        invariant
            i <= n,
            out@ == unnamed_inits_text(i as nat),
        decreases n - i,
    {
        let piece = unnamed_init_string(i);
        out.append(piece.as_str());
        i += 1;
    }
    out
}

fn unnamed_fields_string(n: usize) -> (r: String)
    ensures
        r@ == unnamed_fields_text(n as nat),
{
    let mut out = String::new();
    let mut i: usize = 0;
    while i < n
        invariant
            i <= n,
            out@ == unnamed_fields_text(i as nat),
        decreases n - i,
    {
        let piece = unnamed_field_string(i);
        out.append(piece.as_str());
        i += 1;
    }
    out
}

// ---------------------------------------------------------------------------
// The struct body.
// ---------------------------------------------------------------------------

/// The body of the generated `to_toks` for a struct with the given field
/// layout: convert each field, rebuild the literal under the output type's
/// name, and extend the caller's token stream with it. For a unit struct
/// the matching literal is the output type's bare name.
pub open spec fn struct_body_text(out_type: Seq<char>, fields: FieldList) -> Seq<char> {
    match fields {
        FieldList::Named(fs) => named_inits_text(fs@)
            + "let element = rustifact::internal::quote! { "@ + out_type + " { "@
            + named_fields_text(fs@) + "} }; toks.extend(element);"@,
        FieldList::Unnamed(n) => unnamed_inits_text(n as nat)
            + "let element = rustifact::internal::quote! { "@ + out_type + "( "@
            + unnamed_fields_text(n as nat) + ") }; toks.extend(element);"@,
        FieldList::Unit => "let element = rustifact::internal::quote! { "@ + out_type
            + " }; toks.extend(element);"@,
    }
}

/// Generate the `to_toks` body for a struct.
pub fn get_struct_body(out_type: &String, fields: &FieldList) -> (r: String)
    ensures
        r@ == struct_body_text(out_type@, *fields),
{
    match fields {
        FieldList::Named(fs) => {
            let mut out = named_inits_string(fs);
            out.append("let element = rustifact::internal::quote! { ");
            out.append(out_type.as_str());
            out.append(" { ");
            let fl = named_fields_string(fs);
            out.append(fl.as_str());
            out.append("} }; toks.extend(element);");
            out
        }
        FieldList::Unnamed(n) => {
            let mut out = unnamed_inits_string(*n);
            out.append("let element = rustifact::internal::quote! { ");
            out.append(out_type.as_str());
            out.append("( ");
            let fl = unnamed_fields_string(*n);
            out.append(fl.as_str());
            out.append(") }; toks.extend(element);");
            out
        }
        FieldList::Unit => {
            let mut out = "let element = rustifact::internal::quote! { ".to_owned();
            out.append(out_type.as_str());
            out.append(" }; toks.extend(element);");
            out
        }
    }
}

// ---------------------------------------------------------------------------
// Enum bodies.
// ---------------------------------------------------------------------------

/// Match arm for a variant without payload:
/// `Out::V => rustifact::internal::quote! { Out::V }, `.
pub open spec fn plain_arm_text(out_type: Seq<char>, v: Seq<char>) -> Seq<char> {
    out_type + "::"@ + v + " => rustifact::internal::quote! { "@ + out_type + "::"@ + v
        + " }, "@
}

/// Conversion statement for one payload binder:
/// `let ident{i}_toks = ident{i}.to_tok_stream(); `.
pub open spec fn arm_init_text(i: nat) -> Seq<char> {
    "let ident"@ + dec_text(i) + "_toks = ident"@ + dec_text(i) + ".to_tok_stream(); "@
}

/// The conversion statements of the first `n` payload binders.
pub open spec fn arm_inits_text(n: nat) -> Seq<char>
    decreases n,
{
    if n == 0 {
        Seq::empty()
    } else {
        arm_inits_text((n - 1) as nat) + arm_init_text((n - 1) as nat)
    }
}

/// One pattern binder: `ident{i}, `.
pub open spec fn arm_pat_text(i: nat) -> Seq<char> {
    "ident"@ + dec_text(i) + ", "@
}

/// The pattern binders of the first `n` payload fields.
pub open spec fn arm_pats_text(n: nat) -> Seq<char>
    decreases n,
{
    if n == 0 {
        Seq::empty()
    } else {
        arm_pats_text((n - 1) as nat) + arm_pat_text((n - 1) as nat)
    }
}

/// One rebuilt payload entry: `#ident{i}_toks, `.
pub open spec fn arm_out_text(i: nat) -> Seq<char> {
    "#ident"@ + dec_text(i) + "_toks, "@
}

/// The rebuilt payload entries of the first `n` payload fields.
pub open spec fn arm_outs_text(n: nat) -> Seq<char>
    decreases n,
{
    if n == 0 {
        Seq::empty()
    } else {
        arm_outs_text((n - 1) as nat) + arm_out_text((n - 1) as nat)
    }
}

/// Match arm for a tuple variant with `n > 0` payload fields: bind each
/// field, convert each binding, and rebuild the variant literal from the
/// conversion results.
pub open spec fn payload_arm_text(out_type: Seq<char>, v: Seq<char>, n: nat) -> Seq<char> {
    out_type + "::"@ + v + "( "@ + arm_pats_text(n) + ") => { "@ + arm_inits_text(n)
        + "rustifact::internal::quote! { "@ + out_type + "::"@ + v + "( "@ + arm_outs_text(n)
        + ") } }, "@
}

/// The match arm of one variant. A tuple variant without payload is treated
/// exactly as a unit variant. A variant with named fields is refused before
/// any of its text is used, so its arm is left empty here.
pub open spec fn variant_arm_text(out_type: Seq<char>, v: VariantDef) -> Seq<char> {
    match v.fields {
        FieldList::Named(_) => Seq::empty(),
        FieldList::Unnamed(n) => if n == 0 {
            plain_arm_text(out_type, v.name@)
        } else {
            payload_arm_text(out_type, v.name@, n as nat)
        },
        FieldList::Unit => plain_arm_text(out_type, v.name@),
    }
}

/// The match arms of all variants, in declaration order.
pub open spec fn arms_text(out_type: Seq<char>, vs: Seq<VariantDef>) -> Seq<char>
    decreases vs.len(),
{
    if vs.len() == 0 {
        Seq::empty()
    } else {
        arms_text(out_type, vs.drop_last()) + variant_arm_text(out_type, vs.last())
    }
}

/// Whether some variant declares named fields, which the generator refuses.
pub open spec fn has_named_variant(vs: Seq<VariantDef>) -> bool {
    exists|i: int| 0 <= i < vs.len() && vs[i].fields is Named
}

/// The body of the generated `to_toks` for an enum: match on the value,
/// produce the rebuilt variant literal in each arm, and extend the caller's
/// token stream with it.
pub open spec fn enum_body_text(out_type: Seq<char>, vs: Seq<VariantDef>) -> Seq<char> {
    "let element = match self { "@ + arms_text(out_type, vs) + "}; toks.extend(element);"@
}

fn plain_arm_string(out_type: &String, v: &String) -> (r: String)
    ensures
        r@ == plain_arm_text(out_type@, v@),
{
    let mut s = out_type.clone();
    s.append("::");
    s.append(v.as_str());
    s.append(" => rustifact::internal::quote! { ");
    s.append(out_type.as_str());
    s.append("::");
    s.append(v.as_str());
    s.append(" }, ");
    s
}

fn arm_init_string(i: usize) -> (r: String)
    ensures
        r@ == arm_init_text(i as nat),
{
    let mut s = "let ident".to_owned();
    let d = dec_string(i);
    s.append(d.as_str());
    s.append("_toks = ident");
    s.append(d.as_str());
    s.append(".to_tok_stream(); ");
    s
}

fn arm_inits_string(n: usize) -> (r: String)
    ensures
        r@ == arm_inits_text(n as nat),
{
    let mut out = String::new();
    let mut i: usize = 0;
    while i < n
        invariant
            i <= n,
            out@ == arm_inits_text(i as nat),
        decreases n - i,
    {
        let piece = arm_init_string(i);
        out.append(piece.as_str());
        i += 1;
    }
    out
}

fn arm_pats_string(n: usize) -> (r: String)
    ensures
        r@ == arm_pats_text(n as nat),
{
    let mut out = String::new();
    let mut i: usize = 0;
    while i < n
        invariant
            i <= n,
            out@ == arm_pats_text(i as nat),
        decreases n - i,
    {
        let mut piece = "ident".to_owned();
        let d = dec_string(i);
        piece.append(d.as_str());
        piece.append(", ");
        out.append(piece.as_str());
        i += 1;
    }
    out
}

fn arm_outs_string(n: usize) -> (r: String)
    ensures
        r@ == arm_outs_text(n as nat),
{
    let mut out = String::new();
    let mut i: usize = 0;
    while i < n
        invariant
            i <= n,
            out@ == arm_outs_text(i as nat),
        decreases n - i,
    {
        let mut piece = "#ident".to_owned();
        let d = dec_string(i);
        piece.append(d.as_str());
        piece.append("_toks, ");
        out.append(piece.as_str());
        i += 1;
    }
    out
}

fn payload_arm_string(out_type: &String, v: &String, n: usize) -> (r: String)
    requires
        n > 0,
    ensures
        r@ == payload_arm_text(out_type@, v@, n as nat),
{
    let mut s = out_type.clone();
    s.append("::");
    s.append(v.as_str());
    s.append("( ");
    let pats = arm_pats_string(n);
    s.append(pats.as_str());
    s.append(") => { ");
    let inits = arm_inits_string(n);
    s.append(inits.as_str());
    s.append("rustifact::internal::quote! { ");
    s.append(out_type.as_str());
    s.append("::");
    s.append(v.as_str());
    s.append("( ");
    let outs = arm_outs_string(n);
    s.append(outs.as_str());
    s.append(") } }, ");
    s
}

/// Generate the `to_toks` body for an enum, refusing any variant that
/// declares named fields.
pub fn get_enum_body(out_type: &String, variants: &Vec<VariantDef>) -> (r: Result<
    String,
    DeriveError,
>)
    ensures
        match r {
            Ok(s) => !has_named_variant(variants@) && s@ == enum_body_text(
                out_type@,
                variants@,
            ),
            Err(e) => has_named_variant(variants@) && e == DeriveError::NamedVariantFields,
        },
{
    let mut arms = String::new();
    let mut i: usize = 0;
    while i < variants.len()
        invariant
            i <= variants.len(),
            !has_named_variant(variants@.take(i as int)),
            arms@ == arms_text(out_type@, variants@.take(i as int)),
        decreases variants@.len() - i,
    {
        let v = &variants[i];
        match &v.fields {
            FieldList::Named(_) => {
                proof {
                    assert(variants@[i as int].fields is Named);
                }
                return Err(DeriveError::NamedVariantFields);
            }
            FieldList::Unnamed(n) => {
                if *n == 0 {
                    let piece = plain_arm_string(out_type, &v.name);
                    arms.append(piece.as_str());
                } else {
                    let piece = payload_arm_string(out_type, &v.name, *n);
                    arms.append(piece.as_str());
                }
            }
            FieldList::Unit => {
                let piece = plain_arm_string(out_type, &v.name);
                arms.append(piece.as_str());
            }
        }
        proof {
            lemma_take_step(variants@, i as int);
        }
        i += 1;
    }
    proof {
        assert(variants@.take(variants@.len() as int) =~= variants@);
    }
    let mut out = "let element = match self { ".to_owned();
    out.append(arms.as_str());
    out.append("}; toks.extend(element);");
    Ok(out)
}

} // verus!
