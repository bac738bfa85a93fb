//! Reading a parsed declaration. The parser's values are opaque here: each
//! part that the generator needs is taken out by one call into the parser
//! crates, and what such a call returns is named, so that the declaration
//! that is read is stated as a function of the parsed input.

use crate::emit::{derive_text, generate};
use crate::model::{
    text_view, Annotation, AnnotationView, Body, BodyView, Declaration, DeclarationView, Entry,
    EntryView, FieldShape, Form, Generics, GenericsView, Key, KeyView, Value, ValueView, Variant,
};
use crate::resolve::{error_message, error_span, DeriveError, ErrorView};
use proc_macro2::{Span, TokenStream};
use quote::ToTokens;
use syn::spanned::Spanned;
use syn::{Attribute, DeriveInput, Meta};
use vstd::prelude::*;

verus! {

/// A place in the source. It is carried through to the error that points at
/// it.
#[verifier::external_type_specification]
#[verifier::external_body]
pub struct ExSpan(proc_macro2::Span);

/// A sequence of tokens, as the compiler takes it.
#[verifier::external_type_specification]
#[verifier::external_body]
pub struct ExTokenStream(proc_macro2::TokenStream);

/// A parsed declaration.
#[verifier::external_type_specification]
#[verifier::external_body]
pub struct ExDeriveInput(syn::DeriveInput);

/// A parsed attribute of a declaration.
#[verifier::external_type_specification]
#[verifier::external_body]
pub struct ExAttribute(syn::Attribute);

/// A parsed meta item: one entry of an attribute's list.
#[verifier::external_type_specification]
#[verifier::external_body]
pub struct ExMeta(syn::Meta);

/// The name of the declared type.
pub uninterp spec fn ident_of(input: DeriveInput) -> Seq<char>;

/// Where the name of the declared type is written.
pub uninterp spec fn ident_span_of(input: DeriveInput) -> Span;

/// The generic parameters of the declaration, split for an implementation.
pub uninterp spec fn generics_of(input: DeriveInput) -> GenericsView;

/// What the declaration declares.
pub uninterp spec fn body_of(input: DeriveInput) -> BodyView;

/// The attributes of the declaration, in the order of the source.
pub uninterp spec fn attributes_of(input: DeriveInput) -> Seq<Attribute>;

/// Whether the path of an attribute is the single identifier `tag`.
pub uninterp spec fn attribute_has_tag(attr: Attribute, tag: Seq<char>) -> bool;

/// The arguments of an attribute as a comma-separated list of meta items, or
/// the place where they fail to parse as one.
pub uninterp spec fn entries_of(attr: Attribute) -> Result<Seq<Meta>, Span>;

/// The form of a meta item.
pub uninterp spec fn form_of(meta: Meta) -> Form;

/// The path of a meta item, where it is a single identifier.
pub uninterp spec fn key_name_of(meta: Meta) -> Option<Seq<char>>;

/// The path of a meta item as it prints.
pub uninterp spec fn key_text_of(meta: Meta) -> Seq<char>;

/// Where the path of a meta item is written.
pub uninterp spec fn key_span_of(meta: Meta) -> Span;

/// What the value of a name-value meta item denotes, where that value is a
/// string literal.
pub uninterp spec fn string_of(meta: Meta) -> Option<Seq<char>>;

/// Where the value of a name-value meta item is written.
pub uninterp spec fn value_span_of(meta: Meta) -> Span;

/// A meta item as it prints.
pub uninterp spec fn text_of(meta: Meta) -> Seq<char>;

/// The tokens of a compile error with a message, at a place.
pub uninterp spec fn compile_error_of(span: Span, message: Seq<char>) -> TokenStream;

/// `Ident::to_string` on the field `ident` of the input: the name of the
/// declared type as text.
#[verifier::external_body]
fn input_ident(input: &DeriveInput) -> (ident: String)
    ensures
        ident@ == ident_of(*input),
{
    input.ident.to_string()
}

/// `Ident::span` on the field `ident` of the input.
#[verifier::external_body]
fn input_ident_span(input: &DeriveInput) -> (span: Span)
    ensures
        span == ident_span_of(*input),
{
    input.ident.span()
}

/// `Generics::split_for_impl` on the field `generics` of the input, each of
/// the three parts printed as text.
#[verifier::external_body]
fn input_generics(input: &DeriveInput) -> (generics: Generics)
    ensures
        generics@ == generics_of(*input),
{
    let (params, args, where_clause) = input.generics.split_for_impl();
    Generics {
        params: params.to_token_stream().to_string(),
        args: args.to_token_stream().to_string(),
        where_clause: where_clause.to_token_stream().to_string(),
    }
}

/// The field `data` of the input: which of the three it is, and for an enum
/// each variant's name (`Ident::to_string`) and which of the three kinds its
/// fields are, in the order of the source.
#[verifier::external_body]
fn input_body(input: &DeriveInput) -> (body: Body)
    ensures
        body@ == body_of(*input),
{
    match &input.data {
        syn::Data::Enum(data) => Body::Enum(data.variants.iter().map(|v| Variant {
            ident: v.ident.to_string(),
            fields: match &v.fields {
                syn::Fields::Unit => FieldShape::Unit,
                syn::Fields::Unnamed(_) => FieldShape::Unnamed,
                syn::Fields::Named(_) => FieldShape::Named,
            },
        }).collect()),
        syn::Data::Struct(_) => Body::Struct,
        syn::Data::Union(_) => Body::Union,
    }
}

/// The field `attrs` of the input.
#[verifier::external_body]
fn input_attributes(input: &DeriveInput) -> (attrs: &Vec<Attribute>)
    ensures
        attrs@ == attributes_of(*input),
{
    &input.attrs
}

/// `Path::is_ident` on `Attribute::path`.
#[verifier::external_body]
fn attribute_is(attr: &Attribute, tag: &str) -> (hit: bool)
    ensures
        hit == attribute_has_tag(*attr, tag@),
{
    attr.path().is_ident(tag)
}

/// `Attribute::parse_args_with` with `Punctuated::<Meta, Comma>::parse_terminated`:
/// the meta items in order, or `Error::span` of the error. The call does not
/// return for an attribute whose path has no segment, which a path that is
/// the single identifier `enum_debug` rules out.
#[verifier::external_body]
fn attribute_entries(attr: &Attribute) -> (entries: Result<Vec<Meta>, Span>)
    requires
        attribute_has_tag(*attr, "enum_debug"@),
    ensures
        entries_view(entries) == entries_of(*attr),
{
    let parser = syn::punctuated::Punctuated::<Meta, syn::token::Comma>::parse_terminated;
    match attr.parse_args_with(parser) {
        Ok(metas) => Ok(metas.into_iter().collect()),
        Err(error) => Err(error.span()),
    }
}

/// The view of the outcome of reading an attribute's arguments.
pub open spec fn entries_view(entries: Result<Vec<Meta>, Span>) -> Result<Seq<Meta>, Span> {
    match entries {
        Ok(metas) => Ok(metas@),
        Err(span) => Err(span),
    }
}

/// Which of the three variants of `Meta` a meta item is.
#[verifier::external_body]
fn entry_form(meta: &Meta) -> (form: Form)
    ensures
        form == form_of(*meta),
{
    match meta {
        Meta::Path(_) => Form::Flag,
        Meta::NameValue(_) => Form::Pair,
        Meta::List(_) => Form::List,
    }
}

/// `Path::get_ident` on `Meta::path`, the identifier as text
/// (`Ident::to_string`).
#[verifier::external_body]
fn entry_key_name(meta: &Meta) -> (name: Option<String>)
    ensures
        text_view(name) == key_name_of(*meta),
{
    meta.path().get_ident().map(|ident| ident.to_string())
}

/// `ToTokens::to_token_stream` on `Meta::path`, printed as text.
#[verifier::external_body]
fn entry_key_text(meta: &Meta) -> (text: String)
    ensures
        text@ == key_text_of(*meta),
{
    meta.path().to_token_stream().to_string()
}

/// `Spanned::span` on `Meta::path`.
#[verifier::external_body]
fn entry_key_span(meta: &Meta) -> (span: Span)
    ensures
        span == key_span_of(*meta),
{
    meta.path().span()
}

/// `LitStr::value` on the value of a name-value meta item that is a string
/// literal; nothing for any other value and any other meta item.
#[verifier::external_body]
fn entry_string(meta: &Meta) -> (text: Option<String>)
    ensures
        text_view(text) == string_of(*meta),
{
    match meta {
        Meta::NameValue(pair) => match &pair.value {
            syn::Expr::Lit(syn::ExprLit { lit: syn::Lit::Str(text), .. }) => Some(text.value()),
            _ => None,
        },
        _ => None,
    }
}

/// `Spanned::span` on the value of a name-value meta item, and on the whole
/// of any other meta item.
#[verifier::external_body]
fn entry_value_span(meta: &Meta) -> (span: Span)
    ensures
        span == value_span_of(*meta),
{
    match meta {
        Meta::NameValue(pair) => pair.value.span(),
        other => other.span(),
    }
}

/// `ToTokens::to_token_stream` on a meta item, printed as text.
#[verifier::external_body]
fn entry_text(meta: &Meta) -> (text: String)
    ensures
        text@ == text_of(*meta),
{
    meta.to_token_stream().to_string()
}

/// `Error::new` with the place and the message, and `Error::to_compile_error`
/// on it: the tokens that make the compiler report the message at the place.
#[verifier::external_body]
fn error_tokens(span: Span, message: &str) -> (tokens: TokenStream)
    ensures
        tokens == compile_error_of(span, message@),
{
    syn::Error::new(span, message).to_compile_error()
}

/// The key of a meta item.
pub open spec fn key_of(meta: Meta) -> KeyView {
    KeyView { name: key_name_of(meta), text: key_text_of(meta), span: key_span_of(meta) }
}

/// The entry that a meta item stands for.
pub open spec fn entry_of(meta: Meta) -> EntryView {
    match form_of(meta) {
        Form::Flag => EntryView::Flag(key_of(meta)),
        Form::Pair => EntryView::Pair(
            key_of(meta),
            match string_of(meta) {
                Some(text) => ValueView::Str(text),
                None => ValueView::Other(value_span_of(meta)),
            },
        ),
        Form::List => EntryView::Other(key_of(meta), text_of(meta)),
    }
}

/// The annotation that an attribute stands for: foreign unless its path is
/// `enum_debug`, and else its entries or the place where its arguments fail
/// to parse.
pub open spec fn annotation_of(attr: Attribute) -> AnnotationView {
    if attribute_has_tag(attr, "enum_debug"@) {
        match entries_of(attr) {
            Ok(metas) => AnnotationView::Entries(metas.map_values(|m: Meta| entry_of(m))),
            Err(span) => AnnotationView::Malformed(span),
        }
    } else {
        AnnotationView::Foreign
    }
}

/// The declaration that a parsed input stands for.
pub open spec fn declaration_of(input: DeriveInput) -> DeclarationView {
    DeclarationView {
        ident: ident_of(input),
        span: ident_span_of(input),
        generics: generics_of(input),
        annotations: attributes_of(input).map_values(|a: Attribute| annotation_of(a)),
        body: body_of(input),
    }
}

fn read_entry(meta: &Meta) -> (entry: Entry)
    ensures
        entry@ == entry_of(*meta),
{
    let key = Key {
        name: entry_key_name(meta),
        text: entry_key_text(meta),
        span: entry_key_span(meta),
    };
    match entry_form(meta) {
        Form::Flag => Entry::Flag(key),
        Form::Pair => {
            let value = match entry_string(meta) {
                Some(text) => Value::Str(text),
                None => Value::Other(entry_value_span(meta)),
            };
            Entry::Pair(key, value)
        },
        Form::List => Entry::Other(key, entry_text(meta)),
    }
}

fn read_annotation(attr: &Attribute) -> (annotation: Annotation)
    ensures
        annotation@ == annotation_of(*attr),
{
    if !attribute_is(attr, "enum_debug") {
        return Annotation::Foreign;
    }
    match attribute_entries(attr) {
        Err(span) => Annotation::Malformed(span),
        Ok(metas) => {
            let mut entries: Vec<Entry> = Vec::new();
            let mut i: usize = 0;
            while i < metas.len()
                invariant
                    i <= metas.len(),
                    entries@.len() == i,
                    forall|j: int| 0 <= j < i ==> entries@[j]@ == entry_of(metas@[j]),
                decreases metas.len() - i,
            {
                entries.push(read_entry(&metas[i]));
                i = i + 1;
            }
            assert(crate::model::entries_view(entries@) =~= metas@.map_values(
                |m: Meta| entry_of(m),
            ));
            Annotation::Entries(entries)
        },
    }
}

/// Reads a parsed declaration: its name, its generic parameters, what it
/// declares, and every annotation, in the order of the source.
pub fn read_declaration(input: &DeriveInput) -> (decl: Declaration)
    ensures
        decl@ == declaration_of(*input),
{
    let attrs = input_attributes(input);
    let mut annotations: Vec<Annotation> = Vec::new();
    let mut i: usize = 0;
    while i < attrs.len()
        invariant
            i <= attrs.len(),
            annotations@.len() == i,
            forall|j: int| 0 <= j < i ==> annotations@[j]@ == annotation_of(attrs@[j]),
        decreases attrs.len() - i,
    {
        annotations.push(read_annotation(&attrs[i]));
        i = i + 1;
    }
    assert(crate::model::annotations_view(annotations@) =~= attrs@.map_values(
        |a: Attribute| annotation_of(a),
    ));
    Declaration {
        ident: input_ident(input),
        span: input_ident_span(input),
        generics: input_generics(input),
        annotations,
        body: input_body(input),
    }
}

/// The view of a source text or an error.
pub open spec fn emitted_view(outcome: Result<String, DeriveError>) -> Result<
    Seq<char>,
    ErrorView,
> {
    match outcome {
        Ok(text) => Ok(text@),
        Err(error) => Err(error@),
    }
}

/// Generates the implementation for a parsed declaration and gives its source
/// text. Nothing is emitted for a declaration that is not accepted: the
/// outcome is then the error alone.
pub fn derive_enum_debug(input: &DeriveInput) -> (outcome: Result<String, DeriveError>)
    ensures
        emitted_view(outcome) == derive_text(declaration_of(*input)),
{
    let decl = read_declaration(input);
    match generate(&decl) {
        Ok(generated) => Ok(generated.render()),
        Err(error) => Err(error),
    }
}

impl DeriveError {
    /// The error as the tokens that make the compiler report it: a compile
    /// error with the error's message, at the error's place.
    pub fn to_compile_error(&self) -> (tokens: TokenStream)
        ensures
            tokens == compile_error_of(error_span(self@), error_message(self@)),
    {
        let message = self.message();
        error_tokens(self.span(), message.as_str())
    }
}

} // verus!
