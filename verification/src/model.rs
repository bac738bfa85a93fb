//! What the generator reads of a declaration, as plain values, and the
//! mathematical view of each such value.

use proc_macro2::Span;
use vstd::prelude::*;

verus! {

/// What a variant carries.
#[derive(Debug, Clone, Copy, PartialEq, Eq)]
pub enum FieldShape {
    /// No fields: `A`.
    Unit,
    /// Unnamed fields: `A(u8)`.
    Unnamed,
    /// Named fields: `A { x: u8 }`.
    Named,
}

/// One variant of a declared enum.
#[derive(Debug)]
pub struct Variant {
    pub ident: String,
    pub fields: FieldShape,
}

/// What a [`Variant`] is, its texts as sequences of characters.
pub struct VariantView {
    pub ident: Seq<char>,
    pub fields: FieldShape,
}

impl View for Variant {
    type V = VariantView;

    open spec fn view(&self) -> VariantView {
        VariantView { ident: self.ident@, fields: self.fields }
    }
}

/// The views of the variants of a list, in its order.
pub open spec fn variants_view(variants: Seq<Variant>) -> Seq<VariantView> {
    variants.map_values(|v: Variant| v@)
}

/// What a declaration declares.
#[derive(Debug)]
pub enum Body {
    /// An enum with its variants, in the order of the source.
    Enum(Vec<Variant>),
    Struct,
    Union,
}

/// What a [`Body`] is, its texts as sequences of characters.
pub enum BodyView {
    Enum(Seq<VariantView>),
    Struct,
    Union,
}

impl View for Body {
    type V = BodyView;

    open spec fn view(&self) -> BodyView {
        match self {
            Body::Enum(variants) => BodyView::Enum(variants_view(variants@)),
            Body::Struct => BodyView::Struct,
            Body::Union => BodyView::Union,
        }
    }
}

/// The generic parameters of a declaration, each fragment as source text;
/// a fragment that the declaration lacks is empty.
#[derive(Debug)]
pub struct Generics {
    /// What follows `impl`: `<T: Clone>`.
    pub params: String,
    /// What follows the type's name: `<T>`.
    pub args: String,
    /// The where clause, with its keyword.
    pub where_clause: String,
}

/// What a [`Generics`] is, its texts as sequences of characters.
pub struct GenericsView {
    pub params: Seq<char>,
    pub args: Seq<char>,
    pub where_clause: Seq<char>,
}

impl View for Generics {
    type V = GenericsView;

    open spec fn view(&self) -> GenericsView {
        GenericsView { params: self.params@, args: self.args@, where_clause: self.where_clause@ }
    }
}

/// The key of an entry.
#[derive(Debug)]
pub struct Key {
    /// The key, where it is a single identifier.
    pub name: Option<String>,
    /// The key as it is written.
    pub text: String,
    /// Where it is written.
    pub span: Span,
}

/// What a [`Key`] is, its texts as sequences of characters.
pub struct KeyView {
    pub name: Option<Seq<char>>,
    pub text: Seq<char>,
    pub span: Span,
}

/// The view of a text that may be absent.
pub open spec fn text_view(text: Option<String>) -> Option<Seq<char>> {
    match text {
        Some(s) => Some(s@),
        None => None,
    }
}

impl View for Key {
    type V = KeyView;

    open spec fn view(&self) -> KeyView {
        KeyView { name: text_view(self.name), text: self.text@, span: self.span }
    }
}

/// What stands behind the `=` of an entry.
#[derive(Debug)]
pub enum Value {
    /// A string literal, by what it denotes.
    Str(String),
    /// Anything else, by where it is written.
    Other(Span),
}

/// What a [`Value`] is, its texts as sequences of characters.
pub enum ValueView {
    Str(Seq<char>),
    Other(Span),
}

impl View for Value {
    type V = ValueView;

    open spec fn view(&self) -> ValueView {
        match self {
            Value::Str(s) => ValueView::Str(s@),
            Value::Other(span) => ValueView::Other(*span),
        }
    }
}

/// The form of an entry.
#[derive(Debug, Clone, Copy, PartialEq, Eq)]
pub enum Form {
    /// A bare key.
    Flag,
    /// A key, `=` and a value.
    Pair,
    /// A key and a bracketed list.
    List,
}

/// One entry of an annotation's list.
#[derive(Debug)]
pub enum Entry {
    /// A bare key: `path`.
    Flag(Key),
    /// A key with a value: `name = "Foo"`.
    Pair(Key, Value),
    /// Any other form, such as a nested list `key(...)`, with the whole
    /// entry as it is written.
    Other(Key, String),
}

/// What an [`Entry`] is, its texts as sequences of characters.
pub enum EntryView {
    Flag(KeyView),
    Pair(KeyView, ValueView),
    Other(KeyView, Seq<char>),
}

impl View for Entry {
    type V = EntryView;

    open spec fn view(&self) -> EntryView {
        match self {
            Entry::Flag(key) => EntryView::Flag(key@),
            Entry::Pair(key, value) => EntryView::Pair(key@, value@),
            Entry::Other(key, text) => EntryView::Other(key@, text@),
        }
    }
}

/// The views of the entries of a list, in its order.
pub open spec fn entries_view(entries: Seq<Entry>) -> Seq<EntryView> {
    entries.map_values(|e: Entry| e@)
}

/// One annotation of a declaration.
#[derive(Debug)]
pub enum Annotation {
    /// An annotation under another tag than this generator's: it is passed
    /// over.
    Foreign,
    /// An annotation under this generator's tag, with its entries in the
    /// order of the source.
    Entries(Vec<Entry>),
    /// An annotation under this generator's tag whose arguments are no list
    /// of entries, with the place where reading them failed.
    Malformed(Span),
}

/// What an [`Annotation`] is, its texts as sequences of characters.
pub enum AnnotationView {
    Foreign,
    Entries(Seq<EntryView>),
    Malformed(Span),
}

impl View for Annotation {
    type V = AnnotationView;

    open spec fn view(&self) -> AnnotationView {
        match self {
            Annotation::Foreign => AnnotationView::Foreign,
            Annotation::Entries(entries) => AnnotationView::Entries(entries_view(entries@)),
            Annotation::Malformed(span) => AnnotationView::Malformed(*span),
        }
    }
}

/// The views of the annotations of a list, in its order.
pub open spec fn annotations_view(annotations: Seq<Annotation>) -> Seq<AnnotationView> {
    annotations.map_values(|a: Annotation| a@)
}

/// A declaration as the generator reads it.
#[derive(Debug)]
pub struct Declaration {
    /// The name of the declared type.
    pub ident: String,
    /// Where that name is written.
    pub span: Span,
    pub generics: Generics,
    /// Every annotation of the declaration, in the order of the source.
    pub annotations: Vec<Annotation>,
    pub body: Body,
}

/// What a [`Declaration`] is, its texts as sequences of characters.
pub struct DeclarationView {
    pub ident: Seq<char>,
    pub span: Span,
    pub generics: GenericsView,
    pub annotations: Seq<AnnotationView>,
    pub body: BodyView,
}

impl View for Declaration {
    type V = DeclarationView;

    open spec fn view(&self) -> DeclarationView {
        DeclarationView {
            ident: self.ident@,
            span: self.span,
            generics: self.generics@,
            annotations: annotations_view(self.annotations@),
            body: self.body@,
        }
    }
}

} // verus!
