//! The generated implementation: what it holds, what its queries answer, and
//! the source text that is emitted for it.

use crate::model::{
    variants_view, Body, BodyView, Declaration, DeclarationView, Generics, GenericsView, Variant,
    VariantView,
};
use crate::resolve::{resolve, resolve_name, DeriveError, ErrorView, GeneratedName, NameView};
use crate::text::{push_quoted, quoted};
use vstd::prelude::*;
use vstd::string::StringExecFns;

verus! {

/// The implementation generated for one declaration.
#[derive(Debug)]
pub struct Generated {
    /// The name of the declared type.
    pub ident: String,
    /// The declaration's generic parameters, unchanged.
    pub generics: Generics,
    /// The name that the implementation gives the type.
    pub name: GeneratedName,
    /// The names of the variants, in the order of the declaration.
    pub variants: Vec<String>,
}

/// What a [`Generated`] is, its texts as sequences of characters.
pub struct GeneratedView {
    pub ident: Seq<char>,
    pub generics: GenericsView,
    pub name: NameView,
    pub variants: Seq<Seq<char>>,
}

/// The views of the texts of a list, in its order.
pub open spec fn texts_view(texts: Seq<String>) -> Seq<Seq<char>> {
    texts.map_values(|t: String| t@)
}

impl View for Generated {
    type V = GeneratedView;

    open spec fn view(&self) -> GeneratedView {
        GeneratedView {
            ident: self.ident@,
            generics: self.generics@,
            name: self.name@,
            variants: texts_view(self.variants@),
        }
    }
}

/// The names of the variants, in their order.
pub open spec fn idents(variants: Seq<VariantView>) -> Seq<Seq<char>> {
    variants.map_values(|v: VariantView| v.ident)
}

/// The implementation generated for a declaration, or why there is none: an
/// enum gets one unless an entry of its annotations is not accepted, and
/// nothing else gets one.
pub open spec fn generate_spec(decl: DeclarationView) -> Result<GeneratedView, ErrorView> {
    match decl.body {
        BodyView::Enum(variants) => match resolve(decl.ident, decl.annotations) {
            Ok(name) => Ok(
                GeneratedView {
                    ident: decl.ident,
                    generics: decl.generics,
                    name,
                    variants: idents(variants),
                },
            ),
            Err(error) => Err(error),
        },
        _ => Err(ErrorView::NotAnEnum { span: decl.span }),
    }
}

/// The view of an implementation or an error.
pub open spec fn generated_view(outcome: Result<Generated, DeriveError>) -> Result<
    GeneratedView,
    ErrorView,
> {
    match outcome {
        Ok(generated) => Ok(generated@),
        Err(error) => Err(error@),
    }
}

/// The names of the variants, in the order in which they are declared. An
/// enum without variants gives an empty list.
pub fn variant_names(variants: &Vec<Variant>) -> (names: Vec<String>)
    ensures
        names@.len() == variants@.len(),
        forall|i: int| 0 <= i < variants@.len() ==> names@[i]@ == variants@[i].ident@,
        texts_view(names@) == idents(variants_view(variants@)),
{
    let mut names: Vec<String> = Vec::new();
    let mut i: usize = 0;
    while i < variants.len()
        invariant
            i <= variants.len(),
            names@.len() == i,
            forall|j: int| 0 <= j < i ==> names@[j]@ == variants@[j].ident@,
        decreases variants.len() - i,
    {
        names.push(variants[i].ident.clone());
        i = i + 1;
    }
    assert(texts_view(names@) =~= idents(variants_view(variants@)));
    names
}

fn copy_generics(generics: &Generics) -> (copy: Generics)
    ensures
        copy@ == generics@,
{
    Generics {
        params: generics.params.clone(),
        args: generics.args.clone(),
        where_clause: generics.where_clause.clone(),
    }
}

/// Generates the implementation for a declaration.
pub fn generate(decl: &Declaration) -> (outcome: Result<Generated, DeriveError>)
    ensures
        generated_view(outcome) == generate_spec(decl@),
{
    match &decl.body {
        Body::Enum(variants) => {
            match resolve_name(decl.ident.as_str(), &decl.annotations) {
                Ok(name) => Ok(
                    Generated {
                        ident: decl.ident.clone(),
                        generics: copy_generics(&decl.generics),
                        name,
                        variants: variant_names(variants),
                    },
                ),
                Err(error) => Err(error),
            }
        },
        _ => Err(DeriveError::NotAnEnum { span: decl.span }),
    }
}

impl GeneratedView {
    /// What the type-name query answers, where the compiler resolves the
    /// type's own path to `own_path`.
    pub open spec fn type_name_at(self, own_path: Seq<char>) -> Seq<char> {
        match self.name {
            NameView::Literal(text) => text,
            NameView::OwnPath => own_path,
        }
    }
}

impl Generated {
    /// The type-name query: the fixed name, or else `own_path`, which is what
    /// the compiler resolves the type's own path to.
    pub fn type_name_at(&self, own_path: &str) -> (name: String)
        ensures
            name@ == self@.type_name_at(own_path@),
    {
        match &self.name {
            GeneratedName::Literal(text) => text.clone(),
            GeneratedName::OwnPath => own_path.to_owned(),
        }
    }

    /// The variant-names query: every variant's name, in the order of the
    /// declaration.
    pub fn variant_names(&self) -> (names: Vec<String>)
        ensures
            texts_view(names@) == self@.variants,
    {
        let mut names: Vec<String> = Vec::new();
        let mut i: usize = 0;
        while i < self.variants.len()
            invariant
                i <= self.variants.len(),
                names@.len() == i,
                forall|j: int| 0 <= j < i ==> names@[j]@ == self.variants@[j]@,
            decreases self.variants.len() - i,
        {
            names.push(self.variants[i].clone());
            i = i + 1;
        }
        assert(texts_view(names@) =~= self@.variants);
        names
    }

    /// The active-variant query for a value whose variant is the one at
    /// `active` in the declaration.
    pub fn variant_name(&self, active: usize) -> (name: String)
        requires
            active < self@.variants.len(),
        ensures
            name@ == self@.variants[active as int],
    {
        self.variants[active].clone()
    }
}

/// A fragment with a space before it, or nothing for an empty fragment.
pub open spec fn spaced(fragment: Seq<char>) -> Seq<char> {
    if fragment.len() == 0 {
        fragment
    } else {
        " "@ + fragment
    }
}

/// The expression that the type-name query returns.
pub open spec fn name_text(name: NameView) -> Seq<char> {
    match name {
        NameView::Literal(text) => quoted(text),
        NameView::OwnPath => "::std::any::type_name::<Self>()"@,
    }
}

/// The first line of the implementation, with the declaration's generic
/// parameters and where clause as they are.
pub open spec fn header_text(generated: GeneratedView) -> Seq<char> {
    "impl"@ + spaced(generated.generics.params) + " ::enum_debug::EnumDebug for "@
        + generated.ident + spaced(generated.generics.args) + spaced(
        generated.generics.where_clause,
    ) + " {\n"@
}

/// The type-name query.
pub open spec fn type_name_text(generated: GeneratedView) -> Seq<char> {
    "    #[inline]\n    fn type_name() -> &'static ::std::primitive::str {\n        "@
        + name_text(generated.name) + "\n    }\n\n"@
}

/// One line for each variant's name, in order.
pub open spec fn list_text(variants: Seq<Seq<char>>) -> Seq<char>
    decreases variants.len(),
{
    if variants.len() == 0 {
        Seq::empty()
    } else {
        list_text(variants.drop_last()) + "            ::std::stringify!("@ + variants.last()
            + "),\n"@
    }
}

/// The variant-names query.
pub open spec fn variant_names_text(generated: GeneratedView) -> Seq<char> {
    "    fn variant_names() -> &'static [&'static ::std::primitive::str] {\n        &[\n"@
        + list_text(generated.variants) + "        ]\n    }\n\n"@
}

/// One arm for each variant, in order; its pattern passes over the fields.
pub open spec fn arms_text(ident: Seq<char>, variants: Seq<Seq<char>>) -> Seq<char>
    decreases variants.len(),
{
    if variants.len() == 0 {
        Seq::empty()
    } else {
        arms_text(ident, variants.drop_last()) + "            "@ + ident + "::"@
            + variants.last() + " { .. } => ::std::stringify!("@ + variants.last() + "),\n"@
    }
}

/// The active-variant query: a match with an arm for each variant, and a last
/// arm that is never reached.
pub open spec fn variant_name_text(generated: GeneratedView) -> Seq<char> {
    "    fn variant_name(&self) -> &'static ::std::primitive::str {\n        match self {\n"@
        + arms_text(generated.ident, generated.variants)
        + "            #[allow(dead_code)]\n            _ => ::std::unreachable!(),\n        }\n    }\n"@
}

/// The source text of the implementation.
pub open spec fn render_text(generated: GeneratedView) -> Seq<char> {
    header_text(generated) + type_name_text(generated) + variant_names_text(generated)
        + variant_name_text(generated) + "}\n"@
}

fn push_spaced(text: &mut String, fragment: &str)
    ensures
        final(text)@ == old(text)@ + spaced(fragment@),
{
    if fragment.unicode_len() == 0 {
        assert(text@ =~= old(text)@ + spaced(fragment@));
    } else {
        text.append(" ");
        text.append(fragment);
        assert(text@ =~= old(text)@ + spaced(fragment@));
    }
}

impl Generated {
    fn push_header(&self, text: &mut String)
        ensures
            final(text)@ == old(text)@ + header_text(self@),
    {
        text.append("impl");
        push_spaced(text, self.generics.params.as_str());
        text.append(" ::enum_debug::EnumDebug for ");
        text.append(self.ident.as_str());
        push_spaced(text, self.generics.args.as_str());
        push_spaced(text, self.generics.where_clause.as_str());
        text.append(" {\n");
        assert(text@ =~= old(text)@ + header_text(self@));
    }

    fn push_type_name(&self, text: &mut String)
        ensures
            final(text)@ == old(text)@ + type_name_text(self@),
    {
        text.append(
            "    #[inline]\n    fn type_name() -> &'static ::std::primitive::str {\n        ",
        );
        match &self.name {
            GeneratedName::Literal(name) => {
                push_quoted(text, name.as_str());
            },
            GeneratedName::OwnPath => {
                text.append("::std::any::type_name::<Self>()");
            },
        }
        text.append("\n    }\n\n");
        assert(text@ =~= old(text)@ + type_name_text(self@));
    }

    fn push_variant_names(&self, text: &mut String)
        ensures
            final(text)@ == old(text)@ + variant_names_text(self@),
    {
        text.append(
            "    fn variant_names() -> &'static [&'static ::std::primitive::str] {\n        &[\n",
        );
        let ghost start = text@;
        let ghost all = texts_view(self.variants@);
        let mut i: usize = 0;
        while i < self.variants.len()
            invariant
                i <= self.variants.len(),
                all == texts_view(self.variants@),
                text@ == start + list_text(all.take(i as int)),
            decreases self.variants.len() - i,
        {
            let ghost before = text@;
            text.append("            ::std::stringify!(");
            text.append(self.variants[i].as_str());
            text.append("),\n");
            proof {
                assert(all.take(i + 1).drop_last() =~= all.take(i as int));
                assert(all.take(i + 1).last() == self.variants@[i as int]@);
                assert(text@ =~= start + list_text(all.take(i + 1)));
            }
            i = i + 1;
        }
        assert(all.take(i as int) =~= all);
        text.append("        ]\n    }\n\n");
        assert(text@ =~= old(text)@ + variant_names_text(self@));
    }

    fn push_variant_name(&self, text: &mut String)
        ensures
            final(text)@ == old(text)@ + variant_name_text(self@),
    {
        text.append(
            "    fn variant_name(&self) -> &'static ::std::primitive::str {\n        match self {\n",
        );
        let ghost start = text@;
        let ghost all = texts_view(self.variants@);
        let mut i: usize = 0;
        while i < self.variants.len()
            invariant
                i <= self.variants.len(),
                all == texts_view(self.variants@),
                text@ == start + arms_text(self.ident@, all.take(i as int)),
            decreases self.variants.len() - i,
        {
            text.append("            ");
            text.append(self.ident.as_str());
            text.append("::");
            text.append(self.variants[i].as_str());
            text.append(" { .. } => ::std::stringify!(");
            text.append(self.variants[i].as_str());
            text.append("),\n");
            proof {
                assert(all.take(i + 1).drop_last() =~= all.take(i as int));
                assert(all.take(i + 1).last() == self.variants@[i as int]@);
                assert(text@ =~= start + arms_text(self.ident@, all.take(i + 1)));
            }
            i = i + 1;
        }
        assert(all.take(i as int) =~= all);
        text.append(
            "            #[allow(dead_code)]\n            _ => ::std::unreachable!(),\n        }\n    }\n",
        );
        assert(text@ =~= old(text)@ + variant_name_text(self@));
    }

    /// The source text of the implementation: the header with the
    /// declaration's generic parameters, then the three queries.
    pub fn render(&self) -> (text: String)
        ensures
            text@ == render_text(self@),
    {
        let mut text = String::new();
        self.push_header(&mut text);
        self.push_type_name(&mut text);
        self.push_variant_names(&mut text);
        self.push_variant_name(&mut text);
        text.append("}\n");
        assert(text@ =~= render_text(self@));
        text
    }
}

/// The source text emitted for a declaration, or why there is none.
pub open spec fn derive_text(decl: DeclarationView) -> Result<Seq<char>, ErrorView> {
    match generate_spec(decl) {
        Ok(generated) => Ok(render_text(generated)),
        Err(error) => Err(error),
    }
}

} // verus!
