use enum_debug::model::{Annotation, Body, Declaration, FieldShape, Generics, Variant};
use enum_debug::{derive_enum_debug, generate, DeriveError, Generated, GeneratedName};
use proc_macro2::{Span, TokenStream, TokenTree};

fn no_generics() -> Generics {
    Generics { params: String::new(), args: String::new(), where_clause: String::new() }
}

fn declaration(ident: &str, variants: &[(&str, FieldShape)]) -> Declaration {
    Declaration {
        ident: ident.to_string(),
        span: Span::call_site(),
        generics: no_generics(),
        annotations: Vec::new(),
        body: Body::Enum(
            variants
                .iter()
                .map(|(ident, fields)| Variant { ident: ident.to_string(), fields: *fields })
                .collect(),
        ),
    }
}

fn derived(source: &str) -> String {
    let input: syn::DeriveInput = syn::parse_str(source).unwrap();
    derive_enum_debug(&input).unwrap()
}

/// The tokens of a stream one by one, whatever the spacing between them.
fn flatten(stream: TokenStream, found: &mut Vec<String>) {
    for tree in stream {
        match tree {
            TokenTree::Group(group) => {
                found.push(format!("open {:?}", group.delimiter()));
                flatten(group.stream(), found);
                found.push(format!("close {:?}", group.delimiter()));
            },
            TokenTree::Ident(ident) => found.push(ident.to_string()),
            TokenTree::Punct(punct) => found.push(punct.as_char().to_string()),
            TokenTree::Literal(literal) => found.push(literal.to_string()),
        }
    }
}

fn tokens(text: &str) -> Vec<String> {
    let mut found = Vec::new();
    flatten(text.parse().unwrap(), &mut found);
    found
}

/// The string literals of a token stream, in order.
fn literals(stream: TokenStream, found: &mut Vec<String>) {
    for tree in stream {
        match tree {
            TokenTree::Group(group) => literals(group.stream(), found),
            TokenTree::Literal(literal) => {
                let text = literal.to_string();
                if text.starts_with('"') {
                    found.push(syn::parse_str::<syn::LitStr>(&text).unwrap().value());
                }
            },
            _ => {},
        }
    }
}

const ONE: &str = "impl ::enum_debug::EnumDebug for One {
    #[inline]
    fn type_name() -> &'static ::std::primitive::str {
        \"One\"
    }

    fn variant_names() -> &'static [&'static ::std::primitive::str] {
        &[
            ::std::stringify!(A),
        ]
    }

    fn variant_name(&self) -> &'static ::std::primitive::str {
        match self {
            One::A { .. } => ::std::stringify!(A),
            #[allow(dead_code)]
            _ => ::std::unreachable!(),
        }
    }
}
";

#[test]
fn text_of_a_small_enum() {
    let generated = generate(&declaration("One", &[("A", FieldShape::Unit)])).unwrap();
    assert_eq!(generated.render(), ONE);
    assert_eq!(derived("enum One { A }"), ONE);
}

#[test]
fn fields_do_not_change_the_text() {
    assert_eq!(derived("enum One { A(u8, String) }"), ONE);
    assert_eq!(derived("enum One { A { x: u8 } }"), ONE);
    let unnamed = generate(&declaration("One", &[("A", FieldShape::Unnamed)])).unwrap();
    let named = generate(&declaration("One", &[("A", FieldShape::Named)])).unwrap();
    assert_eq!(unnamed.render(), ONE);
    assert_eq!(named.render(), ONE);
}

#[test]
fn text_of_an_enum_without_variants() {
    let expected = "impl ::enum_debug::EnumDebug for Empty {
    #[inline]
    fn type_name() -> &'static ::std::primitive::str {
        \"Empty\"
    }

    fn variant_names() -> &'static [&'static ::std::primitive::str] {
        &[
        ]
    }

    fn variant_name(&self) -> &'static ::std::primitive::str {
        match self {
            #[allow(dead_code)]
            _ => ::std::unreachable!(),
        }
    }
}
";
    assert_eq!(derived("pub enum Empty {}"), expected);
}

#[test]
fn text_with_the_own_path() {
    let text = derived("#[enum_debug(path)] enum Modded2 { VariantWithoutValue }");
    assert!(text.contains(
        "fn type_name() -> &'static ::std::primitive::str {\n        \
         ::std::any::type_name::<Self>()\n    }"
    ));
    assert!(!text.contains("\"Modded2\""));
}

#[test]
fn text_with_a_fixed_name() {
    let text = derived("#[enum_debug(name = \"Foo\")] enum Modded1 { VariantWithoutValue }");
    assert!(text.contains(
        "fn type_name() -> &'static ::std::primitive::str {\n        \"Foo\"\n    }"
    ));
    assert!(text.contains("Modded1::VariantWithoutValue { .. } => "));
}

#[test]
fn text_with_generics() {
    let text = derived(
        "enum Tree<'a, T: Clone, const N: usize = 2> where T: Copy { Leaf(&'a T), Fork([u8; N]) }",
    );
    let header = text.lines().next().unwrap();
    assert_eq!(
        tokens(header.trim_end_matches('{')),
        tokens(
            "impl<'a, T: Clone, const N: usize> ::enum_debug::EnumDebug for Tree<'a, T, N> \
             where T: Copy"
        )
    );
    assert!(text.contains("            Tree::Leaf { .. } => ::std::stringify!(Leaf),\n"));
    assert!(text.contains("            Tree::Fork { .. } => ::std::stringify!(Fork),\n"));
}

#[test]
fn text_lexes_as_the_implementation() {
    let text = derived("#[enum_debug(name = \"Foo\")] enum More<T> { A, B(T), C { x: T } }");
    let expected = "impl < T > :: enum_debug :: EnumDebug for More < T > { \
        # [inline] fn type_name () -> & 'static :: std :: primitive :: str { \"Foo\" } \
        fn variant_names () -> & 'static [& 'static :: std :: primitive :: str] { \
        & [:: std :: stringify ! (A) , :: std :: stringify ! (B) , :: std :: stringify ! (C) ,] } \
        fn variant_name (& self) -> & 'static :: std :: primitive :: str { match self { \
        More :: A { .. } => :: std :: stringify ! (A) , \
        More :: B { .. } => :: std :: stringify ! (B) , \
        More :: C { .. } => :: std :: stringify ! (C) , \
        # [allow (dead_code)] _ => :: std :: unreachable ! () , } } }";
    assert_eq!(tokens(&text), tokens(expected));
}

#[test]
fn name_is_written_as_a_literal_that_denotes_it() {
    let names = [
        "Foo",
        "",
        "with space",
        "quote\"inside",
        "back\\slash",
        "tab\tand\nnewline\r",
        "nul\0",
        "caf\u{e9} \u{1f600} \u{202e}",
        "{braces} 'single' ~",
        "\u{7f}\u{10ffff}",
    ];
    for name in names {
        let generated = Generated {
            ident: "One".to_string(),
            generics: no_generics(),
            name: GeneratedName::Literal(name.to_string()),
            variants: vec!["A".to_string()],
        };
        let mut found = Vec::new();
        literals(generated.render().parse().unwrap(), &mut found);
        assert_eq!(found, vec![name.to_string()]);
    }
}

#[test]
fn name_from_the_source_comes_back() {
    let text = derived("#[enum_debug(name = \"a\\\"b\\n\\u{e9}\")] enum One { A }");
    let mut found = Vec::new();
    literals(text.parse().unwrap(), &mut found);
    assert_eq!(found, vec!["a\"b\n\u{e9}".to_string()]);
    let raw = derived("#[enum_debug(name = r#\"a\"b\\\"#)] enum One { A }");
    let mut found = Vec::new();
    literals(raw.parse().unwrap(), &mut found);
    assert_eq!(found, vec!["a\"b\\".to_string()]);
}

#[test]
fn what_is_no_enum_gets_nothing() {
    for body in [Body::Struct, Body::Union] {
        let decl = Declaration {
            ident: "Point".to_string(),
            span: Span::call_site(),
            generics: no_generics(),
            annotations: vec![Annotation::Malformed(Span::call_site())],
            body,
        };
        let outcome = generate(&decl);
        assert!(matches!(outcome, Err(DeriveError::NotAnEnum { .. })));
        assert_eq!(outcome.unwrap_err().message(), "EnumDebug can only be derived on enums");
    }
}

#[test]
fn queries_of_a_generated_implementation() {
    let generated = Generated {
        ident: "One".to_string(),
        generics: no_generics(),
        name: GeneratedName::OwnPath,
        variants: vec!["A".to_string(), "B".to_string()],
    };
    assert_eq!(generated.type_name_at("a::One"), "a::One");
    assert_eq!(generated.variant_names(), vec!["A", "B"]);
    assert_eq!(generated.variant_name(0), "A");
    assert_eq!(generated.variant_name(1), "B");
    let fixed = Generated { name: GeneratedName::Literal("X".to_string()), ..generated };
    assert_eq!(fixed.type_name_at("a::One"), "X");
}

#[test]
fn variant_names_of_a_list() {
    let variants = vec![
        Variant { ident: "B".to_string(), fields: FieldShape::Named },
        Variant { ident: "A".to_string(), fields: FieldShape::Unit },
    ];
    assert_eq!(enum_debug::emit::variant_names(&variants), vec!["B", "A"]);
    assert_eq!(enum_debug::emit::variant_names(&Vec::new()), Vec::<String>::new());
}
