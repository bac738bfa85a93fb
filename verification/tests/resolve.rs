use enum_debug::model::{Annotation, Entry, Key, Value};
use enum_debug::resolve::apply_entry;
use enum_debug::{resolve_name, DeriveError, GeneratedName};
use proc_macro2::Span;

fn key(text: &str) -> Key {
    Key { name: Some(text.to_string()), text: text.to_string(), span: Span::call_site() }
}

fn flag(text: &str) -> Entry {
    Entry::Flag(key(text))
}

fn named(text: &str) -> Entry {
    Entry::Pair(key("name"), Value::Str(text.to_string()))
}

fn literal(outcome: Result<GeneratedName, DeriveError>) -> String {
    match outcome {
        Ok(GeneratedName::Literal(text)) => text,
        other => panic!("no fixed name: {:?}", other),
    }
}

#[test]
fn no_annotation_gives_the_declared_name() {
    assert_eq!(literal(resolve_name("One", &Vec::new())), "One");
}

#[test]
fn foreign_annotations_are_passed_over() {
    let annotations = vec![Annotation::Foreign, Annotation::Foreign];
    assert_eq!(literal(resolve_name("One", &annotations)), "One");
}

#[test]
fn empty_list_changes_nothing() {
    let annotations = vec![Annotation::Entries(Vec::new())];
    assert_eq!(literal(resolve_name("One", &annotations)), "One");
}

#[test]
fn bare_name_changes_nothing() {
    let annotations = vec![Annotation::Entries(vec![flag("name")])];
    assert_eq!(literal(resolve_name("One", &annotations)), "One");
    let after = vec![Annotation::Entries(vec![named("Foo"), flag("name")])];
    assert_eq!(literal(resolve_name("One", &after)), "Foo");
}

#[test]
fn name_with_a_literal_sets_it() {
    let annotations = vec![Annotation::Entries(vec![named("Foo")])];
    assert_eq!(literal(resolve_name("One", &annotations)), "Foo");
    assert_eq!(literal(resolve_name("Another", &annotations)), "Foo");
}

#[test]
fn name_may_be_empty() {
    let annotations = vec![Annotation::Entries(vec![named("")])];
    assert_eq!(literal(resolve_name("One", &annotations)), "");
}

#[test]
fn path_sets_the_own_path() {
    let annotations = vec![Annotation::Entries(vec![flag("path")])];
    assert!(matches!(resolve_name("One", &annotations), Ok(GeneratedName::OwnPath)));
}

#[test]
fn last_write_wins_within_a_list() {
    let annotations = vec![Annotation::Entries(vec![flag("path"), named("A"), named("B")])];
    assert_eq!(literal(resolve_name("One", &annotations)), "B");
    let annotations = vec![Annotation::Entries(vec![named("A"), flag("path")])];
    assert!(matches!(resolve_name("One", &annotations), Ok(GeneratedName::OwnPath)));
}

#[test]
fn last_write_wins_across_annotations() {
    let annotations = vec![
        Annotation::Entries(vec![named("A")]),
        Annotation::Foreign,
        Annotation::Entries(vec![flag("path")]),
        Annotation::Entries(vec![named("C"), flag("name")]),
    ];
    assert_eq!(literal(resolve_name("One", &annotations)), "C");
}

#[test]
fn unknown_flag_is_an_error() {
    let annotations = vec![Annotation::Entries(vec![flag("color")])];
    match resolve_name("One", &annotations) {
        Err(DeriveError::UnknownProperty { text, .. }) => assert_eq!(text, "color"),
        other => panic!("{:?}", other),
    }
}

#[test]
fn unknown_key_with_a_value_is_an_error() {
    let entry = Entry::Pair(key("color"), Value::Str("red".to_string()));
    match resolve_name("One", &vec![Annotation::Entries(vec![entry])]) {
        Err(DeriveError::UnknownProperty { text, .. }) => assert_eq!(text, "color"),
        other => panic!("{:?}", other),
    }
    // `path` takes no value.
    let entry = Entry::Pair(key("path"), Value::Str("a::B".to_string()));
    match resolve_name("One", &vec![Annotation::Entries(vec![entry])]) {
        Err(DeriveError::UnknownProperty { text, .. }) => assert_eq!(text, "path"),
        other => panic!("{:?}", other),
    }
}

#[test]
fn key_of_several_segments_is_unknown() {
    let entry = Entry::Flag(Key {
        name: None,
        text: "a :: name".to_string(),
        span: Span::call_site(),
    });
    match resolve_name("One", &vec![Annotation::Entries(vec![entry])]) {
        Err(DeriveError::UnknownProperty { text, .. }) => assert_eq!(text, "a :: name"),
        other => panic!("{:?}", other),
    }
}

#[test]
fn other_form_is_an_error_with_the_whole_entry() {
    let entry = Entry::Other(key("name"), "name (x)".to_string());
    let outcome = resolve_name("One", &vec![Annotation::Entries(vec![entry])]);
    match &outcome {
        Err(DeriveError::UnknownProperty { text, .. }) => assert_eq!(text, "name (x)"),
        other => panic!("{:?}", other),
    }
    assert_eq!(outcome.unwrap_err().message(), "Unknown attribute property 'name (x)'");
}

#[test]
fn name_with_another_value_is_an_error() {
    let entry = Entry::Pair(key("name"), Value::Other(Span::call_site()));
    let outcome = resolve_name("One", &vec![Annotation::Entries(vec![entry])]);
    assert!(matches!(outcome, Err(DeriveError::NameNotString { .. })));
    assert_eq!(outcome.unwrap_err().message(), "Name must be a string literal");
}

#[test]
fn malformed_arguments_are_an_error() {
    let outcome = resolve_name("One", &vec![Annotation::Malformed(Span::call_site())]);
    assert!(matches!(outcome, Err(DeriveError::MalformedArguments { .. })));
    assert_eq!(
        outcome.unwrap_err().message(),
        "Failed to parse `enum_debug(...)` arguments as valid attributes"
    );
}

#[test]
fn first_error_wins() {
    let annotations = vec![
        Annotation::Entries(vec![named("A"), flag("color"), flag("size")]),
        Annotation::Malformed(Span::call_site()),
    ];
    match resolve_name("One", &annotations) {
        Err(DeriveError::UnknownProperty { text, .. }) => assert_eq!(text, "color"),
        other => panic!("{:?}", other),
    }
    let annotations = vec![
        Annotation::Malformed(Span::call_site()),
        Annotation::Entries(vec![flag("color")]),
    ];
    assert!(matches!(
        resolve_name("One", &annotations),
        Err(DeriveError::MalformedArguments { .. })
    ));
}

#[test]
fn error_after_a_write_still_fails() {
    let annotations = vec![
        Annotation::Entries(vec![named("A")]),
        Annotation::Entries(vec![flag("path"), flag("color")]),
    ];
    assert!(resolve_name("One", &annotations).is_err());
}

#[test]
fn one_entry_at_a_time() {
    let kept = apply_entry(GeneratedName::Literal("One".to_string()), &flag("name"));
    assert_eq!(literal(kept), "One");
    let kept = apply_entry(GeneratedName::OwnPath, &flag("name"));
    assert!(matches!(kept, Ok(GeneratedName::OwnPath)));
    let set = apply_entry(GeneratedName::OwnPath, &named("X"));
    assert_eq!(literal(set), "X");
    let path = apply_entry(GeneratedName::Literal("One".to_string()), &flag("path"));
    assert!(matches!(path, Ok(GeneratedName::OwnPath)));
    let failed = apply_entry(GeneratedName::Literal("One".to_string()), &flag("Path"));
    assert!(matches!(failed, Err(DeriveError::UnknownProperty { .. })));
}

#[test]
fn message_of_each_error() {
    let span = Span::call_site();
    assert_eq!(
        DeriveError::MalformedArguments { span }.message(),
        "Failed to parse `enum_debug(...)` arguments as valid attributes"
    );
    assert_eq!(
        DeriveError::UnknownProperty { text: "color".to_string(), span }.message(),
        "Unknown attribute property 'color'"
    );
    assert_eq!(DeriveError::NameNotString { span }.message(), "Name must be a string literal");
    assert_eq!(
        DeriveError::NotAnEnum { span }.message(),
        "EnumDebug can only be derived on enums"
    );
}
