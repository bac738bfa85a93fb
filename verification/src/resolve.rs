//! The name that the generated implementation gives the type: the entries of
//! the declaration's annotations are taken in the order of the source, each
//! naming entry overwrites the name, and the first entry that is not
//! accepted ends the generation.

use crate::model::{
    annotations_view, entries_view, Annotation, AnnotationView, Entry, EntryView, Key, Value,
    ValueView,
};
use crate::text::text_eq;
use proc_macro2::Span;
use vstd::prelude::*;
use vstd::string::StringExecFns;

verus! {

/// The name that the generated implementation gives the type.
#[derive(Debug)]
pub enum GeneratedName {
    /// A fixed text.
    Literal(String),
    /// The type's own fully-qualified path, as the compiler resolves it where
    /// the implementation stands.
    OwnPath,
}

/// A name, its text as a sequence of characters.
pub enum NameView {
    Literal(Seq<char>),
    OwnPath,
}

impl View for GeneratedName {
    type V = NameView;

    open spec fn view(&self) -> NameView {
        match self {
            GeneratedName::Literal(text) => NameView::Literal(text@),
            GeneratedName::OwnPath => NameView::OwnPath,
        }
    }
}

/// Why no implementation is generated for a declaration.
#[derive(Debug)]
pub enum DeriveError {
    /// The arguments of an annotation are no list of entries.
    MalformedArguments { span: Span },
    /// An entry has a key or a form that the generator does not know.
    UnknownProperty { text: String, span: Span },
    /// The value of `name` is no string literal.
    NameNotString { span: Span },
    /// The declaration declares no enum.
    NotAnEnum { span: Span },
}

/// An error, its text as a sequence of characters.
pub enum ErrorView {
    MalformedArguments { span: Span },
    UnknownProperty { text: Seq<char>, span: Span },
    NameNotString { span: Span },
    NotAnEnum { span: Span },
}

impl View for DeriveError {
    type V = ErrorView;

    open spec fn view(&self) -> ErrorView {
        match self {
            DeriveError::MalformedArguments { span } => ErrorView::MalformedArguments {
                span: *span,
            },
            DeriveError::UnknownProperty { text, span } => ErrorView::UnknownProperty {
                text: text@,
                span: *span,
            },
            DeriveError::NameNotString { span } => ErrorView::NameNotString { span: *span },
            DeriveError::NotAnEnum { span } => ErrorView::NotAnEnum { span: *span },
        }
    }
}

/// The place in the source that an error points at.
pub open spec fn error_span(error: ErrorView) -> Span {
    match error {
        ErrorView::MalformedArguments { span } => span,
        ErrorView::UnknownProperty { span, .. } => span,
        ErrorView::NameNotString { span } => span,
        ErrorView::NotAnEnum { span } => span,
    }
}

/// The message of an error.
pub open spec fn error_message(error: ErrorView) -> Seq<char> {
    match error {
        ErrorView::MalformedArguments { .. } =>
            "Failed to parse `enum_debug(...)` arguments as valid attributes"@,
        ErrorView::UnknownProperty { text, .. } => "Unknown attribute property '"@ + text + "'"@,
        ErrorView::NameNotString { .. } => "Name must be a string literal"@,
        ErrorView::NotAnEnum { .. } => "EnumDebug can only be derived on enums"@,
    }
}

impl DeriveError {
    /// The place in the source that the error points at: the arguments that
    /// are no list, the key that is not known, the value that is no string
    /// literal, or the name of the type that is no enum.
    pub fn span(&self) -> (span: Span)
        ensures
            span == error_span(self@),
    {
        match self {
            DeriveError::MalformedArguments { span } => *span,
            DeriveError::UnknownProperty { span, .. } => *span,
            DeriveError::NameNotString { span } => *span,
            DeriveError::NotAnEnum { span } => *span,
        }
    }

    /// The message of the error.
    pub fn message(&self) -> (message: String)
        ensures
            message@ == error_message(self@),
    {
        match self {
            DeriveError::MalformedArguments { .. } => String::from_str(
                "Failed to parse `enum_debug(...)` arguments as valid attributes",
            ),
            DeriveError::UnknownProperty { text, .. } => {
                let mut message = String::from_str("Unknown attribute property '");
                message.append(text.as_str());
                message.append("'");
                message
            },
            DeriveError::NameNotString { .. } => String::from_str("Name must be a string literal"),
            DeriveError::NotAnEnum { .. } => String::from_str(
                "EnumDebug can only be derived on enums",
            ),
        }
    }
}

/// What one entry does to the name.
pub enum Step {
    /// It leaves the name as it is.
    Keep,
    /// It overwrites the name.
    Rename(NameView),
    /// It is not accepted.
    Reject(ErrorView),
}

/// What an entry does to the name. `path` sets the type's own path, and
/// `name = "..."` the text of the literal; a bare `name` changes nothing; a
/// `name` with another value, another key and another form are not accepted.
pub open spec fn step(entry: EntryView) -> Step {
    match entry {
        EntryView::Flag(key) => if key.name == Some("path"@) {
            Step::Rename(NameView::OwnPath)
        } else if key.name == Some("name"@) {
            Step::Keep
        } else {
            Step::Reject(ErrorView::UnknownProperty { text: key.text, span: key.span })
        },
        EntryView::Pair(key, value) => if key.name == Some("name"@) {
            match value {
                ValueView::Str(text) => Step::Rename(NameView::Literal(text)),
                ValueView::Other(span) => Step::Reject(ErrorView::NameNotString { span }),
            }
        } else {
            Step::Reject(ErrorView::UnknownProperty { text: key.text, span: key.span })
        },
        EntryView::Other(key, text) => Step::Reject(
            ErrorView::UnknownProperty { text, span: key.span },
        ),
    }
}

/// The steps of one annotation: none for a foreign one, one for each entry of
/// a list, and a failure for arguments that are no list.
pub open spec fn steps(annotation: AnnotationView) -> Seq<Step> {
    match annotation {
        AnnotationView::Foreign => Seq::empty(),
        AnnotationView::Entries(entries) => entries.map_values(|e: EntryView| step(e)),
        AnnotationView::Malformed(span) => seq![
            Step::Reject(ErrorView::MalformedArguments { span }),
        ],
    }
}

/// The steps of all the annotations, in the order of the source.
pub open spec fn all_steps(annotations: Seq<AnnotationView>) -> Seq<Step>
    decreases annotations.len(),
{
    if annotations.len() == 0 {
        Seq::empty()
    } else {
        all_steps(annotations.drop_last()) + steps(annotations.last())
    }
}

/// The name after one step, or the step's failure.
pub open spec fn advance(name: NameView, step: Step) -> Result<NameView, ErrorView> {
    match step {
        Step::Keep => Ok(name),
        Step::Rename(new) => Ok(new),
        Step::Reject(error) => Err(error),
    }
}

/// The name after the steps, taken in order from `name`, or the failure of
/// the first step that fails.
pub open spec fn run(name: NameView, steps: Seq<Step>) -> Result<NameView, ErrorView>
    decreases steps.len(),
{
    if steps.len() == 0 {
        Ok(name)
    } else {
        match run(name, steps.drop_last()) {
            Ok(before) => advance(before, steps.last()),
            Err(error) => Err(error),
        }
    }
}

/// The name of a type declared as `ident` under the annotations, or why
/// there is none.
pub open spec fn resolve(ident: Seq<char>, annotations: Seq<AnnotationView>) -> Result<
    NameView,
    ErrorView,
> {
    run(NameView::Literal(ident), all_steps(annotations))
}

/// The view of a name or an error.
pub open spec fn outcome_view(outcome: Result<GeneratedName, DeriveError>) -> Result<
    NameView,
    ErrorView,
> {
    match outcome {
        Ok(name) => Ok(name@),
        Err(error) => Err(error@),
    }
}

/// Running `head` and then `tail` is running the two in one.
pub proof fn lemma_run_concat(name: NameView, head: Seq<Step>, tail: Seq<Step>)
    ensures
        run(name, head + tail) == match run(name, head) {
            Ok(before) => run(before, tail),
            Err(error) => Err(error),
        },
    decreases tail.len(),
{
    if tail.len() == 0 {
        assert(head + tail =~= head);
    } else {
        assert((head + tail).drop_last() =~= head + tail.drop_last());
        assert((head + tail).last() == tail.last());
        lemma_run_concat(name, head, tail.drop_last());
    }
}

/// Running a single step is taking it.
proof fn lemma_run_one(name: NameView, steps: Seq<Step>)
    requires
        steps.len() == 1,
    ensures
        run(name, steps) == advance(name, steps[0]),
{
    assert(run(name, steps.drop_last()) == Ok::<NameView, ErrorView>(name));
}

/// The steps of a list of annotations end with those of its last annotation.
proof fn lemma_all_steps_take(annotations: Seq<AnnotationView>, i: int)
    requires
        0 <= i < annotations.len(),
    ensures
        all_steps(annotations.take(i + 1)) == all_steps(annotations.take(i)) + steps(
            annotations[i],
        ),
{
    assert(annotations.take(i + 1).drop_last() =~= annotations.take(i));
}

fn key_is(key: &Key, name: &str) -> (hit: bool)
    ensures
        hit == (key@.name == Some(name@)),
{
    match &key.name {
        Some(text) => text_eq(text.as_str(), name),
        None => false,
    }
}

fn unknown(key: &Key) -> (error: DeriveError)
    ensures
        error@ == (ErrorView::UnknownProperty { text: key@.text, span: key@.span }),
{
    DeriveError::UnknownProperty { text: key.text.clone(), span: key.span }
}

/// Takes one entry: the name after it, or why the entry is not accepted.
pub fn apply_entry(name: GeneratedName, entry: &Entry) -> (outcome: Result<
    GeneratedName,
    DeriveError,
>)
    ensures
        outcome_view(outcome) == advance(name@, step(entry@)),
{
    match entry {
        Entry::Flag(key) => {
            if key_is(key, "path") {
                Ok(GeneratedName::OwnPath)
            } else if key_is(key, "name") {
                Ok(name)
            } else {
                Err(unknown(key))
            }
        },
        Entry::Pair(key, value) => {
            if key_is(key, "name") {
                match value {
                    Value::Str(text) => Ok(GeneratedName::Literal(text.clone())),
                    Value::Other(span) => Err(DeriveError::NameNotString { span: *span }),
                }
            } else {
                Err(unknown(key))
            }
        },
        Entry::Other(key, text) => Err(
            DeriveError::UnknownProperty { text: text.clone(), span: key.span },
        ),
    }
}

/// Takes the entries of one list in order.
fn apply_entries(name: GeneratedName, entries: &Vec<Entry>) -> (outcome: Result<
    GeneratedName,
    DeriveError,
>)
    ensures
        outcome_view(outcome) == run(
            name@,
            steps(AnnotationView::Entries(entries_view(entries@))),
        ),
{
    let ghost start = name@;
    let ghost all = entries_view(entries@).map_values(|e: EntryView| step(e));
    let mut current = name;
    let mut i: usize = 0;
    while i < entries.len()
        invariant
            i <= entries.len(),
            start == name@,
            all == entries_view(entries@).map_values(|e: EntryView| step(e)),
            run(start, all.take(i as int)) == Ok::<NameView, ErrorView>(current@),
        decreases entries.len() - i,
    {
        proof {
            assert(all.take(i + 1).drop_last() =~= all.take(i as int));
            assert(all.take(i + 1).last() == step(entries[i as int]@));
            assert(all =~= all.take(i + 1) + all.skip(i + 1));
            lemma_run_concat(start, all.take(i + 1), all.skip(i + 1));
        }
        match apply_entry(current, &entries[i]) {
            Ok(next) => {
                current = next;
            },
            Err(error) => {
                return Err(error);
            },
        }
        i = i + 1;
    }
    assert(all.take(i as int) =~= all);
    Ok(current)
}

/// The name that the generated implementation gives a type declared as
/// `ident` under `annotations`, or why none is generated.
pub fn resolve_name(ident: &str, annotations: &Vec<Annotation>) -> (outcome: Result<
    GeneratedName,
    DeriveError,
>)
    ensures
        outcome_view(outcome) == resolve(ident@, annotations_view(annotations@)),
{
    let ghost start = NameView::Literal(ident@);
    let ghost all = annotations_view(annotations@);
    let mut current = GeneratedName::Literal(ident.to_owned());
    let mut i: usize = 0;
    while i < annotations.len()
        invariant
            i <= annotations.len(),
            all == annotations_view(annotations@),
            start == NameView::Literal(ident@),
            run(start, all_steps(all.take(i as int))) == Ok::<NameView, ErrorView>(current@),
        decreases annotations.len() - i,
    {
        proof {
            lemma_all_steps_take(all, i as int);
            lemma_run_concat(start, all_steps(all.take(i as int)), steps(all[i as int]));
            lemma_all_steps_skip(all, i + 1);
            lemma_run_concat(start, all_steps(all.take(i + 1)), all_steps(all.skip(i + 1)));
        }
        let ghost before = current@;
        let outcome = match &annotations[i] {
            Annotation::Foreign => Ok(current),
            Annotation::Entries(entries) => apply_entries(current, entries),
            Annotation::Malformed(span) => Err(DeriveError::MalformedArguments { span: *span }),
        };
        assert(outcome_view(outcome) == run(before, steps(all[i as int]))) by {
            if all[i as int] is Malformed {
                lemma_run_one(before, steps(all[i as int]));
            }
        }
        match outcome {
            Ok(next) => {
                current = next;
            },
            Err(error) => {
                return Err(error);
            },
        }
        i = i + 1;
    }
    assert(all.take(i as int) =~= all);
    Ok(current)
}

/// The steps of a list of annotations are those of a front part followed by
/// those of the rest.
proof fn lemma_all_steps_skip(annotations: Seq<AnnotationView>, i: int)
    requires
        0 <= i <= annotations.len(),
    ensures
        all_steps(annotations) == all_steps(annotations.take(i)) + all_steps(annotations.skip(i)),
    decreases annotations.len() - i,
{
    if i == annotations.len() {
        assert(annotations.take(i) =~= annotations);
        assert(annotations.skip(i) =~= Seq::<AnnotationView>::empty());
        assert(all_steps(annotations.skip(i)) =~= Seq::<Step>::empty());
        assert(all_steps(annotations) + Seq::<Step>::empty() =~= all_steps(annotations));
    } else {
        lemma_all_steps_concat(annotations.take(i), annotations.skip(i));
        assert(annotations.take(i) + annotations.skip(i) =~= annotations);
    }
}

/// The steps of two lists of annotations, one after the other.
pub proof fn lemma_all_steps_concat(head: Seq<AnnotationView>, tail: Seq<AnnotationView>)
    ensures
        all_steps(head + tail) == all_steps(head) + all_steps(tail),
    decreases tail.len(),
{
    if tail.len() == 0 {
        assert(head + tail =~= head);
        assert(all_steps(head) + all_steps(tail) =~= all_steps(head));
    } else {
        assert((head + tail).drop_last() =~= head + tail.drop_last());
        assert((head + tail).last() == tail.last());
        lemma_all_steps_concat(head, tail.drop_last());
        assert(all_steps(head + tail) =~= all_steps(head) + all_steps(tail));
    }
}

} // verus!
