//! What holds of every declaration and of the implementation generated for
//! it.

use crate::emit::{derive_text, generate_spec, GeneratedView};
use crate::model::{AnnotationView, BodyView, DeclarationView};
use crate::resolve::{all_steps, run, ErrorView, NameView, Step};
use vstd::prelude::*;

verus! {

/// Whether none of the steps is a rejection.
pub open spec fn all_accepted(steps: Seq<Step>) -> bool {
    forall|j: int| 0 <= j < steps.len() ==> !(#[trigger] steps[j] is Reject)
}

/// The first entry that is not accepted decides: where a step is a rejection
/// and no step before it is one, the outcome is that rejection, whatever
/// stands before and behind it.
pub proof fn law_first_rejection(name: NameView, steps: Seq<Step>, i: int)
    requires
        0 <= i < steps.len(),
        steps[i] is Reject,
        all_accepted(steps.take(i)),
    ensures
        run(name, steps) == Err::<NameView, ErrorView>(steps[i]->Reject_0),
    decreases steps.len(),
{
    if i == steps.len() - 1 {
        lemma_accepted_runs(name, steps.take(i));
        assert(steps.drop_last() =~= steps.take(i));
    } else {
        assert(steps.drop_last().take(i) =~= steps.take(i));
        law_first_rejection(name, steps.drop_last(), i);
    }
}

/// Steps of which none is a rejection give a name.
pub proof fn lemma_accepted_runs(name: NameView, steps: Seq<Step>)
    requires
        all_accepted(steps),
    ensures
        run(name, steps) is Ok,
    decreases steps.len(),
{
    if steps.len() > 0 {
        assert forall|j: int| 0 <= j < steps.drop_last().len() implies !(
        #[trigger] steps.drop_last()[j] is Reject) by {
            assert(steps.drop_last()[j] == steps[j]);
        }
        lemma_accepted_runs(name, steps.drop_last());
        assert(!(steps[steps.len() - 1] is Reject));
    }
}

/// No implementation without acceptance: the outcome is an error exactly if
/// one of the steps is a rejection.
pub proof fn law_rejected_iff(name: NameView, steps: Seq<Step>)
    ensures
        run(name, steps) is Err <==> !all_accepted(steps),
    decreases steps.len(),
{
    if all_accepted(steps) {
        lemma_accepted_runs(name, steps);
    } else {
        let j = choose|j: int| 0 <= j < steps.len() && #[trigger] steps[j] is Reject;
        if j == steps.len() - 1 {
        } else {
            assert(steps.drop_last()[j] == steps[j]);
            law_rejected_iff(name, steps.drop_last());
        }
    }
}

/// The last write wins: where every step is accepted, the name is the one
/// set by the last step that sets one, whatever the name was before.
pub proof fn law_last_rename(name: NameView, steps: Seq<Step>, i: int)
    requires
        0 <= i < steps.len(),
        all_accepted(steps),
        steps[i] is Rename,
        forall|j: int| i < j < steps.len() ==> #[trigger] steps[j] is Keep,
    ensures
        run(name, steps) == Ok::<NameView, ErrorView>(steps[i]->Rename_0),
    decreases steps.len(),
{
    assert forall|j: int| 0 <= j < steps.drop_last().len() implies !(
    #[trigger] steps.drop_last()[j] is Reject) by {
        assert(steps.drop_last()[j] == steps[j]);
    }
    if i == steps.len() - 1 {
        lemma_accepted_runs(name, steps.drop_last());
    } else {
        assert forall|j: int| i < j < steps.drop_last().len() implies #[trigger] steps.drop_last()[j] is Keep by {
            assert(steps.drop_last()[j] == steps[j]);
        }
        law_last_rename(name, steps.drop_last(), i);
        assert(steps[steps.len() - 1] is Keep);
    }
}

/// Where no step sets a name, the name stays as it was.
pub proof fn law_all_kept(name: NameView, steps: Seq<Step>)
    requires
        forall|j: int| 0 <= j < steps.len() ==> #[trigger] steps[j] is Keep,
    ensures
        run(name, steps) == Ok::<NameView, ErrorView>(name),
    decreases steps.len(),
{
    if steps.len() > 0 {
        assert forall|j: int| 0 <= j < steps.drop_last().len() implies #[trigger] steps.drop_last()[j] is Keep by {
            assert(steps.drop_last()[j] == steps[j]);
        }
        law_all_kept(name, steps.drop_last());
        assert(steps[steps.len() - 1] is Keep);
    }
}

/// Annotations under other tags give no step.
pub proof fn lemma_foreign_steps(annotations: Seq<AnnotationView>)
    requires
        forall|j: int| 0 <= j < annotations.len() ==> #[trigger] annotations[j] is Foreign,
    ensures
        all_steps(annotations) == Seq::<Step>::empty(),
    decreases annotations.len(),
{
    if annotations.len() > 0 {
        assert forall|j: int| 0 <= j < annotations.drop_last().len() implies #[trigger] annotations.drop_last()[j] is Foreign by {
            assert(annotations.drop_last()[j] == annotations[j]);
        }
        lemma_foreign_steps(annotations.drop_last());
        assert(annotations[annotations.len() - 1] is Foreign);
        assert(all_steps(annotations) =~= Seq::<Step>::empty());
    }
}

/// The variant list of the implementation generated for an enum of N
/// variants has N names, and they are the variants' names in the order of
/// the declaration. N may be zero.
pub proof fn law_variant_list(decl: DeclarationView)
    requires
        generate_spec(decl) is Ok,
    ensures
        decl.body is Enum,
        generate_spec(decl)->Ok_0.variants.len() == decl.body->Enum_0.len(),
        forall|i: int|
            0 <= i < decl.body->Enum_0.len() ==> (#[trigger] generate_spec(
                decl,
            )->Ok_0.variants[i]) == decl.body->Enum_0[i].ident,
{
}

/// For a value of the enum, the active-variant query answers with the name
/// of the variant that the value is, whatever that variant carries.
pub proof fn law_active_variant(decl: DeclarationView, active: int)
    requires
        generate_spec(decl) is Ok,
        decl.body matches BodyView::Enum(variants) && 0 <= active < variants.len(),
    ensures
        generate_spec(decl)->Ok_0.variants[active] == decl.body->Enum_0[active].ident,
{
}

/// What the variants carry does not enter the implementation: two
/// declarations that differ in nothing else get the same one.
pub proof fn law_fields_pass(one: DeclarationView, other: DeclarationView)
    requires
        one.ident == other.ident,
        one.span == other.span,
        one.generics == other.generics,
        one.annotations == other.annotations,
        one.body matches BodyView::Enum(variants) && other.body matches BodyView::Enum(others)
            && variants.len() == others.len() && forall|i: int|
            0 <= i < variants.len() ==> (#[trigger] variants[i]).ident == others[i].ident,
    ensures
        generate_spec(one) == generate_spec(other),
{
    let variants = one.body->Enum_0;
    let others = other.body->Enum_0;
    assert(crate::emit::idents(variants) =~= crate::emit::idents(others));
}

/// Without an annotation of this generator, and with annotations whose
/// entries set no name, the type-name query answers with the name of the
/// declared type.
pub proof fn law_default_name(decl: DeclarationView, own_path: Seq<char>)
    requires
        decl.body is Enum,
        forall|j: int|
            0 <= j < all_steps(decl.annotations).len() ==> (#[trigger] all_steps(
                decl.annotations,
            )[j]) is Keep,
    ensures
        generate_spec(decl) is Ok,
        generate_spec(decl)->Ok_0.name == NameView::Literal(decl.ident),
        generate_spec(decl)->Ok_0.type_name_at(own_path) == decl.ident,
{
    law_all_kept(NameView::Literal(decl.ident), all_steps(decl.annotations));
}

/// A declaration whose annotations are all under other tags is named as one
/// without annotations.
pub proof fn law_foreign_annotations(decl: DeclarationView, own_path: Seq<char>)
    requires
        decl.body is Enum,
        forall|j: int| 0 <= j < decl.annotations.len() ==> (#[trigger] decl.annotations[j]) is Foreign,
    ensures
        generate_spec(decl) is Ok,
        generate_spec(decl)->Ok_0.type_name_at(own_path) == decl.ident,
{
    lemma_foreign_steps(decl.annotations);
    law_default_name(decl, own_path);
}

/// Where every entry is accepted and the last entry that sets a name is
/// `name = "X"`, the type-name query answers with `X`, whatever the declared
/// type is called and wherever it stands.
pub proof fn law_name_override(decl: DeclarationView, i: int, text: Seq<char>, own_path: Seq<char>)
    requires
        decl.body is Enum,
        all_accepted(all_steps(decl.annotations)),
        0 <= i < all_steps(decl.annotations).len(),
        all_steps(decl.annotations)[i] == Step::Rename(NameView::Literal(text)),
        forall|j: int|
            i < j < all_steps(decl.annotations).len() ==> (#[trigger] all_steps(
                decl.annotations,
            )[j]) is Keep,
    ensures
        generate_spec(decl) is Ok,
        generate_spec(decl)->Ok_0.type_name_at(own_path) == text,
{
    law_last_rename(NameView::Literal(decl.ident), all_steps(decl.annotations), i);
}

/// Where every entry is accepted and the last entry that sets a name is
/// `path`, the type-name query answers with the type's own path, as the
/// compiler resolves it where the implementation stands.
pub proof fn law_path_override(decl: DeclarationView, i: int, own_path: Seq<char>)
    requires
        decl.body is Enum,
        all_accepted(all_steps(decl.annotations)),
        0 <= i < all_steps(decl.annotations).len(),
        all_steps(decl.annotations)[i] == Step::Rename(NameView::OwnPath),
        forall|j: int|
            i < j < all_steps(decl.annotations).len() ==> (#[trigger] all_steps(
                decl.annotations,
            )[j]) is Keep,
    ensures
        generate_spec(decl) is Ok,
        generate_spec(decl)->Ok_0.type_name_at(own_path) == own_path,
{
    law_last_rename(NameView::Literal(decl.ident), all_steps(decl.annotations), i);
}

/// Nothing is emitted for an input that is not accepted: what is no enum
/// gives the error on the type's name, and an enum with an entry that is not
/// accepted gives the error of the first such entry. An enum whose entries
/// are all accepted gives an implementation.
pub proof fn law_no_partial_output(decl: DeclarationView)
    ensures
        !(decl.body is Enum) ==> generate_spec(decl) == Err::<GeneratedView, ErrorView>(
            ErrorView::NotAnEnum { span: decl.span },
        ),
        decl.body is Enum ==> (generate_spec(decl) is Err <==> !all_accepted(
            all_steps(decl.annotations),
        )),
        derive_text(decl) is Err <==> generate_spec(decl) is Err,
        generate_spec(decl) is Err ==> derive_text(decl)->Err_0 == generate_spec(decl)->Err_0,
{
    law_rejected_iff(NameView::Literal(decl.ident), all_steps(decl.annotations));
}

/// The error of an enum is that of the first entry that is not accepted.
pub proof fn law_first_error(decl: DeclarationView, i: int)
    requires
        decl.body is Enum,
        0 <= i < all_steps(decl.annotations).len(),
        all_steps(decl.annotations)[i] is Reject,
        all_accepted(all_steps(decl.annotations).take(i)),
    ensures
        generate_spec(decl) == Err::<GeneratedView, ErrorView>(
            all_steps(decl.annotations)[i]->Reject_0,
        ),
{
    law_first_rejection(NameView::Literal(decl.ident), all_steps(decl.annotations), i);
}

} // verus!
