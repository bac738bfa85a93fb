//! A value of a declared enum as the generated implementation sees it: which
//! of the variants is active.

use crate::emit::{Generated, GeneratedView};
use crate::runtime::EnumDebug;
use crate::sink::{Sink, SinkError};
use vstd::prelude::*;

verus! {

/// A value of the enum that an implementation was generated for. The
/// implementation reads of it only which variant is active, and the compiler
/// fixes the type's own path where the implementation stands.
pub struct Instance<'a> {
    generated: &'a Generated,
    own_path: &'a str,
    active: usize,
}

impl<'a> Instance<'a> {
    #[verifier::type_invariant]
    spec fn in_range(self) -> bool {
        self.active < self.generated.variants@.len()
    }

    /// The implementation that answers for the value.
    pub closed spec fn generated(&self) -> GeneratedView {
        self.generated@
    }

    /// What the compiler resolves the type's own path to.
    pub closed spec fn own_path(&self) -> Seq<char> {
        self.own_path@
    }

    /// The place of the active variant in the declaration.
    pub closed spec fn active(&self) -> int {
        self.active as int
    }

    /// The value whose variant is the one at `active` in the declaration, if
    /// the declaration has that many: an enum without variants has no value.
    pub fn new(generated: &'a Generated, own_path: &'a str, active: usize) -> (instance: Option<
        Instance<'a>,
    >)
        ensures
            instance is Some <==> active < generated@.variants.len(),
            instance matches Some(value) ==> value.generated() == generated@ && value.own_path()
                == own_path@ && value.active() == active,
    {
        if active < generated.variants.len() {
            Some(Instance { generated, own_path, active })
        } else {
            None
        }
    }
}

impl<'a> EnumDebug for Instance<'a> {
    /// The name of the active variant, as the active-variant query answers
    /// it.
    open spec fn variant_text(&self) -> Option<Seq<char>> {
        Some(self.generated().variants[self.active()])
    }

    /// The name of the type, as the type-name query answers it.
    open spec fn type_text(&self) -> Option<Seq<char>> {
        Some(self.generated().type_name_at(self.own_path()))
    }

    fn fmt(&self, f: &mut Sink) -> (outcome: Result<(), SinkError>) {
        proof {
            use_type_invariant(self);
        }
        let name = self.generated.variant_name(self.active);
        f.write_str(name.as_str())
    }

    fn fmt_type_name(&self, f: &mut Sink) -> (outcome: Result<(), SinkError>) {
        let name = self.generated.type_name_at(self.own_path);
        f.write_str(name.as_str())
    }
}

} // verus!
