//! The runtime contract: what a type offers to have the name of its active
//! variant written, and the formatter that renders it.

use crate::sink::{wrote, Sink, SinkError};
use vstd::prelude::*;

verus! {

/// What any write to a sink does: some text is written as a whole, or the
/// write fails because that text does not fit.
pub open spec fn appended(before: Sink, after: Sink, outcome: Result<(), SinkError>) -> bool {
    exists|text: Seq<char>| wrote(before, after, outcome, text)
}

/// What a write does of which the text may be stated: it writes the stated
/// text, or else some text.
pub open spec fn wrote_stated(
    before: Sink,
    after: Sink,
    outcome: Result<(), SinkError>,
    stated: Option<Seq<char>>,
) -> bool {
    match stated {
        Some(text) => wrote(before, after, outcome, text),
        None => appended(before, after, outcome),
    }
}

/// A type whose values can write the name of their active variant.
///
/// An implementation may state the names that it writes. What is proved of
/// its renderings is then exact; of an implementation that states none, only
/// the form of the renderings is known.
pub trait EnumDebug {
    /// The name of the variant that `self` is, where the implementation
    /// states it.
    open spec fn variant_text(&self) -> Option<Seq<char>> {
        None
    }

    /// The name of the type, where the implementation states it.
    open spec fn type_text(&self) -> Option<Seq<char>> {
        None
    }

    /// Writes the name of the active variant. It fails only where the sink
    /// does.
    fn fmt(&self, f: &mut Sink) -> (outcome: Result<(), SinkError>)
        ensures
            wrote_stated(*old(f), *final(f), outcome, self.variant_text()),
    ;

    /// Writes the name of the type. It fails only where the sink does. An
    /// implementation that fixes no name writes the type's own path, which
    /// it has from the compiler.
    fn fmt_type_name(&self, f: &mut Sink) -> (outcome: Result<(), SinkError>)
        ensures
            wrote_stated(*old(f), *final(f), outcome, self.type_text()),
    ;

    /// A formatter for `self`. It borrows `self` and holds nothing else.
    fn variant(&self) -> (formatter: EnumDebugFormatter<'_, Self>)
        ensures
            formatter.subject() == self,
    {
        EnumDebugFormatter { this: self }
    }
}

/// Renders the value that it borrows: plainly as the name of the active
/// variant, and in full as the name of the type, `::` and the name of the
/// active variant.
pub struct EnumDebugFormatter<'this, T: ?Sized> {
    this: &'this T,
}

/// The full rendering: the type's name, `::`, the variant's name.
pub open spec fn debug_text(type_text: Seq<char>, variant_text: Seq<char>) -> Seq<char> {
    type_text + "::"@ + variant_text
}

/// Whether a text is the stated one, where one is stated.
pub open spec fn agrees(text: Seq<char>, stated: Option<Seq<char>>) -> bool {
    stated matches Some(fixed) ==> text == fixed
}

/// What the full rendering does to a sink: it writes the type's name, `::`
/// and the variant's name, each the stated one where one is stated, and
/// succeeds exactly if the three fit.
pub open spec fn wrote_debug(
    before: Sink,
    after: Sink,
    outcome: Result<(), SinkError>,
    type_text: Option<Seq<char>>,
    variant_text: Option<Seq<char>>,
) -> bool {
    exists|t: Seq<char>, v: Seq<char>|
        agrees(t, type_text) && agrees(v, variant_text) && #[trigger] wrote(
            before,
            after,
            outcome,
            debug_text(t, v),
        )
}

impl<'this, T: ?Sized> EnumDebugFormatter<'this, T> {
    /// The value that the formatter borrows.
    pub closed spec fn subject(&self) -> &T {
        self.this
    }
}

impl<'this, T: EnumDebug + ?Sized> EnumDebugFormatter<'this, T> {
    /// Writes the plain rendering: the name of the active variant.
    pub fn fmt(&self, f: &mut Sink) -> (outcome: Result<(), SinkError>)
        ensures
            wrote_stated(*old(f), *final(f), outcome, self.subject().variant_text()),
    {
        self.this.fmt(f)
    }

    /// Writes the full rendering: the name of the type, `::`, and the name of
    /// the active variant. The first write that fails ends it, with that
    /// failure.
    pub fn fmt_debug(&self, f: &mut Sink) -> (outcome: Result<(), SinkError>)
        ensures
            wrote_debug(
                *old(f),
                *final(f),
                outcome,
                self.subject().type_text(),
                self.subject().variant_text(),
            ),
    {
        proof {
            reveal_strlit("::");
        }
        let ghost type_text = self.subject().type_text();
        let ghost variant_text = self.subject().variant_text();
        let first = self.this.fmt_type_name(f);
        let ghost named = *f;
        let ghost t = choose|t: Seq<char>| agrees(t, type_text) && wrote(*old(f), named, first, t);
        assert(agrees(t, type_text) && wrote(*old(f), named, first, t)) by {
            if let Some(fixed) = type_text {
                assert(agrees(fixed, type_text) && wrote(*old(f), named, first, fixed));
            } else {
                let some = choose|some: Seq<char>| wrote(*old(f), named, first, some);
                assert(agrees(some, type_text) && wrote(*old(f), named, first, some));
            }
        }
        match first {
            Ok(()) => {},
            Err(error) => {
                proof {
                    let v = match variant_text {
                        Some(fixed) => fixed,
                        None => Seq::<char>::empty(),
                    };
                    assert(agrees(v, variant_text));
                    assert(wrote(*old(f), *f, Err::<(), SinkError>(error), debug_text(t, v)));
                }
                return Err(error);
            },
        }
        match f.write_str("::") {
            Ok(()) => {},
            Err(error) => {
                proof {
                    let v = match variant_text {
                        Some(fixed) => fixed,
                        None => Seq::<char>::empty(),
                    };
                    assert(agrees(v, variant_text));
                    assert(wrote(*old(f), *f, Err::<(), SinkError>(error), debug_text(t, v)));
                }
                return Err(error);
            },
        }
        let ghost joined = *f;
        let outcome = self.this.fmt(f);
        proof {
            let v = choose|v: Seq<char>| agrees(v, variant_text) && wrote(joined, *f, outcome, v);
            assert(agrees(v, variant_text) && wrote(joined, *f, outcome, v)) by {
                if let Some(fixed) = variant_text {
                    assert(agrees(fixed, variant_text) && wrote(joined, *f, outcome, fixed));
                } else {
                    let some = choose|some: Seq<char>| wrote(joined, *f, outcome, some);
                    assert(agrees(some, variant_text) && wrote(joined, *f, outcome, some));
                }
            }
            if outcome is Ok {
                assert(f@ =~= old(f)@ + debug_text(t, v));
            }
            assert(wrote(*old(f), *f, outcome, debug_text(t, v)));
        }
        outcome
    }

    /// The plain rendering as a text.
    pub fn to_string(&self) -> (text: String)
        ensures
            agrees(text@, self.subject().variant_text()),
    {
        let mut sink = Sink::new();
        let outcome = self.fmt(&mut sink);
        proof {
            if let Some(fixed) = self.subject().variant_text() {
                assert(sink@ =~= fixed);
            }
        }
        sink.into_string()
    }

    /// The full rendering as a text.
    pub fn to_debug_string(&self) -> (text: String)
        ensures
            exists|t: Seq<char>, v: Seq<char>|
                agrees(t, self.subject().type_text()) && agrees(v, self.subject().variant_text())
                    && text@ == #[trigger] debug_text(t, v),
    {
        let mut sink = Sink::new();
        let ghost empty = sink;
        let outcome = self.fmt_debug(&mut sink);
        proof {
            let (t, v) = choose|t: Seq<char>, v: Seq<char>|
                agrees(t, self.subject().type_text()) && agrees(v, self.subject().variant_text())
                    && #[trigger] wrote(empty, sink, outcome, debug_text(t, v));
            assert(sink@ =~= debug_text(t, v));
        }
        sink.into_string()
    }
}

/// Where the implementation states both names, the full rendering is exactly
/// the type's name, `::` and the variant's name, and the plain rendering is
/// the variant's name alone.
pub proof fn law_renderings(
    before: Sink,
    after: Sink,
    outcome: Result<(), SinkError>,
    type_text: Seq<char>,
    variant_text: Seq<char>,
)
    ensures
        wrote_debug(before, after, outcome, Some(type_text), Some(variant_text)) <==> wrote(
            before,
            after,
            outcome,
            type_text + "::"@ + variant_text,
        ),
        wrote_stated(before, after, outcome, Some(variant_text)) <==> wrote(
            before,
            after,
            outcome,
            variant_text,
        ),
{
    if wrote(before, after, outcome, type_text + "::"@ + variant_text) {
        assert(agrees(type_text, Some(type_text)) && agrees(variant_text, Some(variant_text))
            && wrote(before, after, outcome, debug_text(type_text, variant_text)));
    }
}

} // verus!
