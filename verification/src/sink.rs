//! Where formatted text goes: a sink takes what it has room for.

use vstd::prelude::*;
use vstd::string::{StrSliceExecFns, StringExecFns};

verus! {

/// A write that the sink had no room for.
#[derive(Debug, Clone, Copy, PartialEq, Eq)]
pub struct SinkError;

/// A text sink. It holds the text written so far, and has room for a number
/// of further characters, or for any number.
#[derive(Debug)]
pub struct Sink {
    text: String,
    room: Option<usize>,
}

impl View for Sink {
    type V = Seq<char>;

    /// The text written so far.
    closed spec fn view(&self) -> Seq<char> {
        self.text@
    }
}

/// Whether a text of `len` characters fits in `room`.
pub open spec fn fits(room: Option<nat>, len: nat) -> bool {
    match room {
        Some(left) => len <= left,
        None => true,
    }
}

/// The room that is left after a text of `len` characters.
pub open spec fn room_after(room: Option<nat>, len: nat) -> Option<nat> {
    match room {
        Some(left) => Some((left - len) as nat),
        None => None,
    }
}

/// What a write of `text` does: it succeeds exactly if the text fits, and
/// then the text stands at the end of the sink and has used its room.
pub open spec fn wrote(before: Sink, after: Sink, outcome: Result<(), SinkError>, text: Seq<char>)
    -> bool {
    &&& outcome is Ok <==> fits(before.room(), text.len())
    &&& outcome is Ok ==> after@ == before@ + text && after.room() == room_after(
        before.room(),
        text.len(),
    )
}

impl Sink {
    /// How many further characters the sink takes; `None` for any number.
    pub closed spec fn room(&self) -> Option<nat> {
        match self.room {
            Some(left) => Some(left as nat),
            None => None,
        }
    }

    /// An empty sink that takes any amount of text.
    pub fn new() -> (sink: Sink)
        ensures
            sink@ == Seq::<char>::empty(),
            sink.room() == None::<nat>,
    {
        Sink { text: String::new(), room: None }
    }

    /// An empty sink that takes `room` characters and no more.
    pub fn with_room(room: usize) -> (sink: Sink)
        ensures
            sink@ == Seq::<char>::empty(),
            sink.room() == Some(room as nat),
    {
        Sink { text: String::new(), room: Some(room) }
    }

    /// Writes `s` at the end of the sink. A text that does not fit is not
    /// written at all.
    pub fn write_str(&mut self, s: &str) -> (outcome: Result<(), SinkError>)
        ensures
            wrote(*old(self), *final(self), outcome, s@),
            outcome is Err ==> *final(self) == *old(self),
    {
        match self.room {
            Some(left) => {
                let len = s.unicode_len();
                if len > left {
                    return Err(SinkError);
                }
                self.room = Some(left - len);
            },
            None => {},
        }
        self.text.append(s);
        Ok(())
    }

    /// The text written so far.
    pub fn as_str(&self) -> (text: &str)
        ensures
            text@ == self@,
    {
        self.text.as_str()
    }

    /// The text written so far, the sink given up.
    pub fn into_string(self) -> (text: String)
        ensures
            text@ == self@,
    {
        self.text
    }
}

} // verus!
