//! Text helpers: comparing texts, and writing a text as a string literal.

use vstd::prelude::*;
use vstd::std_specs::iter::IteratorSpec;

verus! {

/// Whether two texts are the same, character for character.
pub fn text_eq(a: &str, b: &str) -> (same: bool)
    ensures
        same == (a@ == b@),
{
    let x = a.as_bytes();
    let y = b.as_bytes();
    proof {
        // Two texts with the same encoding decode to the same characters.
        vstd::utf8::encode_utf8_decode_utf8(a@);
        vstd::utf8::encode_utf8_decode_utf8(b@);
    }
    if x.len() != y.len() {
        return false;
    }
    let mut i: usize = 0;
    while i < x.len()
        invariant
            i <= x.len(),
            x.len() == y.len(),
            x@.take(i as int) == y@.take(i as int),
            a@ == b@ ==> x@ == y@,
        decreases x.len() - i,
    {
        if x[i] != y[i] {
            assert(x@[i as int] != y@[i as int]);
            return false;
        }
        assert(x@.take(i + 1) =~= x@.take(i as int).push(x@[i as int]));
        assert(y@.take(i + 1) =~= y@.take(i as int).push(y@[i as int]));
        i = i + 1;
    }
    assert(x@ =~= x@.take(i as int));
    assert(y@ =~= y@.take(i as int));
    true
}

/// `String::push` of std: the character is appended to the end of the text,
/// which is otherwise unchanged.
#[verifier::external_body]
fn push_char(text: &mut String, c: char)
    ensures
        final(text)@ == old(text)@.push(c),
{
    text.push(c)
}

/// The sixteen hexadecimal digits, in order.
pub open spec fn hex_digits() -> Seq<char> {
    seq!['0', '1', '2', '3', '4', '5', '6', '7', '8', '9', 'a', 'b', 'c', 'd', 'e', 'f']
}

/// The six hexadecimal digits of a character's code point, most significant
/// first.
pub open spec fn hex6(code: nat) -> Seq<char> {
    seq![
        hex_digits()[(code / 0x100000) as int % 16],
        hex_digits()[(code / 0x10000) as int % 16],
        hex_digits()[(code / 0x1000) as int % 16],
        hex_digits()[(code / 0x100) as int % 16],
        hex_digits()[(code / 0x10) as int % 16],
        hex_digits()[code as int % 16],
    ]
}

/// Whether a character stands for itself inside a string literal: printable
/// ASCII other than the quote and the backslash.
pub open spec fn plain(c: char) -> bool {
    0x20 <= c as u32 <= 0x7e && c != '"' && c != '\\'
}

/// How one character is written inside a string literal.
pub open spec fn escaped_char(c: char) -> Seq<char> {
    if c == '"' || c == '\\' {
        seq!['\\', c]
    } else if plain(c) {
        seq![c]
    } else {
        seq!['\\', 'u', '{'] + hex6(c as nat) + seq!['}']
    }
}

/// How a text is written inside a string literal, between the quotes.
pub open spec fn escaped(s: Seq<char>) -> Seq<char>
    decreases s.len(),
{
    if s.len() == 0 {
        Seq::empty()
    } else {
        escaped(s.drop_last()) + escaped_char(s.last())
    }
}

/// A text as a string literal of Rust source: quoted, with every character
/// that does not stand for itself escaped.
pub open spec fn quoted(s: Seq<char>) -> Seq<char> {
    seq!['"'] + escaped(s) + seq!['"']
}

fn hex_digit(n: u32) -> (c: char)
    requires
        n < 16,
    ensures
        c == hex_digits()[n as int],
{
    match n {
        0 => '0',
        1 => '1',
        2 => '2',
        3 => '3',
        4 => '4',
        5 => '5',
        6 => '6',
        7 => '7',
        8 => '8',
        9 => '9',
        10 => 'a',
        11 => 'b',
        12 => 'c',
        13 => 'd',
        14 => 'e',
        _ => 'f',
    }
}

fn push_escaped(text: &mut String, c: char)
    ensures
        final(text)@ == old(text)@ + escaped_char(c),
{
    let code: u32 = c as u32;
    if c == '"' || c == '\\' {
        push_char(text, '\\');
        push_char(text, c);
        assert(text@ =~= old(text)@ + seq!['\\', c]);
    } else if 0x20 <= code && code <= 0x7e {
        push_char(text, c);
        assert(text@ =~= old(text)@ + seq![c]);
    } else {
        push_char(text, '\\');
        push_char(text, 'u');
        push_char(text, '{');
        push_char(text, hex_digit((code / 0x100000) % 16));
        push_char(text, hex_digit((code / 0x10000) % 16));
        push_char(text, hex_digit((code / 0x1000) % 16));
        push_char(text, hex_digit((code / 0x100) % 16));
        push_char(text, hex_digit((code / 0x10) % 16));
        push_char(text, hex_digit(code % 16));
        push_char(text, '}');
        assert(text@ =~= old(text)@ + (seq!['\\', 'u', '{'] + hex6(c as nat) + seq!['}']));
    }
}

/// Appends `s` to `text` as a string literal of Rust source.
pub fn push_quoted(text: &mut String, s: &str)
    ensures
        final(text)@ == old(text)@ + quoted(s@),
{
    push_char(text, '"');
    let ghost start = text@;
    let mut chars = s.chars();
    let ghost mut done: int = 0;
    loop
        invariant
            0 <= done <= s@.len(),
            chars.remaining() == s@.skip(done),
            text@ == start + escaped(s@.take(done)),
        ensures
            done == s@.len(),
        decreases s@.len() - done,
    {
        match chars.next() {
            Some(c) => {
                assert(c == s@[done]);
                assert(s@.take(done + 1).drop_last() =~= s@.take(done));
                push_escaped(text, c);
                proof {
                    done = done + 1;
                }
                assert(chars.remaining() =~= s@.skip(done));
            },
            None => {
                assert(s@.skip(done).len() == 0);
                break ;
            },
        }
    }
    assert(s@.take(done) =~= s@);
    push_char(text, '"');
    assert(text@ =~= old(text)@ + quoted(s@));
}

} // verus!
