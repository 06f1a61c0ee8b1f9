//! The bounded line buffer: a `heapless::String` with a 256-byte capacity,
//! seen through trusted wrappers whose contracts state what the crate's
//! source shows about its contents.

use vstd::prelude::*;

verus! {

#[verifier::external_type_specification]
#[verifier::external_body]
pub struct ExHeaplessString<const N: usize>(heapless::String<N>);

/// The characters a line buffer holds, in order.
pub uninterp spec fn line_chars(s: heapless::String<256>) -> Seq<char>;

/// How many bytes the UTF-8 encoding of one character takes.
pub open spec fn utf8_len(c: char) -> nat {
    if (c as u32) < 0x80 {
        1
    } else if (c as u32) < 0x800 {
        2
    } else if (c as u32) < 0x10000 {
        3
    } else {
        4
    }
}

/// How many bytes the UTF-8 encoding of a character sequence takes.
pub open spec fn byte_len(s: Seq<char>) -> nat
    decreases s.len(),
{
    if s.len() == 0 {
        0
    } else {
        byte_len(s.drop_last()) + utf8_len(s.last())
    }
}

/// Relies on heapless::String::new: the new buffer is empty.
#[verifier::external_body]
pub(crate) fn line_new() -> (s: heapless::String<256>)
    ensures
        line_chars(s) == Seq::<char>::empty(),
{
    heapless::String::new()
}

/// Relies on heapless::String::push: the character is appended when its
/// UTF-8 bytes fit in the remaining capacity, and the buffer is untouched
/// when they do not.
#[verifier::external_body]
pub(crate) fn line_push(s: &mut heapless::String<256>, c: char) -> (r: Result<(), ()>)
    ensures
        r is Ok <==> byte_len(line_chars(*old(s))) + utf8_len(c) <= 256,
        r is Ok ==> line_chars(*final(s)) == line_chars(*old(s)).push(c),
        r is Err ==> line_chars(*final(s)) == line_chars(*old(s)),
{
    s.push(c)
}

/// Relies on heapless::String::pop: the last character is removed and
/// returned, or `None` comes back from an empty buffer.
#[verifier::external_body]
pub(crate) fn line_pop(s: &mut heapless::String<256>) -> (r: Option<char>)
    ensures
        line_chars(*old(s)).len() == 0 ==> r is None && line_chars(*final(s)) == line_chars(
            *old(s),
        ),
        line_chars(*old(s)).len() > 0 ==> r == Some(line_chars(*old(s)).last()) && line_chars(
            *final(s),
        ) == line_chars(*old(s)).drop_last(),
{
    s.pop()
}

/// Relies on heapless::String::clear: the buffer is emptied.
#[verifier::external_body]
pub(crate) fn line_clear(s: &mut heapless::String<256>)
    ensures
        line_chars(*final(s)) == Seq::<char>::empty(),
{
    s.clear()
}

/// Relies on heapless::String::as_str: the slice holds exactly the buffer's
/// characters, handed out here as plain values.
#[verifier::external_body]
pub(crate) fn line_to_chars(s: &heapless::String<256>) -> (v: Vec<char>)
    ensures
        v@ == line_chars(*s),
{
    s.as_str().chars().collect()
}

} // verus!
