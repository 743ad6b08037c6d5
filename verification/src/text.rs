//! What the standard `String` does when one code point is added or taken
//! out, stated over the bytes of its UTF-8 encoding, and what follows for the
//! code points.

use vstd::prelude::*;
use vstd::utf8::*;

verus! {

/// `String::push` appends the code point `ch`.
pub assume_specification[ String::push ](s: &mut String, ch: char)
    ensures
        final(s)@ == old(s)@.push(ch),
;

/// `String::insert` puts the encoding of `ch` at byte position `idx`, which
/// has to lie on a code point boundary of the text (it panics elsewhere, and
/// past the end); the bytes before and after stay as they were.
pub assume_specification[ String::insert ](s: &mut String, idx: usize, ch: char)
    requires
        is_char_boundary(encode_utf8(old(s)@), idx as int),
    ensures
        encode_utf8(final(s)@) == encode_utf8(old(s)@).subrange(0, idx as int) + encode_scalar(
            ch as u32,
        ) + encode_utf8(old(s)@).subrange(idx as int, encode_utf8(old(s)@).len() as int),
;

/// `String::remove` takes out the code point that starts at byte position
/// `idx` and returns it; `idx` has to lie on a code point boundary before the
/// end (it panics elsewhere). The bytes before and after stay as they were.
pub assume_specification[ String::remove ](s: &mut String, idx: usize) -> (ch: char)
    requires
        is_char_boundary(encode_utf8(old(s)@), idx as int),
        idx < encode_utf8(old(s)@).len(),
    ensures
        idx + encode_scalar(ch as u32).len() <= encode_utf8(old(s)@).len(),
        encode_utf8(old(s)@).subrange(idx as int, idx + encode_scalar(ch as u32).len()) == encode_scalar(ch as u32),
        encode_utf8(final(s)@) == encode_utf8(old(s)@).subrange(0, idx as int) + encode_utf8(
            old(s)@,
        ).subrange(idx + encode_scalar(ch as u32).len(), encode_utf8(old(s)@).len() as int),
;

} // verus!
