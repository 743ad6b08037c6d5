//! Byte offsets of code points in UTF-8 text.

use vstd::prelude::*;
use vstd::utf8::*;

verus! {

/// The number of bytes that encode `c` in UTF-8.
pub open spec fn width(c: char) -> int {
    encode_scalar(c as u32).len() as int
}

/// The byte offset at which the code point of index `k` starts in the UTF-8
/// encoding of `s`; for `k == s.len()`, the length of the encoding.
pub open spec fn byte_offset(s: Seq<char>, k: int) -> int {
    encode_utf8(s.take(k)).len() as int
}

/// The width of a code point by the range it lies in.
pub fn char_width(c: char) -> (w: usize)
    ensures
        w == width(c),
        1 <= w <= 4,
{
    let v: u32 = c as u32;
    if v < 0x80 {
        1
    } else if v < 0x800 {
        2
    } else if v < 0x10000 {
        3
    } else {
        4
    }
}

/// Encoding distributes over concatenation.
pub proof fn lemma_encode_concat(a: Seq<char>, b: Seq<char>)
    ensures
        encode_utf8(a + b) == encode_utf8(a) + encode_utf8(b),
    decreases a.len(),
{
    if a.len() == 0 {
        assert(a + b =~= b);
        assert(encode_utf8(a) + encode_utf8(b) =~= encode_utf8(b));
    } else {
        lemma_encode_concat(a.drop_first(), b);
        assert((a + b).drop_first() =~= a.drop_first() + b);
        assert(encode_utf8(a + b) =~= encode_utf8(a) + encode_utf8(b));
    }
}

/// Each code point moves the offset on by its own width.
pub proof fn lemma_offset_step(s: Seq<char>, k: int)
    requires
        0 <= k < s.len(),
    ensures
        byte_offset(s, k + 1) == byte_offset(s, k) + width(s[k]),
        1 <= width(s[k]) <= 4,
{
    let one = seq![s[k]];
    assert(s.take(k + 1) =~= s.take(k) + one);
    lemma_encode_concat(s.take(k), one);
    assert(one.drop_first() =~= Seq::<char>::empty());
    assert(encode_utf8(one) =~= encode_scalar(s[k] as u32)) by {
        reveal_with_fuel(encode_utf8, 2);
    }
}

/// Offsets grow with the index, strictly.
pub proof fn lemma_offset_increases(s: Seq<char>, i: int, j: int)
    requires
        0 <= i <= j <= s.len(),
    ensures
        byte_offset(s, i) + (j - i) <= byte_offset(s, j),
    decreases j - i,
{
    if i < j {
        lemma_offset_increases(s, i, j - 1);
        lemma_offset_step(s, j - 1);
    }
}

/// The offset past the last code point is the length of the whole encoding.
pub proof fn lemma_offset_end(s: Seq<char>)
    ensures
        byte_offset(s, s.len() as int) == encode_utf8(s).len(),
        byte_offset(s, 0) == 0,
{
    assert(s.take(s.len() as int) =~= s);
    assert(s.take(0) =~= Seq::<char>::empty());
}

/// Dropping the first code point drops its bytes.
pub proof fn lemma_encode_drop_first(s: Seq<char>)
    requires
        s.len() > 0,
    ensures
        valid_utf8(encode_utf8(s)),
        length_of_first_scalar(encode_utf8(s)) == width(s[0]),
        decode_first_scalar(encode_utf8(s)) == s[0] as u32,
        pop_first_scalar(encode_utf8(s)) == encode_utf8(s.drop_first()),
        encode_utf8(s).len() == width(s[0]) + encode_utf8(s.drop_first()).len(),
{
    encode_utf8_valid_utf8(s);
    encode_utf8_first_scalar(s);
    assert(pop_first_scalar(encode_utf8(s)) =~= encode_utf8(s.drop_first()));
}

/// The start of every code point, and the end of the text, is a boundary.
pub proof fn lemma_offset_is_boundary(s: Seq<char>, k: int)
    requires
        0 <= k <= s.len(),
    ensures
        is_char_boundary(encode_utf8(s), byte_offset(s, k)),
    decreases k,
{
    encode_utf8_valid_utf8(s);
    if k == 0 {
        lemma_offset_end(s);
    } else {
        let rest = s.drop_first();
        lemma_encode_drop_first(s);
        lemma_offset_is_boundary(rest, k - 1);
        assert(s.take(k) =~= seq![s[0]] + rest.take(k - 1));
        lemma_encode_concat(seq![s[0]], rest.take(k - 1));
        assert(s.take(1) =~= seq![s[0]]);
        lemma_offset_step(s, 0);
        lemma_offset_end(s);
        assert(byte_offset(s, k) == width(s[0]) + byte_offset(rest, k - 1));
        lemma_offset_increases(rest, k - 1, rest.len() as int);
        lemma_offset_end(rest);
    }
}

/// The encoding of a text splits at the offset of any of its code points.
pub proof fn lemma_encode_split(s: Seq<char>, k: int)
    requires
        0 <= k <= s.len(),
    ensures
        encode_utf8(s) == encode_utf8(s.take(k)) + encode_utf8(s.skip(k)),
        encode_utf8(s).subrange(0, byte_offset(s, k)) == encode_utf8(s.take(k)),
        encode_utf8(s).subrange(byte_offset(s, k), encode_utf8(s).len() as int)
            == encode_utf8(s.skip(k)),
{
    assert(s =~= s.take(k) + s.skip(k));
    lemma_encode_concat(s.take(k), s.skip(k));
    let whole = encode_utf8(s);
    let off = byte_offset(s, k);
    assert(whole.subrange(0, off) =~= encode_utf8(s.take(k)));
    assert(whole.subrange(off, whole.len() as int) =~= encode_utf8(s.skip(k)));
}

/// A text is known by its encoding.
pub proof fn lemma_encode_injective(a: Seq<char>, b: Seq<char>)
    requires
        encode_utf8(a) == encode_utf8(b),
    ensures
        a == b,
{
    encode_utf8_decode_utf8(a);
    encode_utf8_decode_utf8(b);
}

/// The encoding of a single code point.
pub proof fn lemma_encode_one(c: char)
    ensures
        encode_utf8(seq![c]) == encode_scalar(c as u32),
{
    assert(seq![c].drop_first() =~= Seq::<char>::empty());
    assert(encode_utf8(seq![c]) =~= encode_scalar(c as u32)) by {
        reveal_with_fuel(encode_utf8, 2);
    }
}

/// Bytes put in at the offset of code point `k` put a code point in before it.
pub proof fn lemma_insert_bytes(s: Seq<char>, k: int, c: char, t: Seq<char>)
    requires
        0 <= k <= s.len(),
        encode_utf8(t) == encode_utf8(s).subrange(0, byte_offset(s, k)) + encode_scalar(
            c as u32,
        ) + encode_utf8(s).subrange(byte_offset(s, k), encode_utf8(s).len() as int),
    ensures
        t == s.insert(k, c),
{
    lemma_encode_split(s, k);
    lemma_encode_one(c);
    lemma_encode_concat(s.take(k), seq![c]);
    lemma_encode_concat(s.take(k) + seq![c], s.skip(k));
    assert(s.insert(k, c) =~= s.take(k) + seq![c] + s.skip(k));
    lemma_encode_injective(t, s.insert(k, c));
}

/// Bytes of one code point taken out at the offset of code point `k` take
/// that code point out.
pub proof fn lemma_remove_bytes(s: Seq<char>, k: int, c: char, t: Seq<char>)
    requires
        0 <= k < s.len(),
        byte_offset(s, k) + width(c) <= encode_utf8(s).len(),
        encode_utf8(s).subrange(byte_offset(s, k), byte_offset(s, k) + width(c))
            == encode_scalar(c as u32),
        encode_utf8(t) == encode_utf8(s).subrange(0, byte_offset(s, k)) + encode_utf8(
            s,
        ).subrange(byte_offset(s, k) + width(c), encode_utf8(s).len() as int),
    ensures
        c == s[k],
        t == s.remove(k),
{
    let whole = encode_utf8(s);
    let off = byte_offset(s, k);
    let tail = s.skip(k);
    let from = encode_utf8(tail);
    let one = encode_utf8(seq![c]);
    lemma_encode_split(s, k);
    lemma_encode_one(c);
    lemma_encode_drop_first(tail);
    lemma_encode_drop_first(seq![c]);
    assert(tail[0] == s[k]);
    assert(one =~= from.subrange(0, width(c)));
    assert(one[0] == from[0]);
    assert(width(c) == width(s[k]));
    assert(one[0] == from[0] && (one.len() > 1 ==> one[1] == from[1]) && (one.len() > 2 ==> one[2]
        == from[2]) && (one.len() > 3 ==> one[3] == from[3]));
    assert(c as u32 == s[k] as u32);
    char_u32_cast(c, c as u32);
    char_u32_cast(s[k], s[k] as u32);
    assert(c == s[k]);
    lemma_encode_split(s, k + 1);
    lemma_offset_step(s, k);
    assert(s.remove(k) =~= s.take(k) + s.skip(k + 1));
    lemma_encode_concat(s.take(k), s.skip(k + 1));
    lemma_encode_injective(t, s.remove(k));
}

/// Collects the byte offset of every code point of `s`, in order.
pub fn char_offsets(s: &str) -> (offsets: Vec<usize>)
    ensures
        offsets@.len() == s@.len(),
        forall|k: int| 0 <= k < s@.len() ==> offsets@[k] == byte_offset(s@, k),
{
    let mut offsets: Vec<usize> = Vec::new();
    let mut at: usize = 0;
    // No offset passes the length of the encoding, which a `usize` holds.
    let total: usize = s.as_bytes().len();
    for c in it: s.chars()
        invariant
            it.seq() == s@,
            total == encode_utf8(s@).len(),
            offsets@.len() == it.index(),
            at == byte_offset(s@, it.index()),
            forall|k: int| 0 <= k < it.index() ==> offsets@[k] == byte_offset(s@, k),
    {
        proof {
            lemma_offset_step(s@, it.index());
            lemma_offset_increases(s@, it.index() + 1, s@.len() as int);
            lemma_offset_end(s@);
        }
        offsets.push(at);
        at = at + char_width(c);
    }
    offsets
}

} // verus!
