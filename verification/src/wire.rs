//! The body with which the server answers a fetch of the history: a JSON
//! array with one object for each message, oldest first.

use vstd::prelude::*;
use vstd::string::StringExecFns;
use crate::format::{decimal, digit, push_decimal};
use crate::message::{message_views, Message, MessageView};

verus! {

/// The character of a hexadecimal digit, in lower case.
pub open spec fn hex_digit(d: int) -> char {
    if d < 10 {
        digit(d)
    } else {
        (87 + d) as char
    }
}

/// One code point as it stands inside a JSON string: the quote and the
/// backslash behind a backslash, a control character as `\u00` and two
/// hexadecimal digits, anything else as it is.
pub open spec fn escape(c: char) -> Seq<char> {
    if c == '"' {
        seq!['\\', '"']
    } else if c == '\\' {
        seq!['\\', '\\']
    } else if (c as u32) < 0x20 {
        seq!['\\', 'u', '0', '0', hex_digit(c as int / 16), hex_digit(c as int % 16)]
    } else {
        seq![c]
    }
}

/// A text as it stands inside a JSON string.
pub open spec fn escaped(text: Seq<char>) -> Seq<char>
    decreases text.len(),
{
    if text.len() == 0 {
        Seq::empty()
    } else {
        escaped(text.drop_last()) + escape(text.last())
    }
}

/// A text as a JSON string.
pub open spec fn json_string(text: Seq<char>) -> Seq<char> {
    seq!['"'] + escaped(text) + seq!['"']
}

/// A message as a JSON object with the members `id` and `message`.
pub open spec fn json_object(m: MessageView) -> Seq<char> {
    "{ \"id\": "@ + decimal(m.id) + ", \"message\": "@ + json_string(m.text) + " }"@
}

/// The objects of the messages, in order, with a comma and a blank between
/// each two.
pub open spec fn json_members(messages: Seq<MessageView>) -> Seq<char>
    decreases messages.len(),
{
    if messages.len() == 0 {
        Seq::empty()
    } else if messages.len() == 1 {
        json_object(messages[0])
    } else {
        json_members(messages.drop_last()) + ", "@ + json_object(messages.last())
    }
}

/// The whole body: the members between square brackets.
pub open spec fn json_array(messages: Seq<MessageView>) -> Seq<char> {
    "[ "@ + json_members(messages) + " ]"@
}

/// Inside a JSON string no control character stands bare, and no quote
/// without a backslash before it: each code point is written so.
pub proof fn lemma_escape_is_clean(c: char)
    ensures
        escape(c).len() >= 1,
        forall|i: int| 0 <= i < escape(c).len() ==> (#[trigger] escape(c)[i]) as u32 >= 0x20,
        forall|i: int|
            0 <= i < escape(c).len() && #[trigger] escape(c)[i] == '"' ==> i > 0 && escape(c)[i
                - 1] == '\\',
{
}

/// The same of a whole text: what stands between the quotes of a JSON string
/// holds no bare control character and no quote without a backslash before
/// it.
pub proof fn lemma_escaped_is_clean(text: Seq<char>)
    ensures
        escaped(text).len() >= text.len(),
        forall|i: int| 0 <= i < escaped(text).len() ==> (#[trigger] escaped(text)[i]) as u32 >= 0x20,
        forall|i: int|
            0 <= i < escaped(text).len() && #[trigger] escaped(text)[i] == '"' ==> i > 0
                && escaped(text)[i - 1] == '\\',
    decreases text.len(),
{
    if text.len() > 0 {
        lemma_escaped_is_clean(text.drop_last());
        lemma_escape_is_clean(text.last());
        let head = escaped(text.drop_last());
        let tail = escape(text.last());
        assert forall|i: int| 0 <= i < escaped(text).len() implies (#[trigger] escaped(text)[i])
            as u32 >= 0x20 by {
            if i >= head.len() {
                assert(escaped(text)[i] == tail[i - head.len()]);
            }
        }
        assert forall|i: int|
            0 <= i < escaped(text).len() && #[trigger] escaped(text)[i] == '"' implies i > 0
            && escaped(text)[i - 1] == '\\' by {
            if i >= head.len() {
                let j = i - head.len();
                assert(escaped(text)[i] == tail[j]);
                assert(j > 0 && tail[j - 1] == '\\');
                assert(escaped(text)[i - 1] == tail[j - 1]);
            }
        }
    }
}

/// Gives the character of a hexadecimal digit.
fn hex_char(d: u8) -> (c: char)
    requires
        d < 16,
    ensures
        c == hex_digit(d as int),
{
    if d < 10 {
        (48u8 + d) as char
    } else {
        (87u8 + d) as char
    }
}

/// Appends `c` to `out` as it stands inside a JSON string.
fn push_escaped(out: &mut String, c: char)
    ensures
        final(out)@ == old(out)@ + escape(c),
{
    let code: u32 = c as u32;
    if c == '"' {
        out.push('\\');
        out.push('"');
    } else if c == '\\' {
        out.push('\\');
        out.push('\\');
    } else if code < 0x20 {
        out.push('\\');
        out.push('u');
        out.push('0');
        out.push('0');
        out.push(hex_char((code / 16) as u8));
        out.push(hex_char((code % 16) as u8));
    } else {
        out.push(c);
    }
    assert(out@ =~= old(out)@ + escape(c));
}

/// Appends `text` to `out` as a JSON string.
pub fn push_json_string(out: &mut String, text: &str)
    ensures
        final(out)@ == old(out)@ + json_string(text@),
{
    out.push('"');
    let ghost start = out@;
    for c in it: text.chars()
        invariant
            it.seq() == text@,
            out@ == start + escaped(text@.take(it.index())),
    {
        proof {
            let k = it.index();
            assert(text@.take(k + 1).drop_last() =~= text@.take(k));
            assert(text@.take(k + 1).last() == text@[k]);
        }
        push_escaped(out, c);
        assert(out@ =~= start + escaped(text@.take(it.index() + 1)));
    }
    assert(text@.take(text@.len() as int) =~= text@);
    out.push('"');
    assert(out@ =~= old(out)@ + json_string(text@));
}

/// Appends `m` to `out` as a JSON object.
pub fn push_json_object(out: &mut String, m: &Message)
    ensures
        final(out)@ == old(out)@ + json_object(m@),
{
    out.append("{ \"id\": ");
    push_decimal(out, m.id);
    out.append(", \"message\": ");
    push_json_string(out, m.text.as_str());
    out.append(" }");
    assert(out@ =~= old(out)@ + json_object(m@));
}

/// Writes the body that answers a fetch of the history.
pub fn encode_history(messages: &Vec<Message>) -> (body: String)
    ensures
        body@ == json_array(message_views(messages@)),
{
    let mut body = String::from_str("[ ");
    let ghost all = message_views(messages@);
    let mut k: usize = 0;
    while k < messages.len()
        invariant
            k <= messages@.len(),
            all == message_views(messages@),
            body@ == "[ "@ + json_members(all.take(k as int)),
        decreases messages@.len() - k,
    {
        if k > 0 {
            body.append(", ");
        }
        proof {
            assert(all.take(k + 1).drop_last() =~= all.take(k as int));
            assert(all.take(k + 1).last() == messages@[k as int]@);
            assert(all.take(1)[0] == all[0]);
        }
        push_json_object(&mut body, &messages[k]);
        assert(body@ =~= "[ "@ + json_members(all.take(k + 1)));
        k += 1;
    }
    assert(all.take(k as int) =~= all);
    body.append(" ]");
    body
}

} // verus!
