//! How numbers and messages are written out as text.

use vstd::prelude::*;
use vstd::string::StringExecFns;
use crate::message::{Message, MessageView};

verus! {

/// The character of a decimal digit.
pub open spec fn digit(d: int) -> char {
    (48 + d) as char
}

/// The decimal numeral of `n`, without leading zeros.
pub open spec fn decimal(n: nat) -> Seq<char>
    decreases n,
{
    if n < 10 {
        seq![digit(n as int)]
    } else {
        decimal(n / 10).push(digit((n % 10) as int))
    }
}

/// A message as one line of the scrollback: its number, a colon and a blank,
/// then its text.
pub open spec fn message_line(m: MessageView) -> Seq<char> {
    decimal(m.id) + seq![':', ' '] + m.text
}

/// A message as one line of a printed history: the word `Message` and a
/// blank before its scrollback line.
pub open spec fn listing_line(m: MessageView) -> Seq<char> {
    "Message "@ + message_line(m)
}

/// Appends the decimal numeral of `n` to `out`.
pub fn push_decimal(out: &mut String, n: u32)
    ensures
        final(out)@ == old(out)@ + decimal(n as nat),
    decreases n,
{
    if n >= 10 {
        push_decimal(out, n / 10);
    }
    let d: u8 = (n % 10) as u8;
    out.push((48u8 + d) as char);
}

/// Writes a message as one line of the scrollback.
pub fn format_message(m: &Message) -> (line: String)
    ensures
        line@ == message_line(m@),
{
    let mut line = String::new();
    push_decimal(&mut line, m.id);
    proof {
        reveal_strlit(": ");
    }
    line.append(": ");
    line.append(m.text.as_str());
    line
}

/// Writes a message as one line of a printed history.
pub fn format_listing(m: &Message) -> (line: String)
    ensures
        line@ == listing_line(m@),
{
    let mut line = String::from_str("Message ");
    line.append(format_message(m).as_str());
    line
}

} // verus!
