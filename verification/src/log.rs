//! The message log as the server keeps it: nothing is ever changed or taken
//! out, each new message gets the next number, and a reading gives all of
//! them in the order in which they came.

use vstd::prelude::*;
use crate::message::{message_views, Message, MessageView};

verus! {

/// The messages are numbered 1, 2, 3 and so on, in order.
pub open spec fn numbered(log: Seq<MessageView>) -> bool {
    forall|i: int| 0 <= i < log.len() ==> (#[trigger] log[i]).id == i + 1
}

/// The log with `text` as its newest message, under the next number.
pub open spec fn appended(log: Seq<MessageView>, text: Seq<char>) -> Seq<MessageView> {
    log.push(MessageView { id: log.len() + 1, text })
}

/// The number that the next message gets, while there is one left.
pub open spec fn next_id(log: Seq<MessageView>) -> Option<u32> {
    if log.len() < u32::MAX {
        Some((log.len() + 1) as u32)
    } else {
        None
    }
}

/// In a numbered log no number occurs twice, and a later message has the
/// greater number.
pub proof fn lemma_ids_increase(log: Seq<MessageView>, i: int, j: int)
    requires
        numbered(log),
        0 <= i < j < log.len(),
    ensures
        log[i].id < log[j].id,
{
}

/// An append keeps every message that was there, in its place, and the log
/// numbered.
pub proof fn lemma_append_keeps(log: Seq<MessageView>, text: Seq<char>)
    requires
        numbered(log),
    ensures
        numbered(appended(log, text)),
        appended(log, text).len() == log.len() + 1,
        appended(log, text).take(log.len() as int) == log,
        appended(log, text).last() == (MessageView { id: log.len() + 1, text }),
{
    assert(appended(log, text).take(log.len() as int) =~= log);
}

/// Two readings of a log that nothing was appended to hold the same messages,
/// in the same order.
pub proof fn lemma_readings_agree(
    log: Seq<MessageView>,
    first: Seq<MessageView>,
    second: Seq<MessageView>,
)
    requires
        first == log,
        second == log,
    ensures
        first == second,
{
}

/// An append-only log of messages, kept in memory.
pub struct MessageLog {
    entries: Vec<Message>,
}

impl View for MessageLog {
    type V = Seq<MessageView>;

    closed spec fn view(&self) -> Seq<MessageView> {
        message_views(self.entries@)
    }
}

impl MessageLog {
    #[verifier::type_invariant]
    spec fn entries_numbered(self) -> bool {
        numbered(message_views(self.entries@))
    }

    /// A log without messages.
    pub fn new() -> (log: MessageLog)
        ensures
            log@ == Seq::<MessageView>::empty(),
    {
        let log = MessageLog { entries: Vec::new() };
        assert(log@ =~= Seq::empty());
        log
    }

    /// The number of messages in the log.
    pub fn len(&self) -> (n: usize)
        ensures
            n == self@.len(),
            numbered(self@),
    {
        proof {
            use_type_invariant(self);
        }
        self.entries.len()
    }

    /// Adds `text` as the newest message and returns the number it got: one
    /// more than the number of messages before. A log that holds as many
    /// messages as there are numbers takes no more: it stays as it is and
    /// nothing is returned.
    pub fn append(&mut self, text: String) -> (id: Option<u32>)
        ensures
            id == next_id(old(self)@),
            final(self)@ == if id.is_some() {
                appended(old(self)@, text@)
            } else {
                old(self)@
            },
            numbered(final(self)@),
    {
        proof {
            use_type_invariant(&*self);
        }
        let count = self.entries.len();
        if count >= u32::MAX as usize {
            return None;
        }
        let id = count as u32 + 1;
        let mut entries: Vec<Message> = Vec::new();
        assert(message_views(entries@) =~= Seq::empty());
        core::mem::swap(&mut self.entries, &mut entries);
        entries.push(Message::new(id, text));
        assert(message_views(entries@) =~= appended(old(self)@, text@));
        core::mem::swap(&mut self.entries, &mut entries);
        Some(id)
    }

    /// Reads the whole log, oldest message first.
    pub fn read_all(&self) -> (messages: Vec<Message>)
        ensures
            message_views(messages@) == self@,
            numbered(self@),
    {
        proof {
            use_type_invariant(self);
        }
        let mut messages: Vec<Message> = Vec::new();
        let mut k: usize = 0;
        while k < self.entries.len()
            invariant
                k <= self.entries@.len(),
                messages@.len() == k,
                forall|i: int| 0 <= i < k ==> (#[trigger] messages@[i])@ == self.entries@[i]@,
            decreases self.entries@.len() - k,
        {
            messages.push(self.entries[k].clone());
            k += 1;
        }
        assert(message_views(messages@) =~= self@);
        messages
    }
}

} // verus!
