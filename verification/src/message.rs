//! Messages of the shared log, and what can go wrong when talking to the
//! server that keeps it.

use vstd::prelude::*;

verus! {

/// One entry of the message log: the number the server gave it, and its text.
#[derive(Debug, PartialEq, Eq)]
pub struct Message {
    pub id: u32,
    pub text: String,
}

/// The mathematical value of a [`Message`].
pub struct MessageView {
    pub id: nat,
    pub text: Seq<char>,
}

impl View for Message {
    type V = MessageView;

    open spec fn view(&self) -> MessageView {
        MessageView { id: self.id as nat, text: self.text@ }
    }
}

impl Clone for Message {
    fn clone(&self) -> (copy: Message)
        ensures
            copy@ == self@,
    {
        Message { id: self.id, text: self.text.clone() }
    }
}

impl Message {
    /// Makes a message from its number and text.
    pub fn new(id: u32, text: String) -> (m: Message)
        ensures
            m@ == (MessageView { id: id as nat, text: text@ }),
    {
        Message { id, text }
    }
}

/// The values of a run of messages, in the same order.
pub open spec fn message_views(messages: Seq<Message>) -> Seq<MessageView> {
    messages.map_values(|m: Message| m@)
}

/// Why a request to the server came to nothing.
#[derive(Debug, Clone, Copy, PartialEq, Eq, Structural)]
pub enum TransportError {
    /// The server could not be reached, or the connection broke.
    Connection,
    /// The server answered with a status other than success.
    Status(u16),
    /// The answer's body was not what the wire contract promises.
    MalformedBody,
}

/// What the status of an answer means: success from 200 to 299, else the
/// error that carries the status.
pub open spec fn status_outcome(status: u16) -> Result<(), TransportError> {
    if 200 <= status <= 299 {
        Ok(())
    } else {
        Err(TransportError::Status(status))
    }
}

/// Judges the status of an answer.
pub fn check_status(status: u16) -> (outcome: Result<(), TransportError>)
    ensures
        outcome == status_outcome(status),
{
    if 200 <= status && status <= 299 {
        Ok(())
    } else {
        Err(TransportError::Status(status))
    }
}

} // verus!
