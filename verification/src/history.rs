//! The client's copy of the server's message log: replaced as a whole by each
//! fetch that succeeds, left alone by each that fails.

use vstd::prelude::*;
use crate::message::{message_views, Message, MessageView, TransportError};

verus! {

/// Milliseconds that have to pass after a refresh before the next is due.
pub const REFRESH_INTERVAL_MS: u64 = 1000;

/// The mathematical value of a [`HistoryStore`].
pub struct HistoryView {
    /// The messages of the last fetch that succeeded, in the server's order.
    pub messages: Seq<MessageView>,
    /// When that fetch ended, in milliseconds.
    pub last_refreshed: nat,
}

impl HistoryView {
    /// Nothing fetched yet.
    pub open spec fn empty() -> HistoryView {
        HistoryView { messages: Seq::empty(), last_refreshed: 0 }
    }

    /// More than `interval` has passed since the last refresh.
    pub open spec fn refresh_due(self, now: nat, interval: nat) -> bool {
        now - self.last_refreshed > interval
    }

    /// The store after a fetch that ended at `now`: a new snapshot where it
    /// succeeded, the old store where it failed.
    pub open spec fn refreshed(
        self,
        fetched: Result<Seq<MessageView>, TransportError>,
        now: nat,
    ) -> HistoryView {
        match fetched {
            Ok(messages) => HistoryView { messages, last_refreshed: now },
            Err(_) => self,
        }
    }
}

/// Taking the same snapshot in once more changes no message.
pub proof fn lemma_refresh_twice(
    store: HistoryView,
    fetched: Result<Seq<MessageView>, TransportError>,
    first: nat,
    second: nat,
)
    ensures
        store.refreshed(fetched, first).refreshed(fetched, second).messages == store.refreshed(
            fetched,
            first,
        ).messages,
{
}

/// A fetch that failed leaves the store as it was.
pub proof fn lemma_failed_refresh(store: HistoryView, error: TransportError, now: nat)
    ensures
        store.refreshed(Err(error), now) == store,
{
}

/// The values in the result of a fetch.
pub open spec fn fetched_view(fetched: Result<Vec<Message>, TransportError>) -> Result<
    Seq<MessageView>,
    TransportError,
> {
    match fetched {
        Ok(messages) => Ok(message_views(messages@)),
        Err(e) => Err(e),
    }
}

/// The cached message log and the time of its last refresh.
pub struct HistoryStore {
    messages: Vec<Message>,
    last_refreshed: u64,
}

impl View for HistoryStore {
    type V = HistoryView;

    closed spec fn view(&self) -> HistoryView {
        HistoryView {
            messages: message_views(self.messages@),
            last_refreshed: self.last_refreshed as nat,
        }
    }
}

impl HistoryStore {
    /// A store that holds no message and was never refreshed.
    pub fn new() -> (store: HistoryStore)
        ensures
            store@ == HistoryView::empty(),
    {
        let store = HistoryStore { messages: Vec::new(), last_refreshed: 0 };
        assert(store@.messages =~= Seq::empty());
        store
    }

    /// The cached messages, oldest first.
    pub fn messages(&self) -> (messages: &Vec<Message>)
        ensures
            message_views(messages@) == self@.messages,
    {
        &self.messages
    }

    /// The time of the last refresh that succeeded, in milliseconds.
    pub fn last_refreshed(&self) -> (at: u64)
        ensures
            at == self@.last_refreshed,
    {
        self.last_refreshed
    }

    /// Says whether, at time `now`, more than `interval` has passed since the
    /// last refresh.
    pub fn refresh_due(&self, now: u64, interval: u64) -> (due: bool)
        ensures
            due == self@.refresh_due(now as nat, interval as nat),
    {
        now > self.last_refreshed && now - self.last_refreshed > interval
    }

    /// Takes in the outcome of a fetch that ended at `now`. A fetch that
    /// succeeded replaces the snapshot as a whole and sets the time of the
    /// last refresh; one that failed changes nothing, and its error is
    /// handed back.
    pub fn refresh(&mut self, fetched: Result<Vec<Message>, TransportError>, now: u64) -> (outcome:
        Result<(), TransportError>)
        ensures
            final(self)@ == old(self)@.refreshed(fetched_view(fetched), now as nat),
            outcome == match fetched {
                Ok(_) => Ok::<(), TransportError>(()),
                Err(e) => Err(e),
            },
    {
        match fetched {
            Ok(messages) => {
                self.messages = messages;
                self.last_refreshed = now;
                Ok(())
            },
            Err(e) => Err(e),
        }
    }
}

} // verus!
