//! The event loop as a state machine. The loop itself, which waits for the
//! clock, the network, the screen and the keyboard, runs outside: it hands
//! each outcome in as an [`Event`] and is told by an [`Action`] what to do
//! next.

use vstd::prelude::*;
use crate::editor::{EditorView, InputField};
use crate::history::{fetched_view, HistoryStore, HistoryView, REFRESH_INTERVAL_MS};
use crate::keys::{classify, intent_of, Intent, KeyEvent};
use crate::message::{Message, MessageView, TransportError};

verus! {

/// Milliseconds that one poll of the keyboard may wait.
pub const POLL_TIMEOUT_MS: u64 = 16;

/// Where in its iteration the loop stands: what it is waiting for.
#[derive(Debug, Clone, Copy, PartialEq, Eq, Structural)]
pub enum Phase {
    /// For the time at which the next iteration begins.
    AwaitingTick,
    /// For the history that the refresh timer asked for.
    TimedRefresh,
    /// For the frame to be drawn.
    AwaitingDraw,
    /// For the keyboard poll to end.
    AwaitingKey,
    /// For the send to end.
    AwaitingSend,
    /// For the history asked for right after a send that succeeded.
    ForcedRefresh,
    /// For nothing: the session is over.
    Terminating,
}

/// The two states of the loop.
#[derive(Debug, Clone, Copy, PartialEq, Eq, Structural)]
pub enum LoopState {
    Running,
    Terminating,
}

/// What happened outside, handed in to the loop.
#[derive(Debug)]
pub enum Event {
    /// An iteration begins at time `now`, in milliseconds.
    Tick { now: u64 },
    /// A fetch of the history ended at time `now`.
    History { fetched: Result<Vec<Message>, TransportError>, now: u64 },
    /// The frame was drawn.
    Drawn,
    /// The keyboard poll ended, with a key or without one.
    Key { key: Option<KeyEvent> },
    /// A send ended.
    Sent { outcome: Result<(), TransportError> },
}

/// The mathematical value of an [`Event`].
pub enum EventView {
    Tick { now: nat },
    History { fetched: Result<Seq<MessageView>, TransportError>, now: nat },
    Drawn,
    Key { key: Option<KeyEvent> },
    Sent { outcome: Result<(), TransportError> },
}

impl View for Event {
    type V = EventView;

    open spec fn view(&self) -> EventView {
        match *self {
            Event::Tick { now } => EventView::Tick { now: now as nat },
            Event::History { fetched, now } => EventView::History {
                fetched: fetched_view(fetched),
                now: now as nat,
            },
            Event::Drawn => EventView::Drawn,
            Event::Key { key } => EventView::Key { key },
            Event::Sent { outcome } => EventView::Sent { outcome },
        }
    }
}

/// What the loop asks to be done outside.
#[derive(Debug, PartialEq, Eq)]
pub enum Action {
    /// Read the clock and hand in [`Event::Tick`].
    ReadClock,
    /// Fetch the history and hand in [`Event::History`].
    FetchHistory,
    /// Draw the frame and hand in [`Event::Drawn`].
    Draw,
    /// Wait for a key, `timeout_ms` at most, and hand in [`Event::Key`].
    PollKey { timeout_ms: u64 },
    /// Send `text` and hand in [`Event::Sent`].
    Send { text: String },
    /// Leave the loop.
    Exit,
}

/// The mathematical value of an [`Action`].
pub enum ActionView {
    ReadClock,
    FetchHistory,
    Draw,
    PollKey { timeout_ms: nat },
    Send { text: Seq<char> },
    Exit,
}

impl View for Action {
    type V = ActionView;

    open spec fn view(&self) -> ActionView {
        match *self {
            Action::ReadClock => ActionView::ReadClock,
            Action::FetchHistory => ActionView::FetchHistory,
            Action::Draw => ActionView::Draw,
            Action::PollKey { timeout_ms } => ActionView::PollKey { timeout_ms: timeout_ms as nat },
            Action::Send { text } => ActionView::Send { text: text@ },
            Action::Exit => ActionView::Exit,
        }
    }
}

/// The loop's answer to an event: what to do next, and the transport error
/// to report, if the event brought one.
#[derive(Debug, PartialEq, Eq)]
pub struct Step {
    pub action: Action,
    pub report: Option<TransportError>,
}

/// The mathematical value of a [`Step`].
pub struct StepView {
    pub action: ActionView,
    pub report: Option<TransportError>,
}

impl View for Step {
    type V = StepView;

    open spec fn view(&self) -> StepView {
        StepView { action: self.action@, report: self.report }
    }
}

/// The value of an answer that may be missing.
pub open spec fn answer_view(answer: Option<Step>) -> Option<StepView> {
    match answer {
        Some(step) => Some(step@),
        None => None,
    }
}

/// The error of an outcome that failed.
pub open spec fn error_of<T>(outcome: Result<T, TransportError>) -> Option<TransportError> {
    match outcome {
        Ok(_) => None,
        Err(e) => Some(e),
    }
}

/// The mathematical value of a [`Session`].
pub struct SessionView {
    pub editor: EditorView,
    pub history: HistoryView,
    pub phase: Phase,
}

impl SessionView {
    /// A session before its first fetch: nothing typed, nothing cached.
    pub open spec fn initial() -> SessionView {
        SessionView {
            editor: EditorView::empty(),
            history: HistoryView::empty(),
            phase: Phase::TimedRefresh,
        }
    }

    /// Running until the quit combination was seen.
    pub open spec fn state(self) -> LoopState {
        if self.phase == Phase::Terminating {
            LoopState::Terminating
        } else {
            LoopState::Running
        }
    }

    /// The session moved on to `phase`, asking for `action`.
    pub open spec fn go(self, phase: Phase, action: ActionView) -> (SessionView, StepView) {
        (SessionView { phase, ..self }, StepView { action, report: None })
    }

    /// The session with `editor` for its input field.
    pub open spec fn with_editor(self, editor: EditorView) -> SessionView {
        SessionView { editor, ..self }
    }

    /// An iteration begins: a refresh where one is due, the frame otherwise.
    pub open spec fn on_tick(self, now: nat) -> (SessionView, StepView) {
        if self.history.refresh_due(now, REFRESH_INTERVAL_MS as nat) {
            self.go(Phase::TimedRefresh, ActionView::FetchHistory)
        } else {
            self.go(Phase::AwaitingDraw, ActionView::Draw)
        }
    }

    /// A fetch ended: the store takes its outcome in, an error is reported.
    /// After the timer's refresh the frame is drawn; after the refresh that
    /// follows a send the next iteration begins.
    pub open spec fn on_history(
        self,
        fetched: Result<Seq<MessageView>, TransportError>,
        now: nat,
    ) -> (SessionView, StepView) {
        let history = self.history.refreshed(fetched, now);
        let report = error_of(fetched);
        if self.phase == Phase::ForcedRefresh {
            (
                SessionView { history, phase: Phase::AwaitingTick, ..self },
                StepView { action: ActionView::ReadClock, report },
            )
        } else {
            (
                SessionView { history, phase: Phase::AwaitingDraw, ..self },
                StepView { action: ActionView::Draw, report },
            )
        }
    }

    /// The frame is on the screen: the keyboard is polled.
    pub open spec fn on_drawn(self) -> (SessionView, StepView) {
        self.go(Phase::AwaitingKey, ActionView::PollKey { timeout_ms: POLL_TIMEOUT_MS as nat })
    }

    /// The poll ended. The quit combination ends the session; Enter on a text
    /// that is not empty clears the field and sends the text; every other key
    /// goes to the input field, and the next iteration begins.
    pub open spec fn on_key(self, key: Option<KeyEvent>) -> (SessionView, StepView) {
        let intent = match key {
            Some(k) => intent_of(k),
            None => Intent::Nothing,
        };
        match intent {
            Intent::Quit => self.go(Phase::Terminating, ActionView::Exit),
            Intent::Insert(c) => self.with_editor(self.editor.insert(c)).go(
                Phase::AwaitingTick,
                ActionView::ReadClock,
            ),
            Intent::Submit => if self.editor.content.len() > 0 {
                self.with_editor(EditorView::empty()).go(
                    Phase::AwaitingSend,
                    ActionView::Send { text: self.editor.content },
                )
            } else {
                self.go(Phase::AwaitingTick, ActionView::ReadClock)
            },
            Intent::Erase => self.with_editor(self.editor.remove()).go(
                Phase::AwaitingTick,
                ActionView::ReadClock,
            ),
            Intent::Left => self.with_editor(self.editor.left()).go(
                Phase::AwaitingTick,
                ActionView::ReadClock,
            ),
            Intent::Right => self.with_editor(self.editor.right()).go(
                Phase::AwaitingTick,
                ActionView::ReadClock,
            ),
            Intent::Nothing => self.go(Phase::AwaitingTick, ActionView::ReadClock),
        }
    }

    /// The send ended: after a success the history is fetched at once; a
    /// failure is reported and the next iteration begins. The text is not
    /// sent again.
    pub open spec fn on_sent(self, outcome: Result<(), TransportError>) -> (
        SessionView,
        StepView,
    ) {
        match outcome {
            Ok(_) => self.go(Phase::ForcedRefresh, ActionView::FetchHistory),
            Err(e) => (
                SessionView { phase: Phase::AwaitingTick, ..self },
                StepView { action: ActionView::ReadClock, report: Some(e) },
            ),
        }
    }

    /// `event` is the one that the session is waiting for.
    pub open spec fn awaits(self, event: EventView) -> bool {
        match event {
            EventView::Tick { .. } => self.phase == Phase::AwaitingTick,
            EventView::History { .. } => self.phase == Phase::TimedRefresh || self.phase
                == Phase::ForcedRefresh,
            EventView::Drawn => self.phase == Phase::AwaitingDraw,
            EventView::Key { .. } => self.phase == Phase::AwaitingKey,
            EventView::Sent { .. } => self.phase == Phase::AwaitingSend,
        }
    }

    /// The session and its answer after an event that it was waiting for.
    pub open spec fn advance(self, event: EventView) -> (SessionView, StepView) {
        match event {
            EventView::Tick { now } => self.on_tick(now),
            EventView::History { fetched, now } => self.on_history(fetched, now),
            EventView::Drawn => self.on_drawn(),
            EventView::Key { key } => self.on_key(key),
            EventView::Sent { outcome } => self.on_sent(outcome),
        }
    }

    /// The session after `event`; an event out of turn changes nothing.
    pub open spec fn next(self, event: EventView) -> SessionView {
        if self.awaits(event) {
            self.advance(event).0
        } else {
            self
        }
    }

    /// The answer to `event`; an event out of turn gets none.
    pub open spec fn answer(self, event: EventView) -> Option<StepView> {
        if self.awaits(event) {
            Some(self.advance(event).1)
        } else {
            None
        }
    }
}

/// A running session ends on the quit combination and on nothing else.
pub proof fn lemma_only_quit_ends(session: SessionView, event: EventView)
    requires
        session.state() == LoopState::Running,
    ensures
        session.next(event).state() == LoopState::Terminating <==> session.phase
            == Phase::AwaitingKey && (event matches EventView::Key { key: Some(k) } && intent_of(k)
            == Intent::Quit),
{
}

/// A session that is over stays over, and as it is.
pub proof fn lemma_over_is_over(session: SessionView, event: EventView)
    requires
        session.state() == LoopState::Terminating,
    ensures
        session.next(event) == session,
        session.answer(event).is_none(),
{
}

/// The cached history changes with the outcome of a fetch and with nothing
/// else: a keystroke, a drawn frame, a tick, and a send, whether it failed
/// or not, leave it as it was.
pub proof fn lemma_history_changes_on_fetch_only(session: SessionView, event: EventView)
    requires
        !(event is History),
    ensures
        session.next(event).history == session.history,
{
}

/// A send that failed leaves the messages at the last snapshot, is reported,
/// and is not tried again: the next thing asked for is the clock.
pub proof fn lemma_failed_send(session: SessionView, error: TransportError)
    requires
        session.phase == Phase::AwaitingSend,
    ensures
        session.next(EventView::Sent { outcome: Err(error) }).history == session.history,
        session.next(EventView::Sent { outcome: Err(error) }).editor == session.editor,
        session.answer(EventView::Sent { outcome: Err(error) }) == Some(
            StepView { action: ActionView::ReadClock, report: Some(error) },
        ),
{
}

/// A fetch that failed leaves the messages at the last snapshot and is
/// reported.
pub proof fn lemma_failed_fetch(session: SessionView, error: TransportError, now: nat)
    requires
        session.phase == Phase::TimedRefresh || session.phase == Phase::ForcedRefresh,
    ensures
        session.next(EventView::History { fetched: Err(error), now }).history == session.history,
        session.answer(EventView::History { fetched: Err(error), now }) matches Some(step)
            && step.report == Some(error),
{
}

/// Every iteration draws the frame: a tick leads to it at once, or through
/// a fetch of the history, whether that succeeds or fails.
pub proof fn lemma_tick_leads_to_draw(
    session: SessionView,
    now: nat,
    fetched: Result<Seq<MessageView>, TransportError>,
    then: nat,
)
    requires
        session.phase == Phase::AwaitingTick,
    ensures
        ({
            let begun = session.next(EventView::Tick { now });
            let asked = session.answer(EventView::Tick { now }).unwrap().action;
            if session.history.refresh_due(now, REFRESH_INTERVAL_MS as nat) {
                &&& asked == ActionView::FetchHistory
                &&& begun.answer(EventView::History { fetched, now: then }).unwrap().action
                    == ActionView::Draw
                &&& begun.next(EventView::History { fetched, now: then }).phase
                    == Phase::AwaitingDraw
            } else {
                &&& asked == ActionView::Draw
                &&& begun.phase == Phase::AwaitingDraw
            }
        }),
{
}

/// No event takes the cursor out of the text.
pub proof fn lemma_field_stays_well_formed(session: SessionView, event: EventView)
    requires
        session.editor.wf(),
    ensures
        session.next(event).editor.wf(),
{
}

/// One interactive session: the input field, the cached history, and the
/// place in the loop.
pub struct Session {
    editor: InputField,
    history: HistoryStore,
    phase: Phase,
}

impl View for Session {
    type V = SessionView;

    closed spec fn view(&self) -> SessionView {
        SessionView { editor: self.editor@, history: self.history@, phase: self.phase }
    }
}

impl Session {
    /// Begins a session. The first thing asked for is the history.
    pub fn start() -> (begun: (Session, Action))
        ensures
            begun.0@ == SessionView::initial(),
            begun.1@ == ActionView::FetchHistory,
    {
        let session = Session {
            editor: InputField::new(),
            history: HistoryStore::new(),
            phase: Phase::TimedRefresh,
        };
        (session, Action::FetchHistory)
    }

    /// The input field.
    pub fn editor(&self) -> (editor: &InputField)
        ensures
            editor@ == self@.editor,
    {
        &self.editor
    }

    /// The cached history.
    pub fn history(&self) -> (history: &HistoryStore)
        ensures
            history@ == self@.history,
    {
        &self.history
    }

    /// What the session is waiting for.
    pub fn phase(&self) -> (phase: Phase)
        ensures
            phase == self@.phase,
    {
        self.phase
    }

    /// Whether the loop is running or over.
    pub fn state(&self) -> (state: LoopState)
        ensures
            state == self@.state(),
    {
        match self.phase {
            Phase::Terminating => LoopState::Terminating,
            _ => LoopState::Running,
        }
    }

    /// Moves on to `phase` and asks for `action`.
    fn proceed(&mut self, phase: Phase, action: Action) -> (answer: Option<Step>)
        ensures
            final(self)@ == (SessionView { phase, ..old(self)@ }),
            answer_view(answer) == Some(StepView { action: action@, report: None }),
    {
        self.phase = phase;
        Some(Step { action, report: None })
    }

    /// Takes in the outcome of the keyboard poll.
    fn dispatch(&mut self, key: Option<KeyEvent>) -> (answer: Option<Step>)
        requires
            old(self)@.phase == Phase::AwaitingKey,
        ensures
            final(self)@ == old(self)@.on_key(key).0,
            answer_view(answer) == Some(old(self)@.on_key(key).1),
    {
        let intent = match key {
            Some(k) => classify(k),
            None => Intent::Nothing,
        };
        match intent {
            Intent::Quit => self.proceed(Phase::Terminating, Action::Exit),
            Intent::Insert(c) => {
                self.editor.insert_character_at_cursor(c);
                self.proceed(Phase::AwaitingTick, Action::ReadClock)
            },
            Intent::Submit => {
                if self.editor.get_content_length() > 0 {
                    let text = self.editor.take_and_clear();
                    self.proceed(Phase::AwaitingSend, Action::Send { text })
                } else {
                    self.proceed(Phase::AwaitingTick, Action::ReadClock)
                }
            },
            Intent::Erase => {
                let _ = self.editor.remove_character_at_cursor();
                self.proceed(Phase::AwaitingTick, Action::ReadClock)
            },
            Intent::Left => {
                self.editor.shift_cursor_left();
                self.proceed(Phase::AwaitingTick, Action::ReadClock)
            },
            Intent::Right => {
                self.editor.shift_cursor_right();
                self.proceed(Phase::AwaitingTick, Action::ReadClock)
            },
            Intent::Nothing => self.proceed(Phase::AwaitingTick, Action::ReadClock),
        }
    }

    /// Takes in what happened outside and says what to do next. An event
    /// that the session is not waiting for changes nothing and gets no
    /// answer.
    pub fn step(&mut self, event: Event) -> (answer: Option<Step>)
        ensures
            final(self)@ == old(self)@.next(event@),
            answer_view(answer) == old(self)@.answer(event@),
    {
        match event {
            Event::Tick { now } => {
                if self.phase != Phase::AwaitingTick {
                    return None;
                }
                if self.history.refresh_due(now, REFRESH_INTERVAL_MS) {
                    self.proceed(Phase::TimedRefresh, Action::FetchHistory)
                } else {
                    self.proceed(Phase::AwaitingDraw, Action::Draw)
                }
            },
            Event::History { fetched, now } => {
                let forced = self.phase == Phase::ForcedRefresh;
                if !forced && self.phase != Phase::TimedRefresh {
                    return None;
                }
                let report = match self.history.refresh(fetched, now) {
                    Ok(_) => None,
                    Err(e) => Some(e),
                };
                if forced {
                    self.phase = Phase::AwaitingTick;
                    Some(Step { action: Action::ReadClock, report })
                } else {
                    self.phase = Phase::AwaitingDraw;
                    Some(Step { action: Action::Draw, report })
                }
            },
            Event::Drawn => {
                if self.phase != Phase::AwaitingDraw {
                    return None;
                }
                self.proceed(Phase::AwaitingKey, Action::PollKey { timeout_ms: POLL_TIMEOUT_MS })
            },
            Event::Key { key } => {
                if self.phase != Phase::AwaitingKey {
                    return None;
                }
                self.dispatch(key)
            },
            Event::Sent { outcome } => {
                if self.phase != Phase::AwaitingSend {
                    return None;
                }
                match outcome {
                    Ok(_) => self.proceed(Phase::ForcedRefresh, Action::FetchHistory),
                    Err(e) => {
                        self.phase = Phase::AwaitingTick;
                        Some(Step { action: Action::ReadClock, report: Some(e) })
                    },
                }
            },
        }
    }
}

} // verus!
