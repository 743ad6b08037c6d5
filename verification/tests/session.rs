use term_chat::history::REFRESH_INTERVAL_MS;
use term_chat::keys::{KeyCode, KeyEvent, KeyKind, Modifiers};
use term_chat::log::MessageLog;
use term_chat::message::{Message, TransportError};
use term_chat::render::render;
use term_chat::render::DrawCommand;
use term_chat::session::{Action, Event, LoopState, Phase, Session, Step, POLL_TIMEOUT_MS};

fn press(code: KeyCode) -> Event {
    let modifiers = Modifiers { shift: false, control: false, alt: false, other: false };
    Event::Key { key: Some(KeyEvent { code, modifiers, kind: KeyKind::Press }) }
}

fn quit() -> Event {
    let modifiers = Modifiers { shift: false, control: true, alt: false, other: false };
    Event::Key { key: Some(KeyEvent { code: KeyCode::Char('c'), modifiers, kind: KeyKind::Press }) }
}

fn plain(action: Action) -> Option<Step> {
    Some(Step { action, report: None })
}

fn message(id: u32, text: &str) -> Message {
    Message::new(id, text.to_string())
}

/// A session that has fetched `messages` at `now`, drawn, and waits for a key.
fn at_keyboard(messages: Vec<Message>, now: u64) -> Session {
    let (mut session, first) = Session::start();
    assert_eq!(first, Action::FetchHistory);
    assert_eq!(session.step(Event::History { fetched: Ok(messages), now }), plain(Action::Draw));
    assert_eq!(
        session.step(Event::Drawn),
        plain(Action::PollKey { timeout_ms: POLL_TIMEOUT_MS })
    );
    session
}

/// Types `text`, one iteration of the loop for each character.
fn type_text(session: &mut Session, text: &str, now: u64) {
    for c in text.chars() {
        assert_eq!(session.step(press(KeyCode::Char(c))), plain(Action::ReadClock));
        assert_eq!(session.step(Event::Tick { now }), plain(Action::Draw));
        assert_eq!(
            session.step(Event::Drawn),
            plain(Action::PollKey { timeout_ms: POLL_TIMEOUT_MS })
        );
    }
}

#[test]
fn poll_timeout_is_sixteen_milliseconds() {
    assert_eq!(POLL_TIMEOUT_MS, 16);
}

#[test]
fn session_starts_by_asking_for_the_history() {
    let (session, first) = Session::start();
    assert_eq!(first, Action::FetchHistory);
    assert_eq!(session.phase(), Phase::TimedRefresh);
    assert_eq!(session.state(), LoopState::Running);
    assert_eq!(session.editor().content(), "");
    assert_eq!(session.editor().cursor(), 0);
    assert!(session.history().messages().is_empty());
}

#[test]
fn iteration_without_a_key_goes_clock_draw_poll() {
    let mut session = at_keyboard(vec![], 100);
    assert_eq!(session.step(Event::Key { key: None }), plain(Action::ReadClock));
    assert_eq!(session.phase(), Phase::AwaitingTick);
    assert_eq!(session.step(Event::Tick { now: 150 }), plain(Action::Draw));
    assert_eq!(session.phase(), Phase::AwaitingDraw);
    assert_eq!(
        session.step(Event::Drawn),
        plain(Action::PollKey { timeout_ms: 16 })
    );
    assert_eq!(session.phase(), Phase::AwaitingKey);
}

#[test]
fn tick_asks_for_the_history_once_more_than_the_interval_has_passed() {
    let mut session = at_keyboard(vec![], 100);
    session.step(Event::Key { key: None });
    assert_eq!(session.step(Event::Tick { now: 100 + REFRESH_INTERVAL_MS }), plain(Action::Draw));
    session.step(Event::Drawn);
    session.step(Event::Key { key: None });
    assert_eq!(
        session.step(Event::Tick { now: 101 + REFRESH_INTERVAL_MS }),
        plain(Action::FetchHistory)
    );
    assert_eq!(session.phase(), Phase::TimedRefresh);
    assert_eq!(
        session.step(Event::History { fetched: Ok(vec![message(1, "a")]), now: 1200 }),
        plain(Action::Draw)
    );
    assert_eq!(session.history().messages(), &vec![message(1, "a")]);
    assert_eq!(session.history().last_refreshed(), 1200);
}

#[test]
fn failed_timed_refresh_is_reported_and_the_frame_is_still_drawn() {
    let mut session = at_keyboard(vec![message(1, "a")], 100);
    session.step(Event::Key { key: None });
    assert_eq!(session.step(Event::Tick { now: 5000 }), plain(Action::FetchHistory));
    assert_eq!(
        session.step(Event::History { fetched: Err(TransportError::Status(503)), now: 5100 }),
        Some(Step { action: Action::Draw, report: Some(TransportError::Status(503)) })
    );
    assert_eq!(session.history().messages(), &vec![message(1, "a")]);
    assert_eq!(session.history().last_refreshed(), 100);
    assert_eq!(session.state(), LoopState::Running);
}

#[test]
fn failed_first_fetch_is_reported_and_the_session_goes_on() {
    let (mut session, _) = Session::start();
    assert_eq!(
        session.step(Event::History { fetched: Err(TransportError::Connection), now: 3 }),
        Some(Step { action: Action::Draw, report: Some(TransportError::Connection) })
    );
    assert!(session.history().messages().is_empty());
    assert_eq!(session.state(), LoopState::Running);
}

#[test]
fn characters_go_to_the_input_field() {
    let mut session = at_keyboard(vec![], 100);
    type_text(&mut session, "hé😀", 110);
    assert_eq!(session.editor().content(), "hé😀");
    assert_eq!(session.editor().cursor(), 3);
}

#[test]
fn arrows_and_backspace_edit_the_input_field() {
    let mut session = at_keyboard(vec![], 100);
    type_text(&mut session, "abc", 110);
    for code in [KeyCode::Left, KeyCode::Left, KeyCode::Backspace, KeyCode::Right] {
        assert_eq!(session.step(press(code)), plain(Action::ReadClock));
        session.step(Event::Tick { now: 120 });
        session.step(Event::Drawn);
    }
    assert_eq!(session.editor().content(), "bc");
    assert_eq!(session.editor().cursor(), 1);
}

#[test]
fn quit_combination_ends_the_session() {
    let mut session = at_keyboard(vec![message(1, "a")], 100);
    type_text(&mut session, "unsent", 110);
    assert_eq!(session.step(quit()), plain(Action::Exit));
    assert_eq!(session.phase(), Phase::Terminating);
    assert_eq!(session.state(), LoopState::Terminating);
    assert_eq!(session.editor().content(), "unsent");
}

#[test]
fn quit_combination_does_not_reach_the_text() {
    let mut session = at_keyboard(vec![], 100);
    session.step(quit());
    assert_eq!(session.editor().content(), "");
}

#[test]
fn released_quit_combination_does_not_end_the_session() {
    let mut session = at_keyboard(vec![], 100);
    let modifiers = Modifiers { shift: false, control: true, alt: false, other: false };
    let key = KeyEvent { code: KeyCode::Char('c'), modifiers, kind: KeyKind::Release };
    assert_eq!(session.step(Event::Key { key: Some(key) }), plain(Action::ReadClock));
    assert_eq!(session.state(), LoopState::Running);
    assert_eq!(session.editor().content(), "");
}

#[test]
fn session_that_is_over_takes_no_event() {
    let mut session = at_keyboard(vec![message(1, "a")], 100);
    session.step(quit());
    assert_eq!(session.step(Event::Tick { now: 9000 }), None);
    assert_eq!(session.step(Event::Drawn), None);
    assert_eq!(session.step(Event::Key { key: None }), None);
    assert_eq!(session.step(press(KeyCode::Char('x'))), None);
    assert_eq!(session.step(Event::Sent { outcome: Ok(()) }), None);
    assert_eq!(session.step(Event::History { fetched: Ok(vec![]), now: 9000 }), None);
    assert_eq!(session.state(), LoopState::Terminating);
    assert_eq!(session.history().messages(), &vec![message(1, "a")]);
    assert_eq!(session.editor().content(), "");
}

#[test]
fn event_out_of_turn_changes_nothing() {
    let mut session = at_keyboard(vec![message(1, "a")], 100);
    type_text(&mut session, "ab", 110);
    assert_eq!(session.step(Event::Tick { now: 9000 }), None);
    assert_eq!(session.step(Event::Drawn), None);
    assert_eq!(session.step(Event::Sent { outcome: Err(TransportError::Connection) }), None);
    assert_eq!(session.step(Event::History { fetched: Ok(vec![]), now: 9000 }), None);
    assert_eq!(session.phase(), Phase::AwaitingKey);
    assert_eq!(session.editor().content(), "ab");
    assert_eq!(session.history().messages(), &vec![message(1, "a")]);
    assert_eq!(session.history().last_refreshed(), 100);
}

#[test]
fn enter_on_empty_field_sends_nothing() {
    let mut session = at_keyboard(vec![], 100);
    assert_eq!(session.step(press(KeyCode::Enter)), plain(Action::ReadClock));
    assert_eq!(session.phase(), Phase::AwaitingTick);
}

#[test]
fn enter_sends_the_text_and_clears_the_field_at_once() {
    let mut session = at_keyboard(vec![], 100);
    type_text(&mut session, "héllo", 110);
    session.step(press(KeyCode::Left));
    session.step(Event::Tick { now: 120 });
    session.step(Event::Drawn);
    assert_eq!(
        session.step(press(KeyCode::Enter)),
        plain(Action::Send { text: "héllo".to_string() })
    );
    assert_eq!(session.phase(), Phase::AwaitingSend);
    assert_eq!(session.editor().content(), "");
    assert_eq!(session.editor().cursor(), 0);
}

#[test]
fn successful_send_forces_a_refresh() {
    let mut session = at_keyboard(vec![], 100);
    type_text(&mut session, "hi", 110);
    session.step(press(KeyCode::Enter));
    assert_eq!(session.step(Event::Sent { outcome: Ok(()) }), plain(Action::FetchHistory));
    assert_eq!(session.phase(), Phase::ForcedRefresh);
    assert_eq!(
        session.step(Event::History { fetched: Ok(vec![message(1, "hi")]), now: 130 }),
        plain(Action::ReadClock)
    );
    assert_eq!(session.history().messages(), &vec![message(1, "hi")]);
    assert_eq!(session.history().last_refreshed(), 130);
    assert_eq!(session.step(Event::Tick { now: 140 }), plain(Action::Draw));
}

#[test]
fn failed_send_leaves_the_history_at_its_last_snapshot() {
    let mut session = at_keyboard(vec![message(1, "a"), message(2, "b")], 100);
    type_text(&mut session, "lost", 110);
    session.step(press(KeyCode::Enter));
    assert_eq!(
        session.step(Event::Sent { outcome: Err(TransportError::Connection) }),
        Some(Step { action: Action::ReadClock, report: Some(TransportError::Connection) })
    );
    assert_eq!(session.history().messages(), &vec![message(1, "a"), message(2, "b")]);
    assert_eq!(session.history().last_refreshed(), 100);
    assert_eq!(session.state(), LoopState::Running);
}

#[test]
fn failed_send_is_not_sent_again_and_the_text_is_gone() {
    let mut session = at_keyboard(vec![], 100);
    type_text(&mut session, "lost", 110);
    session.step(press(KeyCode::Enter));
    session.step(Event::Sent { outcome: Err(TransportError::Status(500)) });
    assert_eq!(session.editor().content(), "");
    assert_eq!(session.step(Event::Tick { now: 120 }), plain(Action::Draw));
    assert_eq!(session.step(Event::Drawn), plain(Action::PollKey { timeout_ms: 16 }));
    assert_eq!(session.step(press(KeyCode::Enter)), plain(Action::ReadClock));
}

#[test]
fn failed_forced_refresh_is_reported_and_keeps_the_snapshot() {
    let mut session = at_keyboard(vec![message(1, "a")], 100);
    type_text(&mut session, "hi", 110);
    session.step(press(KeyCode::Enter));
    session.step(Event::Sent { outcome: Ok(()) });
    assert_eq!(
        session.step(Event::History { fetched: Err(TransportError::MalformedBody), now: 130 }),
        Some(Step { action: Action::ReadClock, report: Some(TransportError::MalformedBody) })
    );
    assert_eq!(session.history().messages(), &vec![message(1, "a")]);
    assert_eq!(session.history().last_refreshed(), 100);
}

/// Runs the loop against `log` in place of the server: feeds `keys`, one to
/// an iteration, and performs what the session asks for.
fn run_against(session: &mut Session, log: &mut MessageLog, keys: &[KeyCode], now: u64) {
    for code in keys {
        let mut answer = session.step(press(*code));
        loop {
            let step = answer.expect("the session takes the event it asked for");
            assert_eq!(step.report, None);
            answer = match step.action {
                Action::ReadClock => session.step(Event::Tick { now }),
                Action::FetchHistory => {
                    session.step(Event::History { fetched: Ok(log.read_all()), now })
                }
                Action::Draw => session.step(Event::Drawn),
                Action::Send { text } => {
                    assert!(log.append(text).is_some());
                    session.step(Event::Sent { outcome: Ok(()) })
                }
                Action::PollKey { .. } => break,
                Action::Exit => panic!("no key here ends the session"),
            };
        }
    }
}

#[test]
fn hello_then_world_end_to_end() {
    let mut log = MessageLog::new();
    let mut session = at_keyboard(log.read_all(), 100);

    let hello: Vec<KeyCode> = "hello".chars().map(KeyCode::Char).chain([KeyCode::Enter]).collect();
    run_against(&mut session, &mut log, &hello, 200);
    assert_eq!(log.read_all(), vec![message(1, "hello")]);
    assert_eq!(session.history().messages(), &vec![message(1, "hello")]);

    let world: Vec<KeyCode> = "world".chars().map(KeyCode::Char).chain([KeyCode::Enter]).collect();
    run_against(&mut session, &mut log, &world, 300);
    assert_eq!(log.read_all(), vec![message(1, "hello"), message(2, "world")]);
    assert_eq!(session.history().messages(), &vec![message(1, "hello"), message(2, "world")]);
    assert_eq!(session.editor().content(), "");

    let frame = render(4, session.history(), session.editor());
    assert_eq!(
        frame,
        vec![
            DrawCommand::Line { row: 0, text: String::new() },
            DrawCommand::Line { row: 1, text: "1: hello".to_string() },
            DrawCommand::Line { row: 2, text: "2: world".to_string() },
            DrawCommand::Line { row: 3, text: "> ".to_string() },
            DrawCommand::Cursor { column: 2, row: 3 },
        ]
    );
}
