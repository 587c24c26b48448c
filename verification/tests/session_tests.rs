use backend::webserver::frame::{CloseOutcome, Frame, INTERNAL_ERROR, NORMAL_CLOSURE};
use backend::webserver::session::{
    transcript_string, Action, Event, Session, SessionState, Termination,
};
use backend::webserver::AppState;

fn probe() -> Action {
    Action::Send(Frame::Ping(vec![1, 2, 3]))
}

fn reading(analysis: bool) -> Session {
    let (session, _) = Session::open(analysis);
    let (session, action) = session.step(Event::Sent);
    assert_eq!(action, Action::Receive);
    session
}

fn text(value: &str) -> String {
    String::from(value)
}

fn failure_close(error: &str) -> CloseOutcome {
    CloseOutcome { code: 1011, reason: format!("Error occured: {}", error) }
}

#[test]
fn close_codes_are_the_protocol_ones() {
    assert_eq!(NORMAL_CLOSURE, 1000);
    assert_eq!(INTERNAL_ERROR, 1011);
}

#[test]
fn opening_sends_the_probe_first() {
    let (session, action) = Session::open(false);
    assert_eq!(action, probe());
    assert_eq!(session.state(), SessionState::Active);
    assert_eq!(session.termination(), None);
}

#[test]
fn accepted_probe_starts_reading() {
    let (session, _) = Session::open(false);
    let (session, action) = session.step(Event::Sent);
    assert_eq!(action, Action::Receive);
    assert_eq!(session.state(), SessionState::Active);
}

#[test]
fn failed_probe_ends_the_session_without_a_close_frame() {
    let (session, _) = Session::open(false);
    let (session, action) = session.step(Event::SendFailed(text("connection reset")));
    assert_eq!(action, Action::Stop);
    assert_eq!(session.state(), SessionState::Closed);
    assert_eq!(session.termination(), Some(&Termination::ProbeFailed(text("connection reset"))));
    let (session, action) = session.step(Event::Received(Frame::Text(text("hello"))));
    assert_eq!(action, Action::Stop);
    assert_eq!(session.state(), SessionState::Closed);
}

#[test]
fn text_is_echoed() {
    let (session, action) = reading(false).step(Event::Received(Frame::Text(text("hello"))));
    assert_eq!(action, Action::Send(Frame::Text(text("Echo back text: hello"))));
    assert_eq!(session.state(), SessionState::Active);
    let (session, action) = session.step(Event::Sent);
    assert_eq!(action, Action::Receive);
    assert_eq!(session.state(), SessionState::Active);
}

#[test]
fn empty_text_is_echoed() {
    let (_, action) = reading(false).step(Event::Received(Frame::Text(text(""))));
    assert_eq!(action, Action::Send(Frame::Text(text("Echo back text: "))));
}

#[test]
fn text_beyond_ascii_is_echoed() {
    let (_, action) = reading(true).step(Event::Received(Frame::Text(text("gr\u{fc}\u{df}e"))));
    assert_eq!(action, Action::Send(Frame::Text(text("Echo back text: gr\u{fc}\u{df}e"))));
}

#[test]
fn binary_is_acknowledged_by_length() {
    let (session, action) =
        reading(false).step(Event::Received(Frame::Binary(vec![9, 8, 7, 6, 5])));
    assert_eq!(action, Action::Send(Frame::Text(text("Received bytes of length: 5"))));
    assert_eq!(session.state(), SessionState::Active);
    let (_, action) = session.step(Event::Sent);
    assert_eq!(action, Action::Receive);
}

#[test]
fn empty_binary_is_acknowledged() {
    let (_, action) = reading(false).step(Event::Received(Frame::Binary(Vec::new())));
    assert_eq!(action, Action::Send(Frame::Text(text("Received bytes of length: 0"))));
}

#[test]
fn long_binary_is_acknowledged() {
    let (_, action) = reading(false).step(Event::Received(Frame::Binary(vec![0u8; 123456])));
    assert_eq!(action, Action::Send(Frame::Text(text("Received bytes of length: 123456"))));
}

#[test]
fn binary_is_submitted_where_an_engine_is_wired_in() {
    let (session, action) = reading(true).step(Event::Received(Frame::Binary(vec![1, 2, 3, 4])));
    assert_eq!(action, Action::Submit(vec![1, 2, 3, 4]));
    assert_eq!(session.state(), SessionState::Active);
    let (session, action) =
        session.step(Event::Analyzed(vec![text("good morning"), text("everyone")]));
    assert_eq!(action, Action::Send(Frame::Text(text("good morning\neveryone"))));
    let (session, action) = session.step(Event::Sent);
    assert_eq!(action, Action::Receive);
    assert_eq!(session.state(), SessionState::Active);
}

#[test]
fn analysis_without_results_sends_an_empty_text() {
    let (session, _) = reading(true).step(Event::Received(Frame::Binary(vec![0; 16])));
    let (_, action) = session.step(Event::Analyzed(Vec::new()));
    assert_eq!(action, Action::Send(Frame::Text(text(""))));
}

#[test]
fn analysis_with_one_result_sends_it_as_it_is() {
    let (session, _) = reading(true).step(Event::Received(Frame::Binary(vec![0; 16])));
    let (_, action) = session.step(Event::Analyzed(vec![text("hello there")]));
    assert_eq!(action, Action::Send(Frame::Text(text("hello there"))));
}

#[test]
fn no_frame_is_read_while_analysis_is_outstanding() {
    let (session, _) = reading(true).step(Event::Received(Frame::Binary(vec![0; 16])));
    let (session, action) = session.step(Event::Received(Frame::Text(text("early"))));
    assert_eq!(action, Action::Stop);
    assert_eq!(session.termination(), Some(&Termination::OutOfTurn));
}

#[test]
fn transcript_puts_one_result_to_a_line() {
    assert_eq!(transcript_string(&Vec::new()), "");
    assert_eq!(transcript_string(&vec![text("a")]), "a");
    assert_eq!(transcript_string(&vec![text("a"), text("b"), text("c")]), "a\nb\nc");
    assert_eq!(transcript_string(&vec![text(""), text("")]), "\n");
}

#[test]
fn peer_close_with_code_and_reason_ends_the_session() {
    let bye = CloseOutcome { code: 1000, reason: text("bye") };
    let (session, action) = reading(false).step(Event::Received(Frame::Close(Some(bye.clone()))));
    assert_eq!(action, Action::Stop);
    assert_eq!(session.state(), SessionState::Closed);
    assert_eq!(session.termination(), Some(&Termination::PeerClosed(Some(bye))));
}

#[test]
fn peer_close_without_code_ends_the_session() {
    let (session, action) = reading(false).step(Event::Received(Frame::Close(None)));
    assert_eq!(action, Action::Stop);
    assert_eq!(session.state(), SessionState::Closed);
    assert_eq!(session.termination(), Some(&Termination::PeerClosed(None)));
}

#[test]
fn receive_failure_ends_the_session() {
    let (session, action) = reading(false).step(Event::ReceiveFailed(text("protocol error")));
    assert_eq!(action, Action::Stop);
    assert_eq!(session.state(), SessionState::Closed);
    assert_eq!(session.termination(), Some(&Termination::ReceiveFailed(text("protocol error"))));
}

#[test]
fn stream_end_ends_the_session() {
    let (session, action) = reading(false).step(Event::StreamEnded);
    assert_eq!(action, Action::Stop);
    assert_eq!(session.state(), SessionState::Closed);
    assert_eq!(session.termination(), Some(&Termination::StreamEnded));
}

#[test]
fn ping_and_pong_are_ignored() {
    let (session, action) = reading(false).step(Event::Received(Frame::Pong(vec![1, 2, 3])));
    assert_eq!(action, Action::Receive);
    assert_eq!(session.state(), SessionState::Active);
    let (session, action) = session.step(Event::Received(Frame::Ping(vec![4])));
    assert_eq!(action, Action::Receive);
    assert_eq!(session.state(), SessionState::Active);
    let (_, action) = session.step(Event::Received(Frame::Text(text("still here"))));
    assert_eq!(action, Action::Send(Frame::Text(text("Echo back text: still here"))));
}

#[test]
fn failed_reply_closes_with_internal_error() {
    let (session, _) = reading(false).step(Event::Received(Frame::Text(text("hello"))));
    let (session, action) = session.step(Event::SendFailed(text("broken pipe")));
    assert_eq!(action, Action::Send(Frame::Close(Some(failure_close("broken pipe")))));
    assert_eq!(session.state(), SessionState::Closing);
    assert_eq!(session.termination(), None);
    let (session, action) = session.step(Event::Sent);
    assert_eq!(action, Action::Stop);
    assert_eq!(session.state(), SessionState::Closed);
    assert_eq!(
        session.termination(),
        Some(&Termination::SelfClosed(failure_close("broken pipe")))
    );
}

#[test]
fn failed_binary_reply_closes_with_internal_error() {
    let (session, _) = reading(false).step(Event::Received(Frame::Binary(vec![1, 2])));
    let (session, action) = session.step(Event::SendFailed(text("timed out")));
    assert_eq!(
        action,
        Action::Send(Frame::Close(Some(CloseOutcome {
            code: INTERNAL_ERROR,
            reason: text("Error occured: timed out"),
        })))
    );
    assert_eq!(session.state(), SessionState::Closing);
}

#[test]
fn failed_close_is_not_escalated() {
    let (session, _) = reading(false).step(Event::Received(Frame::Text(text("hello"))));
    let (session, _) = session.step(Event::SendFailed(text("broken pipe")));
    let (session, action) = session.step(Event::SendFailed(text("broken pipe again")));
    assert_eq!(action, Action::Stop);
    assert_eq!(session.state(), SessionState::Closed);
    assert_eq!(
        session.termination(),
        Some(&Termination::SelfClosed(failure_close("broken pipe")))
    );
    let (session, action) = session.step(Event::SendFailed(text("and again")));
    assert_eq!(action, Action::Stop);
    assert_eq!(session.state(), SessionState::Closed);
}

#[test]
fn closed_session_answers_everything_with_stop() {
    let (mut session, _) = reading(true).step(Event::StreamEnded);
    let events = vec![
        Event::Sent,
        Event::SendFailed(text("x")),
        Event::Received(Frame::Text(text("late"))),
        Event::Received(Frame::Binary(vec![1])),
        Event::Received(Frame::Close(None)),
        Event::ReceiveFailed(text("y")),
        Event::StreamEnded,
        Event::Analyzed(vec![text("z")]),
    ];
    for event in events {
        let (next, action) = session.step(event);
        assert_eq!(action, Action::Stop);
        assert_eq!(next.state(), SessionState::Closed);
        assert_eq!(next.termination(), Some(&Termination::StreamEnded));
        session = next;
    }
}

#[test]
fn event_out_of_turn_ends_the_session() {
    let (session, _) = Session::open(false);
    let (session, action) = session.step(Event::Received(Frame::Text(text("too early"))));
    assert_eq!(action, Action::Stop);
    assert_eq!(session.termination(), Some(&Termination::OutOfTurn));

    let (session, action) = reading(false).step(Event::Sent);
    assert_eq!(action, Action::Stop);
    assert_eq!(session.termination(), Some(&Termination::OutOfTurn));

    let (session, action) = reading(false).step(Event::SendFailed(text("nothing was sent")));
    assert_eq!(action, Action::Stop);
    assert_eq!(session.state(), SessionState::Closed);

    let (session, _) = reading(false).step(Event::Received(Frame::Text(text("a"))));
    let (session, action) = session.step(Event::Received(Frame::Text(text("b"))));
    assert_eq!(action, Action::Stop);
    assert_eq!(session.termination(), Some(&Termination::OutOfTurn));
}

#[test]
fn peer_close_while_a_reply_is_on_its_way_sends_nothing_more() {
    let (session, _) = reading(false).step(Event::Received(Frame::Text(text("a"))));
    let (session, action) = session.step(Event::Received(Frame::Close(None)));
    assert_eq!(action, Action::Stop);
    assert_eq!(session.state(), SessionState::Closed);
}

/// What a scripted peer does when it is asked for its next frame.
enum Inbound {
    Frame(Frame),
    Failure(String),
}

/// Runs one session against a scripted peer, as an I/O loop would: every
/// frame sent is recorded, and the send numbered `failing_send` fails, and so
/// does every send after it. Gives the frames that went out and the session
/// at its end.
fn serve(
    state: &mut AppState,
    analysis: bool,
    script: Vec<Inbound>,
    failing_send: Option<usize>,
) -> (Vec<Frame>, Session, usize) {
    assert!(state.session_opened());
    let mut inbound = script.into_iter();
    let mut sent: Vec<Frame> = Vec::new();
    let mut attempts = 0;
    let mut reads = 0;
    let (mut session, mut action) = Session::open(analysis);
    loop {
        let event = match action {
            Action::Send(frame) => {
                let number = attempts;
                attempts += 1;
                match failing_send {
                    Some(n) if number >= n => Event::SendFailed(text("transport gone")),
                    _ => {
                        sent.push(frame);
                        Event::Sent
                    }
                }
            }
            Action::Receive => {
                reads += 1;
                match inbound.next() {
                    Some(Inbound::Frame(frame)) => Event::Received(frame),
                    Some(Inbound::Failure(error)) => Event::ReceiveFailed(error),
                    None => Event::StreamEnded,
                }
            }
            Action::Submit(payload) => Event::Analyzed(vec![format!("{} samples", payload.len())]),
            Action::Stop => break,
        };
        let (next, answer) = session.step(event);
        session = next;
        action = answer;
    }
    assert_eq!(session.state(), SessionState::Closed);
    assert!(state.session_closed());
    (sent, session, reads)
}

#[test]
fn end_to_end_conversation() {
    let mut state = AppState::new();
    let script = vec![
        Inbound::Frame(Frame::Text(text("hello"))),
        Inbound::Frame(Frame::Binary(vec![0u8; 42])),
        Inbound::Frame(Frame::Close(Some(CloseOutcome { code: 1000, reason: text("bye") }))),
        Inbound::Frame(Frame::Text(text("never read"))),
    ];
    let (sent, session, reads) = serve(&mut state, false, script, None);
    assert_eq!(sent.len(), 3);
    assert_eq!(sent[0], Frame::Ping(vec![1, 2, 3]));
    match &sent[1] {
        Frame::Text(reply) => assert!(reply.contains("hello")),
        _ => panic!("the reply to a text frame is a text frame"),
    }
    match &sent[2] {
        Frame::Text(reply) => assert!(reply.contains("42")),
        _ => panic!("the reply to a binary frame is a text frame"),
    }
    assert_eq!(reads, 3);
    assert_eq!(
        session.termination(),
        Some(&Termination::PeerClosed(Some(CloseOutcome { code: 1000, reason: text("bye") })))
    );
    assert_eq!(state.value, 0);
}

#[test]
fn end_to_end_with_an_engine() {
    let mut state = AppState::new();
    let script = vec![
        Inbound::Frame(Frame::Binary(vec![0u8; 320])),
        Inbound::Frame(Frame::Text(text("hello"))),
    ];
    let (sent, session, _) = serve(&mut state, true, script, None);
    assert_eq!(
        sent,
        vec![
            Frame::Ping(vec![1, 2, 3]),
            Frame::Text(text("320 samples")),
            Frame::Text(text("Echo back text: hello")),
        ]
    );
    assert_eq!(session.termination(), Some(&Termination::StreamEnded));
}

#[test]
fn end_to_end_abrupt_disconnect() {
    let mut state = AppState::new();
    let script = vec![Inbound::Frame(Frame::Text(text("hello")))];
    let (sent, session, _) = serve(&mut state, false, script, None);
    assert_eq!(sent, vec![Frame::Ping(vec![1, 2, 3]), Frame::Text(text("Echo back text: hello"))]);
    assert_eq!(session.state(), SessionState::Closed);
    assert_eq!(session.termination(), Some(&Termination::StreamEnded));
    assert_eq!(state.value, 0);
}

#[test]
fn end_to_end_receive_failure() {
    let mut state = AppState::new();
    let script = vec![
        Inbound::Failure(text("reset by peer")),
        Inbound::Frame(Frame::Text(text("never read"))),
    ];
    let (sent, session, reads) = serve(&mut state, false, script, None);
    assert_eq!(sent, vec![Frame::Ping(vec![1, 2, 3])]);
    assert_eq!(reads, 1);
    assert_eq!(session.termination(), Some(&Termination::ReceiveFailed(text("reset by peer"))));
}

#[test]
fn end_to_end_failed_probe_reads_nothing() {
    let mut state = AppState::new();
    let script = vec![Inbound::Frame(Frame::Text(text("hello")))];
    let (sent, session, reads) = serve(&mut state, false, script, Some(0));
    assert!(sent.is_empty());
    assert_eq!(reads, 0);
    assert_eq!(session.termination(), Some(&Termination::ProbeFailed(text("transport gone"))));
    assert_eq!(state.value, 0);
}

#[test]
fn end_to_end_failed_reply_attempts_one_close() {
    let mut state = AppState::new();
    let script = vec![
        Inbound::Frame(Frame::Text(text("first"))),
        Inbound::Frame(Frame::Text(text("second"))),
        Inbound::Frame(Frame::Text(text("third"))),
    ];
    let (sent, session, reads) = serve(&mut state, false, script, Some(2));
    assert_eq!(sent, vec![Frame::Ping(vec![1, 2, 3]), Frame::Text(text("Echo back text: first"))]);
    assert_eq!(reads, 2);
    assert_eq!(
        session.termination(),
        Some(&Termination::SelfClosed(failure_close("transport gone")))
    );
}

#[test]
fn sessions_are_counted_in_and_out() {
    let mut state = AppState::new();
    assert_eq!(state.value, 0);
    assert!(state.session_opened());
    assert!(state.session_opened());
    assert_eq!(state.value, 2);
    assert!(state.session_closed());
    assert_eq!(state.value, 1);
    assert!(state.session_closed());
    assert_eq!(state.value, 0);
    assert!(!state.session_closed());
    assert_eq!(state.value, 0);
}

#[test]
fn session_count_stops_at_its_maximum() {
    let mut state = AppState { value: u32::MAX - 1 };
    assert!(state.session_opened());
    assert_eq!(state.value, u32::MAX);
    assert!(!state.session_opened());
    assert_eq!(state.value, u32::MAX);
}

#[test]
fn close_outcome_is_what_the_session_closed_with() {
    let bye = CloseOutcome { code: NORMAL_CLOSURE, reason: text("bye") };
    assert_eq!(Termination::PeerClosed(Some(bye.clone())).close_outcome(), Some(&bye));
    assert_eq!(Termination::PeerClosed(None).close_outcome(), None);
    let failed = failure_close("broken pipe");
    assert_eq!(Termination::SelfClosed(failed.clone()).close_outcome(), Some(&failed));
    assert_eq!(Termination::ProbeFailed(text("x")).close_outcome(), None);
    assert_eq!(Termination::ReceiveFailed(text("x")).close_outcome(), None);
    assert_eq!(Termination::StreamEnded.close_outcome(), None);
    assert_eq!(Termination::OutOfTurn.close_outcome(), None);
}

#[test]
fn closing_from_this_side_sends_code_and_reason_as_they_are() {
    let (session, action) = reading(false).send_close_message(1001, "going away");
    assert_eq!(
        action,
        Action::Send(Frame::Close(Some(CloseOutcome { code: 1001, reason: text("going away") })))
    );
    assert_eq!(session.state(), SessionState::Closing);
    let (session, action) = session.step(Event::Sent);
    assert_eq!(action, Action::Stop);
    assert_eq!(session.state(), SessionState::Closed);
    assert_eq!(
        session.termination(),
        Some(&Termination::SelfClosed(CloseOutcome { code: 1001, reason: text("going away") }))
    );
}

#[test]
fn closing_from_this_side_with_any_code_and_an_empty_reason() {
    for code in [0u16, 1000, 1011, 4999, u16::MAX].iter() {
        let (session, action) = reading(true).send_close_message(*code, "");
        assert_eq!(
            action,
            Action::Send(Frame::Close(Some(CloseOutcome { code: *code, reason: text("") })))
        );
        let (session, action) = session.step(Event::SendFailed(text("gone")));
        assert_eq!(action, Action::Stop);
        assert_eq!(session.state(), SessionState::Closed);
    }
}

#[test]
fn no_second_close_frame_follows() {
    let (session, _) = reading(false).send_close_message(1011, "first");
    let (session, action) = session.send_close_message(1011, "second");
    assert_eq!(action, Action::Stop);
    assert_eq!(session.state(), SessionState::Closed);
    assert_eq!(
        session.termination(),
        Some(&Termination::SelfClosed(CloseOutcome { code: 1011, reason: text("first") }))
    );
    let (session, action) = session.send_close_message(1000, "third");
    assert_eq!(action, Action::Stop);
    assert_eq!(
        session.termination(),
        Some(&Termination::SelfClosed(CloseOutcome { code: 1011, reason: text("first") }))
    );
}

#[test]
fn closed_session_sends_no_close_frame() {
    let (session, _) = reading(false).step(Event::StreamEnded);
    let (session, action) = session.send_close_message(1000, "late");
    assert_eq!(action, Action::Stop);
    assert_eq!(session.termination(), Some(&Termination::StreamEnded));
}
