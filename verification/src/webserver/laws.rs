//! What holds of every session, whatever the transport reports.

use vstd::prelude::*;
use crate::webserver::frame::{CloseOutcomeView, FrameView, INTERNAL_ERROR};
use crate::webserver::session::{
    accepted, closing, echo_text, failure_outcome, length_text, transcript, transition,
    ActionView, EventView, PhaseView, SessionState, SessionView, TerminationView,
};

verus! {

/// The session after the given events, taken in order.
pub open spec fn run(session: SessionView, events: Seq<EventView>) -> SessionView
    decreases events.len(),
{
    if events.len() == 0 {
        session
    } else {
        transition(run(session, events.drop_last()), events.last()).0
    }
}

/// The action that answers the event at `i`, the events before it taken in
/// order.
pub open spec fn answer(session: SessionView, events: Seq<EventView>, i: int) -> ActionView
    recommends
        0 <= i < events.len(),
{
    transition(run(session, events.take(i)), events[i]).1
}

/// Taking one more event is one more transition.
proof fn lemma_run_step(session: SessionView, events: Seq<EventView>, i: int)
    requires
        0 <= i < events.len(),
    ensures
        run(session, events.take(i + 1)) == transition(run(session, events.take(i)), events[i]).0,
{
    assert(events.take(i + 1).drop_last() =~= events.take(i));
}

/// A closed session stays as it is and answers every event with `Stop`.
pub proof fn law_closed_is_terminal(session: SessionView, event: EventView)
    requires
        session.state() == SessionState::Closed,
    ensures
        transition(session, event) == (session, ActionView::Stop),
{
}

/// Once a session is closed, nothing that follows changes it or is answered
/// with anything but `Stop`.
pub proof fn law_nothing_follows_the_end(
    session: SessionView,
    events: Seq<EventView>,
    i: int,
    j: int,
)
    requires
        0 <= i <= j < events.len(),
        run(session, events.take(i)).state() == SessionState::Closed,
    ensures
        answer(session, events, j) == ActionView::Stop,
        run(session, events.take(j + 1)) == run(session, events.take(i)),
    decreases j - i,
{
    if i < j {
        law_nothing_follows_the_end(session, events, i, j - 1);
    }
    lemma_run_step(session, events, j);
}

/// A closed session answers whatever follows with `Stop`.
pub proof fn law_closed_session_only_stops(closed: SessionView, later: Seq<EventView>)
    requires
        closed.state() == SessionState::Closed,
    ensures
        forall|j: int|
            0 <= j < later.len() ==> #[trigger] answer(closed, later, j) == ActionView::Stop,
{
    assert(later.take(0) =~= Seq::<EventView>::empty());
    assert forall|j: int| 0 <= j < later.len() implies #[trigger] answer(closed, later, j)
        == ActionView::Stop by {
        law_nothing_follows_the_end(closed, later, 0, j);
    }
}

/// Every frame that a session sends after its probe is a text or a close
/// frame: the liveness probe is sent once, when the session opens, and never
/// again.
pub proof fn law_only_text_and_close_are_sent(session: SessionView, event: EventView)
    ensures
        transition(session, event).1 matches ActionView::Send(frame) ==> frame is Text
            || frame is Close,
{
}

/// Nothing is dispatched before the probe is out: the first frame is asked
/// for exactly when the probe was accepted.
pub proof fn law_probe_precedes_dispatch(analysis: bool, event: EventView)
    ensures
        transition(accepted(analysis), event).1 == ActionView::Receive <==> event
            == EventView::Sent,
        !(transition(accepted(analysis), event).1 is Send),
        event != EventView::Sent ==> transition(accepted(analysis), event).0.state()
            == SessionState::Closed,
{
}

/// A probe that was not accepted ends the session at once: no frame is ever
/// asked for, and nothing is sent, not even a close frame. Where the probe
/// could not be sent, the session records the error.
pub proof fn law_failed_probe_dispatches_nothing(analysis: bool, events: Seq<EventView>)
    requires
        events.len() > 0,
        events[0] != EventView::Sent,
    ensures
        forall|i: int|
            0 <= i < events.len() ==> #[trigger] answer(accepted(analysis), events, i)
                == ActionView::Stop,
        run(accepted(analysis), events).state() == SessionState::Closed,
        events[0] matches EventView::SendFailed(error) ==> run(accepted(analysis), events)
            == accepted(analysis).closed(TerminationView::ProbeFailed(error)),
{
    let session = accepted(analysis);
    lemma_run_step(session, events, 0);
    assert(events.take(0) =~= Seq::<EventView>::empty());
    assert forall|i: int| 0 <= i < events.len() implies #[trigger] answer(session, events, i)
        == ActionView::Stop by {
        if i > 0 {
            law_nothing_follows_the_end(session, events, 1, i);
        }
    }
    if events.len() > 1 {
        law_nothing_follows_the_end(session, events, 1, events.len() - 1);
    }
    assert(events.take(events.len() as int) =~= events);
}

/// While a reply is on its way, the next frame is asked for exactly when the
/// reply was accepted, and no second reply is sent.
pub proof fn law_read_awaits_reply(session: SessionView, event: EventView)
    requires
        session.phase == PhaseView::Replying,
    ensures
        transition(session, event).1 == ActionView::Receive <==> event == EventView::Sent,
        event == EventView::Sent ==> transition(session, event).0 == session.at(
            PhaseView::Reading,
        ),
        !(transition(session, event).1 matches ActionView::Send(frame) && frame is Text),
{
}

/// Replies do not pile up: in the life of any session, the event after a
/// text frame was handed out is never answered with another text frame, and
/// it is answered by asking for the next frame exactly when it says that the
/// text frame was accepted.
pub proof fn law_replies_do_not_pile_up(session: SessionView, events: Seq<EventView>, i: int)
    requires
        0 <= i,
        i + 1 < events.len(),
        answer(session, events, i) matches ActionView::Send(frame) && frame is Text,
    ensures
        !(answer(session, events, i + 1) matches ActionView::Send(frame) && frame is Text),
        answer(session, events, i + 1) == ActionView::Receive <==> events[i + 1]
            == EventView::Sent,
{
    lemma_run_step(session, events, i);
    law_read_awaits_reply(run(session, events.take(i + 1)), events[i + 1]);
}

/// A text frame received by an active session is answered with one text
/// frame, its echo, and the next frame is asked for only once that reply was
/// accepted.
pub proof fn law_text_is_answered_once(session: SessionView, text: Seq<char>, event: EventView)
    requires
        session.phase == PhaseView::Reading,
    ensures
        ({
            let (replying, reply) = transition(
                session,
                EventView::Received(FrameView::Text(text)),
            );
            let (after, next) = transition(replying, event);
            &&& reply == ActionView::Send(FrameView::Text(echo_text(text)))
            &&& replying.state() == SessionState::Active
            &&& next == ActionView::Receive <==> event == EventView::Sent
            &&& event == EventView::Sent ==> after == session
            &&& !(next matches ActionView::Send(frame) && frame is Text)
        }),
{
}

/// Without an analysis engine, a binary frame received by an active session
/// is answered with one text frame that gives its length in bytes, and the
/// next frame is asked for only once that reply was accepted.
pub proof fn law_binary_is_acknowledged_once(
    session: SessionView,
    payload: Seq<u8>,
    event: EventView,
)
    requires
        session.phase == PhaseView::Reading,
        !session.analysis,
    ensures
        ({
            let (replying, reply) = transition(
                session,
                EventView::Received(FrameView::Binary(payload)),
            );
            let (after, next) = transition(replying, event);
            &&& reply == ActionView::Send(FrameView::Text(length_text(payload.len())))
            &&& replying.state() == SessionState::Active
            &&& next == ActionView::Receive <==> event == EventView::Sent
            &&& event == EventView::Sent ==> after == session
            &&& !(next matches ActionView::Send(frame) && frame is Text)
        }),
{
}

/// With an analysis engine, a binary frame received by an active session is
/// submitted whole, the engine's results are sent as one text frame, and the
/// next frame is asked for only once that reply was accepted: not while the
/// analysis is outstanding.
pub proof fn law_binary_is_analyzed_once(
    session: SessionView,
    payload: Seq<u8>,
    texts: Seq<Seq<char>>,
    meanwhile: EventView,
    event: EventView,
)
    requires
        session.phase == PhaseView::Reading,
        session.analysis,
    ensures
        ({
            let (analyzing, submit) = transition(
                session,
                EventView::Received(FrameView::Binary(payload)),
            );
            let (replying, reply) = transition(analyzing, EventView::Analyzed(texts));
            let (after, next) = transition(replying, event);
            &&& submit == ActionView::Submit(payload)
            &&& analyzing.state() == SessionState::Active
            &&& transition(analyzing, meanwhile).1 != ActionView::Receive
            &&& reply == ActionView::Send(FrameView::Text(transcript(texts)))
            &&& replying.state() == SessionState::Active
            &&& next == ActionView::Receive <==> event == EventView::Sent
            &&& event == EventView::Sent ==> after == session
            &&& !(next matches ActionView::Send(frame) && frame is Text)
        }),
{
}

/// A frame that is neither text, binary nor close leaves an active session
/// as it was: the next frame is asked for.
pub proof fn law_other_frames_are_ignored(session: SessionView, payload: Seq<u8>)
    requires
        session.phase == PhaseView::Reading,
    ensures
        transition(session, EventView::Received(FrameView::Ping(payload))) == (
            session,
            ActionView::Receive,
        ),
        transition(session, EventView::Received(FrameView::Pong(payload))) == (
            session,
            ActionView::Receive,
        ),
{
}

/// A close frame from the peer closes the session, whatever it was doing,
/// and nothing is sent from then on. An active session that was reading
/// records the code and reason that the frame carried.
pub proof fn law_peer_close_ends_session(
    session: SessionView,
    payload: Option<CloseOutcomeView>,
    later: Seq<EventView>,
)
    ensures
        ({
            let (closed, last) = transition(
                session,
                EventView::Received(FrameView::Close(payload)),
            );
            &&& closed.state() == SessionState::Closed
            &&& last == ActionView::Stop
            &&& session.phase == PhaseView::Reading ==> closed == session.closed(
                TerminationView::PeerClosed(payload),
            )
            &&& forall|j: int|
                0 <= j < later.len() ==> #[trigger] answer(closed, later, j) == ActionView::Stop
        }),
{
    law_closed_session_only_stops(
        transition(session, EventView::Received(FrameView::Close(payload))).0,
        later,
    );
}

/// The end of the inbound stream, and a failure to receive, close the
/// session at once, and nothing is sent.
pub proof fn law_transport_end_is_terminal(session: SessionView, error: Seq<char>)
    ensures
        transition(session, EventView::StreamEnded).0.state() == SessionState::Closed,
        transition(session, EventView::StreamEnded).1 == ActionView::Stop,
        transition(session, EventView::ReceiveFailed(error)).0.state() == SessionState::Closed,
        transition(session, EventView::ReceiveFailed(error)).1 == ActionView::Stop,
        session.phase == PhaseView::Reading ==> transition(session, EventView::StreamEnded).0
            == session.closed(TerminationView::StreamEnded),
        session.phase == PhaseView::Reading ==> transition(
            session,
            EventView::ReceiveFailed(error),
        ).0 == session.closed(TerminationView::ReceiveFailed(error)),
{
}

/// Closing from this side sends one close frame and no second: an active
/// session hands out the close frame with the code and reason given, as
/// they are; whatever comes of that attempt, failure included, the session
/// is closed and nothing more is sent. A session that is closing or closed
/// already hands out no frame at all.
pub proof fn law_close_message_is_sent_once(
    session: SessionView,
    outcome: CloseOutcomeView,
    event: EventView,
    later: Seq<EventView>,
)
    ensures
        ({
            let (left, attempt) = closing(session, outcome);
            let (closed, last) = transition(left, event);
            &&& session.state() == SessionState::Active ==> {
                &&& attempt == ActionView::Send(FrameView::Close(Some(outcome)))
                &&& left.state() == SessionState::Closing
                &&& closed == session.closed(TerminationView::SelfClosed(outcome))
            }
            &&& session.state() != SessionState::Active ==> attempt == ActionView::Stop
            &&& closed.state() == SessionState::Closed
            &&& last == ActionView::Stop
            &&& forall|j: int|
                0 <= j < later.len() ==> #[trigger] answer(closed, later, j) == ActionView::Stop
        }),
{
    law_closed_session_only_stops(transition(closing(session, outcome).0, event).0, later);
}

/// A reply that could not be sent closes the session: one close frame with
/// the internal-error code and the error's text is attempted, and whatever
/// comes of that attempt, failure included, the session is closed and
/// nothing more is sent.
pub proof fn law_send_failure_closes_once(
    session: SessionView,
    error: Seq<char>,
    outcome: EventView,
    later: Seq<EventView>,
)
    requires
        session.phase == PhaseView::Replying,
    ensures
        ({
            let (closing, attempt) = transition(session, EventView::SendFailed(error));
            let (closed, last) = transition(closing, outcome);
            &&& closing.state() == SessionState::Closing
            &&& attempt == ActionView::Send(FrameView::Close(Some(failure_outcome(error))))
            &&& failure_outcome(error).code == INTERNAL_ERROR
            &&& closed == session.closed(TerminationView::SelfClosed(failure_outcome(error)))
            &&& last == ActionView::Stop
            &&& forall|j: int|
                0 <= j < later.len() ==> #[trigger] answer(closed, later, j) == ActionView::Stop
        }),
{
    law_close_message_is_sent_once(session, failure_outcome(error), outcome, later);
}

/// After a send failed, at whatever point, the session is active no longer:
/// at most the one close frame is sent, and the event after that finds the
/// session closed.
pub proof fn law_send_failure_ends_activity(
    session: SessionView,
    error: Seq<char>,
    outcome: EventView,
)
    ensures
        ({
            let (failed, attempt) = transition(session, EventView::SendFailed(error));
            let (closed, last) = transition(failed, outcome);
            &&& failed.state() != SessionState::Active
            &&& attempt == ActionView::Stop || attempt == ActionView::Send(
                FrameView::Close(Some(failure_outcome(error))),
            )
            &&& closed.state() == SessionState::Closed
            &&& last == ActionView::Stop
        }),
{
}

/// A session sends at most one close frame, and nothing after it: once a
/// close frame was sent, every later event is answered with `Stop`.
pub proof fn law_close_is_sent_last(session: SessionView, events: Seq<EventView>, i: int)
    requires
        0 <= i < events.len(),
        answer(session, events, i) matches ActionView::Send(frame) && frame is Close,
    ensures
        forall|j: int|
            i < j < events.len() ==> #[trigger] answer(session, events, j) == ActionView::Stop,
{
    lemma_run_step(session, events, i);
    assert forall|j: int| i < j < events.len() implies #[trigger] answer(session, events, j)
        == ActionView::Stop by {
        lemma_run_step(session, events, i + 1);
        if i + 1 < j {
            law_nothing_follows_the_end(session, events, i + 2, j);
        }
    }
}

/// Whether an event answers what a session in the given phase waits for.
pub open spec fn in_turn(phase: PhaseView, event: EventView) -> bool {
    match phase {
        PhaseView::Probing => event is Sent || event is SendFailed,
        PhaseView::Reading => event is Received || event is ReceiveFailed || event
            is StreamEnded,
        PhaseView::Analyzing => event is Analyzed,
        PhaseView::Replying => event is Sent || event is SendFailed,
        PhaseView::Closing(_) => event is Sent || event is SendFailed,
        PhaseView::Closed(_) => false,
    }
}

/// Whether each of the events answers the action that was handed out before
/// it: what a transport reports that carries out one action at a time.
pub open spec fn orderly(session: SessionView, events: Seq<EventView>) -> bool {
    forall|i: int|
        0 <= i < events.len() ==> in_turn(
            (#[trigger] run(session, events.take(i))).phase,
            events[i],
        )
}

/// The frames that a session hands out in answer to the given events, in
/// the order in which it hands them out.
pub open spec fn outbox(session: SessionView, events: Seq<EventView>) -> Seq<FrameView>
    decreases events.len(),
{
    if events.len() == 0 {
        Seq::empty()
    } else {
        let before = outbox(session, events.drop_last());
        match transition(run(session, events.drop_last()), events.last()).1 {
            ActionView::Send(frame) => before.push(frame),
            _ => before,
        }
    }
}

/// The replies that the given events call for, in the order of arrival: the
/// echo of each text frame, the acknowledgement of each binary frame where
/// no engine is wired in, and the transcript of each analysis.
pub open spec fn replies(analysis: bool, events: Seq<EventView>) -> Seq<FrameView>
    decreases events.len(),
{
    if events.len() == 0 {
        Seq::empty()
    } else {
        let before = replies(analysis, events.drop_last());
        match events.last() {
            EventView::Received(FrameView::Text(text)) => before.push(
                FrameView::Text(echo_text(text)),
            ),
            EventView::Received(FrameView::Binary(payload)) => if analysis {
                before
            } else {
                before.push(FrameView::Text(length_text(payload.len())))
            },
            EventView::Analyzed(texts) => before.push(FrameView::Text(transcript(texts))),
            _ => before,
        }
    }
}

/// The close frame that a session has handed out, if it has: none, or one.
pub open spec fn farewell(session: SessionView) -> Seq<FrameView> {
    match session.phase {
        PhaseView::Closing(outcome) => seq![FrameView::Close(Some(outcome))],
        PhaseView::Closed(TerminationView::SelfClosed(outcome)) => seq![
            FrameView::Close(Some(outcome)),
        ],
        _ => Seq::empty(),
    }
}

/// A prefix of an orderly run is orderly.
proof fn lemma_orderly_prefix(session: SessionView, events: Seq<EventView>)
    requires
        events.len() > 0,
        orderly(session, events),
    ensures
        orderly(session, events.drop_last()),
        in_turn(run(session, events.drop_last()).phase, events.last()),
{
    let prefix = events.drop_last();
    assert forall|i: int| 0 <= i < prefix.len() implies in_turn(
        (#[trigger] run(session, prefix.take(i))).phase,
        prefix[i],
    ) by {
        assert(prefix.take(i) =~= events.take(i));
        assert(in_turn(run(session, events.take(i)).phase, events[i]));
    }
    assert(events.take(events.len() - 1) =~= prefix);
    assert(in_turn(run(session, events.take(events.len() - 1)).phase, events[events.len() - 1]));
}

/// The frames go out in the order of arrival. After its probe, what a
/// session hands out over its whole life is the reply to each frame that
/// came in, one after the other in the order in which the frames came, and
/// after them the one close frame if this side closed; nothing else, and
/// nothing twice. This holds of every run in which each event answers the
/// action handed out before it.
pub proof fn law_replies_go_out_in_arrival_order(analysis: bool, events: Seq<EventView>)
    requires
        orderly(accepted(analysis), events),
    ensures
        outbox(accepted(analysis), events) == replies(analysis, events) + farewell(
            run(accepted(analysis), events),
        ),
        run(accepted(analysis), events).analysis == analysis,
    decreases events.len(),
{
    let session = accepted(analysis);
    if events.len() == 0 {
        assert(outbox(session, events) =~= replies(analysis, events) + farewell(session));
    } else {
        let prefix = events.drop_last();
        lemma_orderly_prefix(session, events);
        law_replies_go_out_in_arrival_order(analysis, prefix);
        assert(outbox(session, events) =~= replies(analysis, events) + farewell(
            run(session, events),
        ));
    }
}

/// A session never leaves the closed state, and never returns from closing
/// to active: the lifecycle runs one way.
pub proof fn law_lifecycle_runs_one_way(session: SessionView, event: EventView)
    ensures
        session.state() == SessionState::Closed ==> transition(session, event).0.state()
            == SessionState::Closed,
        session.state() == SessionState::Closing ==> transition(session, event).0.state()
            == SessionState::Closed,
        transition(session, event).0.state() == SessionState::Closing ==> session.state()
            == SessionState::Active,
        transition(session, event).0.analysis == session.analysis,
{
}

} // verus!
