//! One session: the lifecycle of an accepted connection, as a state machine.
//!
//! The session itself performs no I/O. It hands out one `Action` at a time,
//! and whoever owns the transport carries it out and reports what came of it
//! as an `Event`. The session answers each event with its next action, so a
//! frame's reply is always on its way before the next frame is asked for.
//!
//! Analysis is synchronous: a binary payload is submitted to the engine and
//! the session asks for no further frame until the reply that carries the
//! engine's results has been accepted by the transport.

use vstd::prelude::*;
use vstd::string::*;
use crate::decimal::{decimal, decimal_string};
use crate::webserver::frame::{
    close_payload_view, CloseOutcome, CloseOutcomeView, Frame, FrameView, INTERNAL_ERROR,
};

verus! {

/// What the transport, or the analysis engine, reports back.
#[derive(Clone, Debug, PartialEq, Eq)]
pub enum Event {
    /// The frame handed out was accepted by the transport.
    Sent,
    /// The frame handed out could not be sent; the error's text.
    SendFailed(String),
    /// The next inbound frame.
    Received(Frame),
    /// The transport failed while receiving; the error's text.
    ReceiveFailed(String),
    /// The inbound stream ended: there are no more frames.
    StreamEnded,
    /// The analysis engine's results for the payload submitted: zero or more
    /// texts.
    Analyzed(Vec<String>),
}

/// An `Event` as a mathematical value.
pub enum EventView {
    Sent,
    SendFailed(Seq<char>),
    Received(FrameView),
    ReceiveFailed(Seq<char>),
    StreamEnded,
    Analyzed(Seq<Seq<char>>),
}

impl View for Event {
    type V = EventView;

    open spec fn view(&self) -> EventView {
        match *self {
            Event::Sent => EventView::Sent,
            Event::SendFailed(error) => EventView::SendFailed(error@),
            Event::Received(frame) => EventView::Received(frame@),
            Event::ReceiveFailed(error) => EventView::ReceiveFailed(error@),
            Event::StreamEnded => EventView::StreamEnded,
            Event::Analyzed(texts) => EventView::Analyzed(texts.deep_view()),
        }
    }
}

/// What the session asks its owner to do next.
#[derive(Clone, Debug, PartialEq, Eq)]
pub enum Action {
    /// Send this frame, and report `Sent` or `SendFailed`.
    Send(Frame),
    /// Await the next inbound frame, and report `Received`, `ReceiveFailed`
    /// or `StreamEnded`.
    Receive,
    /// Submit this payload to the analysis engine, and report `Analyzed`.
    Submit(Vec<u8>),
    /// The session is over: nothing more is to be sent or read.
    Stop,
}

/// An `Action` as a mathematical value.
pub enum ActionView {
    Send(FrameView),
    Receive,
    Submit(Seq<u8>),
    Stop,
}

impl View for Action {
    type V = ActionView;

    open spec fn view(&self) -> ActionView {
        match *self {
            Action::Send(frame) => ActionView::Send(frame@),
            Action::Receive => ActionView::Receive,
            Action::Submit(payload) => ActionView::Submit(payload@),
            Action::Stop => ActionView::Stop,
        }
    }
}

/// The lifecycle state of a session.
#[derive(Clone, Copy, Debug, PartialEq, Eq, Structural)]
pub enum SessionState {
    /// Frames are exchanged.
    Active,
    /// A send failed and the closing frame is on its way.
    Closing,
    /// The session is over.
    Closed,
}

/// Why a session is over.
#[derive(Clone, Debug, PartialEq, Eq)]
pub enum Termination {
    /// The liveness probe could not be sent; the error's text.
    ProbeFailed(String),
    /// The peer sent a close frame, with this code and reason if it carried
    /// them.
    PeerClosed(Option<CloseOutcome>),
    /// The transport failed while receiving; the error's text.
    ReceiveFailed(String),
    /// This side closed with this outcome, as it does when a reply could not
    /// be sent.
    SelfClosed(CloseOutcome),
    /// The inbound stream ended without a close frame.
    StreamEnded,
    /// An event came that did not answer the pending action.
    OutOfTurn,
}

/// A `Termination` as a mathematical value.
pub enum TerminationView {
    ProbeFailed(Seq<char>),
    PeerClosed(Option<CloseOutcomeView>),
    ReceiveFailed(Seq<char>),
    SelfClosed(CloseOutcomeView),
    StreamEnded,
    OutOfTurn,
}

impl View for Termination {
    type V = TerminationView;

    open spec fn view(&self) -> TerminationView {
        match *self {
            Termination::ProbeFailed(error) => TerminationView::ProbeFailed(error@),
            Termination::PeerClosed(payload) => TerminationView::PeerClosed(
                close_payload_view(payload),
            ),
            Termination::ReceiveFailed(error) => TerminationView::ReceiveFailed(error@),
            Termination::SelfClosed(outcome) => TerminationView::SelfClosed(outcome@),
            Termination::StreamEnded => TerminationView::StreamEnded,
            Termination::OutOfTurn => TerminationView::OutOfTurn,
        }
    }
}

impl TerminationView {
    /// The code and reason that the session closed with, where it closed
    /// with them: those of the peer's close frame, or those of the close
    /// frame that this side sent.
    pub open spec fn close_outcome(self) -> Option<CloseOutcomeView> {
        match self {
            TerminationView::PeerClosed(payload) => payload,
            TerminationView::SelfClosed(outcome) => Some(outcome),
            _ => None,
        }
    }
}

impl Termination {
    /// The code and reason that the session closed with, where it closed
    /// with them.
    pub fn close_outcome(&self) -> (outcome: Option<&CloseOutcome>)
        ensures
            match outcome {
                Some(closed_with) => self@.close_outcome() == Some(closed_with@),
                None => self@.close_outcome() is None,
            },
    {
        match self {
            Termination::PeerClosed(payload) => match payload {
                Some(closed_with) => Some(closed_with),
                None => None,
            },
            Termination::SelfClosed(closed_with) => Some(closed_with),
            _ => None,
        }
    }
}

/// Where a session stands: what it is waiting for, or how it ended.
enum Phase {
    /// The liveness probe was handed out; its result is awaited.
    Probing,
    /// The next inbound frame is awaited.
    Reading,
    /// A payload was submitted; the engine's results are awaited.
    Analyzing,
    /// A reply was handed out; its result is awaited.
    Replying,
    /// The closing frame with this outcome was handed out.
    Closing(CloseOutcome),
    /// Over, for this reason.
    Closed(Termination),
}

/// Where a session stands, as a mathematical value.
pub enum PhaseView {
    Probing,
    Reading,
    Analyzing,
    Replying,
    Closing(CloseOutcomeView),
    Closed(TerminationView),
}

impl View for Phase {
    type V = PhaseView;

    closed spec fn view(&self) -> PhaseView {
        match *self {
            Phase::Probing => PhaseView::Probing,
            Phase::Reading => PhaseView::Reading,
            Phase::Analyzing => PhaseView::Analyzing,
            Phase::Replying => PhaseView::Replying,
            Phase::Closing(outcome) => PhaseView::Closing(outcome@),
            Phase::Closed(termination) => PhaseView::Closed(termination@),
        }
    }
}

/// The lifecycle of one accepted connection.
pub struct Session {
    phase: Phase,
    analysis: bool,
}

/// A `Session` as a mathematical value.
pub struct SessionView {
    /// Where the session stands.
    pub phase: PhaseView,
    /// Whether an analysis engine is wired in.
    pub analysis: bool,
}

impl SessionView {
    /// The lifecycle state: active until a send fails or the session ends.
    pub open spec fn state(self) -> SessionState {
        match self.phase {
            PhaseView::Closing(_) => SessionState::Closing,
            PhaseView::Closed(_) => SessionState::Closed,
            _ => SessionState::Active,
        }
    }

    /// This session in another phase.
    pub open spec fn at(self, phase: PhaseView) -> SessionView {
        SessionView { phase, analysis: self.analysis }
    }

    /// This session, over for the given reason.
    pub open spec fn closed(self, termination: TerminationView) -> SessionView {
        self.at(PhaseView::Closed(termination))
    }
}

impl View for Session {
    type V = SessionView;

    closed spec fn view(&self) -> SessionView {
        SessionView { phase: self.phase@, analysis: self.analysis }
    }
}

/// The payload of the liveness probe.
pub open spec fn probe_payload() -> Seq<u8> {
    seq![1u8, 2u8, 3u8]
}

/// A session that was just accepted: its liveness probe is on its way.
pub open spec fn accepted(analysis: bool) -> SessionView {
    SessionView { phase: PhaseView::Probing, analysis }
}

/// The acknowledgement of a text frame.
pub open spec fn echo_text(text: Seq<char>) -> Seq<char> {
    "Echo back text: "@ + text
}

/// The acknowledgement of a binary frame of `len` bytes where no analysis
/// engine is wired in.
pub open spec fn length_text(len: nat) -> Seq<char> {
    "Received bytes of length: "@ + decimal(len)
}

/// The text that the results of an analysis are sent as: the results in
/// order, one to a line. No result gives the empty text.
pub open spec fn transcript(texts: Seq<Seq<char>>) -> Seq<char>
    decreases texts.len(),
{
    if texts.len() == 0 {
        Seq::empty()
    } else if texts.len() == 1 {
        texts[0]
    } else {
        transcript(texts.drop_last()) + "\n"@ + texts.last()
    }
}

/// The outcome that this side closes with after a send failed with `error`.
pub open spec fn failure_outcome(error: Seq<char>) -> CloseOutcomeView {
    CloseOutcomeView { code: INTERNAL_ERROR, reason: "Error occured: "@ + error }
}

/// What closing from this side with `outcome` leads to. A session that is
/// active hands out the one close frame, which carries the outcome as it
/// is, and is closing. A session that has handed out its close frame, or is
/// over, hands out no other.
pub open spec fn closing(session: SessionView, outcome: CloseOutcomeView) -> (
    SessionView,
    ActionView,
) {
    match session.phase {
        PhaseView::Closing(sent) => (
            session.closed(TerminationView::SelfClosed(sent)),
            ActionView::Stop,
        ),
        PhaseView::Closed(_) => (session, ActionView::Stop),
        _ => (
            session.at(PhaseView::Closing(outcome)),
            ActionView::Send(FrameView::Close(Some(outcome))),
        ),
    }
}

/// What a frame received while reading leads to.
pub open spec fn dispatch(session: SessionView, frame: FrameView) -> (SessionView, ActionView) {
    match frame {
        FrameView::Text(text) => (
            session.at(PhaseView::Replying),
            ActionView::Send(FrameView::Text(echo_text(text))),
        ),
        FrameView::Binary(payload) => if session.analysis {
            (session.at(PhaseView::Analyzing), ActionView::Submit(payload))
        } else {
            (
                session.at(PhaseView::Replying),
                ActionView::Send(FrameView::Text(length_text(payload.len()))),
            )
        },
        FrameView::Close(payload) => (
            session.closed(TerminationView::PeerClosed(payload)),
            ActionView::Stop,
        ),
        FrameView::Ping(_) => (session, ActionView::Receive),
        FrameView::Pong(_) => (session, ActionView::Receive),
    }
}

/// The session after an event, and the action it answers the event with.
///
/// An event that does not answer the pending action is taken as a fault of
/// the transport: the session is over, and nothing more is sent.
pub open spec fn transition(session: SessionView, event: EventView) -> (SessionView, ActionView) {
    let out_of_turn = (session.closed(TerminationView::OutOfTurn), ActionView::Stop);
    match session.phase {
        PhaseView::Probing => match event {
            EventView::Sent => (session.at(PhaseView::Reading), ActionView::Receive),
            EventView::SendFailed(error) => (
                session.closed(TerminationView::ProbeFailed(error)),
                ActionView::Stop,
            ),
            _ => out_of_turn,
        },
        PhaseView::Reading => match event {
            EventView::Received(frame) => dispatch(session, frame),
            EventView::ReceiveFailed(error) => (
                session.closed(TerminationView::ReceiveFailed(error)),
                ActionView::Stop,
            ),
            EventView::StreamEnded => (
                session.closed(TerminationView::StreamEnded),
                ActionView::Stop,
            ),
            _ => out_of_turn,
        },
        PhaseView::Analyzing => match event {
            EventView::Analyzed(texts) => (
                session.at(PhaseView::Replying),
                ActionView::Send(FrameView::Text(transcript(texts))),
            ),
            _ => out_of_turn,
        },
        PhaseView::Replying => match event {
            EventView::Sent => (session.at(PhaseView::Reading), ActionView::Receive),
            EventView::SendFailed(error) => closing(session, failure_outcome(error)),
            _ => out_of_turn,
        },
        PhaseView::Closing(outcome) => (
            session.closed(TerminationView::SelfClosed(outcome)),
            ActionView::Stop,
        ),
        PhaseView::Closed(_) => (session, ActionView::Stop),
    }
}

/// Joins the results of an analysis, one to a line.
pub fn transcript_string(texts: &Vec<String>) -> (joined: String)
    ensures
        joined@ == transcript(texts.deep_view()),
{
    let mut joined = String::new();
    let mut i: usize = 0;
    while i < texts.len()
        invariant
            i <= texts.len(),
            joined@ == transcript(texts.deep_view().take(i as int)),
        decreases texts.len() - i,
    {
        let ghost before = texts.deep_view().take(i as int);
        let ghost after = texts.deep_view().take(i + 1);
        assert(after.drop_last() =~= before);
        assert(after.last() == texts[i as int]@);
        if i > 0 {
            joined.append("\n");
        }
        joined.append(texts[i].as_str());
        assert(joined@ =~= transcript(after));
        i = i + 1;
    }
    assert(texts.deep_view().take(i as int) =~= texts.deep_view());
    joined
}

impl Session {
    /// Accepts a connection: the session, and the liveness probe to send
    /// before anything else. `analysis` says whether an analysis engine is
    /// wired in.
    pub fn open(analysis: bool) -> (opened: (Session, Action))
        ensures
            opened.0@ == accepted(analysis),
            opened.1@ == ActionView::Send(FrameView::Ping(probe_payload())),
    {
        let payload: Vec<u8> = vec![1u8, 2u8, 3u8];
        assert(payload@ =~= probe_payload());
        (Session { phase: Phase::Probing, analysis }, Action::Send(Frame::Ping(payload)))
    }

    /// The lifecycle state.
    pub fn state(&self) -> (state: SessionState)
        ensures
            state == self@.state(),
    {
        match &self.phase {
            Phase::Closing(_) => SessionState::Closing,
            Phase::Closed(_) => SessionState::Closed,
            _ => SessionState::Active,
        }
    }

    /// Why the session is over, once it is.
    pub fn termination(&self) -> (termination: Option<&Termination>)
        ensures
            match termination {
                Some(reason) => self@.phase == PhaseView::Closed(reason@),
                None => !(self@.phase is Closed),
            },
    {
        match &self.phase {
            Phase::Closed(reason) => Some(reason),
            _ => None,
        }
    }

    /// A session that is over for the given reason, and the action that ends
    /// it.
    fn over(analysis: bool, termination: Termination) -> (next: (Session, Action))
        ensures
            next.0@ == (SessionView { phase: PhaseView::Closed(termination@), analysis }),
            next.1@ == ActionView::Stop,
    {
        (Session { phase: Phase::Closed(termination), analysis }, Action::Stop)
    }

    /// A session in the given phase, and the action that goes with it.
    fn onward(analysis: bool, phase: Phase, action: Action) -> (next: (Session, Action))
        ensures
            next.0@ == (SessionView { phase: phase@, analysis }),
            next.1 == action,
    {
        (Session { phase, analysis }, action)
    }

    /// Routes a frame received while reading.
    fn dispatch(analysis: bool, frame: Frame) -> (next: (Session, Action))
        ensures
            (next.0@, next.1@) == dispatch(
                SessionView { phase: PhaseView::Reading, analysis },
                frame@,
            ),
    {
        match frame {
            Frame::Text(text) => {
                let mut reply = String::from_str("Echo back text: ");
                reply.append(text.as_str());
                Session::onward(analysis, Phase::Replying, Action::Send(Frame::Text(reply)))
            },
            Frame::Binary(payload) => {
                if analysis {
                    Session::onward(analysis, Phase::Analyzing, Action::Submit(payload))
                } else {
                    let mut reply = String::from_str("Received bytes of length: ");
                    reply.append(decimal_string(payload.len() as u64).as_str());
                    Session::onward(analysis, Phase::Replying, Action::Send(Frame::Text(reply)))
                }
            },
            Frame::Close(payload) => Session::over(analysis, Termination::PeerClosed(payload)),
            Frame::Ping(_) => Session::onward(analysis, Phase::Reading, Action::Receive),
            Frame::Pong(_) => Session::onward(analysis, Phase::Reading, Action::Receive),
        }
    }

    /// Closes from this side with the given code and reason: hands out the
    /// one close frame, which carries both as they are. A session that has
    /// handed out its close frame, or is over, hands out no other.
    pub fn send_close_message(self, code: u16, reason: &str) -> (next: (Session, Action))
        ensures
            (next.0@, next.1@) == closing(self@, CloseOutcomeView { code, reason: reason@ }),
    {
        let analysis = self.analysis;
        match self.phase {
            Phase::Closing(sent) => Session::over(analysis, Termination::SelfClosed(sent)),
            Phase::Closed(termination) => Session::over(analysis, termination),
            _ => {
                let outcome = CloseOutcome { code, reason: String::from_str(reason) };
                let sent = CloseOutcome { code, reason: String::from_str(reason) };
                Session::onward(
                    analysis,
                    Phase::Closing(outcome),
                    Action::Send(Frame::Close(Some(sent))),
                )
            },
        }
    }

    /// Takes an event, and answers it with the next action.
    pub fn step(self, event: Event) -> (next: (Session, Action))
        ensures
            (next.0@, next.1@) == transition(self@, event@),
    {
        let analysis = self.analysis;
        match self.phase {
            Phase::Probing => match event {
                Event::Sent => Session::onward(analysis, Phase::Reading, Action::Receive),
                Event::SendFailed(error) => Session::over(
                    analysis,
                    Termination::ProbeFailed(error),
                ),
                _ => Session::over(analysis, Termination::OutOfTurn),
            },
            Phase::Reading => match event {
                Event::Received(frame) => Session::dispatch(analysis, frame),
                Event::ReceiveFailed(error) => Session::over(
                    analysis,
                    Termination::ReceiveFailed(error),
                ),
                Event::StreamEnded => Session::over(analysis, Termination::StreamEnded),
                _ => Session::over(analysis, Termination::OutOfTurn),
            },
            Phase::Analyzing => match event {
                Event::Analyzed(texts) => Session::onward(
                    analysis,
                    Phase::Replying,
                    Action::Send(Frame::Text(transcript_string(&texts))),
                ),
                _ => Session::over(analysis, Termination::OutOfTurn),
            },
            Phase::Replying => match event {
                Event::Sent => Session::onward(analysis, Phase::Reading, Action::Receive),
                Event::SendFailed(error) => {
                    let mut reason = String::from_str("Error occured: ");
                    reason.append(error.as_str());
                    Session { phase: Phase::Replying, analysis }.send_close_message(
                        INTERNAL_ERROR,
                        reason.as_str(),
                    )
                },
                _ => Session::over(analysis, Termination::OutOfTurn),
            },
            Phase::Closing(outcome) => Session::over(analysis, Termination::SelfClosed(outcome)),
            Phase::Closed(termination) => Session::over(analysis, termination),
        }
    }
}

} // verus!
