//! The message units exchanged over one connection.

use vstd::prelude::*;

verus! {

/// The close code of a normal closure, as a peer sends it when it is done.
pub const NORMAL_CLOSURE: u16 = 1000;

/// The close code of an internal error: the one this side closes with when
/// it cannot send.
pub const INTERNAL_ERROR: u16 = 1011;

/// The code and reason that a close frame carries.
#[derive(Clone, Debug, PartialEq, Eq)]
pub struct CloseOutcome {
    pub code: u16,
    pub reason: String,
}

/// A `CloseOutcome` as a mathematical value.
pub struct CloseOutcomeView {
    pub code: u16,
    pub reason: Seq<char>,
}

impl View for CloseOutcome {
    type V = CloseOutcomeView;

    open spec fn view(&self) -> CloseOutcomeView {
        CloseOutcomeView { code: self.code, reason: self.reason@ }
    }
}

/// One message unit, inbound or outbound.
#[derive(Clone, Debug, PartialEq, Eq)]
pub enum Frame {
    Text(String),
    Binary(Vec<u8>),
    Ping(Vec<u8>),
    Pong(Vec<u8>),
    Close(Option<CloseOutcome>),
}

/// A `Frame` as a mathematical value.
pub enum FrameView {
    Text(Seq<char>),
    Binary(Seq<u8>),
    Ping(Seq<u8>),
    Pong(Seq<u8>),
    Close(Option<CloseOutcomeView>),
}

/// The view of a close frame's optional payload.
pub open spec fn close_payload_view(payload: Option<CloseOutcome>) -> Option<CloseOutcomeView> {
    match payload {
        Some(outcome) => Some(outcome@),
        None => None,
    }
}

impl View for Frame {
    type V = FrameView;

    open spec fn view(&self) -> FrameView {
        match *self {
            Frame::Text(text) => FrameView::Text(text@),
            Frame::Binary(bytes) => FrameView::Binary(bytes@),
            Frame::Ping(bytes) => FrameView::Ping(bytes@),
            Frame::Pong(bytes) => FrameView::Pong(bytes@),
            Frame::Close(payload) => FrameView::Close(close_payload_view(payload)),
        }
    }
}

} // verus!
