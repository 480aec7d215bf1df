//! Frames exchanged with the peer, as plain values.

use vstd::prelude::*;

verus! {

/// Close code sent when none was asked for.
pub const NORMAL_CLOSURE: u16 = 1000;

/// Close code for a violation of the protocol.
pub const PROTOCOL_VIOLATION: u16 = 1002;

/// Close code sent to every live connection when the gateway stops.
pub const GOING_AWAY: u16 = 1001;

/// Payload of a close frame: a status code and a human-readable reason.
#[derive(Debug, Clone, PartialEq, Eq)]
pub struct CloseFrame {
    pub code: u16,
    pub reason: String,
}

/// Mathematical value of a [`CloseFrame`].
pub struct CloseFrameView {
    pub code: u16,
    pub reason: Seq<char>,
}

impl DeepView for CloseFrame {
    type V = CloseFrameView;

    open spec fn deep_view(&self) -> CloseFrameView {
        CloseFrameView { code: self.code, reason: self.reason@ }
    }
}

impl View for CloseFrame {
    type V = CloseFrameView;

    open spec fn view(&self) -> CloseFrameView {
        self.deep_view()
    }
}

/// One frame of the transport, inbound or outbound.
#[derive(Debug, Clone, PartialEq, Eq)]
pub enum Frame {
    Text(String),
    Binary(Vec<u8>),
    Ping(Vec<u8>),
    Pong(Vec<u8>),
    Close(Option<CloseFrame>),
}

/// Mathematical value of a [`Frame`].
pub enum FrameView {
    Text(Seq<char>),
    Binary(Seq<u8>),
    Ping(Seq<u8>),
    Pong(Seq<u8>),
    Close(Option<CloseFrameView>),
}

impl DeepView for Frame {
    type V = FrameView;

    open spec fn deep_view(&self) -> FrameView {
        match *self {
            Frame::Text(s) => FrameView::Text(s@),
            Frame::Binary(b) => FrameView::Binary(b@),
            Frame::Ping(b) => FrameView::Ping(b@),
            Frame::Pong(b) => FrameView::Pong(b@),
            Frame::Close(c) => FrameView::Close(c.deep_view()),
        }
    }
}

impl View for Frame {
    type V = FrameView;

    open spec fn view(&self) -> FrameView {
        self.deep_view()
    }
}

/// The close frame that an administrative close sends: code 1000 stands in
/// for a code that is not given, and an empty reason for a reason that is
/// not given.
pub open spec fn closing_frame_spec(code: Option<u16>, reason: Option<Seq<char>>) -> FrameView {
    FrameView::Close(
        Some(
            CloseFrameView {
                code: match code {
                    Some(c) => c,
                    None => NORMAL_CLOSURE,
                },
                reason: match reason {
                    Some(r) => r,
                    None => Seq::empty(),
                },
            },
        ),
    )
}

/// Builds the frame that closes a connection with the given code and reason.
pub fn closing_frame(code: Option<u16>, reason: Option<String>) -> (frame: Frame)
    ensures
        frame@ == closing_frame_spec(code, reason.deep_view()),
{
    let code = match code {
        Some(c) => c,
        None => NORMAL_CLOSURE,
    };
    let reason = match reason {
        Some(r) => r,
        None => String::new(),
    };
    Frame::Close(Some(CloseFrame { code, reason }))
}

} // verus!
