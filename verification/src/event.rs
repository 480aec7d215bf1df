//! What the gateway tells the controlling application, and what the
//! application answers.

use vstd::prelude::*;
use crate::api::{ApiVersion, ApiVersionView};
use crate::id::ConnectionId;

verus! {

/// Event of one accepted connection, delivered through the sink that the
/// application supplied when it accepted the connection.
#[derive(Debug, Clone, PartialEq, Eq)]
pub enum ServerWSEvent {
    /// The connection was accepted and is now relayed.
    Connected,
    /// The peer sent a text frame.
    Message { text: String },
    /// The peer closed the connection.
    ClientDisconnected { code: u16, reason: Option<String> },
    /// The peer broke the protocol; the connection is being closed.
    ProtocolError { err: String },
}

/// Mathematical value of a [`ServerWSEvent`].
pub enum EventView {
    Connected,
    Message { text: Seq<char> },
    ClientDisconnected { code: u16, reason: Option<Seq<char>> },
    ProtocolError { err: Seq<char> },
}

impl DeepView for ServerWSEvent {
    type V = EventView;

    open spec fn deep_view(&self) -> EventView {
        match *self {
            ServerWSEvent::Connected => EventView::Connected,
            ServerWSEvent::Message { text } => EventView::Message { text: text@ },
            ServerWSEvent::ClientDisconnected { code, reason } => EventView::ClientDisconnected {
                code,
                reason: reason.deep_view(),
            },
            ServerWSEvent::ProtocolError { err } => EventView::ProtocolError { err: err@ },
        }
    }
}

impl View for ServerWSEvent {
    type V = EventView;

    open spec fn view(&self) -> EventView {
        self.deep_view()
    }
}

/// The application's decision on a pending connection: accept it, handing
/// over the sink for its events, or deny it, with an optional reason.
#[derive(Debug)]
pub enum WSConnectResponse<C> {
    Accept(C),
    Deny(Option<String>),
}

/// Mathematical value of a [`WSConnectResponse`].
pub enum ResponseView<C> {
    Accept(C),
    Deny(Option<Seq<char>>),
}

impl<C> View for WSConnectResponse<C> {
    type V = ResponseView<C>;

    open spec fn view(&self) -> ResponseView<C> {
        match *self {
            WSConnectResponse::Accept(sink) => ResponseView::Accept(sink),
            WSConnectResponse::Deny(reason) => ResponseView::Deny(reason.deep_view()),
        }
    }
}

/// Notification that a new connection asks to be let in.
#[derive(Debug, Clone, PartialEq, Eq)]
pub struct TryConnectPayload {
    pub id: ConnectionId,
    pub version: ApiVersion,
}

/// Mathematical value of a [`TryConnectPayload`].
pub struct TryConnectView {
    pub id: u128,
    pub version: ApiVersionView,
}

impl View for TryConnectPayload {
    type V = TryConnectView;

    open spec fn view(&self) -> TryConnectView {
        TryConnectView { id: self.id@, version: self.version@ }
    }
}

} // verus!
