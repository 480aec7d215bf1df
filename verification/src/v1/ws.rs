//! A connection of the first protocol version.

use axum::extract::ws::Message;
use vstd::prelude::*;
use vstd::utf8::{decode_utf8, valid_utf8};
use crate::frame::{CloseFrame, CloseFrameView, Frame, FrameView, NORMAL_CLOSURE};
use crate::id::{allocate, is_random_uuid, uuid_text};

verus! {

/// Reason given to a peer that is disconnected without one.
pub const DISCONNECTED: &'static str = "Disconnected";

/// The text that a frame carries: that of a text frame, the payload of a
/// binary frame, a ping or a pong where it is UTF-8, and the reason of a
/// close frame, which is empty where the frame is.
pub open spec fn frame_text(frame: FrameView) -> Option<Seq<char>> {
    match frame {
        FrameView::Text(text) => Some(text),
        FrameView::Binary(bytes) | FrameView::Ping(bytes) | FrameView::Pong(bytes) => if valid_utf8(
            bytes,
        ) {
            Some(decode_utf8(bytes))
        } else {
            None
        },
        FrameView::Close(None) => Some(Seq::empty()),
        FrameView::Close(Some(close)) => Some(close.reason),
    }
}

/// Reads a frame as text with `axum::extract::ws::Message::to_text`, which
/// hands out the text of a text frame and the reason of a close frame, and
/// tries the payload of any other frame as UTF-8.
#[verifier::external_body]
fn to_text(frame: &Frame) -> (text: Option<String>)
    ensures
        text.deep_view() == frame_text(frame@),
{
    let message = match frame {
        Frame::Text(text) => Message::Text(text.as_str().into()),
        Frame::Binary(bytes) => Message::Binary(bytes.clone().into()),
        Frame::Ping(bytes) => Message::Ping(bytes.clone().into()),
        Frame::Pong(bytes) => Message::Pong(bytes.clone().into()),
        Frame::Close(None) => Message::Close(None),
        Frame::Close(Some(c)) => Message::Close(
            Some(axum::extract::ws::CloseFrame { code: c.code, reason: c.reason.as_str().into() }),
        ),
    };
    message.to_text().ok().map(str::to_owned)
}

/// The close frame that disconnects a peer: code 1000 and the reason
/// "Disconnected" stand in for what is not given.
pub open spec fn disconnect_frame(code: Option<u16>, reason: Option<Seq<char>>) -> FrameView {
    FrameView::Close(
        Some(
            CloseFrameView {
                code: match code {
                    Some(c) => c,
                    None => NORMAL_CLOSURE,
                },
                reason: match reason {
                    Some(r) => r,
                    None => DISCONNECTED@,
                },
            },
        ),
    )
}

/// A connection to a game. `W` is the socket.
///
/// Two connections are equal when their identifiers are.
#[derive(Debug)]
pub struct ClientWSConnection<W> {
    id: String,
    ws: W,
}

impl<W> ClientWSConnection<W> {
    /// The identifier of the connection.
    pub closed spec fn id_spec(&self) -> Seq<char> {
        self.id@
    }

    /// The socket of the connection.
    pub closed spec fn socket(&self) -> W {
        self.ws
    }

    /// A connection over `ws`, under a fresh random identifier.
    pub fn new(ws: W) -> (conn: Self)
        ensures
            conn.socket() == ws,
            exists|bits: u128| is_random_uuid(bits) && conn.id_spec() == uuid_text(bits),
    {
        let id = allocate();
        ClientWSConnection { id: id.to_text(), ws }
    }

    /// The identifier of the connection.
    pub fn id(&self) -> (id: &str)
        ensures
            id@ == self.id_spec(),
    {
        self.id.as_str()
    }

    /// Lends the socket, for reading from it.
    pub fn socket_mut(&mut self) -> (ws: &mut W)
        ensures
            *ws == old(self).socket(),
            final(self).socket() == *final(ws),
            final(self).id_spec() == old(self).id_spec(),
    {
        &mut self.ws
    }

    /// Lends the socket with the close frame that disconnects the peer
    /// without a code or a reason of its own.
    pub fn disconnect(&mut self) -> (lent: (&mut W, Frame))
        ensures
            *lent.0 == old(self).socket(),
            final(self).socket() == *final(lent.0),
            final(self).id_spec() == old(self).id_spec(),
            lent.1@ == disconnect_frame(None, None),
    {
        self.disconnect_with(None, None)
    }

    /// Lends the socket with the close frame that disconnects the peer.
    pub fn disconnect_with(&mut self, code: Option<u16>, reason: Option<String>) -> (lent: (
        &mut W,
        Frame,
    ))
        ensures
            *lent.0 == old(self).socket(),
            final(self).socket() == *final(lent.0),
            final(self).id_spec() == old(self).id_spec(),
            lent.1@ == disconnect_frame(code, reason.deep_view()),
    {
        let code = match code {
            Some(c) => c,
            None => NORMAL_CLOSURE,
        };
        let reason = match reason {
            Some(r) => r,
            None => DISCONNECTED.to_owned(),
        };
        (&mut self.ws, Frame::Close(Some(CloseFrame { code, reason })))
    }

    /// Lends the socket with the text frame that carries `msg`.
    pub fn send_raw(&mut self, msg: &str) -> (lent: (&mut W, Frame))
        ensures
            *lent.0 == old(self).socket(),
            final(self).socket() == *final(lent.0),
            final(self).id_spec() == old(self).id_spec(),
            lent.1@ == FrameView::Text(msg@),
    {
        (&mut self.ws, Frame::Text(msg.to_owned()))
    }

    /// The text of what was received, if it has any: nothing for a transport
    /// error, and for a frame what [`frame_text`] says.
    pub fn raw_to_txt(raw_msg: Result<Frame, String>) -> (text: Option<String>)
        ensures
            text.deep_view() == match raw_msg {
                Ok(frame) => frame_text(frame@),
                Err(_) => None,
            },
    {
        match raw_msg {
            Err(_) => None,
            Ok(frame) => to_text(&frame),
        }
    }
}

impl<W> PartialEq for ClientWSConnection<W> {
    fn eq(&self, other: &Self) -> (equal: bool) {
        self.id == other.id
    }
}

impl<W> vstd::std_specs::cmp::PartialEqSpecImpl for ClientWSConnection<W> {
    open spec fn obeys_eq_spec() -> bool {
        true
    }

    open spec fn eq_spec(&self, other: &Self) -> bool {
        self.id_spec() == other.id_spec()
    }
}

} // verus!
