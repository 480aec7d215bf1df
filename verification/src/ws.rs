//! The lifecycle of one accepted connection.
//!
//! A connection is driven by what arrives from the peer. The driver reads
//! nothing and sends nothing itself: it is told what arrived, says which
//! event the application is owed, and keeps the state of the connection.

use vstd::prelude::*;
use crate::event::{EventView, ServerWSEvent};
use crate::frame::{Frame, NORMAL_CLOSURE};
use crate::id::ConnectionId;

verus! {

/// Reason for closing a connection whose peer sent a binary frame.
pub const BINARY_MESSAGE: &'static str = "received binary message";

/// Reason reported for a connection that closed without one.
pub const NORMAL_CLOSURE_REASON: &'static str = "normal closure";

/// Where a connection stands in its life.
#[derive(Debug, Clone, Copy, PartialEq, Eq, Structural)]
pub enum LifecycleState {
    /// Accepted by the application; nothing was announced yet.
    Accepted,
    /// Announced; frames are relayed.
    Active,
    /// The read loop is over; the connection awaits its teardown.
    Closing,
    /// Torn down. Nothing happens to a closed connection any more.
    Closed,
}

/// The last thing said of a connection: that it is closed, and why.
#[derive(Debug, Clone, PartialEq, Eq)]
pub struct ConnectionClosed {
    pub id: ConnectionId,
    pub reason: String,
}

/// Something that the driver told the application.
pub enum Emitted {
    /// An event for the connection's sink.
    Event(EventView),
    /// The terminal notification, with the reason for closing.
    Closed { reason: Seq<char> },
}

/// What the arrival of one item from the peer leads to.
pub struct Reaction {
    /// The event owed to the application.
    pub event: Option<EventView>,
    /// Whether the read loop ends.
    pub closing: bool,
    /// The reason for closing that is known at once.
    pub reason: Option<Seq<char>>,
    /// Whether a failure to deliver `event` becomes the reason for closing.
    pub awaits_notice: bool,
}

/// The reaction to one item of the inbound stream: a frame, a transport
/// error, or the end of the stream.
pub open spec fn reaction(item: Option<Result<Frame, String>>) -> Reaction {
    match item {
        Some(Ok(Frame::Text(text))) => Reaction {
            event: Some(EventView::Message { text: text@ }),
            closing: false,
            reason: None,
            awaits_notice: false,
        },
        Some(Ok(Frame::Ping(_))) | Some(Ok(Frame::Pong(_))) => Reaction {
            event: None,
            closing: false,
            reason: None,
            awaits_notice: false,
        },
        Some(Ok(Frame::Binary(_))) => Reaction {
            event: Some(EventView::ProtocolError { err: BINARY_MESSAGE@ }),
            closing: true,
            reason: Some(BINARY_MESSAGE@),
            awaits_notice: false,
        },
        Some(Ok(Frame::Close(None))) => Reaction {
            event: Some(EventView::ClientDisconnected { code: NORMAL_CLOSURE, reason: None }),
            closing: true,
            reason: None,
            awaits_notice: true,
        },
        Some(Ok(Frame::Close(Some(frame)))) => Reaction {
            event: Some(
                EventView::ClientDisconnected { code: frame.code, reason: Some(frame.reason@) },
            ),
            closing: true,
            reason: None,
            awaits_notice: true,
        },
        Some(Err(error)) => Reaction {
            event: None,
            closing: true,
            reason: Some(error@),
            awaits_notice: false,
        },
        None => Reaction { event: None, closing: true, reason: None, awaits_notice: false },
    }
}

/// Mathematical value of a [`ClientWSConnection`].
pub struct ConnectionView {
    pub id: u128,
    pub state: LifecycleState,
    /// Why the connection is closing, as far as a reason is known.
    pub reason: Option<Seq<char>>,
    /// Whether a failed delivery of the last event becomes the reason.
    pub awaits_notice: bool,
    /// Everything told to the application so far, oldest first.
    pub history: Seq<Emitted>,
}

impl ConnectionView {
    /// A connection that was just accepted.
    pub open spec fn fresh(id: u128) -> ConnectionView {
        ConnectionView {
            id,
            state: LifecycleState::Accepted,
            reason: None,
            awaits_notice: false,
            history: Seq::empty(),
        }
    }

    /// The event that announcing the connection yields.
    pub open spec fn open_event(self) -> Option<EventView> {
        if self.state is Accepted {
            Some(EventView::Connected)
        } else {
            None
        }
    }

    /// The connection after it was announced.
    pub open spec fn opened(self) -> ConnectionView {
        if self.state is Accepted {
            ConnectionView {
                state: LifecycleState::Active,
                history: self.history.push(Emitted::Event(EventView::Connected)),
                ..self
            }
        } else {
            self
        }
    }

    /// The event that the arrival of `item` yields.
    pub open spec fn receive_event(self, item: Option<Result<Frame, String>>) -> Option<EventView> {
        if self.state is Active {
            reaction(item).event
        } else {
            None
        }
    }

    /// The connection after `item` arrived. Only an active connection reacts.
    pub open spec fn received(self, item: Option<Result<Frame, String>>) -> ConnectionView {
        if self.state is Active {
            let r = reaction(item);
            ConnectionView {
                id: self.id,
                state: if r.closing {
                    LifecycleState::Closing
                } else {
                    LifecycleState::Active
                },
                reason: r.reason,
                awaits_notice: r.awaits_notice,
                history: match r.event {
                    Some(event) => self.history.push(Emitted::Event(event)),
                    None => self.history,
                },
            }
        } else {
            self
        }
    }

    /// The connection after the sink refused the last event with `error`.
    /// Only the notice of the peer's own close turns that into the reason for
    /// closing; elsewhere a refused event changes nothing.
    pub open spec fn delivery_failed(self, error: Seq<char>) -> ConnectionView {
        if self.awaits_notice {
            ConnectionView { reason: Some(error), awaits_notice: false, ..self }
        } else {
            self
        }
    }

    /// The reason that the terminal notification carries.
    pub open spec fn final_reason(self) -> Seq<char> {
        match self.reason {
            Some(reason) => reason,
            None => NORMAL_CLOSURE_REASON@,
        }
    }

    /// The connection after its teardown.
    pub open spec fn finished(self) -> ConnectionView {
        if self.state is Closing {
            ConnectionView {
                state: LifecycleState::Closed,
                awaits_notice: false,
                history: self.history.push(Emitted::Closed { reason: self.final_reason() }),
                ..self
            }
        } else {
            self
        }
    }

    /// The connection after the items `items` arrived one after the other.
    pub open spec fn received_all(self, items: Seq<Result<Frame, String>>) -> ConnectionView
        decreases items.len(),
    {
        if items.len() == 0 {
            self
        } else {
            self.received_all(items.drop_last()).received(Some(items.last()))
        }
    }

    /// What holds of every connection, whatever arrived: the announcement
    /// comes first and once, a disconnect or a protocol error ends the events
    /// of the sink, and the terminal notification comes last and once.
    pub open spec fn well_formed(self) -> bool {
        let n = self.history.len() as int;
        &&& self.state is Accepted <==> n == 0
        &&& n > 0 ==> self.history[0] == Emitted::Event(EventView::Connected)
        &&& forall|i: int| 0 < i < n ==> #[trigger] self.history[i] != Emitted::Event(EventView::Connected)
        &&& forall|i: int|
            0 <= i < n && (#[trigger] self.history[i]) is Closed ==> i == n - 1
        &&& self.state is Closed <==> n > 0 && self.history[n - 1] is Closed
        &&& forall|i: int|
            0 <= i < n && ends_relay(#[trigger] self.history[i]) ==> {
                &&& self.state is Closing || self.state is Closed
                &&& i == n - 1 || (i == n - 2 && self.history[n - 1] is Closed)
            }
        &&& self.awaits_notice ==> self.state is Closing && self.reason is None
        &&& self.state is Accepted || self.state is Active ==> self.reason is None
    }
}

/// Whether `e` is an event after which nothing is relayed any more.
pub open spec fn ends_relay(e: Emitted) -> bool {
    match e {
        Emitted::Event(EventView::ClientDisconnected { .. }) => true,
        Emitted::Event(EventView::ProtocolError { .. }) => true,
        _ => false,
    }
}

/// The driver of one accepted connection.
///
/// Two drivers are equal when their identifiers are.
pub struct ClientWSConnection {
    id: ConnectionId,
    state: LifecycleState,
    close_reason: Option<String>,
    notice_pending: bool,
    history: Ghost<Seq<Emitted>>,
}

impl View for ClientWSConnection {
    type V = ConnectionView;

    closed spec fn view(&self) -> ConnectionView {
        ConnectionView {
            id: self.id@,
            state: self.state,
            reason: self.close_reason.deep_view(),
            awaits_notice: self.notice_pending,
            history: self.history@,
        }
    }
}

impl ClientWSConnection {
    #[verifier::type_invariant]
    spec fn inv(self) -> bool {
        self@.well_formed()
    }

    /// The driver of the connection `id`, which the application accepted.
    pub fn new(id: ConnectionId) -> (conn: Self)
        ensures
            conn@ == ConnectionView::fresh(id@),
            conn@.well_formed(),
    {
        ClientWSConnection {
            id,
            state: LifecycleState::Accepted,
            close_reason: None,
            notice_pending: false,
            history: Ghost(Seq::empty()),
        }
    }

    /// The identifier of the connection.
    pub fn id(&self) -> (id: &ConnectionId)
        ensures
            id@ == self@.id,
    {
        &self.id
    }

    /// Where the connection stands.
    pub fn state(&self) -> (state: LifecycleState)
        ensures
            state == self@.state,
            self@.well_formed(),
    {
        proof {
            use_type_invariant(self);
        }
        self.state
    }

    /// Why the connection is closing, if a reason is known.
    pub fn close_reason(&self) -> (reason: Option<String>)
        ensures
            reason.deep_view() == self@.reason,
    {
        match &self.close_reason {
            Some(reason) => Some(reason.clone()),
            None => None,
        }
    }

    /// Announces the connection: an accepted connection becomes active and
    /// the application is owed `Connected`. Any other connection stays as it
    /// is and yields nothing.
    pub fn open(&mut self) -> (event: Option<ServerWSEvent>)
        ensures
            final(self)@ == old(self)@.opened(),
            event.deep_view() == old(self)@.open_event(),
            final(self)@.well_formed(),
    {
        proof {
            use_type_invariant(&*self);
            lemma_opened_well_formed(self@);
        }
        match self.state {
            LifecycleState::Accepted => {
                let ghost history = self.history@.push(Emitted::Event(EventView::Connected));
                self.step(LifecycleState::Active, None, false, Ghost(history));
                Some(ServerWSEvent::Connected)
            },
            _ => None,
        }
    }

    /// Replaces everything but the identifier.
    fn step(
        &mut self,
        state: LifecycleState,
        close_reason: Option<String>,
        notice_pending: bool,
        Ghost(history): Ghost<Seq<Emitted>>,
    )
        requires
            (ConnectionView {
                id: old(self)@.id,
                state,
                reason: close_reason.deep_view(),
                awaits_notice: notice_pending,
                history,
            }).well_formed(),
        ensures
            final(self)@ == (ConnectionView {
                id: old(self)@.id,
                state,
                reason: close_reason.deep_view(),
                awaits_notice: notice_pending,
                history,
            }),
    {
        *self = ClientWSConnection {
            id: self.id,
            state,
            close_reason,
            notice_pending,
            history: Ghost(history),
        };
    }

    /// Takes in one item of the inbound stream: a frame, a transport error,
    /// or, as `None`, the end of the stream.
    ///
    /// An active connection reacts as [`reaction`] says: a text frame is
    /// relayed, a ping or a pong is ignored, and everything else ends the
    /// read loop. A connection that is not active ignores the item.
    pub fn receive(&mut self, item: Option<Result<Frame, String>>) -> (event: Option<ServerWSEvent>)
        ensures
            final(self)@ == old(self)@.received(item),
            event.deep_view() == old(self)@.receive_event(item),
            final(self)@.well_formed(),
    {
        proof {
            use_type_invariant(&*self);
            lemma_received_well_formed(self@, item);
        }
        match self.state {
            LifecycleState::Active => {},
            _ => {
                return None;
            },
        }
        let ghost before = self.history@;
        match item {
            Some(Ok(Frame::Text(text))) => {
                let event = ServerWSEvent::Message { text };
                self.step(
                    LifecycleState::Active,
                    None,
                    false,
                    Ghost(before.push(Emitted::Event(event@))),
                );
                Some(event)
            },
            Some(Ok(Frame::Ping(_))) | Some(Ok(Frame::Pong(_))) => {
                self.step(LifecycleState::Active, None, false, Ghost(before));
                None
            },
            Some(Ok(Frame::Binary(_))) => {
                let event = ServerWSEvent::ProtocolError { err: BINARY_MESSAGE.to_owned() };
                self.step(
                    LifecycleState::Closing,
                    Some(BINARY_MESSAGE.to_owned()),
                    false,
                    Ghost(before.push(Emitted::Event(event@))),
                );
                Some(event)
            },
            Some(Ok(Frame::Close(None))) => {
                let event = ServerWSEvent::ClientDisconnected { code: NORMAL_CLOSURE, reason: None };
                self.step(
                    LifecycleState::Closing,
                    None,
                    true,
                    Ghost(before.push(Emitted::Event(event@))),
                );
                Some(event)
            },
            Some(Ok(Frame::Close(Some(frame)))) => {
                let event = ServerWSEvent::ClientDisconnected {
                    code: frame.code,
                    reason: Some(frame.reason),
                };
                self.step(
                    LifecycleState::Closing,
                    None,
                    true,
                    Ghost(before.push(Emitted::Event(event@))),
                );
                Some(event)
            },
            Some(Err(error)) => {
                self.step(LifecycleState::Closing, Some(error), false, Ghost(before));
                None
            },
            None => {
                self.step(LifecycleState::Closing, None, false, Ghost(before));
                None
            },
        }
    }

    /// Drives the connection through a recorded stream: announces it, takes
    /// in the items of `inbound` one after the other and then the end of the
    /// stream.
    ///
    /// Hands back the events owed to the application, in order, and how the
    /// read loop ended: `Err` with the reason for closing, or `Ok` where
    /// there is none. Every event counts as delivered.
    pub fn lifecycle(&mut self, inbound: Vec<Result<Frame, String>>) -> (run: (
        Vec<ServerWSEvent>,
        Result<(), String>,
    ))
        ensures
            final(self)@ == old(self)@.opened().received_all(inbound@).received(None),
            final(self)@.history == old(self)@.history + as_emitted(run.0.deep_view()),
            match run.1 {
                Ok(_) => final(self)@.reason is None,
                Err(reason) => final(self)@.reason == Some(reason@),
            },
            final(self)@.well_formed(),
    {
        let ghost start = self@;
        let ghost items = inbound@;
        let mut events: Vec<ServerWSEvent> = Vec::new();
        if let Some(event) = self.open() {
            events.push(event);
        }
        assert(self@.history =~= start.history + as_emitted(events.deep_view()));
        assert(items.take(0) =~= Seq::empty());
        for item in it: inbound
            invariant
                it.seq() == items,
                self@ == start.opened().received_all(items.take(it.index() as int)),
                self@.history == start.history + as_emitted(events.deep_view()),
        {
            let ghost i = it.index() as int;
            assert(items.take(i + 1).drop_last() =~= items.take(i));
            assert(items.take(i + 1).last() == items[i]);
            if let Some(event) = self.receive(Some(item)) {
                events.push(event);
            }
            assert(self@.history =~= start.history + as_emitted(events.deep_view()));
        }
        assert(items.take(items.len() as int) =~= items);
        if let Some(event) = self.receive(None) {
            events.push(event);
        }
        assert(self@.history =~= start.history + as_emitted(events.deep_view()));
        let outcome = match self.close_reason() {
            Some(reason) => Err(reason),
            None => Ok(()),
        };
        (events, outcome)
    }

    /// Takes in that the sink refused the last event, with `error`.
    ///
    /// If that event was the notice of the peer's own close, `error` becomes
    /// the reason for closing. A refused message or protocol error is the
    /// caller's to log and changes nothing here.
    pub fn delivery_failed(&mut self, error: String)
        ensures
            final(self)@ == old(self)@.delivery_failed(error@),
            final(self)@.well_formed(),
    {
        proof {
            use_type_invariant(&*self);
        }
        if self.notice_pending {
            let ghost history = self.history@;
            self.step(LifecycleState::Closing, Some(error), false, Ghost(history));
        }
    }

    /// Tears the connection down: a closing connection becomes closed and
    /// the application is owed the terminal notification, with the reason for
    /// closing or, where there is none, with "normal closure". Any other
    /// connection stays as it is and yields nothing.
    pub fn finish(&mut self) -> (notice: Option<ConnectionClosed>)
        ensures
            final(self)@ == old(self)@.finished(),
            final(self)@.well_formed(),
            match notice {
                Some(closed) => {
                    &&& old(self)@.state is Closing
                    &&& closed.id@ == old(self)@.id
                    &&& closed.reason@ == old(self)@.final_reason()
                },
                None => !(old(self)@.state is Closing),
            },
    {
        proof {
            use_type_invariant(&*self);
            lemma_finished_well_formed(self@);
        }
        match self.state {
            LifecycleState::Closing => {},
            _ => {
                return None;
            },
        }
        let kept = self.close_reason();
        let reason = match &self.close_reason {
            Some(reason) => reason.clone(),
            None => NORMAL_CLOSURE_REASON.to_owned(),
        };
        let ghost history = self.history@.push(Emitted::Closed { reason: reason@ });
        self.step(LifecycleState::Closed, kept, false, Ghost(history));
        Some(ConnectionClosed { id: self.id, reason })
    }
}

/// The entries of a history that stand for the events `events`.
pub open spec fn as_emitted(events: Seq<EventView>) -> Seq<Emitted> {
    events.map_values(|e: EventView| Emitted::Event(e))
}

/// Announcing a connection keeps it well-formed.
pub proof fn lemma_opened_well_formed(conn: ConnectionView)
    requires
        conn.well_formed(),
    ensures
        conn.opened().well_formed(),
{
}

/// Taking in an item keeps a connection well-formed.
pub proof fn lemma_received_well_formed(conn: ConnectionView, item: Option<Result<Frame, String>>)
    requires
        conn.well_formed(),
    ensures
        conn.received(item).well_formed(),
{
}

/// A refused event keeps a connection well-formed.
pub proof fn lemma_delivery_failed_well_formed(conn: ConnectionView, error: Seq<char>)
    requires
        conn.well_formed(),
    ensures
        conn.delivery_failed(error).well_formed(),
{
}

/// The teardown keeps a connection well-formed.
pub proof fn lemma_finished_well_formed(conn: ConnectionView)
    requires
        conn.well_formed(),
    ensures
        conn.finished().well_formed(),
{
}

impl PartialEq for ClientWSConnection {
    fn eq(&self, other: &Self) -> (equal: bool) {
        self.id == other.id
    }
}

impl vstd::std_specs::cmp::PartialEqSpecImpl for ClientWSConnection {
    open spec fn obeys_eq_spec() -> bool {
        true
    }

    open spec fn eq_spec(&self, other: &Self) -> bool {
        self@.id == other@.id
    }
}

/// One call on the driver of a connection.
pub enum Call {
    Open,
    Receive(Option<Result<Frame, String>>),
    DeliveryFailed(Seq<char>),
    Finish,
}

impl ConnectionView {
    /// The connection after one call.
    pub open spec fn after(self, call: Call) -> ConnectionView {
        match call {
            Call::Open => self.opened(),
            Call::Receive(item) => self.received(item),
            Call::DeliveryFailed(error) => self.delivery_failed(error),
            Call::Finish => self.finished(),
        }
    }

    /// The connection after the calls `calls`, made in order.
    pub open spec fn after_all(self, calls: Seq<Call>) -> ConnectionView
        decreases calls.len(),
    {
        if calls.len() == 0 {
            self
        } else {
            self.after_all(calls.drop_last()).after(calls.last())
        }
    }
}

/// Whatever is done with a connection, in whatever order, it stays
/// well-formed.
pub proof fn lemma_always_well_formed(id: u128, calls: Seq<Call>)
    ensures
        ConnectionView::fresh(id).after_all(calls).well_formed(),
    decreases calls.len(),
{
    if calls.len() > 0 {
        lemma_always_well_formed(id, calls.drop_last());
        let before = ConnectionView::fresh(id).after_all(calls.drop_last());
        match calls.last() {
            Call::Open => lemma_opened_well_formed(before),
            Call::Receive(item) => lemma_received_well_formed(before, item),
            Call::DeliveryFailed(error) => lemma_delivery_failed_well_formed(before, error),
            Call::Finish => lemma_finished_well_formed(before),
        }
    }
}

/// Order of what the application is told of one connection, after any calls
/// in any order: the announcement is the first thing told and is told once,
/// so it precedes every message; the terminal notification is told at most
/// once, as the last thing; and after a disconnect or a protocol error
/// nothing is told but the terminal notification.
pub proof fn lemma_announced_first_closed_once(id: u128, calls: Seq<Call>)
    ensures
        ({
            let told = ConnectionView::fresh(id).after_all(calls).history;
            &&& forall|i: int|
                0 <= i < told.len() ==> (#[trigger] told[i] == Emitted::Event(EventView::Connected)
                    <==> i == 0)
            &&& forall|i: int, j: int|
                0 <= i < told.len() && 0 <= j < told.len() && (#[trigger] told[i]) is Closed && (
                #[trigger] told[j]) is Closed ==> i == j
            &&& forall|i: int|
                0 <= i < told.len() && (#[trigger] told[i]) is Closed ==> i == told.len() - 1
            &&& forall|i: int, j: int|
                0 <= i < j < told.len() && ends_relay(#[trigger] told[i]) ==> (
                #[trigger] told[j]) is Closed
        }),
{
    lemma_always_well_formed(id, calls);
}

} // verus!
