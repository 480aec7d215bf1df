//! The calls that the controlling application makes on the gateway.
//!
//! Each call decides and hands back what is to be done on which handle. A
//! call on a stopped gateway fails and changes nothing.

use vstd::prelude::*;
use vstd::string::*;
use crate::error::GatewayError;
use crate::event::WSConnectResponse;
use crate::frame::{closing_frame_spec, Frame, FrameView};
use crate::id::ConnectionId;
use crate::server::{lists_keys, waiting_slot, without_slot, CloseOrder, Delivery, WSServer};
use crate::state::App;

verus! {

/// The identifiers of the live connections, in increasing order, while the
/// gateway runs.
pub fn server_state<L, P, S>(app: &App<L, P, S>) -> (state: Option<Vec<ConnectionId>>)
    ensures
        match state {
            Some(ids) => app.server is Some && lists_keys(ids@, app.server->0.active()),
            None => app.server is None,
        },
{
    match &app.server {
        Some(server) => Some(server.connections()),
        None => None,
    }
}

/// What a decision on the pending connection `id` leads to, whichever the
/// decision is: the slot leaves the table to carry the decision, or the call
/// fails because the gateway is stopped or no slot waits under `id`. The
/// registry of live connections stays as it is.
pub open spec fn resolved<L, P, S, C>(
    before: Option<WSServer<L, P, S>>,
    after: Option<WSServer<L, P, S>>,
    id: ConnectionId,
    response: WSConnectResponse<C>,
    outcome: Result<Delivery<P, C>, GatewayError>,
) -> bool {
    match before {
        None => after is None && outcome == Err::<Delivery<P, C>, GatewayError>(
            GatewayError::ServerNotRunning,
        ),
        Some(server) => {
            &&& after is Some
            &&& after->0.pending() == without_slot(server.pending(), id@)
            &&& after->0.active() == server.active()
            &&& after->0.listener() == server.listener()
            &&& match outcome {
                Ok(delivery) => {
                    &&& waiting_slot(server.pending(), id@) == Some(delivery.slot)
                    &&& delivery.response == response
                },
                Err(e) => waiting_slot(server.pending(), id@) is None && e
                    == GatewayError::NotPending(id),
            }
        },
    }
}

/// Resolves the pending connection `id` with `response`.
pub fn resolve_pending<L, P, S, C>(
    app: &mut App<L, P, S>,
    id: ConnectionId,
    response: WSConnectResponse<C>,
) -> (outcome: Result<Delivery<P, C>, GatewayError>)
    ensures
        resolved(old(app).server, final(app).server, id, response, outcome),
{
    match &mut app.server {
        Some(server) => server.resolve_pending(id, response),
        None => Err(GatewayError::ServerNotRunning),
    }
}

/// Accepts the pending connection `id`; its events go to `channel`.
pub fn ws_accept<L, P, S, C>(app: &mut App<L, P, S>, id: ConnectionId, channel: C) -> (outcome:
    Result<Delivery<P, C>, GatewayError>)
    ensures
        resolved(
            old(app).server,
            final(app).server,
            id,
            WSConnectResponse::Accept(channel),
            outcome,
        ),
{
    resolve_pending(app, id, WSConnectResponse::Accept(channel))
}

/// Denies the pending connection `id`, with an optional reason.
pub fn ws_deny<L, P, S, C>(app: &mut App<L, P, S>, id: ConnectionId, reason: Option<String>) -> (outcome:
    Result<Delivery<P, C>, GatewayError>)
    ensures
        resolved(
            old(app).server,
            final(app).server,
            id,
            WSConnectResponse::<C>::Deny(reason),
            outcome,
        ),
{
    resolve_pending(app, id, WSConnectResponse::Deny(reason))
}

/// Closes the live connection `id`, as [`WSServer::close`] says.
pub fn ws_close<L, P, S>(
    app: &mut App<L, P, S>,
    id: ConnectionId,
    code: Option<u16>,
    reason: Option<String>,
) -> (outcome: Result<CloseOrder<S>, GatewayError>)
    ensures
        match old(app).server {
            None => final(app).server is None && outcome == Err::<CloseOrder<S>, GatewayError>(
                GatewayError::ServerNotRunning,
            ),
            Some(server) => {
                &&& final(app).server is Some
                &&& final(app).server->0.active() == server.active().remove(id@)
                &&& final(app).server->0.pending() == server.pending()
                &&& final(app).server->0.listener() == server.listener()
                &&& match outcome {
                    Ok(order) => {
                        &&& server.active().contains_key(id@)
                        &&& order.id == id
                        &&& order.handle == server.active()[id@]
                        &&& order.frame@ == closing_frame_spec(code, reason.deep_view())
                    },
                    Err(e) => !server.active().contains_key(id@) && e == GatewayError::NotFound(id),
                }
            },
        },
{
    match &mut app.server {
        Some(server) => server.close(id, code, reason),
        None => Err(GatewayError::ServerNotRunning),
    }
}

/// Looks up the live connection `id` for sending `text` to it, as
/// [`WSServer::send`] says.
pub fn ws_send<L, P, S>(app: &mut App<L, P, S>, id: ConnectionId, text: String) -> (outcome: Result<
    (&mut S, Frame),
    GatewayError,
>)
    ensures
        match old(app).server {
            None => final(app).server is None && outcome is Err && outcome->Err_0
                == GatewayError::ServerNotRunning,
            Some(server) => {
                &&& final(app).server is Some
                &&& final(app).server->0.pending() == server.pending()
                &&& final(app).server->0.listener() == server.listener()
                &&& match outcome {
                    Ok(lent) => {
                        &&& server.active().contains_key(id@)
                        &&& *lent.0 == server.active()[id@]
                        &&& lent.1@ == FrameView::Text(text@)
                        &&& final(app).server->0.active() == server.active().insert(
                            id@,
                            *final(lent.0),
                        )
                    },
                    Err(e) => {
                        &&& !server.active().contains_key(id@)
                        &&& e == GatewayError::NotFound(id)
                        &&& final(app).server->0.active() == server.active()
                    },
                }
            },
        },
{
    match &mut app.server {
        Some(server) => server.send(id, text),
        None => Err(GatewayError::ServerNotRunning),
    }
}

/// The greeting for `name`.
pub fn greet(name: &str) -> (greeting: String)
    ensures
        greeting@ == "Hello, "@ + name@ + "! You've been greeted from Rust!"@,
{
    "Hello, ".to_owned().concat(name).concat("! You've been greeted from Rust!")
}

} // verus!
