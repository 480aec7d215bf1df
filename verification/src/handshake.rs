//! The handshake: which protocol variant a request asks for, how a new
//! connection is put before the application, and what its answer leads to.

use vstd::prelude::*;
use vstd::string::*;
use crate::api::{ApiVersion, ApiVersionView};
use crate::event::{TryConnectPayload, TryConnectView, WSConnectResponse};
use crate::frame::closing_frame_spec;
use crate::id::{allocate, is_random_uuid, ConnectionId};
use crate::server::{collision_frame, lists_keys, CloseOrder, Denial, WSServer, ID_COLLISION};
use crate::ws::{ClientWSConnection, ConnectionClosed, ConnectionView};

verus! {

/// Body of the answer to a peer whose approval was abandoned.
pub const ABANDONED_BODY: &'static str = "erm";

/// Why a handshake did not lead to a connection.
#[derive(Debug, Clone, PartialEq, Eq)]
pub enum HandshakeError {
    /// The request names no route of the gateway.
    UnknownRoute,
    /// The request asks for the named variant and gives no usable name.
    MalformedRequest,
    /// The application denied the connection, with an optional reason.
    Denied(Option<String>),
    /// The application dropped the pending slot without an answer.
    ApprovalAbandoned,
}

/// Mathematical value of a [`HandshakeError`].
pub enum HandshakeErrorView {
    UnknownRoute,
    MalformedRequest,
    Denied(Option<Seq<char>>),
    ApprovalAbandoned,
}

impl DeepView for HandshakeError {
    type V = HandshakeErrorView;

    open spec fn deep_view(&self) -> HandshakeErrorView {
        match *self {
            HandshakeError::UnknownRoute => HandshakeErrorView::UnknownRoute,
            HandshakeError::MalformedRequest => HandshakeErrorView::MalformedRequest,
            HandshakeError::Denied(reason) => HandshakeErrorView::Denied(reason.deep_view()),
            HandshakeError::ApprovalAbandoned => HandshakeErrorView::ApprovalAbandoned,
        }
    }
}

impl View for HandshakeError {
    type V = HandshakeErrorView;

    open spec fn view(&self) -> HandshakeErrorView {
        self.deep_view()
    }
}

impl HandshakeErrorView {
    /// HTTP status of the rejection.
    pub open spec fn status(self) -> u16 {
        match self {
            HandshakeErrorView::UnknownRoute => 404,
            HandshakeErrorView::MalformedRequest => 400,
            HandshakeErrorView::Denied(_) => 400,
            HandshakeErrorView::ApprovalAbandoned => 500,
        }
    }

    /// Body of the rejection.
    pub open spec fn body(self) -> Seq<char> {
        match self {
            HandshakeErrorView::Denied(Some(reason)) => reason,
            HandshakeErrorView::ApprovalAbandoned => ABANDONED_BODY@,
            _ => Seq::empty(),
        }
    }
}

impl HandshakeError {
    /// The rejection that the peer receives in place of the upgrade: its
    /// HTTP status and its body. A denial is a client error and carries the
    /// application's reason; an abandoned approval is a server error.
    pub fn rejection(self) -> (answer: (u16, String))
        ensures
            answer.0 == self@.status(),
            answer.1@ == self@.body(),
    {
        match self {
            HandshakeError::UnknownRoute => (404, String::new()),
            HandshakeError::MalformedRequest => (400, String::new()),
            HandshakeError::Denied(Some(reason)) => (400, reason),
            HandshakeError::Denied(None) => (400, String::new()),
            HandshakeError::ApprovalAbandoned => (500, ABANDONED_BODY.to_owned()),
        }
    }
}

/// The route that a request path selects.
#[derive(Debug, Clone, PartialEq, Eq)]
pub enum Route {
    /// `/`: the legacy variant.
    Legacy,
    /// `/v2/{game}` or `/v2/{game}/`: the named variant, with the path
    /// segment as it stands in the request.
    GameInPath(String),
    /// `/v2` or `/v2/`: the named variant, with the game in the query.
    GameInQuery,
    /// Anything else.
    Unknown,
}

/// Mathematical value of a [`Route`].
pub enum RouteView {
    Legacy,
    GameInPath(Seq<char>),
    GameInQuery,
    Unknown,
}

impl DeepView for Route {
    type V = RouteView;

    open spec fn deep_view(&self) -> RouteView {
        match *self {
            Route::Legacy => RouteView::Legacy,
            Route::GameInPath(segment) => RouteView::GameInPath(segment@),
            Route::GameInQuery => RouteView::GameInQuery,
            Route::Unknown => RouteView::Unknown,
        }
    }
}

impl View for Route {
    type V = RouteView;

    open spec fn view(&self) -> RouteView {
        self.deep_view()
    }
}

/// Whether `path` starts with `/v2`.
pub open spec fn has_v2_prefix(path: Seq<char>) -> bool {
    path.len() >= 3 && path[0] == '/' && path[1] == 'v' && path[2] == '2'
}

/// The one segment that follows `/v2/` in `path`, without a closing slash.
pub open spec fn game_segment(path: Seq<char>) -> Seq<char> {
    if path.last() == '/' {
        path.subrange(4, path.len() - 1)
    } else {
        path.subrange(4, path.len() as int)
    }
}

/// The route that the request path `path` selects.
pub open spec fn route_spec(path: Seq<char>) -> RouteView {
    if path.len() == 1 && path[0] == '/' {
        RouteView::Legacy
    } else if has_v2_prefix(path) && path.len() == 3 {
        RouteView::GameInQuery
    } else if has_v2_prefix(path) && path[3] == '/' {
        if path.len() == 4 {
            RouteView::GameInQuery
        } else if game_segment(path).len() > 0 && !game_segment(path).contains('/') {
            RouteView::GameInPath(game_segment(path))
        } else {
            RouteView::Unknown
        }
    } else {
        RouteView::Unknown
    }
}

/// Whether no character of `text` before position `end` is a slash.
fn has_no_slash(text: &str, end: usize) -> (clean: bool)
    requires
        end <= text@.len(),
    ensures
        clean == !text@.subrange(0, end as int).contains('/'),
{
    let mut i: usize = 0;
    while i < end
        invariant
            i <= end <= text@.len(),
            forall|j: int| 0 <= j < i ==> text@[j] != '/',
        decreases end - i,
    {
        if text.get_char(i) == '/' {
            assert(text@.subrange(0, end as int)[i as int] == '/');
            return false;
        }
        i += 1;
    }
    true
}

/// Selects the route of a request path.
pub fn route_of(path: &str) -> (route: Route)
    ensures
        route@ == route_spec(path@),
{
    let n = path.unicode_len();
    if n == 1 && path.get_char(0) == '/' {
        return Route::Legacy;
    }
    if n < 3 || path.get_char(0) != '/' || path.get_char(1) != 'v' || path.get_char(2) != '2' {
        return Route::Unknown;
    }
    if n == 3 {
        return Route::GameInQuery;
    }
    if path.get_char(3) != '/' {
        return Route::Unknown;
    }
    if n == 4 {
        return Route::GameInQuery;
    }
    let end = if path.get_char(n - 1) == '/' {
        n - 1
    } else {
        n
    };
    let segment = path.substring_char(4, end);
    assert(segment@ == game_segment(path@));
    let m = segment.unicode_len();
    let clean = has_no_slash(segment, m);
    assert(segment@.subrange(0, m as int) =~= segment@);
    if m > 0 && clean {
        Route::GameInPath(segment.to_owned())
    } else {
        Route::Unknown
    }
}

/// The pairs of a query string, names and values decoded, as the
/// `form_urlencoded` crate reads them.
pub uninterp spec fn form_pairs(query: Seq<char>) -> Seq<(Seq<char>, Seq<char>)>;

/// Reads a query string with `form_urlencoded::parse`, which yields its
/// name-value pairs, percent-decoded, in the order in which they stand.
#[verifier::external_body]
fn parse_query(query: &str) -> (pairs: Vec<(String, String)>)
    ensures
        pairs.deep_view() == form_pairs(query@),
{
    form_urlencoded::parse(query.as_bytes()).into_owned().collect()
}

/// The text that a path segment stands for once its percent-encoded bytes are
/// decoded, as the `percent_encoding` crate reads it; `None` where the
/// decoded bytes are not UTF-8.
pub uninterp spec fn percent_decoded(segment: Seq<char>) -> Option<Seq<char>>;

/// Decodes a path segment with `percent_encoding::percent_decode_str` and
/// `PercentDecode::decode_utf8`, which fails where the decoded bytes are not
/// UTF-8.
#[verifier::external_body]
fn percent_decode(segment: &str) -> (decoded: Option<String>)
    ensures
        decoded.deep_view() == percent_decoded(segment@),
{
    match percent_encoding::percent_decode_str(segment).decode_utf8() {
        Ok(text) => Some(text.into_owned()),
        Err(_) => None,
    }
}

/// The values of the pairs named `game`, in order.
pub open spec fn game_values(pairs: Seq<(Seq<char>, Seq<char>)>) -> Seq<Seq<char>>
    decreases pairs.len(),
{
    if pairs.len() == 0 {
        Seq::empty()
    } else if pairs.last().0 == "game"@ {
        game_values(pairs.drop_last()).push(pairs.last().1)
    } else {
        game_values(pairs.drop_last())
    }
}

/// The game that a query names: the value of its pair named `game`, where
/// there is exactly one such pair.
pub open spec fn game_param(pairs: Seq<(Seq<char>, Seq<char>)>) -> Option<Seq<char>> {
    if game_values(pairs).len() == 1 {
        Some(game_values(pairs)[0])
    } else {
        None
    }
}

/// Looks up the game among the pairs of a query. A query that names the game
/// twice names none.
pub fn find_game(pairs: &Vec<(String, String)>) -> (game: Option<String>)
    ensures
        game.deep_view() == game_param(pairs.deep_view()),
{
    let name = "game".to_owned();
    let mut found: Option<String> = None;
    let mut count: usize = 0;
    let mut i: usize = 0;
    while i < pairs.len()
        invariant
            i <= pairs.len(),
            name@ == "game"@,
            count == game_values(pairs.deep_view().take(i as int)).len(),
            count > 0 ==> found.deep_view() == Some(
                game_values(pairs.deep_view().take(i as int))[0],
            ),
            count <= i,
        decreases pairs.len() - i,
    {
        proof {
            let all = pairs.deep_view();
            assert(all.take(i + 1).drop_last() =~= all.take(i as int));
            assert(all.take(i + 1).last() == all[i as int]);
            assert(all[i as int] == pairs@[i as int].deep_view());
        }
        if pairs[i].0 == name {
            if count == 0 {
                found = Some(pairs[i].1.clone());
            }
            count += 1;
        }
        i += 1;
    }
    assert(pairs.deep_view().take(pairs.len() as int) =~= pairs.deep_view());
    if count == 1 {
        found
    } else {
        None
    }
}

/// The variant that a request asks for, given its route, the decoded form of
/// a game named in the path, and the pairs of its query.
pub open spec fn negotiated(
    route: RouteView,
    decoded: Option<Seq<char>>,
    pairs: Seq<(Seq<char>, Seq<char>)>,
) -> Result<ApiVersionView, HandshakeErrorView> {
    match route {
        RouteView::Legacy => Ok(ApiVersionView::V1),
        RouteView::GameInPath(_) => match decoded {
            Some(game) => Ok(ApiVersionView::V2(game)),
            None => Err(HandshakeErrorView::MalformedRequest),
        },
        RouteView::GameInQuery => match game_param(pairs) {
            Some(game) => Ok(ApiVersionView::V2(game)),
            None => Err(HandshakeErrorView::MalformedRequest),
        },
        RouteView::Unknown => Err(HandshakeErrorView::UnknownRoute),
    }
}

/// Mathematical value of the outcome of a negotiation.
pub open spec fn outcome_view(outcome: Result<ApiVersion, HandshakeError>) -> Result<
    ApiVersionView,
    HandshakeErrorView,
> {
    match outcome {
        Ok(version) => Ok(version@),
        Err(error) => Err(error@),
    }
}

/// Settles the variant of a request whose route is known: `decoded` is the
/// decoded form of the game named in the path, `pairs` are the pairs of the
/// query. A request for the named variant without a usable name is
/// malformed.
pub fn resolve_route(route: Route, decoded: Option<String>, pairs: &Vec<(String, String)>) -> (outcome:
    Result<ApiVersion, HandshakeError>)
    ensures
        outcome_view(outcome) == negotiated(route@, decoded.deep_view(), pairs.deep_view()),
{
    match route {
        Route::Legacy => Ok(ApiVersion::V1),
        Route::GameInPath(_) => match decoded {
            Some(game) => Ok(ApiVersion::V2(game)),
            None => Err(HandshakeError::MalformedRequest),
        },
        Route::GameInQuery => match find_game(pairs) {
            Some(game) => Ok(ApiVersion::V2(game)),
            None => Err(HandshakeError::MalformedRequest),
        },
        Route::Unknown => Err(HandshakeError::UnknownRoute),
    }
}

/// Classifies an upgrade request by its path and its query string: the
/// legacy variant, or the named variant with the game that the path or the
/// query names.
pub fn negotiate(path: &str, query: &str) -> (outcome: Result<ApiVersion, HandshakeError>)
    ensures
        outcome_view(outcome) == negotiated(
            route_spec(path@),
            match route_spec(path@) {
                RouteView::GameInPath(segment) => percent_decoded(segment),
                _ => None,
            },
            form_pairs(query@),
        ),
{
    let route = route_of(path);
    let decoded = match &route {
        Route::GameInPath(segment) => percent_decode(segment.as_str()),
        _ => None,
    };
    let pairs = parse_query(query);
    resolve_route(route, decoded, &pairs)
}

/// A handshake that was put before the application.
#[derive(Debug)]
pub struct HandshakeStart<P> {
    /// The notification owed to the application.
    pub notice: TryConnectPayload,
    /// The slot that waited under the same identifier, to be denied.
    pub displaced: Option<Denial<P>>,
}

/// A connection that was entered in the registry.
pub struct Activation<S> {
    /// The driver of the new connection.
    pub connection: ClientWSConnection,
    /// The handle that was live under the same identifier, to be closed.
    pub evicted: Option<CloseOrder<S>>,
    /// The live connections, the new one among them.
    pub active: Vec<ConnectionId>,
}

/// A connection that was taken out of the registry at its end.
pub struct Teardown<S> {
    /// The handle of the connection, with the close frame owed to the peer.
    pub order: Option<CloseOrder<S>>,
    /// The live connections that remain; `None` where the gateway is
    /// stopped and has none to list.
    pub active: Option<Vec<ConnectionId>>,
    /// The terminal notification owed to the application.
    pub notice: Option<ConnectionClosed>,
}

/// What the application's answer to a handshake leads to: the sink of the
/// accepted connection, or the reason why there is no connection. `None`
/// stands for a slot that was dropped without an answer.
pub fn handshake_reply<C>(answer: Option<WSConnectResponse<C>>) -> (outcome: Result<
    C,
    HandshakeError,
>)
    ensures
        match answer {
            Some(WSConnectResponse::Accept(sink)) => outcome == Ok::<C, HandshakeError>(sink),
            Some(WSConnectResponse::Deny(reason)) => outcome is Err && outcome->Err_0@
                == HandshakeErrorView::Denied(reason.deep_view()),
            None => outcome is Err && outcome->Err_0@ == HandshakeErrorView::ApprovalAbandoned,
        },
{
    match answer {
        Some(WSConnectResponse::Accept(sink)) => Ok(sink),
        Some(WSConnectResponse::Deny(reason)) => Err(HandshakeError::Denied(reason)),
        None => Err(HandshakeError::ApprovalAbandoned),
    }
}

impl<L, P, S> WSServer<L, P, S> {
    /// Puts a new connection with the identifier `id` before the
    /// application: `slot` becomes its pending slot, and the application is
    /// owed a notification with the identifier and the variant.
    ///
    /// Where a slot already waits under `id`, it is displaced as
    /// [`WSServer::add_pending`] says.
    pub fn begin_handshake_with(&mut self, id: ConnectionId, version: ApiVersion, slot: P) -> (start:
        HandshakeStart<P>)
        ensures
            start.notice@ == (TryConnectView { id: id@, version: version@ }),
            final(self).pending() == old(self).pending().insert(id@, slot),
            final(self).active() == old(self).active(),
            final(self).listener() == old(self).listener(),
            match start.displaced {
                Some(denial) => {
                    &&& old(self).pending().contains_key(id@)
                    &&& denial.id == id
                    &&& denial.slot == old(self).pending()[id@]
                    &&& denial.reason.deep_view() == Some(ID_COLLISION@)
                },
                None => !old(self).pending().contains_key(id@),
            },
    {
        let displaced = self.add_pending(id, slot);
        HandshakeStart { notice: TryConnectPayload { id, version }, displaced }
    }

    /// Puts a new connection before the application under a freshly
    /// allocated identifier, which the notification carries.
    ///
    /// The identifier is random; whichever it is, the handshake begins as
    /// [`WSServer::begin_handshake_with`] says for it.
    pub fn begin_handshake(&mut self, version: ApiVersion, slot: P) -> (start: HandshakeStart<P>)
        ensures
            is_random_uuid(start.notice.id@),
            start.notice.version@ == version@,
            final(self).pending() == old(self).pending().insert(start.notice.id@, slot),
            final(self).active() == old(self).active(),
            final(self).listener() == old(self).listener(),
            match start.displaced {
                Some(denial) => {
                    &&& old(self).pending().contains_key(start.notice.id@)
                    &&& denial.id == start.notice.id
                    &&& denial.slot == old(self).pending()[start.notice.id@]
                    &&& denial.reason.deep_view() == Some(ID_COLLISION@)
                },
                None => !old(self).pending().contains_key(start.notice.id@),
            },
    {
        let id = allocate();
        self.begin_handshake_with(id, version, slot)
    }

    /// Activates an accepted connection: `tx` becomes the send handle of `id`
    /// in the registry, before anything is read from the peer.
    ///
    /// Where a connection is already live under `id`, it is evicted as
    /// [`WSServer::insert`] says.
    pub fn activate(&mut self, id: ConnectionId, tx: S) -> (activation: Activation<S>)
        ensures
            activation.connection@ == ConnectionView::fresh(id@),
            final(self).active() == old(self).active().insert(id@, tx),
            final(self).pending() == old(self).pending(),
            final(self).listener() == old(self).listener(),
            lists_keys(activation.active@, final(self).active()),
            match activation.evicted {
                Some(order) => {
                    &&& old(self).active().contains_key(id@)
                    &&& order.id == id
                    &&& order.handle == old(self).active()[id@]
                    &&& order.frame@ == collision_frame()
                },
                None => !old(self).active().contains_key(id@),
            },
    {
        let connection = ClientWSConnection::new(id);
        let evicted = self.insert(id, tx);
        let active = self.connections();
        Activation { connection, evicted, active }
    }

    /// Tears down a connection whose read loop is over: its identifier
    /// leaves the registry, its peer is owed a close frame with the reason
    /// for closing, and the application is owed the terminal notification.
    ///
    /// A connection that is not closing is left alone, and so is the
    /// registry.
    pub fn teardown(&mut self, conn: &mut ClientWSConnection) -> (done: Teardown<S>)
        ensures
            final(self).pending() == old(self).pending(),
            final(self).listener() == old(self).listener(),
            final(conn)@ == old(conn)@.finished(),
            final(conn)@.well_formed(),
            done.active is Some && lists_keys(done.active->0@, final(self).active()),
            old(conn)@.state is Closing ==> {
                &&& final(self).active() == old(self).active().remove(old(conn)@.id)
                &&& done.notice is Some
                &&& done.notice->0.id@ == old(conn)@.id
                &&& done.notice->0.reason@ == old(conn)@.final_reason()
                &&& match done.order {
                    Some(order) => {
                        &&& old(self).active().contains_key(old(conn)@.id)
                        &&& order.id@ == old(conn)@.id
                        &&& order.handle == old(self).active()[old(conn)@.id]
                        &&& order.frame@ == closing_frame_spec(None, old(conn)@.reason)
                    },
                    None => !old(self).active().contains_key(old(conn)@.id),
                }
            },
            !(old(conn)@.state is Closing) ==> {
                &&& final(self).active() == old(self).active()
                &&& done.notice is None
                &&& done.order is None
            },
    {
        let id = *conn.id();
        let reason = conn.close_reason();
        let notice = conn.finish();
        let order = match &notice {
            Some(_) => match self.close(id, None, reason) {
                Ok(order) => Some(order),
                Err(_) => None,
            },
            None => None,
        };
        let active = Some(self.connections());
        Teardown { order, active, notice }
    }
}

} // verus!
