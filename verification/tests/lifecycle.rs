use ws_gateway::event::ServerWSEvent;
use ws_gateway::frame::{CloseFrame, Frame};
use ws_gateway::id::ConnectionId;
use ws_gateway::server::WSServer;
use ws_gateway::state::App;
use ws_gateway::ws::{ClientWSConnection, ConnectionClosed, LifecycleState};

type Server = WSServer<(), u32, String>;

fn text(s: &str) -> Result<Frame, String> {
    Ok(Frame::Text(s.to_string()))
}

fn peer_close(code: u16, reason: &str) -> Result<Frame, String> {
    Ok(Frame::Close(Some(CloseFrame { code, reason: reason.to_string() })))
}

#[test]
fn text_then_close_is_relayed_in_order() {
    let id = ConnectionId(77);
    let mut server = Server::new(());
    let activation = server.activate(id, "tx".to_string());
    let mut conn = activation.connection;
    assert!(activation.evicted.is_none());
    assert_eq!(activation.active, vec![id]);
    let (events, outcome) = conn.lifecycle(vec![text("hello"), peer_close(1000, "bye")]);
    assert_eq!(
        events,
        vec![
            ServerWSEvent::Connected,
            ServerWSEvent::Message { text: "hello".to_string() },
            ServerWSEvent::ClientDisconnected { code: 1000, reason: Some("bye".to_string()) },
        ]
    );
    assert_eq!(outcome, Ok(()));
    assert_eq!(conn.state(), LifecycleState::Closing);
    let done = server.teardown(&mut conn);
    assert_eq!(done.active, Some(vec![]));
    assert!(server.connections().is_empty());
    let order = done.order.expect("the handle leaves the registry");
    assert_eq!(order.handle, "tx");
    assert_eq!(order.frame, Frame::Close(Some(CloseFrame { code: 1000, reason: String::new() })));
    assert_eq!(done.notice, Some(ConnectionClosed { id, reason: "normal closure".to_string() }));
    assert_eq!(conn.state(), LifecycleState::Closed);
}

#[test]
fn binary_frame_is_a_protocol_error() {
    let id = ConnectionId(78);
    let mut server = Server::new(());
    let mut conn = server.activate(id, "tx".to_string()).connection;
    let (events, outcome) = conn.lifecycle(vec![Ok(Frame::Binary(vec![1, 2, 3])), text("late")]);
    assert_eq!(
        events,
        vec![
            ServerWSEvent::Connected,
            ServerWSEvent::ProtocolError { err: "received binary message".to_string() },
        ]
    );
    assert_eq!(outcome, Err("received binary message".to_string()));
    let done = server.teardown(&mut conn);
    assert_eq!(conn.state(), LifecycleState::Closed);
    assert!(!server.connections().contains(&id));
    let order = done.order.expect("the handle leaves the registry");
    assert_eq!(
        order.frame,
        Frame::Close(Some(CloseFrame { code: 1000, reason: "received binary message".to_string() }))
    );
    assert_eq!(
        done.notice,
        Some(ConnectionClosed { id, reason: "received binary message".to_string() })
    );
}

#[test]
fn pings_and_pongs_are_ignored() {
    let mut conn = ClientWSConnection::new(ConnectionId(1));
    let (events, outcome) = conn.lifecycle(vec![
        Ok(Frame::Ping(vec![1])),
        text("a"),
        Ok(Frame::Pong(vec![])),
        text("b"),
    ]);
    assert_eq!(
        events,
        vec![
            ServerWSEvent::Connected,
            ServerWSEvent::Message { text: "a".to_string() },
            ServerWSEvent::Message { text: "b".to_string() },
        ]
    );
    assert_eq!(outcome, Ok(()));
    assert_eq!(conn.state(), LifecycleState::Closing);
    assert_eq!(conn.close_reason(), None);
}

#[test]
fn empty_close_frame_counts_as_normal() {
    let mut conn = ClientWSConnection::new(ConnectionId(1));
    let (events, outcome) = conn.lifecycle(vec![Ok(Frame::Close(None))]);
    assert_eq!(
        events,
        vec![ServerWSEvent::Connected, ServerWSEvent::ClientDisconnected { code: 1000, reason: None }]
    );
    assert_eq!(outcome, Ok(()));
}

#[test]
fn close_frame_keeps_code_and_reason() {
    let mut conn = ClientWSConnection::new(ConnectionId(1));
    let (events, _) = conn.lifecycle(vec![peer_close(3000, "SOME")]);
    assert_eq!(
        events[1],
        ServerWSEvent::ClientDisconnected { code: 3000, reason: Some("SOME".to_string()) }
    );
}

#[test]
fn transport_error_becomes_the_reason() {
    let mut conn = ClientWSConnection::new(ConnectionId(1));
    let (events, outcome) = conn.lifecycle(vec![text("a"), Err("connection reset".to_string()), text("b")]);
    assert_eq!(
        events,
        vec![ServerWSEvent::Connected, ServerWSEvent::Message { text: "a".to_string() }]
    );
    assert_eq!(outcome, Err("connection reset".to_string()));
    let notice = conn.finish().expect("closing");
    assert_eq!(notice.reason, "connection reset");
}

#[test]
fn stepwise_driver_follows_the_states() {
    let mut conn = ClientWSConnection::new(ConnectionId(9));
    assert_eq!(*conn.id(), ConnectionId(9));
    assert_eq!(conn.state(), LifecycleState::Accepted);
    assert_eq!(conn.receive(Some(text("early"))), None);
    assert_eq!(conn.finish(), None);
    assert_eq!(conn.state(), LifecycleState::Accepted);
    assert_eq!(conn.open(), Some(ServerWSEvent::Connected));
    assert_eq!(conn.open(), None);
    assert_eq!(conn.state(), LifecycleState::Active);
    assert_eq!(conn.finish(), None);
    assert_eq!(
        conn.receive(Some(text("x"))),
        Some(ServerWSEvent::Message { text: "x".to_string() })
    );
    conn.delivery_failed("sink closed".to_string());
    assert_eq!(conn.state(), LifecycleState::Active);
    assert_eq!(conn.close_reason(), None);
    assert_eq!(conn.receive(None), None);
    assert_eq!(conn.state(), LifecycleState::Closing);
    assert_eq!(conn.receive(Some(text("late"))), None);
    assert_eq!(conn.open(), None);
    let notice = conn.finish().expect("closing");
    assert_eq!(notice, ConnectionClosed { id: ConnectionId(9), reason: "normal closure".to_string() });
    assert_eq!(conn.state(), LifecycleState::Closed);
    assert_eq!(conn.finish(), None);
    assert_eq!(conn.receive(Some(text("late"))), None);
    assert_eq!(conn.open(), None);
    assert_eq!(conn.state(), LifecycleState::Closed);
}

#[test]
fn refused_disconnect_notice_becomes_the_reason() {
    let mut conn = ClientWSConnection::new(ConnectionId(9));
    conn.open();
    let event = conn.receive(Some(peer_close(1001, "gone")));
    assert_eq!(
        event,
        Some(ServerWSEvent::ClientDisconnected { code: 1001, reason: Some("gone".to_string()) })
    );
    conn.delivery_failed("channel closed".to_string());
    assert_eq!(conn.close_reason(), Some("channel closed".to_string()));
    conn.delivery_failed("again".to_string());
    assert_eq!(conn.close_reason(), Some("channel closed".to_string()));
    assert_eq!(conn.finish().expect("closing").reason, "channel closed");
}

#[test]
fn refused_protocol_error_changes_nothing() {
    let mut conn = ClientWSConnection::new(ConnectionId(9));
    conn.open();
    conn.receive(Some(Ok(Frame::Binary(vec![]))));
    conn.delivery_failed("channel closed".to_string());
    assert_eq!(conn.close_reason(), Some("received binary message".to_string()));
}

#[test]
fn drivers_are_equal_by_identifier() {
    let mut a = ClientWSConnection::new(ConnectionId(1));
    let b = ClientWSConnection::new(ConnectionId(1));
    let c = ClientWSConnection::new(ConnectionId(2));
    a.open();
    assert!(a == b);
    assert!(b != c);
}

#[test]
fn teardown_of_an_active_connection_does_nothing() {
    let id = ConnectionId(3);
    let mut server = Server::new(());
    let mut conn = server.activate(id, "tx".to_string()).connection;
    conn.open();
    let done = server.teardown(&mut conn);
    assert!(done.order.is_none());
    assert!(done.notice.is_none());
    assert_eq!(done.active, Some(vec![id]));
    assert_eq!(conn.state(), LifecycleState::Active);
}

#[test]
fn teardown_after_an_administrative_close_finds_no_handle() {
    let id = ConnectionId(3);
    let mut server = Server::new(());
    let mut conn = server.activate(id, "tx".to_string()).connection;
    conn.open();
    server.close(id, Some(1000), None).expect("live");
    conn.receive(Some(peer_close(1000, "")));
    let done = server.teardown(&mut conn);
    assert!(done.order.is_none());
    assert_eq!(done.notice.expect("closing").reason, "normal closure");
}

#[test]
fn teardown_on_a_stopped_gateway_still_notifies() {
    let mut app: App<(), u32, String> = App::new();
    let mut conn = ClientWSConnection::new(ConnectionId(4));
    conn.lifecycle(vec![]);
    let done = app.teardown(&mut conn);
    assert!(done.order.is_none());
    assert_eq!(done.active, None);
    assert_eq!(done.notice.expect("closing").reason, "normal closure");
    assert_eq!(conn.state(), LifecycleState::Closed);
}

#[test]
fn teardown_on_a_running_gateway_removes_the_entry() {
    let mut app: App<(), u32, String> = App::new();
    app.start_server(()).expect("stopped");
    let id = ConnectionId(4);
    let mut conn = app.server_mut().expect("running").activate(id, "tx".to_string()).connection;
    conn.lifecycle(vec![Err("eof".to_string())]);
    let done = app.teardown(&mut conn);
    assert_eq!(done.active, Some(vec![]));
    assert_eq!(
        done.order.expect("live").frame,
        Frame::Close(Some(CloseFrame { code: 1000, reason: "eof".to_string() }))
    );
}
