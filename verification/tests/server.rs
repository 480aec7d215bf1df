use ws_gateway::api::ApiVersion;
use ws_gateway::error::GatewayError;
use ws_gateway::event::WSConnectResponse;
use ws_gateway::frame::{closing_frame, CloseFrame, Frame};
use ws_gateway::id::{allocate, ConnectionId};
use ws_gateway::server::WSServer;

type Server = WSServer<&'static str, u32, String>;

fn close(code: u16, reason: &str) -> Frame {
    Frame::Close(Some(CloseFrame { code, reason: reason.to_string() }))
}

#[test]
fn new_server_has_empty_tables() {
    let server = Server::new("listener");
    assert!(server.connections().is_empty());
    assert!(server.pending_connections().is_empty());
}

#[test]
fn allocate_gives_version_four_uuids() {
    for _ in 0..32 {
        let id = allocate();
        let uuid = uuid::Uuid::from_u128(id.0);
        assert_eq!(uuid.get_version_num(), 4);
        assert_eq!(id.0 & 0x0000_0000_0000_f000_c000_0000_0000_0000, 0x0000_0000_0000_4000_8000_0000_0000_0000);
    }
}

#[test]
fn identifier_text_is_the_hyphenated_uuid() {
    let id = ConnectionId(0xa1a2a3a4_b1b2_c1c2_d1d2_d3d4d5d6d7d8);
    assert_eq!(id.to_text(), "a1a2a3a4-b1b2-c1c2-d1d2-d3d4d5d6d7d8");
    assert_eq!(ConnectionId(0).to_text(), "00000000-0000-0000-0000-000000000000");
}

#[test]
fn add_pending_displaces_the_earlier_slot() {
    let mut server = Server::new("listener");
    let id = ConnectionId(7);
    assert!(server.add_pending(id, 1).is_none());
    let displaced = server.add_pending(id, 2).expect("the first slot is displaced");
    assert_eq!(displaced.id, id);
    assert_eq!(displaced.slot, 1);
    assert_eq!(displaced.reason.as_deref(), Some("id collision"));
    assert_eq!(server.pending_connections(), vec![id]);
    assert_eq!(server.take_pending(id), Some(2));
    assert_eq!(server.take_pending(id), None);
}

#[test]
fn colliding_handshakes_deny_the_earlier_one() {
    let mut server = Server::new("listener");
    let id = ConnectionId(42);
    let first = server.begin_handshake_with(id, ApiVersion::V1, 1);
    assert!(first.displaced.is_none());
    assert_eq!(first.notice.id, id);
    assert_eq!(first.notice.version, ApiVersion::V1);
    let second = server.begin_handshake_with(id, ApiVersion::V2("chess".to_string()), 2);
    let denial = second.displaced.expect("the earlier handshake is denied");
    assert_eq!(denial.slot, 1);
    assert_eq!(denial.reason.as_deref(), Some("id collision"));
    assert_eq!(second.notice.version, ApiVersion::V2("chess".to_string()));
    let delivery = server
        .resolve_pending(id, WSConnectResponse::Accept("sink"))
        .expect("the later handshake proceeds");
    assert_eq!(delivery.slot, 2);
    assert!(matches!(delivery.response, WSConnectResponse::Accept("sink")));
}

#[test]
fn colliding_connections_close_the_earlier_one() {
    let mut server = Server::new("listener");
    let id = ConnectionId(42);
    assert!(server.insert(id, "first".to_string()).is_none());
    let evicted = server.insert(id, "second".to_string()).expect("the earlier handle is evicted");
    assert_eq!(evicted.id, id);
    assert_eq!(evicted.handle, "first");
    assert_eq!(evicted.frame, close(1002, "new incoming connection collided with yours"));
    assert_eq!(server.connections(), vec![id]);
    let (handle, _) = server.send(id, "x".to_string()).expect("the later connection is live");
    assert_eq!(handle, "second");
}

#[test]
fn begin_handshake_registers_a_fresh_identifier() {
    let mut server = Server::new("listener");
    let start = server.begin_handshake(ApiVersion::V1, 9);
    assert!(start.displaced.is_none());
    assert_eq!(server.pending_connections(), vec![start.notice.id]);
    assert_eq!(uuid::Uuid::from_u128(start.notice.id.0).get_version_num(), 4);
}

#[test]
fn resolve_pending_twice_fails_the_second_time() {
    let mut server = Server::new("listener");
    let id = ConnectionId(5);
    server.add_pending(id, 11);
    let first = server.resolve_pending(id, WSConnectResponse::<u8>::Deny(Some("no".to_string())));
    let delivery = first.expect("the first resolution succeeds");
    assert_eq!(delivery.slot, 11);
    assert!(matches!(delivery.response, WSConnectResponse::Deny(Some(ref r)) if r == "no"));
    let second = server.resolve_pending(id, WSConnectResponse::<u8>::Deny(None));
    assert_eq!(second.err(), Some(GatewayError::NotPending(id)));
}

#[test]
fn deny_creates_no_connection() {
    let mut server = Server::new("listener");
    let id = ConnectionId(5);
    server.add_pending(id, 11);
    server.resolve_pending(id, WSConnectResponse::<u8>::Deny(None)).expect("pending");
    assert!(server.connections().is_empty());
    assert!(server.pending_connections().is_empty());
}

#[test]
fn send_and_close_on_a_missing_connection_are_not_found() {
    let mut server = Server::new("listener");
    let id = ConnectionId(1);
    assert_eq!(server.send(id, "hi".to_string()).err(), Some(GatewayError::NotFound(id)));
    assert_eq!(server.close(id, None, None).err(), Some(GatewayError::NotFound(id)));
    assert_eq!(server.remove(id), None);
    server.add_pending(id, 3);
    assert_eq!(server.send(id, "hi".to_string()).err(), Some(GatewayError::NotFound(id)));
    assert_eq!(server.close(id, Some(1000), None).err(), Some(GatewayError::NotFound(id)));
}

#[test]
fn send_lends_the_handle_and_keeps_the_entry() {
    let mut server = Server::new("listener");
    let id = ConnectionId(1);
    server.insert(id, "tx".to_string());
    {
        let (handle, frame) = server.send(id, "hello".to_string()).expect("live");
        assert_eq!(frame, Frame::Text("hello".to_string()));
        handle.push_str("+sent");
    }
    assert_eq!(server.connections(), vec![id]);
    assert_eq!(server.remove(id), Some("tx+sent".to_string()));
    assert_eq!(server.remove(id), None);
}

#[test]
fn close_removes_the_entry_and_builds_the_frame() {
    let mut server = Server::new("listener");
    let id = ConnectionId(1);
    server.insert(id, "tx".to_string());
    let order = server.close(id, None, Some("bye".to_string())).expect("live");
    assert_eq!(order.id, id);
    assert_eq!(order.handle, "tx");
    assert_eq!(order.frame, close(1000, "bye"));
    assert!(server.connections().is_empty());
    server.insert(id, "tx".to_string());
    let order = server.close(id, Some(4000), None).expect("live");
    assert_eq!(order.frame, close(4000, ""));
    server.insert(id, "tx".to_string());
    let order = server.close(id, None, None).expect("live");
    assert_eq!(order.frame, close(1000, ""));
}

#[test]
fn closing_frame_defaults() {
    assert_eq!(closing_frame(None, None), close(1000, ""));
    assert_eq!(closing_frame(Some(1001), None), close(1001, ""));
    assert_eq!(closing_frame(None, Some("r".to_string())), close(1000, "r"));
    assert_eq!(closing_frame(Some(3000), Some("r".to_string())), close(3000, "r"));
}

#[test]
fn connections_are_listed_in_increasing_order() {
    let mut server = Server::new("listener");
    for bits in [9u128, 3, 7, u128::MAX, 0] {
        server.insert(ConnectionId(bits), bits.to_string());
    }
    let ids: Vec<u128> = server.connections().iter().map(|id| id.0).collect();
    assert_eq!(ids, vec![0, 3, 7, 9, u128::MAX]);
}

#[test]
fn shutdown_denies_pending_and_closes_active() {
    let mut server = Server::new("listener");
    let pending = ConnectionId(1);
    let active = ConnectionId(2);
    server.add_pending(pending, 10);
    server.insert(active, "tx".to_string());
    let plan = server.shutdown_all();
    assert_eq!(plan.denials.len(), 1);
    assert_eq!(plan.denials[0].id, pending);
    assert_eq!(plan.denials[0].slot, 10);
    assert_eq!(plan.denials[0].reason.as_deref(), Some("server shutting down"));
    assert_eq!(plan.closures.len(), 1);
    assert_eq!(plan.closures[0].id, active);
    assert_eq!(plan.closures[0].handle, "tx");
    assert_eq!(plan.closures[0].frame, close(1001, "server shutting down"));
    assert!(server.connections().is_empty());
    assert!(server.pending_connections().is_empty());
}

#[test]
fn stop_releases_the_listener_after_the_plan() {
    let mut server = Server::new("listener");
    server.add_pending(ConnectionId(30), 3);
    server.add_pending(ConnectionId(10), 1);
    server.insert(ConnectionId(20), "b".to_string());
    server.insert(ConnectionId(5), "a".to_string());
    let (plan, listener) = server.stop();
    assert_eq!(listener, "listener");
    let denied: Vec<(u128, u32)> = plan.denials.iter().map(|d| (d.id.0, d.slot)).collect();
    assert_eq!(denied, vec![(10, 1), (30, 3)]);
    let closed: Vec<(u128, &str)> = plan.closures.iter().map(|c| (c.id.0, c.handle.as_str())).collect();
    assert_eq!(closed, vec![(5, "a"), (20, "b")]);
}

#[test]
fn errors_are_described_for_the_caller() {
    let id = ConnectionId(0xa1a2a3a4_b1b2_c1c2_d1d2_d3d4d5d6d7d8);
    assert_eq!(
        GatewayError::NotFound(id).describe("ws_close"),
        "connection not found @ a1a2a3a4-b1b2-c1c2-d1d2-d3d4d5d6d7d8"
    );
    assert_eq!(
        GatewayError::NotPending(id).describe("ws_accept"),
        "ws_accept: no pending connection found for id a1a2a3a4-b1b2-c1c2-d1d2-d3d4d5d6d7d8"
    );
    assert_eq!(GatewayError::ServerNotRunning.describe("ws_send"), "ws_send: server not running");
    assert_eq!(GatewayError::ServerAlreadyRunning.describe("start_server"), "Server already running");
    assert_eq!(GatewayError::NotFound(id).describe_with("x", "ID"), "connection not found @ ID");
}
