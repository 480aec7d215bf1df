use ws_gateway::api::ApiVersion;
use ws_gateway::event::WSConnectResponse;
use ws_gateway::handshake::{
    find_game, handshake_reply, negotiate, resolve_route, route_of, HandshakeError, Route,
};

fn pairs(items: &[(&str, &str)]) -> Vec<(String, String)> {
    items.iter().map(|(k, v)| (k.to_string(), v.to_string())).collect()
}

#[test]
fn root_path_is_the_legacy_variant() {
    assert_eq!(route_of("/"), Route::Legacy);
    assert_eq!(negotiate("/", ""), Ok(ApiVersion::V1));
    assert_eq!(negotiate("/", "game=chess"), Ok(ApiVersion::V1));
}

#[test]
fn game_in_path_with_or_without_closing_slash() {
    assert_eq!(route_of("/v2/chess"), Route::GameInPath("chess".to_string()));
    assert_eq!(route_of("/v2/chess/"), Route::GameInPath("chess".to_string()));
    assert_eq!(negotiate("/v2/chess", ""), Ok(ApiVersion::V2("chess".to_string())));
    assert_eq!(negotiate("/v2/chess/", ""), Ok(ApiVersion::V2("chess".to_string())));
    assert_eq!(negotiate("/v2/chess", "game=go"), Ok(ApiVersion::V2("chess".to_string())));
}

#[test]
fn game_in_query() {
    assert_eq!(route_of("/v2"), Route::GameInQuery);
    assert_eq!(route_of("/v2/"), Route::GameInQuery);
    assert_eq!(negotiate("/v2", "game=chess"), Ok(ApiVersion::V2("chess".to_string())));
    assert_eq!(negotiate("/v2/", "game=chess"), Ok(ApiVersion::V2("chess".to_string())));
    assert_eq!(negotiate("/v2", "a=1&game=go&b=2"), Ok(ApiVersion::V2("go".to_string())));
}

#[test]
fn path_and_query_name_the_same_variant() {
    assert_eq!(negotiate("/v2/my%20game", ""), negotiate("/v2", "game=my+game"));
    assert_eq!(negotiate("/v2/my%20game", ""), Ok(ApiVersion::V2("my game".to_string())));
    assert_eq!(negotiate("/v2", "game=a%2Fb"), Ok(ApiVersion::V2("a/b".to_string())));
    assert_eq!(negotiate("/v2/a%2Fb/", ""), Ok(ApiVersion::V2("a/b".to_string())));
    assert_eq!(negotiate("/v2/sch%C3%A4ch", ""), Ok(ApiVersion::V2("schäch".to_string())));
}

#[test]
fn named_request_without_a_game_is_malformed() {
    assert_eq!(negotiate("/v2", ""), Err(HandshakeError::MalformedRequest));
    assert_eq!(negotiate("/v2/", "name=chess"), Err(HandshakeError::MalformedRequest));
    assert_eq!(negotiate("/v2", "game=a&game=b"), Err(HandshakeError::MalformedRequest));
    assert_eq!(negotiate("/v2/%ff", ""), Err(HandshakeError::MalformedRequest));
}

#[test]
fn other_paths_are_unknown() {
    for path in ["", "/v1", "/v", "/v2x", "/v2//", "/v2/a/b", "/v2/a//", "/v2//a", "v2/a", "/V2/a", "//"] {
        assert_eq!(route_of(path), Route::Unknown, "{path}");
        assert_eq!(negotiate(path, "game=chess"), Err(HandshakeError::UnknownRoute), "{path}");
    }
}

#[test]
fn route_keeps_the_segment_as_it_stands() {
    assert_eq!(route_of("/v2/a%2Fb/"), Route::GameInPath("a%2Fb".to_string()));
    assert_eq!(route_of("/v2/ä"), Route::GameInPath("ä".to_string()));
}

#[test]
fn find_game_wants_exactly_one() {
    assert_eq!(find_game(&pairs(&[])), None);
    assert_eq!(find_game(&pairs(&[("game", "x")])), Some("x".to_string()));
    assert_eq!(find_game(&pairs(&[("a", "1"), ("game", ""), ("b", "2")])), Some(String::new()));
    assert_eq!(find_game(&pairs(&[("game", "x"), ("game", "x")])), None);
    assert_eq!(find_game(&pairs(&[("Game", "x"), ("games", "y")])), None);
}

#[test]
fn resolve_route_by_case() {
    let none = pairs(&[]);
    assert_eq!(resolve_route(Route::Legacy, None, &none), Ok(ApiVersion::V1));
    assert_eq!(
        resolve_route(Route::GameInPath("a%20b".to_string()), Some("a b".to_string()), &none),
        Ok(ApiVersion::V2("a b".to_string()))
    );
    assert_eq!(
        resolve_route(Route::GameInPath("%ff".to_string()), None, &pairs(&[("game", "x")])),
        Err(HandshakeError::MalformedRequest)
    );
    assert_eq!(
        resolve_route(Route::GameInQuery, Some("ignored".to_string()), &pairs(&[("game", "x")])),
        Ok(ApiVersion::V2("x".to_string()))
    );
    assert_eq!(resolve_route(Route::GameInQuery, None, &none), Err(HandshakeError::MalformedRequest));
    assert_eq!(
        resolve_route(Route::Unknown, Some("x".to_string()), &pairs(&[("game", "x")])),
        Err(HandshakeError::UnknownRoute)
    );
}

#[test]
fn reply_accepts_denies_or_reports_abandonment() {
    assert_eq!(handshake_reply(Some(WSConnectResponse::Accept(5u8))), Ok(5u8));
    assert_eq!(
        handshake_reply(Some(WSConnectResponse::<u8>::Deny(Some("no".to_string())))),
        Err(HandshakeError::Denied(Some("no".to_string())))
    );
    assert_eq!(
        handshake_reply(Some(WSConnectResponse::<u8>::Deny(None))),
        Err(HandshakeError::Denied(None))
    );
    assert_eq!(handshake_reply::<u8>(None), Err(HandshakeError::ApprovalAbandoned));
}

#[test]
fn rejections_carry_status_and_body() {
    assert_eq!(HandshakeError::Denied(Some("no".to_string())).rejection(), (400, "no".to_string()));
    assert_eq!(HandshakeError::Denied(None).rejection(), (400, String::new()));
    assert_eq!(HandshakeError::ApprovalAbandoned.rejection(), (500, "erm".to_string()));
    assert_eq!(HandshakeError::MalformedRequest.rejection(), (400, String::new()));
    assert_eq!(HandshakeError::UnknownRoute.rejection(), (404, String::new()));
}
