use hyper::header::HeaderValue;
use hyper::HeaderMap;
use hyper_tungstenite::{
    is_upgrade_request, negotiate, upgrade, HyperWebsocket, ProtocolError, UpgradeState,
};

fn headers(pairs: &[(&'static str, &'static str)]) -> HeaderMap {
    let mut map = HeaderMap::new();
    for (name, value) in pairs {
        map.append(*name, HeaderValue::from_static(value));
    }
    map
}

fn request(pairs: &[(&'static str, &'static str)]) -> hyper::Request<()> {
    let mut builder = hyper::Request::builder().uri("/foo");
    for (name, value) in pairs {
        builder = builder.header(*name, *value);
    }
    builder.body(()).unwrap()
}

fn accept_of(key: &'static str) -> String {
    let response = negotiate(&headers(&[
        ("Sec-WebSocket-Key", key),
        ("Sec-WebSocket-Version", "13"),
    ]))
    .unwrap();
    response.headers[2].1.clone()
}

fn runtime() -> tokio::runtime::Runtime {
    tokio::runtime::Builder::new_current_thread().enable_all().build().unwrap()
}

#[test]
fn accept_key_of_rfc_example() {
    assert_eq!(accept_of("dGhlIHNhbXBsZSBub25jZQ=="), "s3pPLMBiTxaQ9kYGzzhZRbK+xOo=");
}

#[test]
fn accept_key_is_the_same_for_the_same_key() {
    let first = accept_of("dGhlIHNhbXBsZSBub25jZQ==");
    let second = accept_of("dGhlIHNhbXBsZSBub25jZQ==");
    assert_eq!(first, second);
    assert_ne!(first, accept_of("x3JJHMbDL1EzLkh9GBhXDw=="));
}

#[test]
fn upgrade_request_with_both_headers() {
    assert!(is_upgrade_request(&headers(&[("Connection", "Upgrade"), ("Upgrade", "websocket")])));
}

#[test]
fn upgrade_request_missing_a_header() {
    assert!(!is_upgrade_request(&headers(&[("Upgrade", "websocket")])));
    assert!(!is_upgrade_request(&headers(&[("Connection", "Upgrade")])));
    assert!(!is_upgrade_request(&headers(&[])));
}

#[test]
fn upgrade_request_among_several_protocols() {
    assert!(is_upgrade_request(&headers(&[
        ("Connection", "Upgrade"),
        ("Upgrade", "chat, websocket"),
    ])));
}

#[test]
fn upgrade_request_with_keep_alive_only() {
    assert!(!is_upgrade_request(&headers(&[
        ("Connection", "keep-alive"),
        ("Upgrade", "websocket"),
    ])));
}

#[test]
fn upgrade_request_ignores_case() {
    assert!(is_upgrade_request(&headers(&[("Connection", "UPGRADE"), ("Upgrade", "WebSocket")])));
}

#[test]
fn upgrade_request_over_repeated_lines() {
    assert!(is_upgrade_request(&headers(&[
        ("Connection", "keep-alive"),
        ("Connection", " upgrade "),
        ("Upgrade", "websocket"),
    ])));
}

#[test]
fn upgrade_request_same_answer_twice() {
    let map = headers(&[("Connection", "keep-alive, Upgrade"), ("Upgrade", "websocket")]);
    assert_eq!(is_upgrade_request(&map), is_upgrade_request(&map));
    assert!(is_upgrade_request(&map));
}

#[test]
fn upgrade_without_key() {
    let mut req = request(&[("Sec-WebSocket-Version", "13")]);
    assert!(matches!(upgrade(&mut req, None), Err(ProtocolError::MissingKey)));
}

#[test]
fn upgrade_with_version_twelve() {
    let mut req = request(&[
        ("Sec-WebSocket-Key", "dGhlIHNhbXBsZSBub25jZQ=="),
        ("Sec-WebSocket-Version", "12"),
    ]);
    assert!(matches!(upgrade(&mut req, None), Err(ProtocolError::MissingOrInvalidVersion)));
}

#[test]
fn upgrade_without_version() {
    let mut req = request(&[("Sec-WebSocket-Key", "dGhlIHNhbXBsZSBub25jZQ==")]);
    assert!(matches!(upgrade(&mut req, None), Err(ProtocolError::MissingOrInvalidVersion)));
}

#[test]
fn upgrade_checks_the_key_first() {
    let mut req = request(&[("Sec-WebSocket-Version", "12")]);
    assert!(matches!(upgrade(&mut req, None), Err(ProtocolError::MissingKey)));
}

#[test]
fn upgrade_valid_request() {
    let mut req = request(&[
        ("Connection", "Upgrade"),
        ("Upgrade", "websocket"),
        ("Sec-WebSocket-Key", "dGhlIHNhbXBsZSBub25jZQ=="),
        ("Sec-WebSocket-Version", "13"),
    ]);
    let (response, websocket) = upgrade(&mut req, None).unwrap();
    assert_eq!(response.status(), 101);
    assert_eq!(response.headers()["connection"], "upgrade");
    assert_eq!(response.headers()["upgrade"], "websocket");
    let accept = response.headers()["sec-websocket-accept"].to_str().unwrap();
    assert!(!accept.is_empty());
    assert_eq!(accept.len(), 28);
    assert_eq!(response.headers().len(), 3);
    assert_eq!(accept, accept_of("dGhlIHNhbXBsZSBub25jZQ=="));
    assert_eq!(websocket.state(), UpgradeState::Waiting);
}

#[test]
fn negotiate_builds_the_switching_response() {
    let response = negotiate(&headers(&[
        ("Sec-WebSocket-Key", "x3JJHMbDL1EzLkh9GBhXDw=="),
        ("Sec-WebSocket-Version", "13"),
    ]))
    .unwrap();
    assert_eq!(response.status, 101);
    let fields: Vec<(&str, &str)> =
        response.headers.iter().map(|(n, v)| (n.as_str(), v.as_str())).collect();
    assert_eq!(
        fields,
        vec![
            ("connection", "upgrade"),
            ("upgrade", "websocket"),
            ("sec-websocket-accept", "HSmrc0sMlYUkAGmm5OPpG2HaGWk="),
        ]
    );
    assert_eq!(response.body, "switching to websocket protocol");
}

#[test]
fn pending_upgrade_without_transport_fails() {
    let mut req = request(&[
        ("Sec-WebSocket-Key", "dGhlIHNhbXBsZSBub25jZQ=="),
        ("Sec-WebSocket-Version", "13"),
    ]);
    let (_response, mut websocket): (_, HyperWebsocket) = upgrade(&mut req, None).unwrap();
    let handoff = runtime().block_on(&mut websocket.handle);
    assert!(handoff.is_err());
    let outcome = websocket.resolve(handoff);
    assert!(matches!(outcome, Err(ProtocolError::HandshakeIncomplete)));
    assert_eq!(websocket.state(), UpgradeState::Failed);
}
