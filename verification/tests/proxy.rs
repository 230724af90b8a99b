use miniproxy::error::ProxyError;
use miniproxy::head::connection_established;
use miniproxy::head::is_connect_method;
use miniproxy::head::parse_request;
use miniproxy::head::resolve_target;
use miniproxy::session::next_connection_id;
use miniproxy::session::session_start;
use miniproxy::session::step;
use miniproxy::session::step_allowed;
use miniproxy::session::Action;
use miniproxy::session::Event;
use miniproxy::session::SessionState;
use miniproxy::text::check_utf8;

#[test]
fn utf8_accepts_ascii() {
    assert!(check_utf8(b""));
    assert!(check_utf8(b"GET / HTTP/1.1\r\nHost: example.com\r\n\r\n"));
}

#[test]
fn utf8_accepts_multibyte() {
    assert!(check_utf8("héllo".as_bytes()));
    assert!(check_utf8("\u{20ac}".as_bytes()));
    assert!(check_utf8("\u{1F600}".as_bytes()));
    assert!(check_utf8(&[0xC3, 0xA9]));
    assert!(check_utf8(&[0xF0, 0x9F, 0x98, 0x80]));
}

#[test]
fn utf8_rejects_stray_bytes() {
    assert!(!check_utf8(&[0xFF]));
    assert!(!check_utf8(&[0x80]));
    assert!(!check_utf8(b"GET \xFF HTTP/1.1"));
}

#[test]
fn utf8_rejects_overlong() {
    assert!(!check_utf8(&[0xC0, 0x80]));
    assert!(!check_utf8(&[0xC1, 0xBF]));
    assert!(!check_utf8(&[0xE0, 0x80, 0x80]));
    assert!(!check_utf8(&[0xF0, 0x80, 0x80, 0x80]));
}

#[test]
fn utf8_rejects_surrogates_and_high_values() {
    assert!(!check_utf8(&[0xED, 0xA0, 0x80]));
    assert!(!check_utf8(&[0xF4, 0x90, 0x80, 0x80]));
    assert!(!check_utf8(&[0xF5, 0x80, 0x80, 0x80]));
}

#[test]
fn utf8_rejects_truncated_sequences() {
    assert!(!check_utf8(&[0xC3]));
    assert!(!check_utf8(&[0xE2, 0x82]));
    assert!(!check_utf8(&[0xF0, 0x9F, 0x98]));
}

#[test]
fn parse_extracts_method_and_host() {
    let head = b"CONNECT example.com:443 HTTP/1.1\r\nHost: example.com:443\r\n\r\n";
    let parsed = parse_request(head).unwrap();
    assert_eq!(parsed.method, b"CONNECT".to_vec());
    assert_eq!(parsed.host, b"example.com:443".to_vec());
}

#[test]
fn parse_extracts_plain_request() {
    let head = b"GET / HTTP/1.1\r\nHost: example.com\r\n\r\n";
    let parsed = parse_request(head).unwrap();
    assert_eq!(parsed.method, b"GET".to_vec());
    assert_eq!(parsed.host, b"example.com".to_vec());
}

#[test]
fn parse_rejects_empty_input() {
    assert_eq!(parse_request(b"").unwrap_err(), ProxyError::ParseFailure);
}

#[test]
fn parse_rejects_short_request() {
    assert_eq!(parse_request(b"GET /").unwrap_err(), ProxyError::ParseFailure);
    assert_eq!(
        parse_request(b"GET / HTTP/1.1 Host:").unwrap_err(),
        ProxyError::ParseFailure
    );
}

#[test]
fn parse_rejects_non_text() {
    assert_eq!(
        parse_request(b"GET / HTTP/1.1\r\nHost: \xFF\r\n\r\n").unwrap_err(),
        ProxyError::ParseFailure
    );
}

#[test]
fn parse_accepts_exactly_five_tokens() {
    let parsed = parse_request(b"GET / HTTP/1.1 Host: example.com").unwrap();
    assert_eq!(parsed.host, b"example.com".to_vec());
}

#[test]
fn parse_handles_a_full_size_head() {
    let mut head = b"GET / HTTP/1.1\r\nHost: example.com\r\n".to_vec();
    while head.len() < miniproxy::head::MAX_HEAD_BYTES - 2 {
        head.push(b' ');
    }
    head.push(b'\r');
    head.push(b'\n');
    assert_eq!(head.len(), miniproxy::head::MAX_HEAD_BYTES);
    let parsed = parse_request(&head).unwrap();
    assert_eq!(parsed.method, b"GET".to_vec());
    assert_eq!(parsed.host, b"example.com".to_vec());
}

#[test]
fn connect_method_is_recognised() {
    assert!(is_connect_method(b"CONNECT"));
    assert!(!is_connect_method(b"GET"));
    assert!(!is_connect_method(b"CONNECTX"));
    assert!(!is_connect_method(b"connect"));
    assert!(!is_connect_method(b""));
}

#[test]
fn target_keeps_connect_host_as_given() {
    assert_eq!(
        resolve_target(b"CONNECT", b"example.com:443"),
        b"example.com:443".to_vec()
    );
}

#[test]
fn target_appends_port_80_for_plain_requests() {
    assert_eq!(
        resolve_target(b"GET", b"example.com"),
        b"example.com:80".to_vec()
    );
    assert_eq!(resolve_target(b"POST", b"a"), b"a:80".to_vec());
}

#[test]
fn established_response_is_the_literal_line() {
    assert_eq!(
        connection_established(),
        b"HTTP/1.1 200 Connection Established\r\n\r\n".to_vec()
    );
}

#[test]
fn session_starts_by_reading_the_head() {
    let (state, action) = session_start();
    assert!(matches!(state, SessionState::Accepted));
    assert!(matches!(action, Action::AwaitHead));
}

#[test]
fn connect_tunnel_scenario() {
    let head = b"CONNECT example.com:443 HTTP/1.1\r\nHost: example.com:443\r\n\r\n".to_vec();
    let (state, _) = session_start();

    let (state, action) = step(state, Event::HeadArrived(head));
    match &action {
        Action::Connect(target) => assert_eq!(target, &b"example.com:443".to_vec()),
        other => panic!("expected a connect action, got {:?}", describe(other)),
    }
    assert!(matches!(state, SessionState::Parsed { connect: true, .. }));

    let (state, action) = step(state, Event::ConnectSucceeded);
    match &action {
        Action::WriteClient(bytes) => {
            assert_eq!(bytes, &b"HTTP/1.1 200 Connection Established\r\n\r\n".to_vec())
        }
        other => panic!("expected a client write, got {:?}", describe(other)),
    }
    assert!(matches!(state, SessionState::Connected));

    let (state, action) = step(state, Event::WriteSucceeded);
    assert!(matches!(action, Action::Relay));
    assert!(matches!(state, SessionState::Relaying));

    let (state, action) = step(state, Event::RelayFinished);
    assert!(matches!(action, Action::Close(None)));
    assert!(matches!(state, SessionState::Closed { failure: None }));
}

#[test]
fn plain_request_scenario() {
    let head = b"GET / HTTP/1.1\r\nHost: example.com\r\n\r\n".to_vec();
    let (state, action) = step(SessionState::Accepted, Event::HeadArrived(head.clone()));
    match &action {
        Action::Connect(target) => assert_eq!(target, &b"example.com:80".to_vec()),
        other => panic!("expected a connect action, got {:?}", describe(other)),
    }
    assert!(matches!(state, SessionState::Parsed { connect: false, .. }));

    let (state, action) = step(state, Event::ConnectSucceeded);
    match &action {
        Action::WriteOrigin(bytes) => assert_eq!(bytes, &head),
        other => panic!("expected an origin write, got {:?}", describe(other)),
    }
    assert!(matches!(state, SessionState::Connected));

    let (_, action) = step(state, Event::WriteSucceeded);
    assert!(matches!(action, Action::Relay));
}

#[test]
fn short_request_closes_without_forwarding() {
    let (state, action) = step(SessionState::Accepted, Event::HeadArrived(b"GET /".to_vec()));
    assert!(matches!(
        action,
        Action::Close(Some(ProxyError::ParseFailure))
    ));
    assert!(matches!(
        state,
        SessionState::Closed {
            failure: Some(ProxyError::ParseFailure)
        }
    ));
}

#[test]
fn empty_head_closes_without_forwarding() {
    let (state, _) = step(SessionState::Accepted, Event::HeadArrived(Vec::new()));
    assert!(matches!(
        state,
        SessionState::Closed {
            failure: Some(ProxyError::ParseFailure)
        }
    ));
}

#[test]
fn refused_connect_closes_the_session() {
    let head = b"CONNECT example.com:443 HTTP/1.1\r\nHost: example.com:443\r\n\r\n".to_vec();
    let (state, _) = step(SessionState::Accepted, Event::HeadArrived(head));
    let (state, action) = step(state, Event::ConnectFailed);
    assert!(matches!(
        action,
        Action::Close(Some(ProxyError::ConnectFailure))
    ));
    assert!(matches!(
        state,
        SessionState::Closed {
            failure: Some(ProxyError::ConnectFailure)
        }
    ));
}

#[test]
fn no_initial_data_closes_the_session() {
    let (state, action) = step(SessionState::Accepted, Event::NoData);
    assert!(matches!(
        action,
        Action::Close(Some(ProxyError::NoInitialData))
    ));
    assert!(matches!(
        state,
        SessionState::Closed {
            failure: Some(ProxyError::NoInitialData)
        }
    ));
}

#[test]
fn read_failure_closes_the_session() {
    let (state, _) = step(SessionState::Accepted, Event::ReadFailed);
    assert!(matches!(
        state,
        SessionState::Closed {
            failure: Some(ProxyError::ReadFailure)
        }
    ));
}

#[test]
fn write_failure_closes_the_session() {
    let (state, _) = step(SessionState::Connected, Event::WriteFailed);
    assert!(matches!(
        state,
        SessionState::Closed {
            failure: Some(ProxyError::WriteFailure)
        }
    ));
}

#[test]
fn relay_failure_closes_the_session() {
    let (state, _) = step(SessionState::Relaying, Event::RelayFailed);
    assert!(matches!(
        state,
        SessionState::Closed {
            failure: Some(ProxyError::RelayFailure)
        }
    ));
}

#[test]
fn closed_sessions_accept_no_event() {
    let state = SessionState::Closed { failure: None };
    assert!(!step_allowed(&state, &Event::RelayFinished));
    assert!(!step_allowed(&state, &Event::NoData));
}

#[test]
fn step_allowed_follows_the_stages() {
    assert!(step_allowed(&SessionState::Accepted, &Event::NoData));
    assert!(step_allowed(
        &SessionState::Accepted,
        &Event::HeadArrived(b"x".to_vec())
    ));
    assert!(!step_allowed(&SessionState::Accepted, &Event::ConnectSucceeded));
    assert!(!step_allowed(&SessionState::Relaying, &Event::WriteSucceeded));
    assert!(step_allowed(&SessionState::Relaying, &Event::RelayFailed));
}

#[test]
fn interleaved_sessions_stay_isolated() {
    let head_a = b"CONNECT alpha.test:443 HTTP/1.1\r\nHost: alpha.test:443\r\n\r\n".to_vec();
    let head_b = b"GET / HTTP/1.1\r\nHost: beta.test\r\n\r\n".to_vec();

    let (state_a, action_a) = step(SessionState::Accepted, Event::HeadArrived(head_a));
    let (state_b, action_b) = step(SessionState::Accepted, Event::HeadArrived(head_b.clone()));
    match (&action_a, &action_b) {
        (Action::Connect(ta), Action::Connect(tb)) => {
            assert_eq!(ta, &b"alpha.test:443".to_vec());
            assert_eq!(tb, &b"beta.test:80".to_vec());
        }
        _ => panic!("expected two connect actions"),
    }

    let (_, action_b) = step(state_b, Event::ConnectSucceeded);
    let (_, action_a) = step(state_a, Event::ConnectSucceeded);
    match &action_a {
        Action::WriteClient(bytes) => {
            assert_eq!(bytes, &b"HTTP/1.1 200 Connection Established\r\n\r\n".to_vec())
        }
        _ => panic!("expected the tunnel acknowledgment for session A"),
    }
    match &action_b {
        Action::WriteOrigin(bytes) => assert_eq!(bytes, &head_b),
        _ => panic!("expected the forwarded head for session B"),
    }
}

#[test]
fn connection_ids_increase_and_wrap() {
    assert_eq!(next_connection_id(0), 1);
    assert_eq!(next_connection_id(41), 42);
    assert_eq!(next_connection_id(u64::MAX), 0);
}

fn describe(action: &Action) -> &'static str {
    match action {
        Action::AwaitHead => "await-head",
        Action::Connect(_) => "connect",
        Action::WriteClient(_) => "write-client",
        Action::WriteOrigin(_) => "write-origin",
        Action::Relay => "relay",
        Action::Close(_) => "close",
    }
}
