use libaegis::data_stream::accept_handshake;
use libaegis::{AegisError, HandshakeResponse};

fn resp(status: &str, message: Option<&str>, topics: Option<Vec<&str>>) -> HandshakeResponse {
    HandshakeResponse {
        status: status.to_string(),
        message: message.map(|m| m.to_string()),
        topics: topics.map(|t| t.into_iter().map(|s| s.to_string()).collect()),
    }
}

#[test]
fn accepted_handshake_yields_topics() {
    let t = accept_handshake(Ok(resp("ok", None, Some(vec!["a.B", "c.D"])))).ok().unwrap();
    assert_eq!(t, vec!["a.B".to_string(), "c.D".to_string()]);
}

#[test]
fn accepted_handshake_without_topics() {
    let t = accept_handshake(Ok(resp("ok", Some("hi"), None))).ok().unwrap();
    assert!(t.is_empty());
}

#[test]
fn rejected_handshake_reports_reason() {
    match accept_handshake(Ok(resp("error", Some("bad token"), Some(vec!["x"])))) {
        Err(AegisError::Connection(m)) => assert_eq!(m, "data stream handshake rejected: bad token"),
        _ => panic!("expected rejection"),
    }
    match accept_handshake(Ok(resp("OK", None, None))) {
        Err(AegisError::Connection(m)) => assert_eq!(m, "data stream handshake rejected: no message"),
        _ => panic!("expected rejection"),
    }
}

#[test]
fn unparsable_handshake_is_a_connection_error() {
    let err = serde_json::from_str::<serde_json::Value>("").unwrap_err();
    let expected = format!("data stream handshake response: {}", err);
    match accept_handshake(Err(err)) {
        Err(AegisError::Connection(m)) => assert_eq!(m, expected),
        _ => panic!("expected connection error"),
    }
}
