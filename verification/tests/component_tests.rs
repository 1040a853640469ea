use libaegis::component::{
    accept_registration, ack, after_configure, after_fault, after_reborn, after_registration,
    after_shutdown_request, ends_connection, error_report, line_received, state_transition, pong, register_request, route, source,
    state_update,
};
use libaegis::{
    AegisError, Command, ComponentState, Config, Effect, Envelope, Incoming, Json, MessageType,
    Number, Payload,
};

fn cfg() -> Config {
    let mut c = Config::new("/tmp/a.sock".to_string(), "tok".to_string(), "md".to_string());
    c.supported_symbols = vec!["BTCUSDT".to_string()];
    c.requires_streams = vec!["klines".to_string(), "aggTrades".to_string()];
    c
}

fn message(t: MessageType, c: Command, entries: Vec<(&str, Json)>) -> Envelope {
    let mut p = Payload::new();
    for (k, v) in entries {
        p.insert(k.to_string(), v);
    }
    Envelope::new(t, c, "aegis".to_string(), p)
}

fn text(p: &Payload, key: &str) -> Option<String> {
    p.get(key).and_then(|v| v.as_str()).map(|s| s.to_string())
}

fn strings(p: &Payload, key: &str) -> Vec<String> {
    Json::strings_of(p.get(key).unwrap().as_array().unwrap())
}

fn is_state_update(e: &Effect, s: &str) -> bool {
    match e {
        Effect::Send(env) => {
            env.command == Command::StateUpdate
                && env.msg_type == MessageType::Lifecycle
                && text(&env.payload, "state").as_deref() == Some(s)
        }
        _ => false,
    }
}

fn is_ack_of(e: &Effect, id: &str) -> bool {
    match e {
        Effect::Send(env) => {
            env.command == Command::Ack
                && env.msg_type == MessageType::Control
                && env.correlation_id.as_deref() == Some(id)
                && text(&env.payload, "status").as_deref() == Some("ok")
        }
        _ => false,
    }
}

#[test]
fn source_names_the_component() {
    assert_eq!(source(&cfg()), "component:md");
}

#[test]
fn register_request_without_any_id() {
    let e = register_request(&cfg(), "", "");
    assert_eq!(e.msg_type, MessageType::Lifecycle);
    assert_eq!(e.command, Command::Register);
    assert_eq!(e.source, "component:md");
    assert_eq!(text(&e.payload, "session_token").as_deref(), Some("tok"));
    assert_eq!(text(&e.payload, "component_name").as_deref(), Some("md"));
    assert_eq!(text(&e.payload, "version").as_deref(), Some("0.1.0"));
    assert!(e.payload.get("component_id").is_none());
    assert_eq!(e.payload.entries().len(), 4);
    match e.payload.get("capabilities") {
        Some(Json::Object(entries)) => {
            let get = |k: &str| {
                let v = &entries.iter().find(|(key, _)| key == k).unwrap().1;
                Json::strings_of(v.as_array().unwrap())
            };
            assert_eq!(get("supported_symbols"), vec!["BTCUSDT".to_string()]);
            assert!(get("supported_timeframes").is_empty());
            assert_eq!(get("requires_streams"), vec!["klines".to_string(), "aggTrades".to_string()]);
        }
        other => panic!("capabilities: {:?}", other),
    }
}

#[test]
fn register_request_prefers_stored_id() {
    let e = register_request(&cfg(), "stored", "launched");
    assert_eq!(text(&e.payload, "component_id").as_deref(), Some("stored"));
    let e = register_request(&cfg(), "", "launched");
    assert_eq!(text(&e.payload, "component_id").as_deref(), Some("launched"));
}

#[test]
fn accept_registration_reads_ids() {
    let resp = message(
        MessageType::Lifecycle,
        Command::Registered,
        vec![
            ("component_id", Json::Str("c-1".to_string())),
            ("session_id", Json::Number(Number::PosInt(5))),
        ],
    );
    let reg = accept_registration(&resp).ok().unwrap();
    assert_eq!(reg.component_id, "c-1");
    assert_eq!(reg.session_id, "");
}

#[test]
fn accept_registration_rejects_other_answers() {
    let resp = message(MessageType::Lifecycle, Command::RegistrationFailed, vec![]);
    match accept_registration(&resp) {
        Err(AegisError::Registration(m)) => {
            assert_eq!(m, "unexpected response: RegistrationFailed")
        }
        other => panic!("{:?}", other.is_ok()),
    }
}

#[test]
fn state_update_with_and_without_message() {
    let e = state_update(&cfg(), ComponentState::Ready, None);
    assert_eq!(e.command, Command::StateUpdate);
    assert_eq!(text(&e.payload, "state").as_deref(), Some("READY"));
    assert_eq!(e.payload.entries().len(), 1);
    let e = state_update(&cfg(), ComponentState::Error, Some("boom"));
    assert_eq!(text(&e.payload, "state").as_deref(), Some("ERROR"));
    assert_eq!(text(&e.payload, "message").as_deref(), Some("boom"));
}

#[test]
fn error_report_payload() {
    let e = error_report(&cfg(), "X", "went wrong", false);
    assert_eq!(e.msg_type, MessageType::Error);
    assert_eq!(e.command, Command::RuntimeError);
    assert_eq!(text(&e.payload, "code").as_deref(), Some("X"));
    assert_eq!(text(&e.payload, "message").as_deref(), Some("went wrong"));
    assert_eq!(e.payload.get("recoverable").and_then(|v| v.as_bool()), Some(false));
}

#[test]
fn ack_answers_the_request() {
    let e = ack(&cfg(), "m-7");
    assert!(is_ack_of(&Effect::Send(e), "m-7"));
}

#[test]
fn pong_answers_the_ping() {
    let ping = message(MessageType::Heartbeat, Command::Ping, vec![]);
    let e = pong(&cfg(), &ping, ComponentState::Running, 42);
    assert_eq!(e.msg_type, MessageType::Heartbeat);
    assert_eq!(e.command, Command::Pong);
    assert_eq!(e.correlation_id.as_deref(), Some(ping.message_id.as_str()));
    assert_eq!(text(&e.payload, "state").as_deref(), Some("RUNNING"));
    assert!(matches!(e.payload.get("uptime_seconds"), Some(Json::Number(Number::PosInt(42)))));
}

#[test]
fn route_heartbeat() {
    assert!(matches!(route(&message(MessageType::Heartbeat, Command::Ping, vec![])), Incoming::Ping));
    assert!(matches!(route(&message(MessageType::Heartbeat, Command::Pong, vec![])), Incoming::Ignore));
}

#[test]
fn route_configure_reads_socket_and_topics() {
    let topics = Json::Array(vec![
        Json::Str("klines.BTCUSDT.1h".to_string()),
        Json::Number(Number::PosInt(3)),
        Json::Str("aggTrades.BTCUSDT".to_string()),
    ]);
    let env = message(
        MessageType::Config,
        Command::Configure,
        vec![("data_stream_socket", Json::Str("/tmp/d.sock".to_string())), ("topics", topics)],
    );
    match route(&env) {
        Incoming::Configure { socket_path, topics } => {
            assert_eq!(socket_path, "/tmp/d.sock");
            assert_eq!(topics, vec!["klines.BTCUSDT.1h".to_string(), "aggTrades.BTCUSDT".to_string()]);
        }
        _ => panic!("not configure"),
    }
}

#[test]
fn route_configure_defaults() {
    let env = message(
        MessageType::Config,
        Command::Configure,
        vec![("data_stream_socket", Json::Bool(true)), ("topics", Json::Str("x".to_string()))],
    );
    match route(&env) {
        Incoming::Configure { socket_path, topics } => {
            assert_eq!(socket_path, "");
            assert!(topics.is_empty());
        }
        _ => panic!("not configure"),
    }
    assert!(matches!(route(&message(MessageType::Config, Command::Configured, vec![])), Incoming::Ignore));
}

#[test]
fn route_lifecycle() {
    assert!(matches!(route(&message(MessageType::Lifecycle, Command::Reborn, vec![])), Incoming::Reborn));
    assert!(matches!(route(&message(MessageType::Lifecycle, Command::Shutdown, vec![])), Incoming::Shutdown));
    assert!(matches!(route(&message(MessageType::Lifecycle, Command::Ack, vec![])), Incoming::Ignore));
    assert!(matches!(route(&message(MessageType::Lifecycle, Command::Nack, vec![])), Incoming::Ignore));
    assert!(matches!(route(&message(MessageType::Control, Command::Shutdown, vec![])), Incoming::Ignore));
    assert!(matches!(route(&message(MessageType::Data, Command::Ping, vec![])), Incoming::Ignore));
}

#[test]
fn route_error_reads_fields_with_defaults() {
    match route(&message(MessageType::Error, Command::RuntimeError, vec![])) {
        Incoming::Fault { code, message } => {
            assert_eq!(code, "UNKNOWN");
            assert_eq!(message, "");
        }
        _ => panic!("not a fault"),
    }
    let env = message(
        MessageType::Error,
        Command::Ack,
        vec![
            ("code", Json::Str("E1".to_string())),
            ("message", Json::Str("bad".to_string())),
            ("recoverable", Json::Bool(true)),
        ],
    );
    match route(&env) {
        Incoming::Warning { code, message } => {
            assert_eq!(code, "E1");
            assert_eq!(message, "bad");
        }
        _ => panic!("not a warning"),
    }
    let env = message(
        MessageType::Error,
        Command::RuntimeError,
        vec![("code", Json::Str("E2".to_string())), ("recoverable", Json::Bool(false))],
    );
    match route(&env) {
        Incoming::Fault { code, message } => {
            assert_eq!(code, "E2");
            assert_eq!(message, "");
        }
        _ => panic!("not a fault"),
    }
}

#[test]
fn registration_announces_initializing_then_ready() {
    let effects = after_registration(&cfg());
    assert_eq!(effects.len(), 5);
    assert!(matches!(effects[0], Effect::Enter(ComponentState::Registered)));
    assert!(is_state_update(&effects[1], "INITIALIZING"));
    assert!(matches!(effects[2], Effect::Enter(ComponentState::Initializing)));
    assert!(is_state_update(&effects[3], "READY"));
    assert!(matches!(effects[4], Effect::Enter(ComponentState::Ready)));
}

#[test]
fn successful_configure_runs() {
    let req = message(MessageType::Config, Command::Configure, vec![]);
    let effects = after_configure(&cfg(), &req, &Ok(()));
    assert_eq!(effects.len(), 6);
    assert!(is_ack_of(&effects[0], &req.message_id));
    assert!(is_state_update(&effects[1], "CONFIGURED"));
    assert!(matches!(effects[2], Effect::Enter(ComponentState::Configured)));
    assert!(is_state_update(&effects[3], "RUNNING"));
    assert!(matches!(effects[4], Effect::Enter(ComponentState::Running)));
    assert!(matches!(effects[5], Effect::StartRunning));
}

#[test]
fn failed_configure_reports_and_stays() {
    let req = message(MessageType::Config, Command::Configure, vec![]);
    let outcome = Err(AegisError::Connection("boom".to_string()));
    let effects = after_configure(&cfg(), &req, &outcome);
    assert_eq!(effects.len(), 1);
    match &effects[0] {
        Effect::Send(e) => {
            assert_eq!(e.command, Command::RuntimeError);
            assert_eq!(text(&e.payload, "code").as_deref(), Some("CONFIGURE_FAILED"));
            assert_eq!(text(&e.payload, "message").as_deref(), Some("connection error: boom"));
            assert_eq!(e.payload.get("recoverable").and_then(|v| v.as_bool()), Some(true));
        }
        _ => panic!("not a send"),
    }
}

#[test]
fn reborn_is_acknowledged() {
    let req = message(MessageType::Lifecycle, Command::Reborn, vec![]);
    let effects = after_reborn(&cfg(), &req);
    assert_eq!(effects.len(), 1);
    assert!(is_ack_of(&effects[0], &req.message_id));
}

#[test]
fn shutdown_cancels_acks_and_records() {
    let req = message(MessageType::Lifecycle, Command::Shutdown, vec![]);
    let effects = after_shutdown_request(&cfg(), &req);
    assert_eq!(effects.len(), 4);
    assert!(matches!(effects[0], Effect::CancelRunning));
    assert!(is_ack_of(&effects[1], &req.message_id));
    assert!(matches!(effects[2], Effect::ShutDownHandler));
    assert!(matches!(effects[3], Effect::Enter(ComponentState::Shutdown)));
}

#[test]
fn fault_outcomes() {
    match after_fault() {
        AegisError::Connection(m) => assert_eq!(m, "non-recoverable error"),
        _ => panic!("expected connection error"),
    }
}

#[test]
fn line_received_detects_close() {
    assert!(line_received(12, "connection").is_ok());
    match line_received(0, "connection") {
        Err(AegisError::Connection(m)) => assert_eq!(m, "connection closed"),
        _ => panic!("expected close"),
    }
    match line_received(0, "data stream") {
        Err(AegisError::Connection(m)) => assert_eq!(m, "data stream closed"),
        _ => panic!("expected close"),
    }
}

fn cancels(effects: &[Effect]) -> bool {
    effects.iter().any(|e| matches!(e, Effect::CancelRunning))
}

fn starts(effects: &[Effect]) -> bool {
    effects.iter().any(|e| matches!(e, Effect::StartRunning))
}

#[test]
fn only_shutdown_cancels_and_only_configure_starts() {
    let c = cfg();
    let reborn = message(MessageType::Lifecycle, Command::Reborn, vec![]);
    let configure = message(MessageType::Config, Command::Configure, vec![]);
    let shutdown = message(MessageType::Lifecycle, Command::Shutdown, vec![]);
    let steps = vec![
        after_registration(&c),
        after_configure(&c, &configure, &Ok(())),
        after_reborn(&c, &reborn),
        after_reborn(&c, &reborn),
        after_configure(&c, &configure, &Err(AegisError::Timeout)),
        after_shutdown_request(&c, &shutdown),
    ];
    let cancelled_so_far: Vec<bool> =
        (1..=steps.len()).map(|n| steps[..n].iter().any(|s| cancels(s))).collect();
    assert_eq!(cancelled_so_far, vec![false, false, false, false, false, true]);
    let started: Vec<bool> = steps.iter().map(|s| starts(s)).collect();
    assert_eq!(started, vec![false, true, false, false, false, false]);
}

#[test]
fn failed_configure_reports_io_error_text() {
    let req = message(MessageType::Config, Command::Configure, vec![]);
    let io = std::io::Error::new(std::io::ErrorKind::Other, "socket gone");
    let effects = after_configure(&cfg(), &req, &Err(AegisError::Io(io)));
    match &effects[0] {
        Effect::Send(e) => {
            assert_eq!(text(&e.payload, "message").as_deref(), Some("I/O error: socket gone"))
        }
        _ => panic!("not a send"),
    }
}

#[test]
fn only_shutdown_and_fatal_errors_end_the_connection() {
    let shutdown = route(&message(MessageType::Lifecycle, Command::Shutdown, vec![]));
    assert!(matches!(ends_connection(&shutdown), Some(Ok(()))));
    let fatal = route(&message(MessageType::Error, Command::RuntimeError, vec![]));
    match ends_connection(&fatal) {
        Some(Err(AegisError::Connection(m))) => assert_eq!(m, "non-recoverable error"),
        _ => panic!("expected the connection to end with an error"),
    }
    let warning = route(&message(
        MessageType::Error,
        Command::RuntimeError,
        vec![("recoverable", Json::Bool(true))],
    ));
    assert!(ends_connection(&warning).is_none());
    for (t, c) in [
        (MessageType::Heartbeat, Command::Ping),
        (MessageType::Lifecycle, Command::Reborn),
        (MessageType::Config, Command::Configure),
        (MessageType::Control, Command::Ack),
    ] {
        assert!(ends_connection(&route(&message(t, c, vec![]))).is_none());
    }
}

#[test]
fn state_transition_announces_then_records() {
    let effects = state_transition(&cfg(), ComponentState::Waiting, Some("idle"));
    assert_eq!(effects.len(), 2);
    match &effects[0] {
        Effect::Send(e) => {
            assert_eq!(e.command, Command::StateUpdate);
            assert_eq!(text(&e.payload, "state").as_deref(), Some("WAITING"));
            assert_eq!(text(&e.payload, "message").as_deref(), Some("idle"));
        }
        _ => panic!("not a send"),
    }
    assert!(matches!(effects[1], Effect::Enter(ComponentState::Waiting)));
}
