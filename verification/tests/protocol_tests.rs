use libaegis::text::{decimal_text, joined};
use libaegis::{Command, ComponentState, Envelope, Json, MessageType, Payload, PROTOCOL_VERSION};

const ALL_STATES: [ComponentState; 10] = [
    ComponentState::Init,
    ComponentState::Registered,
    ComponentState::Initializing,
    ComponentState::Ready,
    ComponentState::Configured,
    ComponentState::Running,
    ComponentState::Waiting,
    ComponentState::Error,
    ComponentState::Finished,
    ComponentState::Shutdown,
];

fn is_uuid_v4(s: &str) -> bool {
    let c: Vec<char> = s.chars().collect();
    c.len() == 36
        && c.iter().enumerate().all(|(i, ch)| {
            if [8, 13, 18, 23].contains(&i) {
                *ch == '-'
            } else {
                ch.is_ascii_digit() || ('a'..='f').contains(ch)
            }
        })
        && c[14] == '4'
        && ['8', '9', 'a', 'b'].contains(&c[19])
}

fn is_rfc3339_utc(s: &str) -> bool {
    let c: Vec<char> = s.chars().collect();
    if c.len() < 25 || !s.ends_with("+00:00") {
        return false;
    }
    let d = |i: usize| c[i].is_ascii_digit();
    let frac = c.len() - 25;
    let core_ok = (0..4).all(d)
        && c[4] == '-'
        && d(5) && d(6)
        && c[7] == '-'
        && d(8) && d(9)
        && c[10] == 'T'
        && d(11) && d(12)
        && c[13] == ':'
        && d(14) && d(15)
        && c[16] == ':'
        && d(17) && d(18);
    let frac_ok = match frac {
        0 => true,
        4 | 7 | 10 => c[19] == '.' && (20..19 + frac).all(d),
        _ => false,
    };
    core_ok && frac_ok
}

#[test]
fn state_wire_names() {
    let names: Vec<&str> = ALL_STATES.iter().map(|s| s.wire_name()).collect();
    assert_eq!(
        names,
        vec![
            "INIT", "REGISTERED", "INITIALIZING", "READY", "CONFIGURED", "RUNNING", "WAITING",
            "ERROR", "FINISHED", "SHUTDOWN"
        ]
    );
    assert_eq!(ComponentState::Running.to_string(), "RUNNING");
}

#[test]
fn state_names_are_distinct() {
    for (i, a) in ALL_STATES.iter().enumerate() {
        for (j, b) in ALL_STATES.iter().enumerate() {
            if i != j {
                assert_ne!(a.wire_name(), b.wire_name());
            }
        }
    }
}

#[test]
fn command_debug_names_match_debug() {
    for c in [
        Command::Register,
        Command::Registered,
        Command::StateUpdate,
        Command::Shutdown,
        Command::Reborn,
        Command::Ack,
        Command::Nack,
        Command::Configure,
        Command::Configured,
        Command::Ping,
        Command::Pong,
        Command::RuntimeError,
        Command::RegistrationFailed,
    ] {
        assert_eq!(c.debug_name(), format!("{:?}", c));
    }
}

#[test]
fn envelope_new_stamps_a_fresh_message() {
    let mut p = Payload::new();
    p.insert("k".to_string(), Json::Bool(true));
    let e = Envelope::new(MessageType::Heartbeat, Command::Ping, "me".to_string(), p);
    assert_eq!(PROTOCOL_VERSION, "0.1");
    assert_eq!(e.protocol_version, "0.1");
    assert_eq!(e.target, "aegis");
    assert_eq!(e.source, "me");
    assert_eq!(e.msg_type, MessageType::Heartbeat);
    assert_eq!(e.command, Command::Ping);
    assert!(e.correlation_id.is_none());
    assert_eq!(e.payload.get("k").and_then(|v| v.as_bool()), Some(true));
    assert!(is_uuid_v4(&e.message_id), "bad id {}", e.message_id);
    assert!(is_rfc3339_utc(&e.timestamp), "bad timestamp {}", e.timestamp);
    let copy = e.clone();
    assert_eq!(copy.message_id, e.message_id);
    assert_eq!(copy.payload.get("k").and_then(|v| v.as_bool()), Some(true));
}

#[test]
fn envelope_ids_differ() {
    let a = Envelope::new(MessageType::Control, Command::Ack, "s".to_string(), Payload::new());
    let b = Envelope::new(MessageType::Control, Command::Ack, "s".to_string(), Payload::new());
    assert_ne!(a.message_id, b.message_id);
}

#[test]
fn with_correlation_sets_only_correlation() {
    let e = Envelope::new(MessageType::Control, Command::Ack, "s".to_string(), Payload::new());
    let id = e.message_id.clone();
    let ts = e.timestamp.clone();
    let c = e.with_correlation("abc".to_string());
    assert_eq!(c.correlation_id.as_deref(), Some("abc"));
    assert_eq!(c.message_id, id);
    assert_eq!(c.timestamp, ts);
    assert_eq!(c.command, Command::Ack);
}

#[test]
fn decimal_text_formats_like_display() {
    for n in [0u32, 7, 10, 42, 100, 9999, 4294967295] {
        assert_eq!(decimal_text(n), n.to_string());
    }
}

#[test]
fn joined_concatenates() {
    assert_eq!(joined("ab", "cd"), "abcd");
    assert_eq!(joined("", ""), "");
}

#[test]
fn stamped_uses_the_given_id_and_time() {
    let e = Envelope::stamped(
        MessageType::Control,
        Command::Nack,
        "me".to_string(),
        Payload::new(),
        "id-1".to_string(),
        "2024-01-01T00:00:00+00:00".to_string(),
    );
    assert_eq!(e.message_id, "id-1");
    assert_eq!(e.timestamp, "2024-01-01T00:00:00+00:00");
    assert_eq!(e.protocol_version, "0.1");
    assert_eq!(e.target, "aegis");
    assert_eq!(e.source, "me");
    assert_eq!(e.command, Command::Nack);
    assert!(e.correlation_id.is_none());
}
