use libaegis::{AegisError, Config, Delay, Reconnect, RunDecision};

fn cfg() -> Config {
    Config::new("s".to_string(), "t".to_string(), "n".to_string())
}

fn lost() -> libaegis::Result<()> {
    Err(AegisError::Connection("gone".to_string()))
}

#[test]
fn config_new_defaults() {
    let c = cfg();
    assert_eq!(c.socket_path, "s");
    assert_eq!(c.session_token, "t");
    assert_eq!(c.component_name, "n");
    assert_eq!(c.version, "0.1.0");
    assert!(c.supported_symbols.is_empty());
    assert!(c.supported_timeframes.is_empty());
    assert!(c.requires_streams.is_empty());
    assert!(c.reconnect);
    assert_eq!(c.reconnect_delay, Delay { nanos: 3_000_000_000 });
    assert_eq!(c.max_reconnect_delay, Delay { nanos: 60_000_000_000 });
    assert_eq!(c.max_reconnect_attempts, 0);
}

#[test]
fn delay_doubling_is_capped() {
    assert_eq!(Delay::from_secs(2).nanos, 2_000_000_000);
    assert_eq!(Delay::from_secs(u64::MAX).nanos, u64::MAX as u128 * 1_000_000_000);
    let cap = Delay { nanos: 10 };
    assert_eq!(Delay { nanos: 4 }.doubled_up_to(cap).nanos, 8);
    assert_eq!(Delay { nanos: 5 }.doubled_up_to(cap).nanos, 10);
    assert_eq!(Delay { nanos: 6 }.doubled_up_to(cap).nanos, 10);
    assert_eq!(Delay { nanos: u128::MAX }.doubled_up_to(Delay { nanos: u128::MAX }).nanos, u128::MAX);
}

#[test]
fn clean_end_finishes() {
    let c = cfg();
    let mut r = Reconnect::new(&c);
    assert!(matches!(r.after_session(&c, Ok(())), RunDecision::Finish(Ok(()))));
    assert_eq!(r.attempts, 0);
}

#[test]
fn refused_registration_is_never_retried() {
    let c = cfg();
    let mut r = Reconnect::new(&c);
    match r.after_session(&c, Err(AegisError::Registration("no".to_string()))) {
        RunDecision::Finish(Err(AegisError::Registration(m))) => assert_eq!(m, "no"),
        _ => panic!("expected registration failure"),
    }
    assert_eq!(r.attempts, 0);
}

#[test]
fn reconnect_disabled_finishes() {
    let mut c = cfg();
    c.reconnect = false;
    let mut r = Reconnect::new(&c);
    match r.after_session(&c, Err(AegisError::Timeout)) {
        RunDecision::Finish(Err(AegisError::Connection(m))) => assert_eq!(m, "reconnect disabled"),
        _ => panic!("expected finish"),
    }
}

#[test]
fn backoff_doubles_up_to_the_maximum() {
    let c = cfg();
    let mut r = Reconnect::new(&c);
    let mut waits = Vec::new();
    for _ in 0..7 {
        match r.after_session(&c, lost()) {
            RunDecision::Retry(d) => waits.push(d.nanos / 1_000_000),
            RunDecision::Finish(_) => panic!("unlimited attempts must retry"),
        }
    }
    assert_eq!(waits, vec![3000, 6000, 12000, 24000, 48000, 60000, 60000]);
    assert_eq!(r.attempts, 7);
}

#[test]
fn attempt_limit_stops_the_run() {
    let mut c = cfg();
    c.max_reconnect_attempts = 3;
    let mut r = Reconnect::new(&c);
    assert!(matches!(r.after_session(&c, lost()), RunDecision::Retry(_)));
    assert!(matches!(r.after_session(&c, lost()), RunDecision::Retry(_)));
    match r.after_session(&c, lost()) {
        RunDecision::Finish(Err(AegisError::Connection(m))) => {
            assert_eq!(m, "max reconnect attempts (3) reached")
        }
        _ => panic!("expected the limit"),
    }
}

#[test]
fn attempt_limit_of_one_never_retries() {
    let mut c = cfg();
    c.max_reconnect_attempts = 1;
    let mut r = Reconnect::new(&c);
    match r.after_session(&c, Err(AegisError::Timeout)) {
        RunDecision::Finish(Err(AegisError::Connection(m))) => {
            assert_eq!(m, "max reconnect attempts (1) reached")
        }
        _ => panic!("expected the limit"),
    }
}
