use vstd::prelude::*;

verus! {

/// A length of time, counted in whole nanoseconds (wide enough for every
/// `std::time::Duration`).
#[derive(Clone, Copy, Debug, PartialEq, Eq, Structural)]
pub struct Delay {
    pub nanos: u128,
}

impl Delay {
    /// The delay of `secs` whole seconds.
    pub fn from_secs(secs: u64) -> (d: Delay)
        ensures
            d.nanos == secs * 1_000_000_000,
    {
        assert(secs * 1_000_000_000 <= u128::MAX) by (nonlinear_arith)
            requires
                secs <= u64::MAX,
        ;
        Delay { nanos: secs as u128 * 1_000_000_000 }
    }

    /// Twice this delay, but never more than `cap` (and never overflowing).
    pub fn doubled_up_to(self, cap: Delay) -> (d: Delay)
        ensures
            d.nanos == if 2 * self.nanos <= cap.nanos { 2 * self.nanos } else { cap.nanos as int },
    {
        if self.nanos <= cap.nanos / 2 {
            Delay { nanos: self.nanos * 2 }
        } else {
            cap
        }
    }
}

/// Configuration for an Aegis component.
#[derive(Debug, Clone)]
pub struct Config {
    // Connection
    pub socket_path: String,
    // Identity
    pub session_token: String,
    pub component_name: String,
    pub version: String,
    // Capabilities
    pub supported_symbols: Vec<String>,
    pub supported_timeframes: Vec<String>,
    pub requires_streams: Vec<String>,
    // Reconnection
    pub reconnect: bool,
    pub reconnect_delay: Delay,
    pub max_reconnect_delay: Delay,
    /// 0 = unlimited
    pub max_reconnect_attempts: u32,
}

impl Config {
    /// A configuration with the given connection and identity, version
    /// "0.1.0", no capabilities, and unlimited reconnection starting at a
    /// 3 s delay that doubles up to 60 s.
    pub fn new(socket_path: String, session_token: String, component_name: String) -> (cfg: Config)
        ensures
            cfg.socket_path@ == socket_path@,
            cfg.session_token@ == session_token@,
            cfg.component_name@ == component_name@,
            cfg.version@ == "0.1.0"@,
            cfg.supported_symbols@.len() == 0,
            cfg.supported_timeframes@.len() == 0,
            cfg.requires_streams@.len() == 0,
            cfg.reconnect,
            cfg.reconnect_delay.nanos == 3_000_000_000,
            cfg.max_reconnect_delay.nanos == 60_000_000_000,
            cfg.max_reconnect_attempts == 0,
    {
        Config {
            socket_path,
            session_token,
            component_name,
            version: "0.1.0".to_string(),
            supported_symbols: Vec::new(),
            supported_timeframes: Vec::new(),
            requires_streams: Vec::new(),
            reconnect: true,
            reconnect_delay: Delay::from_secs(3),
            max_reconnect_delay: Delay::from_secs(60),
            max_reconnect_attempts: 0,
        }
    }
}

} // verus!
