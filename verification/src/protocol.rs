use vstd::prelude::*;

use crate::json::{JsonModel, Payload};

verus! {

pub const PROTOCOL_VERSION: &'static str = "0.1";

/// The kind of an envelope.
#[derive(Debug, Clone, Copy, PartialEq, Eq, Structural)]
pub enum MessageType {
    Control,
    Lifecycle,
    Config,
    Error,
    Heartbeat,
    Data,
}

/// What an envelope asks for or reports.
#[derive(Debug, Clone, Copy, PartialEq, Eq, Structural)]
pub enum Command {
    Register,
    Registered,
    StateUpdate,
    Shutdown,
    Reborn,
    Ack,
    Nack,
    Configure,
    Configured,
    Ping,
    Pong,
    RuntimeError,
    RegistrationFailed,
}

/// The lifecycle state of a component.
#[derive(Debug, Clone, Copy, PartialEq, Eq, Structural)]
pub enum ComponentState {
    Init,
    Registered,
    Initializing,
    Ready,
    Configured,
    Running,
    Waiting,
    Error,
    Finished,
    Shutdown,
}

/// The name under which a state travels on the wire.
pub open spec fn state_name(s: ComponentState) -> Seq<char> {
    match s {
        ComponentState::Init => "INIT"@,
        ComponentState::Registered => "REGISTERED"@,
        ComponentState::Initializing => "INITIALIZING"@,
        ComponentState::Ready => "READY"@,
        ComponentState::Configured => "CONFIGURED"@,
        ComponentState::Running => "RUNNING"@,
        ComponentState::Waiting => "WAITING"@,
        ComponentState::Error => "ERROR"@,
        ComponentState::Finished => "FINISHED"@,
        ComponentState::Shutdown => "SHUTDOWN"@,
    }
}

impl ComponentState {
    /// The wire name of the state (its `SCREAMING_SNAKE_CASE` serialisation).
    pub fn wire_name(&self) -> (r: &'static str)
        ensures
            r@ == state_name(*self),
    {
        match self {
            ComponentState::Init => "INIT",
            ComponentState::Registered => "REGISTERED",
            ComponentState::Initializing => "INITIALIZING",
            ComponentState::Ready => "READY",
            ComponentState::Configured => "CONFIGURED",
            ComponentState::Running => "RUNNING",
            ComponentState::Waiting => "WAITING",
            ComponentState::Error => "ERROR",
            ComponentState::Finished => "FINISHED",
            ComponentState::Shutdown => "SHUTDOWN",
        }
    }

    /// The state as text: its wire name.
    pub fn to_string(&self) -> (r: String)
        ensures
            r@ == state_name(*self),
    {
        self.wire_name().to_string()
    }
}

/// Different states travel under different names.
pub proof fn law_state_names_distinct(a: ComponentState, b: ComponentState)
    requires
        a != b,
    ensures
        state_name(a) != state_name(b),
{
    reveal_strlit("INIT");
    reveal_strlit("REGISTERED");
    reveal_strlit("INITIALIZING");
    reveal_strlit("READY");
    reveal_strlit("CONFIGURED");
    reveal_strlit("RUNNING");
    reveal_strlit("WAITING");
    reveal_strlit("ERROR");
    reveal_strlit("FINISHED");
    reveal_strlit("SHUTDOWN");
    if state_name(a).len() == state_name(b).len() {
        assert(state_name(a)[0] != state_name(b)[0] || state_name(a)[1] != state_name(b)[1]);
    }
}

/// The name of a command as its `Debug` rendering spells it.
pub open spec fn command_debug_name(c: Command) -> Seq<char> {
    match c {
        Command::Register => "Register"@,
        Command::Registered => "Registered"@,
        Command::StateUpdate => "StateUpdate"@,
        Command::Shutdown => "Shutdown"@,
        Command::Reborn => "Reborn"@,
        Command::Ack => "Ack"@,
        Command::Nack => "Nack"@,
        Command::Configure => "Configure"@,
        Command::Configured => "Configured"@,
        Command::Ping => "Ping"@,
        Command::Pong => "Pong"@,
        Command::RuntimeError => "RuntimeError"@,
        Command::RegistrationFailed => "RegistrationFailed"@,
    }
}

impl Command {
    /// The command's name as its `Debug` rendering spells it.
    pub fn debug_name(&self) -> (r: &'static str)
        ensures
            r@ == command_debug_name(*self),
    {
        match self {
            Command::Register => "Register",
            Command::Registered => "Registered",
            Command::StateUpdate => "StateUpdate",
            Command::Shutdown => "Shutdown",
            Command::Reborn => "Reborn",
            Command::Ack => "Ack",
            Command::Nack => "Nack",
            Command::Configure => "Configure",
            Command::Configured => "Configured",
            Command::Ping => "Ping",
            Command::Pong => "Pong",
            Command::RuntimeError => "RuntimeError",
            Command::RegistrationFailed => "RegistrationFailed",
        }
    }
}

pub open spec fn is_lower_hex_digit(c: char) -> bool {
    ('0' <= c && c <= '9') || ('a' <= c && c <= 'f')
}

/// Text of a random (version 4) UUID in lower-case hyphenated form,
/// such as `67e55044-10b1-426f-9247-bb680e5fe0c8`.
pub open spec fn is_uuid_v4_text(s: Seq<char>) -> bool {
    &&& s.len() == 36
    &&& forall|i: int|
        0 <= i < 36 ==> if i == 8 || i == 13 || i == 18 || i == 23 {
            #[trigger] s[i] == '-'
        } else {
            is_lower_hex_digit(s[i])
        }
    &&& s[14] == '4'
    &&& (s[19] == '8' || s[19] == '9' || s[19] == 'a' || s[19] == 'b')
}

pub open spec fn is_decimal_digit(c: char) -> bool {
    '0' <= c && c <= '9'
}

/// The characters of `s` from `from` up to `to` are decimal digits.
pub open spec fn digits_between(s: Seq<char>, from: int, to: int) -> bool {
    forall|i: int| from <= i < to ==> is_decimal_digit(#[trigger] s[i])
}

/// A year as RFC 3339 text from chrono: four digits, or a sign followed by
/// at least four digits for years outside 0..=9999.
pub open spec fn is_year_text(y: Seq<char>) -> bool {
    ||| (y.len() == 4 && digits_between(y, 0, 4))
    ||| (y.len() >= 5 && (y[0] == '+' || y[0] == '-') && digits_between(y, 1, y.len() as int))
}

/// An RFC 3339 date-time in UTC: `YYYY-MM-DDTHH:MM:SS`, then no fraction or
/// a dot and 3, 6 or 9 digits, then the offset `+00:00`.
pub open spec fn is_rfc3339_utc(s: Seq<char>) -> bool {
    exists|y: int, f: int|
        #![trigger s.subrange(0, y), s[y + 15 + f]]
        {
            &&& (f == 0 || f == 4 || f == 7 || f == 10)
            &&& 4 <= y
            &&& s.len() == y + 15 + f + 6
            &&& is_year_text(s.subrange(0, y))
            &&& s[y] == '-'
            &&& digits_between(s, y + 1, y + 3)
            &&& s[y + 3] == '-'
            &&& digits_between(s, y + 4, y + 6)
            &&& s[y + 6] == 'T'
            &&& digits_between(s, y + 7, y + 9)
            &&& s[y + 9] == ':'
            &&& digits_between(s, y + 10, y + 12)
            &&& s[y + 12] == ':'
            &&& digits_between(s, y + 13, y + 15)
            &&& (f > 0 ==> s[y + 15] == '.' && digits_between(s, y + 16, y + 15 + f))
            &&& s.subrange(y + 15 + f, s.len() as int) == seq!['+', '0', '0', ':', '0', '0']
        }
}

/// Calls `uuid::Uuid::new_v4` and renders the result with its `Display`
/// impl. Claimed: the text is a lower-case hyphenated version-4 UUID (the
/// crate sets the version nibble to 4 and the variant bits to `10`, and
/// `Display` writes 36 lower-case characters with hyphens at 8, 13, 18, 23).
/// Which UUID comes out is random and left unsaid.
#[verifier::external_body]
fn new_message_id() -> (id: String)
    ensures
        is_uuid_v4_text(id@),
{
    uuid::Uuid::new_v4().to_string()
}

/// Calls `chrono::Utc::now` and `DateTime::to_rfc3339`. Claimed: the text
/// has the shape `to_rfc3339` writes for UTC (`write_rfc3339` with
/// `SecondsFormat::AutoSi` and no `Z`): a four-digit year (signed and longer
/// outside 0..=9999), two-digit month, day, hour, minute and second, a
/// fraction of 0, 3, 6 or 9 digits, and `+00:00`. The instant it names
/// depends on the clock and is left unsaid. The conversion from
/// `SystemTime` handles clocks before the Unix epoch; it fails only for an
/// instant outside chrono's range of about 262,000 years either side of
/// year 0.
#[verifier::external_body]
fn utc_timestamp() -> (t: String)
    ensures
        is_rfc3339_utc(t@),
{
    chrono::DateTime::<chrono::Utc>::from(std::time::SystemTime::now()).to_rfc3339()
}

/// One message of the component protocol.
#[derive(Debug, Clone)]
pub struct Envelope {
    pub protocol_version: String,
    pub message_id: String,
    pub correlation_id: Option<String>,
    pub timestamp: String,
    pub source: String,
    pub target: String,
    pub msg_type: MessageType,
    pub command: Command,
    pub payload: Payload,
}

pub open spec fn opt_view(o: Option<String>) -> Option<Seq<char>> {
    match o {
        Some(s) => Some(s@),
        None => None,
    }
}

impl Envelope {
    /// A freshly stamped message with this type, command, source and payload,
    /// addressed to Aegis: current protocol version, new random id, UTC
    /// timestamp. Says nothing of the correlation id.
    pub open spec fn is_fresh(
        self,
        msg_type: MessageType,
        command: Command,
        source: Seq<char>,
        payload: Map<Seq<char>, JsonModel>,
    ) -> bool {
        &&& self.protocol_version@ == PROTOCOL_VERSION@
        &&& is_uuid_v4_text(self.message_id@)
        &&& is_rfc3339_utc(self.timestamp@)
        &&& self.source@ == source
        &&& self.target@ == "aegis"@
        &&& self.msg_type == msg_type
        &&& self.command == command
        &&& self.payload@ == payload
    }

    /// A message to Aegis with the given id and timestamp, without a
    /// correlation id.
    pub fn stamped(
        msg_type: MessageType,
        command: Command,
        source: String,
        payload: Payload,
        id: String,
        timestamp: String,
    ) -> (e: Envelope)
        ensures
            e.protocol_version@ == PROTOCOL_VERSION@,
            e.message_id@ == id@,
            e.timestamp@ == timestamp@,
            e.source@ == source@,
            e.target@ == "aegis"@,
            e.msg_type == msg_type,
            e.command == command,
            e.payload@ == payload@,
            e.correlation_id is None,
    {
        Envelope {
            protocol_version: PROTOCOL_VERSION.to_string(),
            message_id: id,
            correlation_id: None,
            timestamp,
            source,
            target: "aegis".to_string(),
            msg_type,
            command,
            payload,
        }
    }

    /// A new message to Aegis, without a correlation id.
    pub fn new(msg_type: MessageType, command: Command, source: String, payload: Payload) -> (e:
        Envelope)
        ensures
            e.is_fresh(msg_type, command, source@, payload@),
            e.correlation_id is None,
    {
        Envelope::stamped(msg_type, command, source, payload, new_message_id(), utc_timestamp())
    }

    /// The same message, answering the message with id `id`.
    pub fn with_correlation(self, id: String) -> (e: Envelope)
        ensures
            e == (Envelope { correlation_id: Some(id), ..self }),
            opt_view(e.correlation_id) == Some(id@),
    {
        let mut e = self;
        e.correlation_id = Some(id);
        e
    }
}

} // verus!
