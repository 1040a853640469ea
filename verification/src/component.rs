use vstd::prelude::*;

use crate::config::{Config, Delay};
use crate::error::{describes, AegisError};
use crate::text::{decimal, decimal_text, joined};
use crate::json::{
    json_model, str_array, str_items, string_views, Json, JsonModel, Number, NumberModel, Payload,
};
use crate::protocol::{
    command_debug_name, opt_view, state_name, Command, ComponentState, Envelope, MessageType,
};

verus! {

// ---------------------------------------------------------------------------
// What the component says
// ---------------------------------------------------------------------------

/// The sender name of every message the component sends.
pub open spec fn source_of(cfg: Config) -> Seq<char> {
    "component:"@ + cfg.component_name@
}

/// The sender name of every message the component sends: `component:<name>`.
pub fn source(cfg: &Config) -> (s: String)
    ensures
        s@ == source_of(*cfg),
{
    joined("component:", cfg.component_name.as_str())
}

pub open spec fn opt_str_view(o: Option<&str>) -> Option<Seq<char>> {
    match o {
        Some(s) => Some(s@),
        None => None,
    }
}

/// The id a component registers under: the one Aegis gave it before, else
/// the one it was launched with (possibly empty).
pub open spec fn chosen_id(stored: Seq<char>, launched: Seq<char>) -> Seq<char> {
    if stored.len() > 0 {
        stored
    } else {
        launched
    }
}

/// What a component declares it can do.
pub open spec fn capabilities_model(cfg: Config) -> JsonModel {
    JsonModel::Object(
        seq![
            ("supported_symbols"@, str_array(string_views(cfg.supported_symbols@))),
            ("supported_timeframes"@, str_array(string_views(cfg.supported_timeframes@))),
            ("requires_streams"@, str_array(string_views(cfg.requires_streams@))),
        ],
    )
}

/// The payload of REGISTER: credentials, name, version, the id if there is
/// one, and the capabilities.
pub open spec fn register_payload(cfg: Config, stored: Seq<char>, launched: Seq<char>) -> Map<
    Seq<char>,
    JsonModel,
> {
    let base = Map::empty().insert("session_token"@, JsonModel::Str(cfg.session_token@)).insert(
        "component_name"@,
        JsonModel::Str(cfg.component_name@),
    ).insert("version"@, JsonModel::Str(cfg.version@));
    let id = chosen_id(stored, launched);
    let with_id = if id.len() > 0 {
        base.insert("component_id"@, JsonModel::Str(id))
    } else {
        base
    };
    with_id.insert("capabilities"@, capabilities_model(cfg))
}

/// The REGISTER message. `stored_id` is the id Aegis assigned on an earlier
/// registration (empty before the first); `launched_id` is the id the
/// component was started with (`AEGIS_COMPONENT_ID`, empty if unset).
pub fn register_request(cfg: &Config, stored_id: &str, launched_id: &str) -> (e: Envelope)
    ensures
        e.is_fresh(
            MessageType::Lifecycle,
            Command::Register,
            source_of(*cfg),
            register_payload(*cfg, stored_id@, launched_id@),
        ),
        e.correlation_id is None,
        stored_id@.len() > 0 ==> e.payload@.contains_key("component_id"@) && e.payload@["component_id"@]
            == JsonModel::Str(stored_id@),
        stored_id@.len() == 0 && launched_id@.len() > 0 ==> e.payload@.contains_key("component_id"@)
            && e.payload@["component_id"@] == JsonModel::Str(launched_id@),
        stored_id@.len() == 0 && launched_id@.len() == 0 ==> !e.payload@.contains_key("component_id"@),
{
    proof {
        law_register_carries_the_known_id(*cfg, stored_id@, launched_id@);
    }
    let mut payload = Payload::new();
    payload.insert("session_token".to_string(), Json::Str(cfg.session_token.clone()));
    payload.insert("component_name".to_string(), Json::Str(cfg.component_name.clone()));
    payload.insert("version".to_string(), Json::Str(cfg.version.clone()));
    let component_id = if !stored_id.is_empty() {
        stored_id.to_string()
    } else {
        launched_id.to_string()
    };
    if !component_id.as_str().is_empty() {
        payload.insert("component_id".to_string(), Json::Str(component_id));
    }
    let mut caps: Vec<(String, Json)> = Vec::new();
    caps.push(("supported_symbols".to_string(), Json::from_strings(&cfg.supported_symbols)));
    caps.push(("supported_timeframes".to_string(), Json::from_strings(&cfg.supported_timeframes)));
    caps.push(("requires_streams".to_string(), Json::from_strings(&cfg.requires_streams)));
    let ghost entries = caps@;
    let caps = Json::Object(caps);
    proof {
        crate::json::lemma_entry_models_index(entries);
        assert(crate::json::entry_models(entries) =~= seq![
            ("supported_symbols"@, str_array(string_views(cfg.supported_symbols@))),
            ("supported_timeframes"@, str_array(string_views(cfg.supported_timeframes@))),
            ("requires_streams"@, str_array(string_views(cfg.requires_streams@))),
        ]);
        assert(json_model(caps) == capabilities_model(*cfg));
    }
    payload.insert("capabilities".to_string(), caps);
    Envelope::new(MessageType::Lifecycle, Command::Register, source(cfg), payload)
}

/// The text under `key`, or `default` when the key is absent or holds
/// something other than a string.
pub open spec fn text_field(p: Map<Seq<char>, JsonModel>, key: Seq<char>, default: Seq<char>) -> Seq<char> {
    if p.contains_key(key) {
        match p[key] {
            JsonModel::Str(t) => t,
            _ => default,
        }
    } else {
        default
    }
}

/// The boolean under `key`, or `false` when absent or not a boolean.
pub open spec fn flag_field(p: Map<Seq<char>, JsonModel>, key: Seq<char>) -> bool {
    p.contains_key(key) && (p[key] matches JsonModel::Bool(b) && b)
}

/// The strings of the array under `key`, skipping non-strings; empty when
/// absent or not an array.
pub open spec fn strings_field(p: Map<Seq<char>, JsonModel>, key: Seq<char>) -> Seq<Seq<char>> {
    if p.contains_key(key) {
        match p[key] {
            JsonModel::Array(items) => str_items(items),
            _ => Seq::empty(),
        }
    } else {
        Seq::empty()
    }
}

/// The text under `key`, or `default`.
pub fn text_or(p: &Payload, key: &str, default: &str) -> (s: String)
    ensures
        s@ == text_field(p@, key@, default@),
{
    match p.get(key) {
        Some(v) => match v.as_str() {
            Some(t) => t.to_string(),
            None => default.to_string(),
        },
        None => default.to_string(),
    }
}

/// The identity Aegis grants on registration.
pub struct Registration {
    pub component_id: String,
    pub session_id: String,
}

/// Reads the answer to REGISTER. Anything but REGISTERED is a registration
/// failure, which is never retried. A REGISTERED answer must carry both ids
/// (a value that is not a string counts as the empty id).
pub fn accept_registration(resp: &Envelope) -> (r: Result<Registration, AegisError>)
    requires
        resp.command == Command::Registered ==> resp.payload@.contains_key("component_id"@)
            && resp.payload@.contains_key("session_id"@),
    ensures
        resp.command != Command::Registered ==> (r matches Err(AegisError::Registration(m)) && m@
            == "unexpected response: "@ + command_debug_name(resp.command)),
        resp.command == Command::Registered ==> (r matches Ok(reg) && reg.component_id@
            == text_field(resp.payload@, "component_id"@, Seq::empty()) && reg.session_id@
            == text_field(resp.payload@, "session_id"@, Seq::empty())),
{
    if resp.command != Command::Registered {
        return Err(
            AegisError::Registration(joined("unexpected response: ", resp.command.debug_name())),
        );
    }
    proof {
        reveal_strlit("");
    }
    let component_id = text_or(&resp.payload, "component_id", "");
    let session_id = text_or(&resp.payload, "session_id", "");
    Ok(Registration { component_id, session_id })
}

/// The payload of STATE_UPDATE.
pub open spec fn state_update_payload(s: ComponentState, message: Option<Seq<char>>) -> Map<
    Seq<char>,
    JsonModel,
> {
    let base = Map::empty().insert("state"@, JsonModel::Str(state_name(s)));
    match message {
        Some(m) => base.insert("message"@, JsonModel::Str(m)),
        None => base,
    }
}

/// The STATE_UPDATE announcing `new_state`, with an optional message.
pub fn state_update(cfg: &Config, new_state: ComponentState, message: Option<&str>) -> (e: Envelope)
    ensures
        e.is_fresh(
            MessageType::Lifecycle,
            Command::StateUpdate,
            source_of(*cfg),
            state_update_payload(new_state, opt_str_view(message)),
        ),
        e.correlation_id is None,
        e.payload@.contains_key("state"@) && e.payload@["state"@] == JsonModel::Str(state_name(new_state)),
{
    proof {
        law_state_update_reports_the_state(new_state, opt_str_view(message));
    }
    let mut payload = Payload::new();
    payload.insert("state".to_string(), Json::Str(new_state.to_string()));
    match message {
        Some(m) => payload.insert("message".to_string(), Json::Str(m.to_string())),
        None => {},
    }
    Envelope::new(MessageType::Lifecycle, Command::StateUpdate, source(cfg), payload)
}

/// The payload of a RUNTIME_ERROR report.
pub open spec fn error_payload(code: Seq<char>, message: Seq<char>, recoverable: bool) -> Map<
    Seq<char>,
    JsonModel,
> {
    Map::empty().insert("code"@, JsonModel::Str(code)).insert(
        "message"@,
        JsonModel::Str(message),
    ).insert("recoverable"@, JsonModel::Bool(recoverable))
}

/// The RUNTIME_ERROR report of a failure.
pub fn error_report(cfg: &Config, code: &str, message: &str, recoverable: bool) -> (e: Envelope)
    ensures
        e.is_fresh(
            MessageType::Error,
            Command::RuntimeError,
            source_of(*cfg),
            error_payload(code@, message@, recoverable),
        ),
        e.correlation_id is None,
{
    let mut payload = Payload::new();
    payload.insert("code".to_string(), Json::Str(code.to_string()));
    payload.insert("message".to_string(), Json::Str(message.to_string()));
    payload.insert("recoverable".to_string(), Json::Bool(recoverable));
    Envelope::new(MessageType::Error, Command::RuntimeError, source(cfg), payload)
}

/// The payload of an ACK.
pub open spec fn ack_payload() -> Map<Seq<char>, JsonModel> {
    Map::empty().insert("status"@, JsonModel::Str("ok"@))
}

/// The ACK of the message with id `correlation_id`.
pub fn ack(cfg: &Config, correlation_id: &str) -> (e: Envelope)
    ensures
        e.is_fresh(MessageType::Control, Command::Ack, source_of(*cfg), ack_payload()),
        opt_view(e.correlation_id) == Some(correlation_id@),
{
    let mut payload = Payload::new();
    payload.insert("status".to_string(), Json::Str("ok".to_string()));
    Envelope::new(MessageType::Control, Command::Ack, source(cfg), payload).with_correlation(
        correlation_id.to_string(),
    )
}

/// The payload of a PONG.
pub open spec fn pong_payload(s: ComponentState, uptime_seconds: u64) -> Map<Seq<char>, JsonModel> {
    Map::empty().insert("state"@, JsonModel::Str(state_name(s))).insert(
        "uptime_seconds"@,
        JsonModel::Number(NumberModel::PosInt(uptime_seconds)),
    )
}

/// The PONG answering `ping`, reporting the current state and uptime.
pub fn pong(cfg: &Config, ping: &Envelope, state: ComponentState, uptime_seconds: u64) -> (e:
    Envelope)
    ensures
        e.is_fresh(
            MessageType::Heartbeat,
            Command::Pong,
            source_of(*cfg),
            pong_payload(state, uptime_seconds),
        ),
        opt_view(e.correlation_id) == Some(ping.message_id@),
        e.payload@.contains_key("state"@) && e.payload@["state"@] == JsonModel::Str(state_name(state)),
        e.payload@.contains_key("uptime_seconds"@) && e.payload@["uptime_seconds"@]
            == JsonModel::Number(NumberModel::PosInt(uptime_seconds)),
{
    proof {
        law_pong_reports_state_and_uptime(state, uptime_seconds);
    }
    let mut payload = Payload::new();
    payload.insert("state".to_string(), Json::Str(state.to_string()));
    payload.insert("uptime_seconds".to_string(), Json::Number(Number::PosInt(uptime_seconds)));
    Envelope::new(MessageType::Heartbeat, Command::Pong, source(cfg), payload).with_correlation(
        ping.message_id.clone(),
    )
}


// ---------------------------------------------------------------------------
// What the component does with what it hears
// ---------------------------------------------------------------------------

/// What an incoming message asks of the component.
pub enum Incoming {
    /// A heartbeat PING: call `on_ping`, then answer with [`pong`].
    Ping,
    /// CONFIGURE: call `on_configure` with these, then go on with [`after_configure`].
    Configure { socket_path: String, topics: Vec<String> },
    /// REBORN: call `on_reborn`, then go on with [`after_reborn`].
    Reborn,
    /// SHUTDOWN: go on with [`after_shutdown_request`] and end the connection.
    Shutdown,
    /// A non-recoverable error report from Aegis: call `on_error`, then end
    /// the connection with [`after_fault`].
    Fault { code: String, message: String },
    /// A recoverable error report from Aegis: nothing to do but take note;
    /// `on_error` is kept for non-recoverable errors.
    Warning { code: String, message: String },
    /// Nothing to do (acknowledgements, other commands, data).
    Ignore,
}

/// Decides what an incoming message asks for and reads the payload fields
/// that go with it.
pub fn route(env: &Envelope) -> (r: Incoming)
    ensures
        (env.msg_type == MessageType::Heartbeat && env.command == Command::Ping) <==> r is Ping,
        (env.msg_type == MessageType::Config && env.command == Command::Configure) <==> r is Configure,
        (env.msg_type == MessageType::Lifecycle && env.command == Command::Reborn) <==> r is Reborn,
        (env.msg_type == MessageType::Lifecycle && env.command == Command::Shutdown) <==> r is Shutdown,
        (env.msg_type == MessageType::Error && !flag_field(env.payload@, "recoverable"@)) <==> r is Fault,
        (env.msg_type == MessageType::Error && flag_field(env.payload@, "recoverable"@)) <==> r is Warning,
        r matches Incoming::Configure { socket_path, topics } ==> socket_path@ == text_field(
            env.payload@,
            "data_stream_socket"@,
            Seq::empty(),
        ) && string_views(topics@) == strings_field(env.payload@, "topics"@)
            && string_views(topics@) == (if env.payload@.contains_key("topics"@)
            && env.payload@["topics"@] is Array {
            env.payload@["topics"@]->Array_0.filter_map(|j: JsonModel| text_of(j))
        } else {
            Seq::empty()
        }),
        r matches Incoming::Fault { code, message } ==> code@ == text_field(
            env.payload@,
            "code"@,
            "UNKNOWN"@,
        ) && message@ == text_field(env.payload@, "message"@, Seq::empty()),
        r matches Incoming::Warning { code, message } ==> code@ == text_field(
            env.payload@,
            "code"@,
            "UNKNOWN"@,
        ) && message@ == text_field(env.payload@, "message"@, Seq::empty()),
{
    proof {
        reveal_strlit("");
        law_configure_topics_are_all_strings(env.payload@, "topics"@);
    }
    match env.msg_type {
        MessageType::Heartbeat => {
            if env.command == Command::Ping {
                Incoming::Ping
            } else {
                Incoming::Ignore
            }
        },
        MessageType::Config => {
            if env.command == Command::Configure {
                let socket_path = text_or(&env.payload, "data_stream_socket", "");
                let topics = match env.payload.get("topics") {
                    Some(v) => match v.as_array() {
                        Some(items) => Json::strings_of(items),
                        None => Vec::new(),
                    },
                    None => Vec::new(),
                };
                proof {
                    assert(string_views(topics@) == strings_field(env.payload@, "topics"@)) by {
                        if !env.payload@.contains_key("topics"@) || !(env.payload@["topics"@] is Array) {
                            assert(string_views(topics@) =~= Seq::<Seq<char>>::empty());
                        }
                    }
                }
                Incoming::Configure { socket_path, topics }
            } else {
                Incoming::Ignore
            }
        },
        MessageType::Lifecycle => match env.command {
            Command::Reborn => Incoming::Reborn,
            Command::Shutdown => Incoming::Shutdown,
            _ => Incoming::Ignore,
        },
        MessageType::Error => {
            let code = text_or(&env.payload, "code", "UNKNOWN");
            let message = text_or(&env.payload, "message", "");
            let recoverable = match env.payload.get("recoverable") {
                Some(v) => match v.as_bool() {
                    Some(b) => b,
                    None => false,
                },
                None => false,
            };
            if recoverable {
                Incoming::Warning { code, message }
            } else {
                Incoming::Fault { code, message }
            }
        },
        MessageType::Control => Incoming::Ignore,
        MessageType::Data => Incoming::Ignore,
    }
}

/// One thing the component does, in the order given; a failed send ends
/// the connection with its error and skips the rest.
pub enum Effect {
    /// Send this message to Aegis.
    Send(Envelope),
    /// Record this as the component's state.
    Enter(ComponentState),
    /// Start `on_running` with the connection's shutdown token.
    StartRunning,
    /// Cancel the connection's shutdown token.
    CancelRunning,
    /// Call `on_shutdown`.
    ShutDownHandler,
}

/// `eff` sends the STATE_UPDATE announcing `s`.
pub open spec fn announces(eff: Effect, cfg: Config, s: ComponentState) -> bool {
    eff matches Effect::Send(e) && e.is_fresh(
        MessageType::Lifecycle,
        Command::StateUpdate,
        source_of(cfg),
        state_update_payload(s, None),
    ) && e.correlation_id is None
}

/// `eff` sends the ACK of the message with id `id`.
pub open spec fn acknowledges(eff: Effect, cfg: Config, id: Seq<char>) -> bool {
    eff matches Effect::Send(e) && e.is_fresh(
        MessageType::Control,
        Command::Ack,
        source_of(cfg),
        ack_payload(),
    ) && opt_view(e.correlation_id) == Some(id)
}

/// `s` cancels the connection's shutdown token.
pub open spec fn cancels(s: Seq<Effect>) -> bool {
    exists|i: int| 0 <= i < s.len() && #[trigger] s[i] is CancelRunning
}

/// `s` starts `on_running`.
pub open spec fn starts_running(s: Seq<Effect>) -> bool {
    exists|i: int| 0 <= i < s.len() && #[trigger] s[i] is StartRunning
}

/// The steps that hand the runtime a list of effects; `Quiet` is every
/// message that leads to none.
pub enum StepKind {
    Registration,
    ConfigureAccepted,
    ConfigureFailed,
    Reborn,
    Shutdown,
    Quiet,
}

/// What each kind of step does to `on_running` and its shutdown token: only
/// an accepted CONFIGURE starts it, only SHUTDOWN cancels the token.
pub open spec fn reacts(kind: StepKind, s: Seq<Effect>) -> bool {
    &&& cancels(s) <==> kind is Shutdown
    &&& starts_running(s) <==> kind is ConfigureAccepted
}

/// One of the first `n` steps cancelled the shutdown token.
pub open spec fn cancelled_within(steps: Seq<Seq<Effect>>, n: int) -> bool {
    exists|k: int| 0 <= k < n && cancels(#[trigger] steps[k])
}

/// One of the first `n` messages asked the component to shut down.
pub open spec fn shutdown_within(envs: Seq<Envelope>, n: int) -> bool {
    exists|k: int| 0 <= k < n && is_shutdown_request(#[trigger] envs[k])
}

/// `env` asks the component to shut down.
pub open spec fn is_shutdown_request(env: Envelope) -> bool {
    env.msg_type == MessageType::Lifecycle && env.command == Command::Shutdown
}

/// `env` announces a session restart.
pub open spec fn is_reborn(env: Envelope) -> bool {
    env.msg_type == MessageType::Lifecycle && env.command == Command::Reborn
}

/// `env` configures the component.
pub open spec fn is_configure(env: Envelope) -> bool {
    env.msg_type == MessageType::Config && env.command == Command::Configure
}

/// The step an incoming message leads to, as [`route`] sends it to the
/// `after_*` functions; `configured` is whether `on_configure` succeeded
/// (it matters only for a CONFIGURE).
pub open spec fn kind_of(env: Envelope, configured: bool) -> StepKind {
    if is_configure(env) {
        if configured {
            StepKind::ConfigureAccepted
        } else {
            StepKind::ConfigureFailed
        }
    } else if is_reborn(env) {
        StepKind::Reborn
    } else if is_shutdown_request(env) {
        StepKind::Shutdown
    } else {
        StepKind::Quiet
    }
}

/// Over a whole connection: registration, then the messages `envs` in
/// turn, each handled with the effect list `steps[k]` that the library
/// gives for it (empty for a message that calls for none), `configured[k]`
/// telling whether `on_configure` succeeded. However many REBORNs arrive,
/// at every point the shutdown token is cancelled if and only if a SHUTDOWN
/// has been handled; a REBORN neither cancels the token nor starts
/// `on_running` again; and only a CONFIGURE that `on_configure` accepted
/// starts `on_running`.
pub proof fn law_only_shutdown_cancels_running(
    registered: Seq<Effect>,
    envs: Seq<Envelope>,
    configured: Seq<bool>,
    steps: Seq<Seq<Effect>>,
)
    requires
        reacts(StepKind::Registration, registered),
        steps.len() == envs.len(),
        configured.len() == envs.len(),
        forall|k: int| 0 <= k < envs.len() ==> reacts(kind_of(#[trigger] envs[k], configured[k]), steps[k]),
    ensures
        !cancels(registered) && !starts_running(registered),
        forall|n: int|
            0 <= n <= envs.len() ==> (#[trigger] cancelled_within(steps, n) <==> shutdown_within(
                envs,
                n,
            )),
        forall|k: int|
            0 <= k < envs.len() && is_reborn(#[trigger] envs[k]) ==> !cancels(steps[k])
                && !starts_running(steps[k]),
        forall|k: int|
            0 <= k < envs.len() && starts_running(#[trigger] steps[k]) ==> is_configure(envs[k])
                && configured[k],
{
    assert forall|n: int| 0 <= n <= envs.len() implies (#[trigger] cancelled_within(steps, n)
        <==> shutdown_within(envs, n)) by {
        if cancelled_within(steps, n) {
            let k = choose|k: int| 0 <= k < n && cancels(#[trigger] steps[k]);
            assert(reacts(kind_of(envs[k], configured[k]), steps[k]));
            assert(is_shutdown_request(envs[k]));
        }
        if shutdown_within(envs, n) {
            let k = choose|k: int| 0 <= k < n && is_shutdown_request(#[trigger] envs[k]);
            assert(reacts(kind_of(envs[k], configured[k]), steps[k]));
            assert(cancels(steps[k]));
        }
    }
    assert forall|k: int| 0 <= k < envs.len() && is_reborn(#[trigger] envs[k]) implies !cancels(steps[k])
        && !starts_running(steps[k]) by {
        assert(reacts(kind_of(envs[k], configured[k]), steps[k]));
    }
    assert forall|k: int| 0 <= k < envs.len() && starts_running(#[trigger] steps[k]) implies is_configure(envs[k])
        && configured[k] by {
        assert(reacts(kind_of(envs[k], configured[k]), steps[k]));
    }
}

/// Announce `s`, then record it.
fn push_transition(effects: &mut Vec<Effect>, cfg: &Config, s: ComponentState)
    ensures
        final(effects)@.len() == old(effects)@.len() + 2,
        forall|i: int| 0 <= i < old(effects)@.len() ==> final(effects)@[i] == old(effects)@[i],
        announces(final(effects)@[old(effects)@.len() as int], *cfg, s),
        final(effects)@[old(effects)@.len() as int + 1] == Effect::Enter(s),
{
    effects.push(Effect::Send(state_update(cfg, s, None)));
    effects.push(Effect::Enter(s));
}

/// Changing to `new_state` at the component's own request: send the
/// STATE_UPDATE announcing it (with the optional message), then record it.
pub fn state_transition(cfg: &Config, new_state: ComponentState, message: Option<&str>) -> (effects:
    Vec<Effect>)
    ensures
        effects@.len() == 2,
        effects@[0] matches Effect::Send(e) && e.is_fresh(
            MessageType::Lifecycle,
            Command::StateUpdate,
            source_of(*cfg),
            state_update_payload(new_state, opt_str_view(message)),
        ) && e.correlation_id is None,
        effects@[1] == Effect::Enter(new_state),
        reacts(StepKind::Quiet, effects@),
{
    let mut effects: Vec<Effect> = Vec::new();
    effects.push(Effect::Send(state_update(cfg, new_state, message)));
    effects.push(Effect::Enter(new_state));
    effects
}

/// After REGISTERED: record REGISTERED, then announce and record
/// INITIALIZING, then READY (Aegis waits for both before it configures).
pub fn after_registration(cfg: &Config) -> (effects: Vec<Effect>)
    ensures
        reacts(StepKind::Registration, effects@),
        effects@.len() == 5,
        effects@[0] == Effect::Enter(ComponentState::Registered),
        announces(effects@[1], *cfg, ComponentState::Initializing),
        effects@[2] == Effect::Enter(ComponentState::Initializing),
        announces(effects@[3], *cfg, ComponentState::Ready),
        effects@[4] == Effect::Enter(ComponentState::Ready),
{
    let mut effects: Vec<Effect> = Vec::new();
    effects.push(Effect::Enter(ComponentState::Registered));
    push_transition(&mut effects, cfg, ComponentState::Initializing);
    push_transition(&mut effects, cfg, ComponentState::Ready);
    effects
}

/// After `on_configure` answered `outcome` for the CONFIGURE `request`:
/// on failure, report it as a recoverable CONFIGURE_FAILED error and change
/// nothing; on success, acknowledge the request, announce and record
/// CONFIGURED, then RUNNING, and start `on_running`.
pub fn after_configure(cfg: &Config, request: &Envelope, outcome: &Result<(), AegisError>) -> (effects:
    Vec<Effect>)
    ensures
        reacts(if outcome is Ok { StepKind::ConfigureAccepted } else { StepKind::ConfigureFailed }, effects@),
        match outcome {
            Err(err) => effects@.len() == 1 && (effects@[0] matches Effect::Send(e) && e.is_fresh(
                MessageType::Error,
                Command::RuntimeError,
                source_of(*cfg),
                e.payload@,
            ) && e.correlation_id is None && (exists|m: Seq<char>|
                describes(*err, m) && e.payload@ == error_payload("CONFIGURE_FAILED"@, m, true))),
            Ok(()) => {
                &&& effects@.len() == 6
                &&& acknowledges(effects@[0], *cfg, request.message_id@)
                &&& announces(effects@[1], *cfg, ComponentState::Configured)
                &&& effects@[2] == Effect::Enter(ComponentState::Configured)
                &&& announces(effects@[3], *cfg, ComponentState::Running)
                &&& effects@[4] == Effect::Enter(ComponentState::Running)
                &&& effects@[5] == Effect::StartRunning
            },
        },
{
    let mut effects: Vec<Effect> = Vec::new();
    match outcome {
        Err(err) => {
            let text = err.to_string();
            let report = error_report(cfg, "CONFIGURE_FAILED", text.as_str(), true);
            assert(describes(*err, text@));
            effects.push(Effect::Send(report));
        },
        Ok(()) => {
            effects.push(Effect::Send(ack(cfg, request.message_id.as_str())));
            push_transition(&mut effects, cfg, ComponentState::Configured);
            push_transition(&mut effects, cfg, ComponentState::Running);
            effects.push(Effect::StartRunning);
        },
    }
    effects
}

/// After `on_reborn` for the REBORN `request`: acknowledge it; the
/// component stays as it is and `on_running` goes on.
pub fn after_reborn(cfg: &Config, request: &Envelope) -> (effects: Vec<Effect>)
    ensures
        reacts(StepKind::Reborn, effects@),
        effects@.len() == 1,
        acknowledges(effects@[0], *cfg, request.message_id@),
{
    let mut effects: Vec<Effect> = Vec::new();
    effects.push(Effect::Send(ack(cfg, request.message_id.as_str())));
    effects
}

/// On the SHUTDOWN `request`: stop `on_running`, acknowledge, call
/// `on_shutdown`, and record SHUTDOWN; the connection then ends cleanly.
pub fn after_shutdown_request(cfg: &Config, request: &Envelope) -> (effects: Vec<Effect>)
    ensures
        reacts(StepKind::Shutdown, effects@),
        effects@.len() == 4,
        effects@[0] == Effect::CancelRunning,
        acknowledges(effects@[1], *cfg, request.message_id@),
        effects@[2] == Effect::ShutDownHandler,
        effects@[3] == Effect::Enter(ComponentState::Shutdown),
{
    let mut effects: Vec<Effect> = Vec::new();
    effects.push(Effect::CancelRunning);
    effects.push(Effect::Send(ack(cfg, request.message_id.as_str())));
    effects.push(Effect::ShutDownHandler);
    effects.push(Effect::Enter(ComponentState::Shutdown));
    effects
}

/// After `on_error` for a non-recoverable error: the error that ends the
/// connection (and so triggers a reconnect).
pub fn after_fault() -> (e: AegisError)
    ensures
        e matches AegisError::Connection(m) && m@ == "non-recoverable error"@,
{
    AegisError::Connection("non-recoverable error".to_string())
}

/// Whether the message loop ends once the message that `incoming` stands
/// for has been handled: a SHUTDOWN ends the connection cleanly, a
/// non-recoverable error ends it with [`after_fault`]'s error, and every
/// other message lets the loop go on.
pub fn ends_connection(incoming: &Incoming) -> (r: Option<Result<(), AegisError>>)
    ensures
        incoming is Shutdown <==> r == Some(Ok::<(), AegisError>(())),
        incoming is Fault <==> (r matches Some(Err(e)) && (e matches AegisError::Connection(m)
            && m@ == "non-recoverable error"@)),
        !(incoming is Shutdown || incoming is Fault) <==> r is None,
{
    match incoming {
        Incoming::Shutdown => Some(Ok(())),
        Incoming::Fault { .. } => Some(Err(after_fault())),
        _ => None,
    }
}

/// Whether a read that returned `bytes_read` bytes got a line; zero bytes
/// means the peer closed the connection, reported as `<what> closed`.
pub fn line_received(bytes_read: usize, what: &str) -> (r: Result<(), AegisError>)
    ensures
        bytes_read > 0 <==> r is Ok,
        r matches Err(e) ==> (e matches AegisError::Connection(m) && m@ == what@ + " closed"@),
{
    if bytes_read == 0 {
        Err(AegisError::Connection(joined(what, " closed")))
    } else {
        Ok(())
    }
}


// ---------------------------------------------------------------------------
// Reconnecting
// ---------------------------------------------------------------------------

/// How a connection ended, as far as reconnecting is concerned.
pub enum SessionEnd {
    /// The component shut down cleanly.
    Clean,
    /// Aegis refused the registration.
    Refused,
    /// The connection was lost or failed in any other way.
    Lost,
}

pub open spec fn session_end(outcome: Result<(), AegisError>) -> SessionEnd {
    match outcome {
        Ok(()) => SessionEnd::Clean,
        Err(AegisError::Registration(_)) => SessionEnd::Refused,
        Err(_) => SessionEnd::Lost,
    }
}

/// The attempt count after one more attempt (it stops at `u32::MAX`).
pub open spec fn next_attempts(attempts: u32) -> u32 {
    if attempts < u32::MAX {
        (attempts + 1) as u32
    } else {
        attempts
    }
}

/// Whether a connection that ended so, after `attempts` earlier retries, is
/// retried: only lost connections, only if reconnecting is on, and only
/// while the attempt limit (0 = none) is not reached.
pub open spec fn is_retried(cfg: Config, attempts: u32, end: SessionEnd) -> bool {
    &&& end is Lost
    &&& cfg.reconnect
    &&& !(cfg.max_reconnect_attempts > 0 && next_attempts(attempts) >= cfg.max_reconnect_attempts)
}

/// The delay before the retry after the one that waited `nanos`: doubled,
/// but at most the configured maximum.
pub open spec fn backed_off(cfg: Config, nanos: u128) -> u128 {
    if 2 * nanos <= cfg.max_reconnect_delay.nanos {
        (2 * nanos) as u128
    } else {
        cfg.max_reconnect_delay.nanos
    }
}

/// Where a run of connections stands: how many retries were made, and how
/// long the next one waits.
pub struct Reconnect {
    pub attempts: u32,
    pub delay: Delay,
}

/// What to do once a connection has ended.
pub enum RunDecision {
    /// Stop running with this result.
    Finish(Result<(), AegisError>),
    /// Wait this long, then connect again.
    Retry(Delay),
}

impl Reconnect {
    /// No retries yet; the first waits the configured reconnect delay.
    pub fn new(cfg: &Config) -> (r: Reconnect)
        ensures
            r.attempts == 0,
            r.delay == cfg.reconnect_delay,
    {
        Reconnect { attempts: 0, delay: cfg.reconnect_delay }
    }

    /// Decides what follows a connection that ended with `outcome`: a clean
    /// end and a refused registration finish the run with that result; a lost
    /// connection is retried after the current delay (which then doubles up to
    /// the maximum), unless reconnecting is off or the attempt limit is reached.
    pub fn after_session(&mut self, cfg: &Config, outcome: Result<(), AegisError>) -> (d: RunDecision)
        ensures
            match outcome {
                Ok(()) => d matches RunDecision::Finish(Ok(())),
                Err(AegisError::Registration(m)) => d matches RunDecision::Finish(
                    Err(AegisError::Registration(m2)),
                ) && m2@ == m@,
                Err(_) => !cfg.reconnect ==> (d matches RunDecision::Finish(
                    Err(AegisError::Connection(m)),
                ) && m@ == "reconnect disabled"@),
            },
            session_end(outcome) is Lost && cfg.reconnect ==> final(self).attempts == next_attempts(
                old(self).attempts,
            ),
            !(session_end(outcome) is Lost && cfg.reconnect) ==> final(self).attempts == old(self).attempts,
            is_retried(*cfg, old(self).attempts, session_end(outcome)) ==> d == RunDecision::Retry(
                old(self).delay,
            ) && final(self).delay.nanos == backed_off(*cfg, old(self).delay.nanos),
            !is_retried(*cfg, old(self).attempts, session_end(outcome)) ==> d is Finish
                && final(self).delay == old(self).delay,
            outcome is Err && !(outcome->Err_0 is Registration) && cfg.reconnect && !(
            cfg.max_reconnect_attempts > 0 && next_attempts(old(self).attempts)
                >= cfg.max_reconnect_attempts) ==> d == RunDecision::Retry(old(self).delay),
            session_end(outcome) is Lost && cfg.reconnect && !is_retried(
                *cfg,
                old(self).attempts,
                session_end(outcome),
            ) ==> (d matches RunDecision::Finish(Err(AegisError::Connection(m))) && m@
                == "max reconnect attempts ("@ + decimal(final(self).attempts as nat) + ") reached"@),
    {
        proof {
            if outcome is Err && !(outcome->Err_0 is Registration) {
                law_lost_connections_are_retried(*cfg, self.attempts, outcome->Err_0);
            }
        }
        match outcome {
            Ok(()) => return RunDecision::Finish(Ok(())),
            Err(AegisError::Registration(m)) => {
                return RunDecision::Finish(Err(AegisError::Registration(m)));
            },
            Err(_) => {},
        }
        if !cfg.reconnect {
            return RunDecision::Finish(
                Err(AegisError::Connection("reconnect disabled".to_string())),
            );
        }
        if self.attempts < u32::MAX {
            self.attempts = self.attempts + 1;
        }
        if cfg.max_reconnect_attempts > 0 && self.attempts >= cfg.max_reconnect_attempts {
            let count = decimal_text(self.attempts);
            let mut m = joined("max reconnect attempts (", count.as_str());
            m.append(") reached");
            return RunDecision::Finish(Err(AegisError::Connection(m)));
        }
        let wait = self.delay;
        self.delay = self.delay.doubled_up_to(cfg.max_reconnect_delay);
        RunDecision::Retry(wait)
    }
}

/// The delay before the `k`th retry of a run that started with `d0`
/// (the first retry is retry 0).
pub open spec fn delay_before(cfg: Config, d0: u128, k: nat) -> u128
    decreases k,
{
    if k == 0 {
        d0
    } else {
        backed_off(cfg, delay_before(cfg, d0, (k - 1) as nat))
    }
}

/// Every wait after the first is at most the configured maximum, and when
/// the run starts at or below the maximum the waits never shrink.
pub proof fn law_backoff_is_capped_and_grows(cfg: Config, d0: u128, k: nat)
    ensures
        k > 0 ==> delay_before(cfg, d0, k) <= cfg.max_reconnect_delay.nanos,
        d0 <= cfg.max_reconnect_delay.nanos ==> delay_before(cfg, d0, k) <= delay_before(
            cfg,
            d0,
            k + 1,
        ),
        d0 <= cfg.max_reconnect_delay.nanos ==> delay_before(cfg, d0, k)
            <= cfg.max_reconnect_delay.nanos,
    decreases k,
{
    if k > 0 {
        law_backoff_is_capped_and_grows(cfg, d0, (k - 1) as nat);
    }
}

/// The attempt count after `k` retries from a fresh start.
pub open spec fn attempts_after(k: nat) -> u32
    decreases k,
{
    if k == 0 {
        0
    } else {
        next_attempts(attempts_after((k - 1) as nat))
    }
}

/// With a limit of `n` attempts, a run of lost connections is retried
/// exactly while fewer than `n` connections have been lost: the `k`th lost
/// connection (counting from 1) is retried if and only if `k < n`. With no
/// limit every lost connection is retried (up to `u32::MAX`).
pub proof fn law_attempt_limit(cfg: Config, k: nat)
    requires
        cfg.reconnect,
        k >= 1,
        k <= u32::MAX,
    ensures
        attempts_after((k - 1) as nat) == k - 1,
        cfg.max_reconnect_attempts > 0 ==> (is_retried(cfg, attempts_after((k - 1) as nat), SessionEnd::Lost)
            <==> k < cfg.max_reconnect_attempts),
        cfg.max_reconnect_attempts == 0 ==> is_retried(cfg, attempts_after((k - 1) as nat), SessionEnd::Lost),
    decreases k,
{
    if k > 1 {
        law_attempt_limit(cfg, (k - 1) as nat);
    }
}

/// Only lost connections are ever retried: a clean end or a refused
/// registration always ends the run, whatever the configuration.
pub proof fn law_only_lost_connections_are_retried(cfg: Config, attempts: u32, end: SessionEnd)
    ensures
        is_retried(cfg, attempts, end) ==> end is Lost && cfg.reconnect,
{
}


// ---------------------------------------------------------------------------
// Laws on what the component says and hears
// ---------------------------------------------------------------------------

/// The text a JSON value holds when it is a string (what `as_str` gives).
pub open spec fn text_of(j: JsonModel) -> Option<Seq<char>> {
    match j {
        JsonModel::Str(t) => Some(t),
        _ => None,
    }
}

proof fn lemma_str_items_are_filter_map(items: Seq<JsonModel>)
    ensures
        str_items(items) == items.filter_map(|j: JsonModel| text_of(j)),
    decreases items.len(),
{
    if items.len() > 0 {
        let rest = items.subrange(0, items.len() - 1);
        lemma_str_items_are_filter_map(rest);
        assert(items.drop_last() =~= rest);
        match items.last() {
            JsonModel::Str(t) => {
                assert(rest.filter_map(|j: JsonModel| text_of(j)) + seq![t] =~= rest.filter_map(
                    |j: JsonModel| text_of(j),
                ).push(t));
            },
            _ => {},
        }
    }
}

/// The topics read from a payload are every string of the array under the
/// key, in order, however long the array is (other elements are skipped);
/// with no array there, there are none.
pub proof fn law_configure_topics_are_all_strings(p: Map<Seq<char>, JsonModel>, key: Seq<char>)
    ensures
        p.contains_key(key) && p[key] is Array ==> strings_field(p, key) == p[key]->Array_0.filter_map(
            |j: JsonModel| text_of(j),
        ),
        !(p.contains_key(key) && p[key] is Array) ==> strings_field(p, key) == Seq::<Seq<char>>::empty(),
{
    if p.contains_key(key) && p[key] is Array {
        lemma_str_items_are_filter_map(p[key]->Array_0);
    }
}

/// A STATE_UPDATE reports the state it announces, under its wire name, so
/// different states give different reports; it carries a message exactly
/// when one is given.
pub proof fn law_state_update_reports_the_state(s: ComponentState, message: Option<Seq<char>>)
    ensures
        state_update_payload(s, message).contains_key("state"@),
        state_update_payload(s, message)["state"@] == JsonModel::Str(state_name(s)),
        forall|t: ComponentState|
            t != s ==> #[trigger] state_update_payload(t, message)["state"@] != state_update_payload(
                s,
                message,
            )["state"@],
        message matches Some(m) ==> state_update_payload(s, message).contains_key("message"@)
            && state_update_payload(s, message)["message"@] == JsonModel::Str(m),
        message is None ==> !state_update_payload(s, message).contains_key("message"@),
{
    reveal_strlit("state");
    reveal_strlit("message");
    assert("state"@ != "message"@) by {
        assert("state"@.len() != "message"@.len());
    }
    assert forall|t: ComponentState|
        t != s implies #[trigger] state_update_payload(t, message)["state"@] != state_update_payload(
            s,
            message,
        )["state"@] by {
        crate::protocol::law_state_names_distinct(t, s);
    }
}

/// A PONG reports the state it is given, under its wire name (different
/// states give different reports), and the uptime it is given.
pub proof fn law_pong_reports_state_and_uptime(s: ComponentState, uptime_seconds: u64)
    ensures
        pong_payload(s, uptime_seconds).contains_key("state"@),
        pong_payload(s, uptime_seconds)["state"@] == JsonModel::Str(state_name(s)),
        forall|t: ComponentState|
            t != s ==> #[trigger] pong_payload(t, uptime_seconds)["state"@] != pong_payload(
                s,
                uptime_seconds,
            )["state"@],
        pong_payload(s, uptime_seconds).contains_key("uptime_seconds"@),
        pong_payload(s, uptime_seconds)["uptime_seconds"@] == JsonModel::Number(
            NumberModel::PosInt(uptime_seconds),
        ),
{
    reveal_strlit("state");
    reveal_strlit("uptime_seconds");
    assert("state"@ != "uptime_seconds"@) by {
        assert("state"@.len() != "uptime_seconds"@.len());
    }
    assert forall|t: ComponentState|
        t != s implies #[trigger] pong_payload(t, uptime_seconds)["state"@] != pong_payload(
            s,
            uptime_seconds,
        )["state"@] by {
        crate::protocol::law_state_names_distinct(t, s);
    }
}

/// REGISTER carries the id Aegis gave on an earlier registration whenever
/// there is one, whatever the launcher said; before the first registration
/// it carries the launcher's id, and no id at all when neither exists.
pub proof fn law_register_carries_the_known_id(cfg: Config, stored: Seq<char>, launched: Seq<char>)
    ensures
        stored.len() > 0 ==> register_payload(cfg, stored, launched).contains_key("component_id"@)
            && register_payload(cfg, stored, launched)["component_id"@] == JsonModel::Str(stored),
        stored.len() == 0 && launched.len() > 0 ==> register_payload(cfg, stored, launched).contains_key(
            "component_id"@,
        ) && register_payload(cfg, stored, launched)["component_id"@] == JsonModel::Str(launched),
        stored.len() == 0 && launched.len() == 0 ==> !register_payload(cfg, stored, launched).contains_key(
            "component_id"@,
        ),
{
    reveal_strlit("component_id");
    reveal_strlit("capabilities");
    reveal_strlit("session_token");
    reveal_strlit("component_name");
    reveal_strlit("version");
    assert("component_id"@ != "capabilities"@) by {
        assert("component_id"@[1] != "capabilities"@[1]);
    }
    assert("component_id"@.len() != "session_token"@.len());
    assert("component_id"@.len() != "component_name"@.len());
    assert("component_id"@.len() != "version"@.len());
}

/// Only a refused registration ends a run on its own: every other error is
/// a lost connection, retried exactly while reconnecting is on and the
/// attempt limit (0 = none) is not reached; a clean end is never retried.
pub proof fn law_lost_connections_are_retried(cfg: Config, attempts: u32, e: AegisError)
    requires
        !(e is Registration),
    ensures
        session_end(Err(e)) is Lost,
        is_retried(cfg, attempts, session_end(Err(e))) <==> cfg.reconnect && !(cfg.max_reconnect_attempts
            > 0 && next_attempts(attempts) >= cfg.max_reconnect_attempts),
        session_end(Ok(())) is Clean,
{
}

} // verus!
