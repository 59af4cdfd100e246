//! Discord gateway protocol: commands, events and the identify / resume /
//! heartbeat state machine.
use core::time::Duration;
use vstd::prelude::*;

use crate::json::{
    json_as_bool, json_as_str, json_get, json_insert, json_null, json_object, json_parse,
    json_string, json_u64, opt_str, opt_u64, record_member, record_shape, spec_json_as_bool,
    spec_has_only, spec_json_as_str, spec_json_get, spec_json_is_null, spec_json_is_object, spec_json_parse,
    spec_opt_str, spec_opt_u64, spec_record_member, spec_record_shape,
};
use crate::text::{is_blank, spec_is_blank, str_eq, to_owned_string};
use crate::time::{duration_from_millis, spec_duration_from_millis};

verus! {

/// A gateway endpoint. Connecting to it is the runtime's business.
#[derive(Debug)]
pub struct GatewayClient {
    gateway_url: url::Url,
}

impl Clone for GatewayClient {
    fn clone(&self) -> (res: Self)
        ensures
            res.target() == self.target(),
    {
        GatewayClient { gateway_url: self.gateway_url.clone() }
    }
}

impl GatewayClient {
    /// The URL this client connects to.
    pub closed spec fn target(&self) -> url::Url {
        self.gateway_url
    }

    pub fn new(gateway_url: url::Url) -> (res: Self)
        ensures
            res.target() == gateway_url,
    {
        GatewayClient { gateway_url }
    }

    pub fn gateway_url(&self) -> (res: &url::Url)
        ensures
            *res == self.target(),
    {
        &self.gateway_url
    }
}

// ---------------------------------------------------------------------------
// Payloads and commands
// ---------------------------------------------------------------------------

#[derive(Debug, PartialEq, Eq)]
pub struct GatewayIdentifyProperties {
    pub os: String,
    pub browser: String,
    pub device: String,
}

pub struct IdentifyPropertiesView {
    pub os: Seq<char>,
    pub browser: Seq<char>,
    pub device: Seq<char>,
}

impl View for GatewayIdentifyProperties {
    type V = IdentifyPropertiesView;

    open spec fn view(&self) -> IdentifyPropertiesView {
        IdentifyPropertiesView { os: self.os@, browser: self.browser@, device: self.device@ }
    }
}

impl Clone for GatewayIdentifyProperties {
    fn clone(&self) -> (res: Self)
        ensures
            res@ == self@,
    {
        GatewayIdentifyProperties {
            os: self.os.clone(),
            browser: self.browser.clone(),
            device: self.device.clone(),
        }
    }
}

/// The browser and device name this client reports when it identifies.
pub const CLIENT_NAME: &'static str = "opencord-rust-client";

impl Default for GatewayIdentifyProperties {
    /// This client's properties; the operating system is reported as
    /// `UNKNOWN_OS` (pass the host's name to `for_os` to report it).
    fn default() -> (res: Self)
        ensures
            res@.os == UNKNOWN_OS@,
            res@.browser == CLIENT_NAME@,
            res@.device == CLIENT_NAME@,
    {
        GatewayIdentifyProperties::for_os(UNKNOWN_OS)
    }
}

impl GatewayIdentifyProperties {
    /// Properties naming this client on the given operating system.
    pub fn for_os(os: &str) -> (res: Self)
        ensures
            res@.os == os@,
            res@.browser == CLIENT_NAME@,
            res@.device == CLIENT_NAME@,
    {
        GatewayIdentifyProperties {
            os: to_owned_string(os),
            browser: to_owned_string(CLIENT_NAME),
            device: to_owned_string(CLIENT_NAME),
        }
    }
}

#[derive(Debug, PartialEq, Eq)]
pub struct GatewayIdentifyPayload {
    pub token: String,
    pub intents: u64,
    pub properties: GatewayIdentifyProperties,
}

pub struct IdentifyPayloadView {
    pub token: Seq<char>,
    pub intents: u64,
    pub properties: IdentifyPropertiesView,
}

impl View for GatewayIdentifyPayload {
    type V = IdentifyPayloadView;

    open spec fn view(&self) -> IdentifyPayloadView {
        IdentifyPayloadView {
            token: self.token@,
            intents: self.intents,
            properties: self.properties@,
        }
    }
}

impl Clone for GatewayIdentifyPayload {
    fn clone(&self) -> (res: Self)
        ensures
            res@ == self@,
    {
        GatewayIdentifyPayload {
            token: self.token.clone(),
            intents: self.intents,
            properties: self.properties.clone(),
        }
    }
}

#[derive(Debug, PartialEq, Eq)]
pub struct GatewayResumePayload {
    pub token: String,
    pub session_id: String,
    pub seq: u64,
}

pub struct ResumePayloadView {
    pub token: Seq<char>,
    pub session_id: Seq<char>,
    pub seq: u64,
}

impl View for GatewayResumePayload {
    type V = ResumePayloadView;

    open spec fn view(&self) -> ResumePayloadView {
        ResumePayloadView { token: self.token@, session_id: self.session_id@, seq: self.seq }
    }
}

impl Clone for GatewayResumePayload {
    fn clone(&self) -> (res: Self)
        ensures
            res@ == self@,
    {
        GatewayResumePayload {
            token: self.token.clone(),
            session_id: self.session_id.clone(),
            seq: self.seq,
        }
    }
}

/// A gateway command: an opcode and its payload.
#[derive(Debug, Clone, PartialEq, Eq)]
pub struct GatewayCommand<T> {
    pub op: u8,
    pub d: T,
}

pub struct GatewayCommandView<V> {
    pub op: u8,
    pub d: V,
}

impl<T: View> View for GatewayCommand<T> {
    type V = GatewayCommandView<T::V>;

    open spec fn view(&self) -> GatewayCommandView<T::V> {
        GatewayCommandView { op: self.op, d: self.d@ }
    }
}

/// The IDENTIFY opcode.
pub const OP_IDENTIFY: u8 = 2;

/// The RESUME opcode.
pub const OP_RESUME: u8 = 6;

/// The HEARTBEAT opcode.
pub const OP_HEARTBEAT: u8 = 1;

/// Wraps an identify payload as opcode 2.
pub fn identify_command(payload: GatewayIdentifyPayload) -> (cmd: GatewayCommand<GatewayIdentifyPayload>)
    ensures
        cmd.op == OP_IDENTIFY,
        cmd.d == payload,
{
    GatewayCommand { op: OP_IDENTIFY, d: payload }
}

/// Wraps a resume payload as opcode 6.
pub fn resume_command(payload: GatewayResumePayload) -> (cmd: GatewayCommand<GatewayResumePayload>)
    ensures
        cmd.op == OP_RESUME,
        cmd.d == payload,
{
    GatewayCommand { op: OP_RESUME, d: payload }
}

/// A heartbeat (opcode 1) carrying the last sequence number seen, if any.
pub fn heartbeat_command(last_sequence: Option<u64>) -> (cmd: GatewayCommand<Option<u64>>)
    ensures
        cmd.op == OP_HEARTBEAT,
        cmd.d == last_sequence,
{
    GatewayCommand { op: OP_HEARTBEAT, d: last_sequence }
}

#[derive(Debug, Clone, Copy, PartialEq, Eq)]
pub struct GatewayHelloPayload {
    pub heartbeat_interval: u64,
}

#[derive(Debug, PartialEq, Eq)]
pub struct GatewaySession {
    pub session_id: String,
    pub sequence: u64,
}

impl View for GatewaySession {
    type V = (Seq<char>, u64);

    open spec fn view(&self) -> (Seq<char>, u64) {
        (self.session_id@, self.sequence)
    }
}

impl Clone for GatewaySession {
    fn clone(&self) -> (res: Self)
        ensures
            res@ == self@,
    {
        GatewaySession { session_id: self.session_id.clone(), sequence: self.sequence }
    }
}

#[derive(Debug, PartialEq, Eq)]
pub struct GatewayStateMachineConfig {
    pub token: String,
    pub intents: u64,
    pub identify_properties: GatewayIdentifyProperties,
}

pub struct StateMachineConfigView {
    pub token: Seq<char>,
    pub intents: u64,
    pub identify_properties: IdentifyPropertiesView,
}

impl View for GatewayStateMachineConfig {
    type V = StateMachineConfigView;

    open spec fn view(&self) -> StateMachineConfigView {
        StateMachineConfigView {
            token: self.token@,
            intents: self.intents,
            identify_properties: self.identify_properties@,
        }
    }
}

impl Clone for GatewayStateMachineConfig {
    fn clone(&self) -> (res: Self)
        ensures
            res@ == self@,
    {
        GatewayStateMachineConfig {
            token: self.token.clone(),
            intents: self.intents,
            identify_properties: self.identify_properties.clone(),
        }
    }
}

/// The configuration `GatewayStateMachineConfig::new` builds.
pub open spec fn spec_config_new(token: Seq<char>, intents: u64) -> StateMachineConfigView {
    StateMachineConfigView {
        token,
        intents,
        identify_properties: IdentifyPropertiesView {
            os: UNKNOWN_OS@,
            browser: CLIENT_NAME@,
            device: CLIENT_NAME@,
        },
    }
}

/// The operating-system name reported when no host name is supplied.
pub const UNKNOWN_OS: &'static str = "unknown";

impl GatewayStateMachineConfig {
    /// A configuration with this client's identify properties; the operating
    /// system is reported as `UNKNOWN_OS` (see `with_properties`).
    pub fn new(token: String, intents: u64) -> (res: Self)
        ensures
            res@ == spec_config_new(token@, intents),
    {
        GatewayStateMachineConfig {
            token,
            intents,
            identify_properties: GatewayIdentifyProperties::for_os(UNKNOWN_OS),
        }
    }

    /// A configuration with explicit identify properties.
    pub fn with_properties(token: String, intents: u64, identify_properties: GatewayIdentifyProperties) -> (res: Self)
        ensures
            res@.token == token@,
            res@.intents == intents,
            res@.identify_properties == identify_properties@,
    {
        GatewayStateMachineConfig { token, intents, identify_properties }
    }
}

// ---------------------------------------------------------------------------
// Connection state, actions and events
// ---------------------------------------------------------------------------

#[derive(Debug, Clone, Copy, PartialEq, Eq, Structural)]
pub enum GatewayConnectionState {
    Disconnected,
    AwaitingHello,
    Handshaking,
    Connected,
    ReconnectRequested,
}

#[derive(Debug, PartialEq, Eq)]
pub enum GatewayStateAction {
    ConfigureHeartbeat { interval: Duration },
    SendIdentify(GatewayCommand<GatewayIdentifyPayload>),
    SendResume(GatewayCommand<GatewayResumePayload>),
    SendHeartbeat(GatewayCommand<Option<u64>>),
    Reconnect { resumable: bool },
}

pub enum GatewayActionView {
    ConfigureHeartbeat { interval: Duration },
    SendIdentify(GatewayCommandView<IdentifyPayloadView>),
    SendResume(GatewayCommandView<ResumePayloadView>),
    SendHeartbeat(GatewayCommandView<Option<u64>>),
    Reconnect { resumable: bool },
}

impl View for GatewayStateAction {
    type V = GatewayActionView;

    open spec fn view(&self) -> GatewayActionView {
        match self {
            GatewayStateAction::ConfigureHeartbeat { interval } => GatewayActionView::ConfigureHeartbeat {
                interval: *interval,
            },
            GatewayStateAction::SendIdentify(c) => GatewayActionView::SendIdentify(c@),
            GatewayStateAction::SendResume(c) => GatewayActionView::SendResume(c@),
            GatewayStateAction::SendHeartbeat(c) => GatewayActionView::SendHeartbeat(c@),
            GatewayStateAction::Reconnect { resumable } => GatewayActionView::Reconnect {
                resumable: *resumable,
            },
        }
    }
}

impl Clone for GatewayStateAction {
    fn clone(&self) -> (res: Self)
        ensures
            res@ == self@,
    {
        match self {
            GatewayStateAction::ConfigureHeartbeat { interval } => GatewayStateAction::ConfigureHeartbeat {
                interval: interval.clone(),
            },
            GatewayStateAction::SendIdentify(c) => GatewayStateAction::SendIdentify(
                GatewayCommand { op: c.op, d: c.d.clone() },
            ),
            GatewayStateAction::SendResume(c) => GatewayStateAction::SendResume(
                GatewayCommand { op: c.op, d: c.d.clone() },
            ),
            GatewayStateAction::SendHeartbeat(c) => GatewayStateAction::SendHeartbeat(
                GatewayCommand { op: c.op, d: c.d },
            ),
            GatewayStateAction::Reconnect { resumable } => GatewayStateAction::Reconnect {
                resumable: *resumable,
            },
        }
    }
}

/// The views of a list of actions.
pub open spec fn actions_view(actions: Seq<GatewayStateAction>) -> Seq<GatewayActionView> {
    actions.map_values(|a: GatewayStateAction| a@)
}

/// What a gateway frame says, as parsed by `parse_event`.
#[derive(Debug)]
pub enum GatewayEvent {
    Dispatch { event_type: Option<String>, sequence: Option<u64>, data: serde_json::Value },
    HeartbeatRequest,
    Hello(GatewayHelloPayload),
    HeartbeatAck,
    Reconnect,
    InvalidSession { resumable: bool },
    NonTextFrame,
    Unknown(serde_json::Value),
}

pub enum GatewayEventView {
    Dispatch { event_type: Option<Seq<char>>, sequence: Option<u64>, data: serde_json::Value },
    HeartbeatRequest,
    Hello { heartbeat_interval: u64 },
    HeartbeatAck,
    Reconnect,
    InvalidSession { resumable: bool },
    NonTextFrame,
    Unknown(serde_json::Value),
}

impl View for GatewayEvent {
    type V = GatewayEventView;

    open spec fn view(&self) -> GatewayEventView {
        match self {
            GatewayEvent::Dispatch { event_type, sequence, data } => GatewayEventView::Dispatch {
                event_type: event_type.deep_view(),
                sequence: *sequence,
                data: *data,
            },
            GatewayEvent::HeartbeatRequest => GatewayEventView::HeartbeatRequest,
            GatewayEvent::Hello(h) => GatewayEventView::Hello {
                heartbeat_interval: h.heartbeat_interval,
            },
            GatewayEvent::HeartbeatAck => GatewayEventView::HeartbeatAck,
            GatewayEvent::Reconnect => GatewayEventView::Reconnect,
            GatewayEvent::InvalidSession { resumable } => GatewayEventView::InvalidSession {
                resumable: *resumable,
            },
            GatewayEvent::NonTextFrame => GatewayEventView::NonTextFrame,
            GatewayEvent::Unknown(v) => GatewayEventView::Unknown(*v),
        }
    }
}

impl Clone for GatewayEvent {
    fn clone(&self) -> (res: Self)
        ensures
            res@ == self@,
    {
        match self {
            GatewayEvent::Dispatch { event_type, sequence, data } => {
                let event_type = match event_type {
                    Some(t) => Some(t.clone()),
                    None => None,
                };
                GatewayEvent::Dispatch { event_type, sequence: *sequence, data: data.clone() }
            },
            GatewayEvent::HeartbeatRequest => GatewayEvent::HeartbeatRequest,
            GatewayEvent::Hello(h) => GatewayEvent::Hello(*h),
            GatewayEvent::HeartbeatAck => GatewayEvent::HeartbeatAck,
            GatewayEvent::Reconnect => GatewayEvent::Reconnect,
            GatewayEvent::InvalidSession { resumable } => GatewayEvent::InvalidSession {
                resumable: *resumable,
            },
            GatewayEvent::NonTextFrame => GatewayEvent::NonTextFrame,
            GatewayEvent::Unknown(v) => GatewayEvent::Unknown(v.clone()),
        }
    }
}

// ---------------------------------------------------------------------------
// The state machine
// ---------------------------------------------------------------------------

/// Drives identify / resume / heartbeat decisions from gateway events and
/// heartbeat timer ticks. It performs no I/O: it returns the actions a
/// runtime must carry out.
#[derive(Debug)]
pub struct GatewayStateMachine {
    config: GatewayStateMachineConfig,
    state: GatewayConnectionState,
    heartbeat_interval: Option<Duration>,
    heartbeat_ack_pending: bool,
    session_id: Option<String>,
    last_sequence: Option<u64>,
    resume_url: Option<String>,
}

pub struct GatewayMachineView {
    pub config: StateMachineConfigView,
    pub state: GatewayConnectionState,
    pub heartbeat_interval: Option<Duration>,
    pub heartbeat_ack_pending: bool,
    pub session_id: Option<Seq<char>>,
    pub last_sequence: Option<u64>,
    pub resume_url: Option<Seq<char>>,
}

impl View for GatewayStateMachine {
    type V = GatewayMachineView;

    closed spec fn view(&self) -> GatewayMachineView {
        GatewayMachineView {
            config: self.config@,
            state: self.state,
            heartbeat_interval: self.heartbeat_interval,
            heartbeat_ack_pending: self.heartbeat_ack_pending,
            session_id: self.session_id.deep_view(),
            last_sequence: self.last_sequence,
            resume_url: self.resume_url.deep_view(),
        }
    }
}

impl Clone for GatewayStateMachine {
    fn clone(&self) -> (res: Self)
        ensures
            res@ == self@,
    {
        GatewayStateMachine {
            config: self.config.clone(),
            state: self.state,
            heartbeat_interval: self.heartbeat_interval,
            heartbeat_ack_pending: self.heartbeat_ack_pending,
            session_id: clone_opt_string(&self.session_id),
            last_sequence: self.last_sequence,
            resume_url: clone_opt_string(&self.resume_url),
        }
    }
}

/// Copies an optional string.
pub fn clone_opt_string(s: &Option<String>) -> (res: Option<String>)
    ensures
        res.deep_view() == s.deep_view(),
{
    match s {
        Some(v) => Some(v.clone()),
        None => None,
    }
}

/// A disconnected machine with no session.
pub open spec fn spec_fresh_machine(config: StateMachineConfigView) -> GatewayMachineView {
    GatewayMachineView {
        config,
        state: GatewayConnectionState::Disconnected,
        heartbeat_interval: None,
        heartbeat_ack_pending: false,
        session_id: None,
        last_sequence: None,
        resume_url: None,
    }
}

/// The machine holds a session it can resume: a session id and a sequence.
pub open spec fn spec_can_resume(m: GatewayMachineView) -> bool {
    m.session_id is Some && m.last_sequence is Some
}

/// The resumable session the machine holds, if any.
pub open spec fn spec_session(m: GatewayMachineView) -> Option<(Seq<char>, u64)> {
    if spec_can_resume(m) {
        Some((m.session_id->0, m.last_sequence->0))
    } else {
        None
    }
}

/// The heartbeat command for the machine's last sequence.
pub open spec fn spec_heartbeat_action(m: GatewayMachineView) -> GatewayActionView {
    GatewayActionView::SendHeartbeat(GatewayCommandView { op: OP_HEARTBEAT, d: m.last_sequence })
}

/// IDENTIFY with the configured token, intents and properties.
pub open spec fn spec_identify_action(m: GatewayMachineView) -> GatewayActionView {
    GatewayActionView::SendIdentify(
        GatewayCommandView {
            op: OP_IDENTIFY,
            d: IdentifyPayloadView {
                token: m.config.token,
                intents: m.config.intents,
                properties: m.config.identify_properties,
            },
        },
    )
}

/// RESUME of the held session with the configured token.
pub open spec fn spec_resume_action(m: GatewayMachineView) -> GatewayActionView {
    GatewayActionView::SendResume(
        GatewayCommandView {
            op: OP_RESUME,
            d: ResumePayloadView {
                token: m.config.token,
                session_id: m.session_id->0,
                seq: m.last_sequence->0,
            },
        },
    )
}

/// The machine after a heartbeat timer tick, and the action the tick calls for:
/// a tick while an ACK is still pending requests a reconnect; otherwise it
/// sends a heartbeat and waits for its ACK.
pub open spec fn spec_on_heartbeat_tick(m: GatewayMachineView) -> (GatewayMachineView, GatewayActionView) {
    if m.heartbeat_ack_pending {
        (
            GatewayMachineView { state: GatewayConnectionState::ReconnectRequested, ..m },
            GatewayActionView::Reconnect { resumable: spec_can_resume(m) },
        )
    } else {
        (GatewayMachineView { heartbeat_ack_pending: true, ..m }, spec_heartbeat_action(m))
    }
}

/// HELLO: configure the heartbeat, then RESUME a held session or IDENTIFY.
pub open spec fn spec_on_hello(m: GatewayMachineView, interval_ms: u64) -> (GatewayMachineView, Seq<GatewayActionView>) {
    let interval = spec_duration_from_millis(interval_ms);
    let m2 = GatewayMachineView {
        state: GatewayConnectionState::Handshaking,
        heartbeat_ack_pending: false,
        heartbeat_interval: Some(interval),
        ..m
    };
    let second = if spec_can_resume(m2) {
        spec_resume_action(m2)
    } else {
        spec_identify_action(m2)
    };
    (m2, seq![GatewayActionView::ConfigureHeartbeat { interval }, second])
}

/// A text member of a JSON object.
pub open spec fn spec_json_str_member(data: serde_json::Value, key: Seq<char>) -> Option<Seq<char>> {
    match spec_json_get(data, key) {
        Some(v) => spec_json_as_str(v),
        None => None,
    }
}

/// A resume URL that is not blank replaces the held one; a blank one is ignored.
pub open spec fn spec_set_resume_url(m: GatewayMachineView, url: Seq<char>) -> GatewayMachineView {
    if spec_is_blank(url) {
        m
    } else {
        GatewayMachineView { resume_url: Some(url), ..m }
    }
}

/// DISPATCH bookkeeping: READY records the session id and resume URL it
/// carries and marks the connection up; RESUMED marks it up; others change nothing.
pub open spec fn spec_handle_dispatch(m: GatewayMachineView, event_type: Option<Seq<char>>, data: serde_json::Value) -> GatewayMachineView {
    if event_type == Some("READY"@) {
        let m1 = match spec_json_str_member(data, "session_id"@) {
            Some(sid) => GatewayMachineView { session_id: Some(sid), ..m },
            None => m,
        };
        let m2 = match spec_json_str_member(data, "resume_gateway_url"@) {
            Some(url) => spec_set_resume_url(m1, url),
            None => m1,
        };
        GatewayMachineView { state: GatewayConnectionState::Connected, ..m2 }
    } else if event_type == Some("RESUMED"@) {
        GatewayMachineView { state: GatewayConnectionState::Connected, ..m }
    } else {
        m
    }
}

/// A persisted session is adopted: its id and sequence replace the held ones.
pub open spec fn spec_restore_session(m: GatewayMachineView, session: (Seq<char>, u64)) -> GatewayMachineView {
    GatewayMachineView { session_id: Some(session.0), last_sequence: Some(session.1), ..m }
}

/// A connection opened: wait for HELLO, with no heartbeat running.
pub open spec fn spec_on_connect(m: GatewayMachineView) -> GatewayMachineView {
    GatewayMachineView {
        state: GatewayConnectionState::AwaitingHello,
        heartbeat_interval: None,
        heartbeat_ack_pending: false,
        ..m
    }
}

/// The connection was lost: the heartbeat stops, the session is kept.
pub open spec fn spec_on_disconnect(m: GatewayMachineView) -> GatewayMachineView {
    GatewayMachineView {
        state: GatewayConnectionState::Disconnected,
        heartbeat_interval: None,
        heartbeat_ack_pending: false,
        ..m
    }
}

/// The session is forgotten: no id, no sequence, no resume URL.
pub open spec fn spec_clear_session(m: GatewayMachineView) -> GatewayMachineView {
    GatewayMachineView { session_id: None, last_sequence: None, resume_url: None, ..m }
}

/// The machine after an event and the actions it calls for. A dispatch
/// carrying a sequence number first records it.
pub open spec fn spec_on_event(m: GatewayMachineView, e: GatewayEventView) -> (GatewayMachineView, Seq<GatewayActionView>) {
    let m0 = match e {
        GatewayEventView::Dispatch { sequence: Some(seq), .. } => GatewayMachineView {
            last_sequence: Some(seq),
            ..m
        },
        _ => m,
    };
    match e {
        GatewayEventView::Hello { heartbeat_interval } => spec_on_hello(m0, heartbeat_interval),
        GatewayEventView::HeartbeatRequest => (
            GatewayMachineView { heartbeat_ack_pending: true, ..m0 },
            seq![spec_heartbeat_action(m0)],
        ),
        GatewayEventView::HeartbeatAck => (
            GatewayMachineView { heartbeat_ack_pending: false, ..m0 },
            Seq::empty(),
        ),
        GatewayEventView::Dispatch { event_type, data, .. } => (
            spec_handle_dispatch(m0, event_type, data),
            Seq::empty(),
        ),
        GatewayEventView::Reconnect => (
            GatewayMachineView { state: GatewayConnectionState::ReconnectRequested, ..m0 },
            seq![GatewayActionView::Reconnect { resumable: spec_can_resume(m0) }],
        ),
        GatewayEventView::InvalidSession { resumable } => {
            let m1 = GatewayMachineView {
                state: GatewayConnectionState::ReconnectRequested,
                heartbeat_ack_pending: false,
                ..m0
            };
            let m2 = if resumable {
                m1
            } else {
                spec_clear_session(m1)
            };
            (m2, seq![GatewayActionView::Reconnect { resumable: resumable && spec_can_resume(m2) }])
        },
        GatewayEventView::NonTextFrame => (m0, Seq::empty()),
        GatewayEventView::Unknown(_) => (m0, Seq::empty()),
    }
}

impl GatewayStateMachine {
    /// A disconnected machine with no session.
    pub fn new(config: GatewayStateMachineConfig) -> (res: Self)
        ensures
            res@ == spec_fresh_machine(config@),
    {
        GatewayStateMachine {
            config,
            state: GatewayConnectionState::Disconnected,
            heartbeat_interval: None,
            heartbeat_ack_pending: false,
            session_id: None,
            last_sequence: None,
            resume_url: None,
        }
    }

    pub fn state(&self) -> (res: GatewayConnectionState)
        ensures
            res == self@.state,
    {
        self.state
    }

    pub fn heartbeat_interval(&self) -> (res: Option<Duration>)
        ensures
            res == self@.heartbeat_interval,
    {
        self.heartbeat_interval
    }

    /// The held session, when both a session id and a sequence are known.
    pub fn session(&self) -> (res: Option<GatewaySession>)
        ensures
            match res {
                Some(s) => spec_session(self@) == Some(s@),
                None => spec_session(self@) is None,
            },
    {
        match (&self.session_id, self.last_sequence) {
            (Some(session_id), Some(sequence)) => Some(
                GatewaySession { session_id: session_id.clone(), sequence },
            ),
            _ => None,
        }
    }

    /// Adopts a persisted session, so that the next HELLO resumes it.
    pub fn restore_session(&mut self, session: GatewaySession)
        ensures
            final(self)@ == spec_restore_session(old(self)@, session@),
    {
        self.session_id = Some(session.session_id);
        self.last_sequence = Some(session.sequence);
    }

    /// Adopts a persisted session together with its resume URL (a blank URL is ignored).
    pub fn restore_session_with_resume_url(&mut self, session: GatewaySession, resume_url: String)
        ensures
            final(self)@ == spec_set_resume_url(spec_restore_session(old(self)@, session@), resume_url@),
    {
        self.restore_session(session);
        self.set_resume_url(resume_url);
    }

    /// Forgets the session, its sequence and its resume URL.
    pub fn clear_session(&mut self)
        ensures
            final(self)@ == spec_clear_session(old(self)@),
    {
        self.session_id = None;
        self.last_sequence = None;
        self.resume_url = None;
    }

    pub fn resume_url(&self) -> (res: Option<&str>)
        ensures
            match res {
                Some(u) => self@.resume_url == Some(u@),
                None => self@.resume_url is None,
            },
    {
        match &self.resume_url {
            Some(u) => Some(u.as_str()),
            None => None,
        }
    }

    /// Records a resume URL; a blank one is ignored so that a bad value
    /// cannot replace a good one.
    pub fn set_resume_url(&mut self, resume_url: String)
        ensures
            final(self)@ == spec_set_resume_url(old(self)@, resume_url@),
    {
        if is_blank(resume_url.as_str()) {
            return;
        }
        self.resume_url = Some(resume_url);
    }

    /// A connection was opened: wait for HELLO with no heartbeat running.
    pub fn on_connect(&mut self)
        ensures
            final(self)@ == spec_on_connect(old(self)@),
    {
        self.state = GatewayConnectionState::AwaitingHello;
        self.heartbeat_interval = None;
        self.heartbeat_ack_pending = false;
    }

    /// The connection was lost: the session is kept, the heartbeat stops.
    pub fn on_disconnect(&mut self)
        ensures
            final(self)@ == spec_on_disconnect(old(self)@),
    {
        self.state = GatewayConnectionState::Disconnected;
        self.heartbeat_interval = None;
        self.heartbeat_ack_pending = false;
    }

    pub fn can_resume(&self) -> (res: bool)
        ensures
            res == spec_can_resume(self@),
    {
        self.session_id.is_some() && self.last_sequence.is_some()
    }

    /// The heartbeat timer fired.
    pub fn on_heartbeat_tick(&mut self) -> (action: GatewayStateAction)
        ensures
            final(self)@ == spec_on_heartbeat_tick(old(self)@).0,
            action@ == spec_on_heartbeat_tick(old(self)@).1,
    {
        if self.heartbeat_ack_pending {
            self.state = GatewayConnectionState::ReconnectRequested;
            return GatewayStateAction::Reconnect { resumable: self.can_resume() };
        }
        self.heartbeat_ack_pending = true;
        GatewayStateAction::SendHeartbeat(heartbeat_command(self.last_sequence))
    }

    /// Applies a gateway event and returns the actions it calls for.
    pub fn on_event(&mut self, event: &GatewayEvent) -> (actions: Vec<GatewayStateAction>)
        ensures
            final(self)@ == spec_on_event(old(self)@, event@).0,
            actions_view(actions@) == spec_on_event(old(self)@, event@).1,
    {
        if let GatewayEvent::Dispatch { sequence: Some(seq), .. } = event {
            self.last_sequence = Some(*seq);
        }
        let mut actions: Vec<GatewayStateAction> = Vec::new();
        match event {
            GatewayEvent::Hello(hello) => {
                return self.on_hello(hello);
            },
            GatewayEvent::HeartbeatRequest => {
                let a = self.send_heartbeat();
                actions.push(a);
            },
            GatewayEvent::HeartbeatAck => {
                self.heartbeat_ack_pending = false;
            },
            GatewayEvent::Dispatch { event_type, data, .. } => {
                self.handle_dispatch(event_type, data);
            },
            GatewayEvent::Reconnect => {
                self.state = GatewayConnectionState::ReconnectRequested;
                actions.push(GatewayStateAction::Reconnect { resumable: self.can_resume() });
            },
            GatewayEvent::InvalidSession { resumable } => {
                self.state = GatewayConnectionState::ReconnectRequested;
                self.heartbeat_ack_pending = false;
                if !*resumable {
                    self.clear_session();
                }
                let r = *resumable && self.can_resume();
                actions.push(GatewayStateAction::Reconnect { resumable: r });
            },
            GatewayEvent::NonTextFrame => {},
            GatewayEvent::Unknown(_) => {},
        }
        proof {
            assert(actions_view(actions@) =~= spec_on_event(old(self)@, event@).1);
        }
        actions
    }

    fn on_hello(&mut self, hello: &GatewayHelloPayload) -> (actions: Vec<GatewayStateAction>)
        ensures
            final(self)@ == spec_on_hello(old(self)@, hello.heartbeat_interval).0,
            actions_view(actions@) == spec_on_hello(old(self)@, hello.heartbeat_interval).1,
    {
        self.state = GatewayConnectionState::Handshaking;
        self.heartbeat_ack_pending = false;
        let interval = duration_from_millis(hello.heartbeat_interval);
        self.heartbeat_interval = Some(interval);
        let mut actions: Vec<GatewayStateAction> = Vec::new();
        actions.push(GatewayStateAction::ConfigureHeartbeat { interval });
        match self.resume_gateway_command() {
            Some(command) => actions.push(GatewayStateAction::SendResume(command)),
            None => actions.push(GatewayStateAction::SendIdentify(self.identify_gateway_command())),
        }
        proof {
            assert(actions_view(actions@) =~= spec_on_hello(old(self)@, hello.heartbeat_interval).1);
        }
        actions
    }

    fn identify_gateway_command(&self) -> (cmd: GatewayCommand<GatewayIdentifyPayload>)
        ensures
            GatewayActionView::SendIdentify(cmd@) == spec_identify_action(self@),
    {
        identify_command(
            GatewayIdentifyPayload {
                token: self.config.token.clone(),
                intents: self.config.intents,
                properties: self.config.identify_properties.clone(),
            },
        )
    }

    fn resume_gateway_command(&self) -> (cmd: Option<GatewayCommand<GatewayResumePayload>>)
        ensures
            match cmd {
                Some(c) => spec_can_resume(self@) && GatewayActionView::SendResume(c@)
                    == spec_resume_action(self@),
                None => !spec_can_resume(self@),
            },
    {
        let session_id = match &self.session_id {
            Some(s) => s.clone(),
            None => return None,
        };
        let seq = match self.last_sequence {
            Some(s) => s,
            None => return None,
        };
        Some(
            resume_command(
                GatewayResumePayload { token: self.config.token.clone(), session_id, seq },
            ),
        )
    }

    fn send_heartbeat(&mut self) -> (action: GatewayStateAction)
        ensures
            final(self)@ == (GatewayMachineView { heartbeat_ack_pending: true, ..old(self)@ }),
            action@ == spec_heartbeat_action(old(self)@),
    {
        self.heartbeat_ack_pending = true;
        GatewayStateAction::SendHeartbeat(heartbeat_command(self.last_sequence))
    }

    fn handle_dispatch(&mut self, event_type: &Option<String>, data: &serde_json::Value)
        ensures
            final(self)@ == spec_handle_dispatch(old(self)@, event_type.deep_view(), *data),
    {
        let is_ready = match event_type {
            Some(t) => str_eq(t.as_str(), "READY"),
            None => false,
        };
        let is_resumed = match event_type {
            Some(t) => str_eq(t.as_str(), "RESUMED"),
            None => false,
        };
        if is_ready {
            match json_get(data, "session_id") {
                Some(v) => match json_as_str(&v) {
                    Some(session_id) => {
                        self.session_id = Some(session_id);
                    },
                    None => {},
                },
                None => {},
            }
            match json_get(data, "resume_gateway_url") {
                Some(v) => match json_as_str(&v) {
                    Some(url) => {
                        self.set_resume_url(url);
                    },
                    None => {},
                },
                None => {},
            }
            self.state = GatewayConnectionState::Connected;
        } else if is_resumed {
            self.state = GatewayConnectionState::Connected;
        }
    }
}

// ---------------------------------------------------------------------------
// Laws of the state machine
// ---------------------------------------------------------------------------

/// A gateway RECONNECT asks for a reconnect that resumes exactly when the
/// machine holds a session, and leaves that session in place.
pub proof fn law_reconnect_event_resumes_iff_session(m: GatewayMachineView)
    ensures
        spec_on_event(m, GatewayEventView::Reconnect).1 == seq![
            GatewayActionView::Reconnect { resumable: spec_can_resume(m) },
        ],
        spec_on_event(m, GatewayEventView::Reconnect).0.state
            == GatewayConnectionState::ReconnectRequested,
        spec_session(spec_on_event(m, GatewayEventView::Reconnect).0) == spec_session(m),
{
}

/// Two heartbeat ticks with no ACK between them: the second requests a
/// reconnect, resumable exactly when a session is held.
pub proof fn law_tick_without_ack_requests_reconnect(m: GatewayMachineView)
    ensures
        spec_on_heartbeat_tick(spec_on_heartbeat_tick(m).0).1 == (GatewayActionView::Reconnect {
            resumable: spec_can_resume(m),
        }),
        spec_on_heartbeat_tick(spec_on_heartbeat_tick(m).0).0.state
            == GatewayConnectionState::ReconnectRequested,
{
}

/// A heartbeat requested by the gateway that is not acknowledged makes the
/// next tick request a reconnect.
pub proof fn law_unacked_heartbeat_request_then_tick_reconnects(m: GatewayMachineView)
    ensures
        spec_on_heartbeat_tick(spec_on_event(m, GatewayEventView::HeartbeatRequest).0).1
            == (GatewayActionView::Reconnect { resumable: spec_can_resume(m) }),
{
}

/// After a heartbeat ACK the next tick sends a heartbeat carrying the last
/// sequence number, and does not reconnect.
pub proof fn law_tick_after_ack_sends_heartbeat(m: GatewayMachineView)
    ensures
        spec_on_heartbeat_tick(spec_on_event(m, GatewayEventView::HeartbeatAck).0).1
            == spec_heartbeat_action(m),
        spec_on_heartbeat_tick(spec_on_event(m, GatewayEventView::HeartbeatAck).0).0.state
            == m.state,
{
}

/// A non-resumable INVALID_SESSION forgets the session, asks for a
/// non-resumable reconnect, and the next HELLO identifies afresh.
pub proof fn law_invalid_session_not_resumable_identifies_next(m: GatewayMachineView, interval_ms: u64)
    ensures
        ({
            let (m1, actions) = spec_on_event(m, GatewayEventView::InvalidSession { resumable: false });
            &&& actions == seq![GatewayActionView::Reconnect { resumable: false }]
            &&& !spec_can_resume(m1)
            &&& m1.resume_url is None
            &&& spec_on_event(m1, GatewayEventView::Hello { heartbeat_interval: interval_ms }).1[1]
                == spec_identify_action(m)
        }),
{
}

/// A resumable INVALID_SESSION keeps a held session: the reconnect is
/// resumable and the next HELLO resumes that session at its sequence.
pub proof fn law_invalid_session_resumable_resumes_next(m: GatewayMachineView, interval_ms: u64)
    requires
        spec_can_resume(m),
    ensures
        ({
            let (m1, actions) = spec_on_event(m, GatewayEventView::InvalidSession { resumable: true });
            &&& actions == seq![GatewayActionView::Reconnect { resumable: true }]
            &&& spec_session(m1) == spec_session(m)
            &&& spec_on_event(m1, GatewayEventView::Hello { heartbeat_interval: interval_ms }).1[1]
                == spec_resume_action(m)
        }),
{
}

/// HELLO configures the heartbeat with the announced interval and then
/// resumes the held session, or identifies when there is none.
pub proof fn law_hello_resumes_or_identifies(m: GatewayMachineView, interval_ms: u64)
    ensures
        ({
            let (m1, actions) = spec_on_event(m, GatewayEventView::Hello { heartbeat_interval: interval_ms });
            &&& actions.len() == 2
            &&& actions[0] == (GatewayActionView::ConfigureHeartbeat {
                interval: spec_duration_from_millis(interval_ms),
            })
            &&& actions[1] == if spec_can_resume(m) {
                spec_resume_action(m)
            } else {
                spec_identify_action(m)
            }
            &&& m1.state == GatewayConnectionState::Handshaking
            &&& m1.heartbeat_interval == Some(spec_duration_from_millis(interval_ms))
            &&& spec_session(m1) == spec_session(m)
        }),
{
}

/// A restored session is the session the machine then reports, and it
/// survives a disconnect and the next connect.
pub proof fn law_restored_session_round_trips(m: GatewayMachineView, session: (Seq<char>, u64))
    ensures
        spec_session(spec_restore_session(m, session)) == Some(session),
        spec_session(spec_on_connect(spec_on_disconnect(spec_restore_session(m, session))))
            == Some(session),
{
}

/// A blank resume URL is ignored: the machine is left as it was.
pub proof fn law_blank_resume_url_ignored(m: GatewayMachineView, url: Seq<char>)
    requires
        spec_is_blank(url),
    ensures
        spec_set_resume_url(m, url) == m,
{
}

/// The held resume URL, if any, is not blank.
pub open spec fn spec_resume_url_usable(m: GatewayMachineView) -> bool {
    m.resume_url matches Some(u) ==> !spec_is_blank(u)
}

/// No operation ever leaves a blank resume URL in the machine: a new machine
/// holds none, and every event, tick, connect, disconnect, restore, clear and
/// resume-URL update keeps a usable one usable.
pub proof fn law_resume_url_stays_usable(
    c: StateMachineConfigView,
    m: GatewayMachineView,
    e: GatewayEventView,
    url: Seq<char>,
    session: (Seq<char>, u64),
)
    requires
        spec_resume_url_usable(m),
    ensures
        spec_resume_url_usable(spec_fresh_machine(c)),
        spec_resume_url_usable(spec_on_event(m, e).0),
        spec_resume_url_usable(spec_on_heartbeat_tick(m).0),
        spec_resume_url_usable(spec_on_connect(m)),
        spec_resume_url_usable(spec_on_disconnect(m)),
        spec_resume_url_usable(spec_set_resume_url(m, url)),
        spec_resume_url_usable(spec_restore_session(m, session)),
        spec_resume_url_usable(spec_clear_session(m)),
{
}

/// The configuration (token, intents, identify properties) a machine was
/// made with never changes: no event, tick, connect, disconnect, restore,
/// clear or resume-URL update touches it.
pub proof fn law_config_is_fixed(m: GatewayMachineView, e: GatewayEventView, url: Seq<char>, session: (Seq<char>, u64))
    ensures
        spec_on_event(m, e).0.config == m.config,
        spec_on_heartbeat_tick(m).0.config == m.config,
        spec_on_connect(m).config == m.config,
        spec_on_disconnect(m).config == m.config,
        spec_set_resume_url(m, url).config == m.config,
        spec_restore_session(m, session).config == m.config,
        spec_clear_session(m).config == m.config,
{
}

/// Clearing the session leaves nothing to resume, and the next HELLO identifies.
pub proof fn law_cleared_session_identifies(m: GatewayMachineView, interval_ms: u64)
    ensures
        !spec_can_resume(spec_clear_session(m)),
        spec_session(spec_clear_session(m)) is None,
        spec_on_event(spec_clear_session(m), GatewayEventView::Hello { heartbeat_interval: interval_ms }).1[1]
            == spec_identify_action(m),
{
}

/// Something that happens to a machine between two HELLOs: an event, a
/// heartbeat tick, a connect, a disconnect, or a resume-URL update.
pub enum GatewayStepView {
    Event(GatewayEventView),
    Tick,
    Connect,
    Disconnect,
    SetResumeUrl(Seq<char>),
}

/// The machine after one step.
pub open spec fn spec_step(m: GatewayMachineView, s: GatewayStepView) -> GatewayMachineView {
    match s {
        GatewayStepView::Event(e) => spec_on_event(m, e).0,
        GatewayStepView::Tick => spec_on_heartbeat_tick(m).0,
        GatewayStepView::Connect => spec_on_connect(m),
        GatewayStepView::Disconnect => spec_on_disconnect(m),
        GatewayStepView::SetResumeUrl(url) => spec_set_resume_url(m, url),
    }
}

/// The machine after the steps, in order.
pub open spec fn spec_run(m: GatewayMachineView, steps: Seq<GatewayStepView>) -> GatewayMachineView
    decreases steps.len(),
{
    if steps.len() == 0 {
        m
    } else {
        spec_step(spec_run(m, steps.drop_last()), steps.last())
    }
}

/// The step is a READY dispatch.
pub open spec fn spec_is_ready(s: GatewayStepView) -> bool {
    s matches GatewayStepView::Event(GatewayEventView::Dispatch { event_type: Some(t), .. }) && t == "READY"@
}

proof fn lemma_no_session_until_ready(m: GatewayMachineView, steps: Seq<GatewayStepView>)
    requires
        m.session_id is None,
        forall|i: int| 0 <= i < steps.len() ==> !spec_is_ready(#[trigger] steps[i]),
    ensures
        spec_run(m, steps).session_id is None,
        spec_run(m, steps).config == m.config,
    decreases steps.len(),
{
    if steps.len() > 0 {
        assert forall|i: int| 0 <= i < steps.drop_last().len() implies !spec_is_ready(#[trigger] steps.drop_last()[i]) by {
            assert(steps.drop_last()[i] == steps[i]);
        }
        lemma_no_session_until_ready(m, steps.drop_last());
        assert(!spec_is_ready(steps[steps.len() - 1]));
    }
}

/// After the session is cleared, nothing but a READY dispatch brings one
/// back: through any events, ticks, connects, disconnects and resume-URL
/// updates that hold no READY, the machine cannot resume and every HELLO
/// answers with IDENTIFY.
pub proof fn law_cleared_session_identifies_until_ready(
    m: GatewayMachineView,
    steps: Seq<GatewayStepView>,
    interval_ms: u64,
)
    requires
        forall|i: int| 0 <= i < steps.len() ==> !spec_is_ready(#[trigger] steps[i]),
    ensures
        !spec_can_resume(spec_run(spec_clear_session(m), steps)),
        spec_on_event(spec_run(spec_clear_session(m), steps), GatewayEventView::Hello { heartbeat_interval: interval_ms }).1[1]
            == spec_identify_action(m),
{
    lemma_no_session_until_ready(spec_clear_session(m), steps);
}

/// READY with a session id and a sequence number leaves a resumable
/// session made of them, and the connection is up.
pub proof fn law_ready_records_resumable_session(
    m: GatewayMachineView,
    seq: u64,
    data: serde_json::Value,
    session_id: Seq<char>,
)
    requires
        spec_json_str_member(data, "session_id"@) == Some(session_id),
    ensures
        ({
            let m1 = spec_on_event(
                m,
                GatewayEventView::Dispatch { event_type: Some("READY"@), sequence: Some(seq), data },
            ).0;
            &&& spec_session(m1) == Some((session_id, seq))
            &&& m1.state == GatewayConnectionState::Connected
        }),
{
}

/// A dispatch's sequence number is what the next heartbeat carries.
pub proof fn law_heartbeat_carries_last_dispatch_sequence(
    m: GatewayMachineView,
    event_type: Option<Seq<char>>,
    seq: u64,
    data: serde_json::Value,
)
    requires
        !m.heartbeat_ack_pending,
    ensures
        spec_on_heartbeat_tick(
            spec_on_event(m, GatewayEventView::Dispatch { event_type, sequence: Some(seq), data }).0,
        ).1 == GatewayActionView::SendHeartbeat(GatewayCommandView { op: OP_HEARTBEAT, d: Some(seq) }),
{
}

// ---------------------------------------------------------------------------
// Frames
// ---------------------------------------------------------------------------

/// Why a gateway operation failed.
#[derive(Debug, PartialEq, Eq)]
pub enum GatewayError {
    /// The gateway URL could not be parsed.
    Url(String),
    /// The websocket failed.
    WebSocket(String),
    /// A frame was not the JSON the protocol calls for.
    Payload(String),
}

impl GatewayError {
    /// The message shown for this error.
    pub fn message(&self) -> (res: String)
        ensures
            res@ == spec_gateway_error_message(*self),
    {
        match self {
            GatewayError::Url(m) => crate::text::concat2("invalid gateway URL: ", m.as_str()),
            GatewayError::WebSocket(m) => crate::text::concat2("websocket error: ", m.as_str()),
            GatewayError::Payload(m) => crate::text::concat2("invalid gateway payload: ", m.as_str()),
        }
    }
}

/// The message of a gateway error: its kind, then the cause.
pub open spec fn spec_gateway_error_message(e: GatewayError) -> Seq<char> {
    match e {
        GatewayError::Url(m) => "invalid gateway URL: "@ + m@,
        GatewayError::WebSocket(m) => "websocket error: "@ + m@,
        GatewayError::Payload(m) => "invalid gateway payload: "@ + m@,
    }
}

/// The cause reported when a HELLO frame carries no heartbeat interval.
pub const BAD_HELLO: &'static str = "HELLO payload needs an unsigned heartbeat_interval";

/// The opcode of a frame; a missing or non-integer `op` reads as 0 (DISPATCH).
pub open spec fn spec_frame_op(body: serde_json::Value) -> u64 {
    match spec_opt_u64(spec_json_get(body, "op"@)) {
        Some(op) => op,
        None => 0,
    }
}

/// The heartbeat interval a HELLO payload holds, read as a record with the
/// one field `heartbeat_interval`.
pub open spec fn spec_hello_interval(data: serde_json::Value) -> Option<u64> {
    if spec_record_shape(data, 1) {
        spec_opt_u64(spec_record_member(data, 0, "heartbeat_interval"@))
    } else {
        None
    }
}

/// The heartbeat interval of a HELLO frame (`None` when `d` is missing or malformed).
pub open spec fn spec_frame_hello(body: serde_json::Value) -> Option<u64> {
    match spec_json_get(body, "d"@) {
        Some(d) => spec_hello_interval(d),
        None => None,
    }
}

/// INVALID_SESSION is resumable only when `d` is the boolean `true`.
pub open spec fn spec_frame_resumable(body: serde_json::Value) -> bool {
    match spec_json_get(body, "d"@) {
        Some(d) => spec_json_as_bool(d) == Some(true),
        None => false,
    }
}

/// The payload of a frame: its `d` member, or JSON null when it has none.
pub open spec fn spec_frame_data(body: serde_json::Value, data: serde_json::Value) -> bool {
    match spec_json_get(body, "d"@) {
        Some(d) => data == d,
        None => spec_json_is_null(data),
    }
}

/// A frame whose opcode is HELLO but whose payload holds no interval.
pub open spec fn spec_frame_rejected(body: serde_json::Value) -> bool {
    spec_frame_op(body) == 10 && spec_frame_hello(body) is None
}

/// The event a (not rejected) frame stands for.
pub open spec fn spec_frame_event(body: serde_json::Value, e: GatewayEventView) -> bool {
    let op = spec_frame_op(body);
    if op == 0 {
        match e {
            GatewayEventView::Dispatch { event_type, sequence, data } => {
                &&& event_type == spec_opt_str(spec_json_get(body, "t"@))
                &&& sequence == spec_opt_u64(spec_json_get(body, "s"@))
                &&& spec_frame_data(body, data)
            },
            _ => false,
        }
    } else if op == 1 {
        e == GatewayEventView::HeartbeatRequest
    } else if op == 7 {
        e == GatewayEventView::Reconnect
    } else if op == 9 {
        e == GatewayEventView::InvalidSession { resumable: spec_frame_resumable(body) }
    } else if op == 10 {
        e == GatewayEventView::Hello { heartbeat_interval: spec_frame_hello(body)->0 }
    } else if op == 11 {
        e == GatewayEventView::HeartbeatAck
    } else {
        e == GatewayEventView::Unknown(body)
    }
}

/// Reads the HELLO payload's interval.
fn hello_interval(data: &serde_json::Value) -> (res: Option<u64>)
    ensures
        res == spec_hello_interval(*data),
{
    if record_shape(data, 1) {
        opt_u64(&record_member(data, 0, "heartbeat_interval"))
    } else {
        None
    }
}

/// What parsing a text frame gives: the JSON error, the refusal of a bad
/// HELLO, or the event the frame stands for.
pub open spec fn spec_parsed_event(payload: Seq<char>, res: Result<GatewayEvent, GatewayError>) -> bool {
    match spec_json_parse(payload) {
        Err(msg) => res matches Err(GatewayError::Payload(m)) && m@ == msg,
        Ok(body) => if spec_frame_rejected(body) {
            res matches Err(GatewayError::Payload(m)) && m@ == BAD_HELLO@
        } else {
            res matches Ok(e) && spec_frame_event(body, e@)
        },
    }
}

/// Parses a gateway text frame into an event.
///
/// The frame must be JSON. Its `op` selects the event (a missing `op` means
/// DISPATCH); `d` is the payload, JSON null when absent. A HELLO frame must
/// carry `heartbeat_interval`; INVALID_SESSION is resumable only when `d` is
/// `true`; an opcode this client does not handle gives `Unknown` with the
/// whole frame.
pub fn parse_event(payload: &str) -> (res: Result<GatewayEvent, GatewayError>)
    ensures
        spec_parsed_event(payload@, res),
{
    let body = match json_parse(payload) {
        Ok(v) => v,
        Err(msg) => return Err(GatewayError::Payload(msg)),
    };
    let op: u64 = match opt_u64(&json_get(&body, "op")) {
        Some(op) => op,
        None => 0,
    };
    let data = match json_get(&body, "d") {
        Some(d) => d,
        None => json_null(),
    };
    if op == 0 {
        let event_type = opt_str(&json_get(&body, "t"));
        let sequence = opt_u64(&json_get(&body, "s"));
        Ok(GatewayEvent::Dispatch { event_type, sequence, data })
    } else if op == 1 {
        Ok(GatewayEvent::HeartbeatRequest)
    } else if op == 7 {
        Ok(GatewayEvent::Reconnect)
    } else if op == 9 {
        let resumable = match json_as_bool(&data) {
            Some(b) => b,
            None => false,
        };
        Ok(GatewayEvent::InvalidSession { resumable })
    } else if op == 10 {
        match hello_interval(&data) {
            Some(heartbeat_interval) => Ok(GatewayEvent::Hello(GatewayHelloPayload { heartbeat_interval })),
            None => Err(GatewayError::Payload(to_owned_string(BAD_HELLO))),
        }
    } else if op == 11 {
        Ok(GatewayEvent::HeartbeatAck)
    } else {
        Ok(GatewayEvent::Unknown(body))
    }
}

// ---------------------------------------------------------------------------
// Command frames
// ---------------------------------------------------------------------------

/// A frame `{"op": op, "d": d}` whose payload satisfies `payload`.
pub open spec fn spec_op_frame(v: serde_json::Value, op: u8, payload: spec_fn(serde_json::Value) -> bool) -> bool {
    &&& spec_json_is_object(v)
    &&& spec_opt_u64(spec_json_get(v, "op"@)) == Some(op as u64)
    &&& spec_json_get(v, "d"@) matches Some(d) && payload(d)
    &&& spec_has_only(v, set!["op"@, "d"@])
}

/// The JSON of an IDENTIFY payload: `{token, intents, properties: {os, browser, device}}`.
pub open spec fn spec_identify_json(d: serde_json::Value, p: IdentifyPayloadView) -> bool {
    &&& spec_json_is_object(d)
    &&& spec_opt_str(spec_json_get(d, "token"@)) == Some(p.token)
    &&& spec_opt_u64(spec_json_get(d, "intents"@)) == Some(p.intents)
    &&& spec_json_get(d, "properties"@) matches Some(props) && {
        &&& spec_json_is_object(props)
        &&& spec_opt_str(spec_json_get(props, "os"@)) == Some(p.properties.os)
        &&& spec_opt_str(spec_json_get(props, "browser"@)) == Some(p.properties.browser)
        &&& spec_opt_str(spec_json_get(props, "device"@)) == Some(p.properties.device)
        &&& spec_has_only(props, set!["os"@, "browser"@, "device"@])
    }
    &&& spec_has_only(d, set!["token"@, "intents"@, "properties"@])
}

/// The JSON of a RESUME payload: `{token, session_id, seq}`.
pub open spec fn spec_resume_json(d: serde_json::Value, p: ResumePayloadView) -> bool {
    &&& spec_json_is_object(d)
    &&& spec_opt_str(spec_json_get(d, "token"@)) == Some(p.token)
    &&& spec_opt_str(spec_json_get(d, "session_id"@)) == Some(p.session_id)
    &&& spec_opt_u64(spec_json_get(d, "seq"@)) == Some(p.seq)
    &&& spec_has_only(d, set!["token"@, "session_id"@, "seq"@])
}

/// The JSON of a heartbeat payload: the last sequence number, or `null`.
pub open spec fn spec_heartbeat_json(d: serde_json::Value, seq: Option<u64>) -> bool {
    match seq {
        Some(s) => spec_opt_u64(Some(d)) == Some(s),
        None => spec_json_is_null(d),
    }
}

/// The frame sent for an action: the command's opcode and payload for the
/// three send actions; no frame for the others.
pub open spec fn spec_command_frame(v: Option<serde_json::Value>, a: GatewayActionView) -> bool {
    match a {
        GatewayActionView::SendIdentify(c) => v matches Some(f)
            && spec_op_frame(f, c.op, |d: serde_json::Value| spec_identify_json(d, c.d)),
        GatewayActionView::SendResume(c) => v matches Some(f)
            && spec_op_frame(f, c.op, |d: serde_json::Value| spec_resume_json(d, c.d)),
        GatewayActionView::SendHeartbeat(c) => v matches Some(f)
            && spec_op_frame(f, c.op, |d: serde_json::Value| spec_heartbeat_json(d, c.d)),
        _ => v is None,
    }
}

/// Wraps a payload in a frame with its opcode.
fn op_frame(op: u8, d: serde_json::Value) -> (res: serde_json::Value)
    ensures
        spec_json_is_object(res),
        spec_opt_u64(spec_json_get(res, "op"@)) == Some(op as u64),
        spec_json_get(res, "d"@) == Some(d),
        spec_has_only(res, set!["op"@, "d"@]),
{
    proof {
        reveal_strlit("op");
        reveal_strlit("d");
        assert("op"@.len() != "d"@.len());
    }
    let mut frame = json_object();
    json_insert(&mut frame, "op", json_u64(op as u64));
    json_insert(&mut frame, "d", d);
    frame
}

/// The JSON of an IDENTIFY payload.
fn identify_json(p: &GatewayIdentifyPayload) -> (res: serde_json::Value)
    ensures
        spec_identify_json(res, p@),
{
    proof {
        reveal_strlit("token");
        reveal_strlit("intents");
        reveal_strlit("properties");
        reveal_strlit("os");
        reveal_strlit("browser");
        reveal_strlit("device");
        assert("token"@.len() != "intents"@.len());
        assert("token"@.len() != "properties"@.len());
        assert("intents"@.len() != "properties"@.len());
        assert("os"@.len() != "browser"@.len());
        assert("os"@.len() != "device"@.len());
        assert("browser"@[0] != "device"@[0]);
    }
    let mut props = json_object();
    json_insert(&mut props, "os", json_string(p.properties.os.as_str()));
    json_insert(&mut props, "browser", json_string(p.properties.browser.as_str()));
    json_insert(&mut props, "device", json_string(p.properties.device.as_str()));
    let mut d = json_object();
    json_insert(&mut d, "token", json_string(p.token.as_str()));
    json_insert(&mut d, "intents", json_u64(p.intents));
    json_insert(&mut d, "properties", props);
    d
}

/// The JSON of a RESUME payload.
fn resume_json(p: &GatewayResumePayload) -> (res: serde_json::Value)
    ensures
        spec_resume_json(res, p@),
{
    proof {
        reveal_strlit("token");
        reveal_strlit("session_id");
        reveal_strlit("seq");
        assert("token"@.len() != "session_id"@.len());
        assert("token"@.len() != "seq"@.len());
        assert("session_id"@.len() != "seq"@.len());
    }
    let mut d = json_object();
    json_insert(&mut d, "token", json_string(p.token.as_str()));
    json_insert(&mut d, "session_id", json_string(p.session_id.as_str()));
    json_insert(&mut d, "seq", json_u64(p.seq));
    d
}

/// The frame the runtime sends for an action: IDENTIFY, RESUME and
/// HEARTBEAT are sent as `{"op", "d"}`; configuring the heartbeat and
/// reconnecting send nothing.
pub fn command_frame(action: &GatewayStateAction) -> (res: Option<serde_json::Value>)
    ensures
        spec_command_frame(res, action@),
{
    match action {
        GatewayStateAction::SendIdentify(c) => Some(op_frame(c.op, identify_json(&c.d))),
        GatewayStateAction::SendResume(c) => Some(op_frame(c.op, resume_json(&c.d))),
        GatewayStateAction::SendHeartbeat(c) => {
            let d = match c.d {
                Some(s) => json_u64(s),
                None => json_null(),
            };
            Some(op_frame(c.op, d))
        },
        _ => None,
    }
}

} // verus!
