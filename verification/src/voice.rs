//! Discord voice: frames of the voice gateway, its heartbeat bookkeeping,
//! reconnect policy and the UDP address-discovery packets.
use core::time::Duration;
use vstd::prelude::*;

use crate::gateway::spec_hello_interval;
use crate::json::{
    json_as_array, json_as_str, json_as_u64, json_insert, json_null, json_object, json_parse,
    json_string, json_u64, opt_str, opt_u64, record_member, record_shape, spec_json_as_array,
    spec_has_only, spec_json_as_str, spec_json_as_u64, spec_json_get, spec_json_is_null,
    spec_json_is_object, spec_json_parse, spec_opt_str, spec_opt_u64, spec_record_member,
    spec_record_shape,
};
use crate::runtime::{
    reconnect_delay_ms, spec_reconnect_delay_ms, DEFAULT_RECONNECT_BASE_MS,
    DEFAULT_RECONNECT_JITTER_MS, DEFAULT_RECONNECT_MAX_MS,
};
use crate::text::{concat2, spec_trim, to_owned_string, trim};
use crate::time::{
    clamp_duration_ms, duration_as_nanos, duration_from_millis, duration_subsec_nanos,
    since_unix_epoch, spec_clamp_duration_ms, spec_duration_as_millis, spec_duration_from_millis,
    system_time_now,
};

verus! {

/// Why a voice operation failed.
#[derive(Debug, PartialEq, Eq)]
pub enum VoiceError {
    Url(String),
    WebSocket(String),
    Payload(String),
    Udp(String),
}

/// The message of a voice error.
pub open spec fn spec_voice_error_message(e: VoiceError) -> Seq<char> {
    match e {
        VoiceError::Url(m) => "invalid voice gateway URL: "@ + m@,
        VoiceError::WebSocket(m) => "voice websocket error: "@ + m@,
        VoiceError::Payload(m) => "voice payload error: "@ + m@,
        VoiceError::Udp(m) => "voice udp error: "@ + m@,
    }
}

impl VoiceError {
    /// The message shown for this error.
    pub fn message(&self) -> (res: String)
        ensures
            res@ == spec_voice_error_message(*self),
    {
        match self {
            VoiceError::Url(m) => concat2("invalid voice gateway URL: ", m.as_str()),
            VoiceError::WebSocket(m) => concat2("voice websocket error: ", m.as_str()),
            VoiceError::Payload(m) => concat2("voice payload error: ", m.as_str()),
            VoiceError::Udp(m) => concat2("voice udp error: ", m.as_str()),
        }
    }
}

/// A voice gateway endpoint. Connecting to it is the runtime's business.
#[derive(Debug)]
pub struct VoiceGatewayClient {
    gateway_url: url::Url,
}

impl VoiceGatewayClient {
    /// The URL this client connects to.
    pub closed spec fn target(&self) -> url::Url {
        self.gateway_url
    }

    pub fn new(gateway_url: url::Url) -> (res: Self)
        ensures
            res.target() == gateway_url,
    {
        VoiceGatewayClient { gateway_url }
    }

    pub fn gateway_url(&self) -> (res: &url::Url)
        ensures
            *res == self.target(),
    {
        &self.gateway_url
    }
}

/// What the voice gateway is told when the client identifies.
#[derive(Debug)]
pub struct VoiceConnectionConfig {
    pub guild_id: String,
    pub user_id: String,
    pub session_id: String,
    pub token: String,
}

impl Clone for VoiceConnectionConfig {
    fn clone(&self) -> (res: Self)
        ensures
            res.guild_id@ == self.guild_id@,
            res.user_id@ == self.user_id@,
            res.session_id@ == self.session_id@,
            res.token@ == self.token@,
    {
        VoiceConnectionConfig {
            guild_id: self.guild_id.clone(),
            user_id: self.user_id.clone(),
            session_id: self.session_id.clone(),
            token: self.token.clone(),
        }
    }
}

/// Reconnect back-off of the voice runtime (the same policy as the gateway's).
#[derive(Debug)]
pub struct VoiceRuntimeOptions {
    pub reconnect_base_delay: Duration,
    pub reconnect_max_delay: Duration,
    pub reconnect_jitter: Duration,
}

impl Clone for VoiceRuntimeOptions {
    fn clone(&self) -> (res: Self)
        ensures
            res == *self,
    {
        VoiceRuntimeOptions {
            reconnect_base_delay: self.reconnect_base_delay.clone(),
            reconnect_max_delay: self.reconnect_max_delay.clone(),
            reconnect_jitter: self.reconnect_jitter.clone(),
        }
    }
}

impl Default for VoiceRuntimeOptions {
    fn default() -> (res: Self)
        ensures
            res.reconnect_base_delay == spec_duration_from_millis(DEFAULT_RECONNECT_BASE_MS),
            res.reconnect_max_delay == spec_duration_from_millis(DEFAULT_RECONNECT_MAX_MS),
            res.reconnect_jitter == spec_duration_from_millis(DEFAULT_RECONNECT_JITTER_MS),
    {
        VoiceRuntimeOptions {
            reconnect_base_delay: duration_from_millis(DEFAULT_RECONNECT_BASE_MS),
            reconnect_max_delay: duration_from_millis(DEFAULT_RECONNECT_MAX_MS),
            reconnect_jitter: duration_from_millis(DEFAULT_RECONNECT_JITTER_MS),
        }
    }
}

/// The multiplier that spreads the attempt number over the voice seed's bits.
pub const VOICE_JITTER_MIX: u64 = 0x9E37_79B9_7F4A_7C15;

/// The voice jitter seed: the clock's nanoseconds (truncated to 64 bits),
/// the mixed attempt number, and the sub-second nanoseconds shifted left 16.
pub open spec fn spec_voice_jitter_seed(now_nanos: u128, subsec_nanos: u32, attempt: u32) -> u64 {
    ((now_nanos % 0x1_0000_0000_0000_0000) as u64) ^ ((((attempt as nat) * (VOICE_JITTER_MIX as nat))
        % 0x1_0000_0000_0000_0000) as u64) ^ (((subsec_nanos as u64) << 16u64) as u64)
}

/// Mixes a clock reading with the attempt number.
pub fn voice_jitter_seed_at(now_nanos: u128, subsec_nanos: u32, attempt: u32) -> (seed: u64)
    ensures
        seed == spec_voice_jitter_seed(now_nanos, subsec_nanos, attempt),
{
    let truncated = (now_nanos % 0x1_0000_0000_0000_0000u128) as u64;
    truncated ^ (attempt as u64).wrapping_mul(VOICE_JITTER_MIX) ^ ((subsec_nanos as u64) << 16u64)
}

/// A voice jitter seed for an attempt, mixed from the wall clock (a clock
/// before the epoch reads as zero).
pub fn jitter_seed(attempt: u32) -> (seed: u64)
    ensures
        exists|ns: u128, sub: u32| seed == spec_voice_jitter_seed(ns, sub, attempt),
{
    match since_unix_epoch(&system_time_now()) {
        Some(d) => voice_jitter_seed_at(duration_as_nanos(&d), duration_subsec_nanos(&d), attempt),
        None => voice_jitter_seed_at(0, 0, attempt),
    }
}

impl VoiceRuntimeOptions {
    /// The configuration can draw jitter: its jitter, in milliseconds, is below `u64::MAX`.
    pub open spec fn jitter_in_range(&self) -> bool {
        spec_clamp_duration_ms(self.reconnect_jitter) < u64::MAX
    }

    /// The delay, in milliseconds, before reconnect attempt `attempt` with this seed.
    pub open spec fn spec_delay_ms(&self, attempt: u32, seed: u64) -> u64 {
        spec_reconnect_delay_ms(
            spec_clamp_duration_ms(self.reconnect_base_delay),
            spec_clamp_duration_ms(self.reconnect_max_delay),
            spec_clamp_duration_ms(self.reconnect_jitter),
            attempt,
            seed,
        )
    }

    /// The delay before reconnect attempt `attempt`, with the jitter drawn from `seed`.
    pub fn reconnect_delay_with_seed(&self, attempt: u32, seed: u64) -> (d: Duration)
        requires
            self.jitter_in_range(),
        ensures
            d == spec_duration_from_millis(self.spec_delay_ms(attempt, seed)),
            spec_duration_as_millis(d) == self.spec_delay_ms(attempt, seed) as u128,
    {
        duration_from_millis(
            reconnect_delay_ms(
                clamp_duration_ms(&self.reconnect_base_delay),
                clamp_duration_ms(&self.reconnect_max_delay),
                clamp_duration_ms(&self.reconnect_jitter),
                attempt,
                seed,
            ),
        )
    }

    /// The delay before reconnect attempt `attempt`, with jitter seeded from the clock.
    pub fn reconnect_delay(&self, attempt: u32) -> (d: Duration)
        requires
            self.jitter_in_range(),
        ensures
            exists|seed: u64|
                d == spec_duration_from_millis(#[trigger] self.spec_delay_ms(attempt, seed))
                    && spec_duration_as_millis(d) == self.spec_delay_ms(attempt, seed) as u128,
    {
        let seed = jitter_seed(attempt);
        self.reconnect_delay_with_seed(attempt, seed)
    }

    /// The delay before reconnect attempt `attempt`, or `None` when the
    /// configured jitter is too large to draw from.
    pub fn checked_reconnect_delay(&self, attempt: u32) -> (d: Option<Duration>)
        ensures
            d is None <==> !self.jitter_in_range(),
            d matches Some(v) ==> exists|seed: u64|
                v == spec_duration_from_millis(#[trigger] self.spec_delay_ms(attempt, seed))
                    && spec_duration_as_millis(v) == self.spec_delay_ms(attempt, seed) as u128,
    {
        if clamp_duration_ms(&self.reconnect_jitter) < u64::MAX {
            Some(self.reconnect_delay(attempt))
        } else {
            None
        }
    }
}

// ---------------------------------------------------------------------------
// Events and frames
// ---------------------------------------------------------------------------

/// What a voice gateway frame says.
#[derive(Debug)]
pub enum VoiceGatewayEvent {
    Hello { heartbeat_interval_ms: u64 },
    Ready { ip: String, port: u16, ssrc: u32, modes: Vec<String> },
    SessionDescription { mode: String, secret_key: Vec<u8> },
    HeartbeatAck,
    Unknown(serde_json::Value),
}

pub enum VoiceGatewayEventView {
    Hello { heartbeat_interval_ms: u64 },
    Ready { ip: Seq<char>, port: u16, ssrc: u32, modes: Seq<Seq<char>> },
    SessionDescription { mode: Seq<char>, secret_key: Seq<u8> },
    HeartbeatAck,
    Unknown(serde_json::Value),
}

impl View for VoiceGatewayEvent {
    type V = VoiceGatewayEventView;

    open spec fn view(&self) -> VoiceGatewayEventView {
        match self {
            VoiceGatewayEvent::Hello { heartbeat_interval_ms } => VoiceGatewayEventView::Hello {
                heartbeat_interval_ms: *heartbeat_interval_ms,
            },
            VoiceGatewayEvent::Ready { ip, port, ssrc, modes } => VoiceGatewayEventView::Ready {
                ip: ip@,
                port: *port,
                ssrc: *ssrc,
                modes: modes.deep_view(),
            },
            VoiceGatewayEvent::SessionDescription { mode, secret_key } => {
                VoiceGatewayEventView::SessionDescription { mode: mode@, secret_key: secret_key@ }
            },
            VoiceGatewayEvent::HeartbeatAck => VoiceGatewayEventView::HeartbeatAck,
            VoiceGatewayEvent::Unknown(v) => VoiceGatewayEventView::Unknown(*v),
        }
    }
}

/// Copies a list of texts.
fn clone_strings(items: &Vec<String>) -> (res: Vec<String>)
    ensures
        res.deep_view() == items.deep_view(),
{
    let mut out: Vec<String> = Vec::new();
    let mut i: usize = 0;
    while i < items.len()
        invariant
            i <= items@.len(),
            out@.len() == i,
            forall|k: int| 0 <= k < i ==> #[trigger] out@[k]@ == items@[k]@,
        decreases items@.len() - i,
    {
        out.push(items[i].clone());
        i = i + 1;
    }
    proof {
        assert(out.deep_view() =~= items.deep_view());
    }
    out
}

impl Clone for VoiceGatewayEvent {
    fn clone(&self) -> (res: Self)
        ensures
            res@ == self@,
    {
        match self {
            VoiceGatewayEvent::Hello { heartbeat_interval_ms } => VoiceGatewayEvent::Hello {
                heartbeat_interval_ms: *heartbeat_interval_ms,
            },
            VoiceGatewayEvent::Ready { ip, port, ssrc, modes } => VoiceGatewayEvent::Ready {
                ip: ip.clone(),
                port: *port,
                ssrc: *ssrc,
                modes: clone_strings(modes),
            },
            VoiceGatewayEvent::SessionDescription { mode, secret_key } => {
                VoiceGatewayEvent::SessionDescription { mode: mode.clone(), secret_key: secret_key.clone() }
            },
            VoiceGatewayEvent::HeartbeatAck => VoiceGatewayEvent::HeartbeatAck,
            VoiceGatewayEvent::Unknown(v) => VoiceGatewayEvent::Unknown(v.clone()),
        }
    }
}

/// What the voice runtime reports to its observer.
#[derive(Debug)]
pub enum VoiceRuntimeEvent {
    GatewayEvent(VoiceGatewayEvent),
    ReconnectScheduled { attempt: u32, delay: Duration },
    Shutdown,
}

/// Cause given for a frame without an unsigned `op`.
pub const BAD_VOICE_FRAME: &'static str = "voice frame needs an unsigned op";

/// Cause given for a HELLO without `heartbeat_interval`.
pub const BAD_VOICE_HELLO: &'static str = "voice HELLO needs an unsigned heartbeat_interval";

/// Cause given for a READY without its address, port and ssrc.
pub const BAD_VOICE_READY: &'static str = "voice READY needs ip, port, ssrc and text modes";

/// Cause given for a SESSION_DESCRIPTION without its mode and key bytes.
pub const BAD_VOICE_DESCRIPTION: &'static str = "voice SESSION_DESCRIPTION needs a mode and key bytes";

/// The opcode of a voice frame, read as a record `{op, d}` whose `op` is required.
pub open spec fn spec_voice_op(body: serde_json::Value) -> Option<u64> {
    if spec_record_shape(body, 2) {
        spec_opt_u64(spec_record_member(body, 0, "op"@))
    } else {
        None
    }
}

/// The payload of a voice frame: its `d`, or null when it has none.
pub open spec fn spec_voice_data(body: serde_json::Value, data: serde_json::Value) -> bool {
    match spec_record_member(body, 1, "d"@) {
        Some(d) => data == d,
        None => spec_json_is_null(data),
    }
}

/// A JSON array of texts, read as a list of strings.
pub open spec fn spec_text_list(v: serde_json::Value) -> Option<Seq<Seq<char>>> {
    match spec_json_as_array(v) {
        Some(items) => if forall|i: int| 0 <= i < items.len() ==> #[trigger] spec_json_as_str(items[i]) is Some {
            Some(items.map_values(|item: serde_json::Value| spec_json_as_str(item)->0))
        } else {
            None
        },
        None => None,
    }
}

/// A JSON array of integers below 256, read as bytes.
pub open spec fn spec_byte_list(v: serde_json::Value) -> Option<Seq<u8>> {
    match spec_json_as_array(v) {
        Some(items) => if forall|i: int| 0 <= i < items.len() ==> (#[trigger] spec_json_as_u64(items[i]) matches Some(b) && b < 256) {
            Some(items.map_values(|item: serde_json::Value| spec_json_as_u64(item)->0 as u8))
        } else {
            None
        },
        None => None,
    }
}

/// A record field that defaults to an empty list when absent.
pub open spec fn spec_list_field<T>(member: Option<serde_json::Value>, read: spec_fn(serde_json::Value) -> Option<Seq<T>>) -> Option<Seq<T>> {
    match member {
        Some(v) => read(v),
        None => Some(Seq::empty()),
    }
}

/// READY's payload: `{ip, port, ssrc, modes}` with `modes` defaulting to empty.
pub open spec fn spec_ready(d: serde_json::Value) -> Option<VoiceGatewayEventView> {
    let ip = spec_opt_str(spec_record_member(d, 0, "ip"@));
    let port = spec_opt_u64(spec_record_member(d, 1, "port"@));
    let ssrc = spec_opt_u64(spec_record_member(d, 2, "ssrc"@));
    let modes = spec_list_field(spec_record_member(d, 3, "modes"@), |v: serde_json::Value| spec_text_list(v));
    if spec_record_shape(d, 4) && ip is Some && port is Some && port->0 <= u16::MAX && ssrc is Some
        && ssrc->0 <= u32::MAX && modes is Some {
        Some(VoiceGatewayEventView::Ready { ip: ip->0, port: port->0 as u16, ssrc: ssrc->0 as u32, modes: modes->0 })
    } else {
        None
    }
}

/// SESSION_DESCRIPTION's payload: `{mode, secret_key}` with the key defaulting to empty.
pub open spec fn spec_session_description(d: serde_json::Value) -> Option<VoiceGatewayEventView> {
    let mode = spec_opt_str(spec_record_member(d, 0, "mode"@));
    let key = spec_list_field(spec_record_member(d, 1, "secret_key"@), |v: serde_json::Value| spec_byte_list(v));
    if spec_record_shape(d, 2) && mode is Some && key is Some {
        Some(VoiceGatewayEventView::SessionDescription { mode: mode->0, secret_key: key->0 })
    } else {
        None
    }
}

/// The frame an unknown opcode is reported as: `{"op": op, "d": d}`.
pub open spec fn spec_unknown_frame(v: serde_json::Value, op: u64, d: serde_json::Value) -> bool {
    &&& spec_json_is_object(v)
    &&& spec_opt_u64(spec_json_get(v, "op"@)) == Some(op)
    &&& spec_json_get(v, "d"@) == Some(d)
    &&& forall|k: Seq<char>| k != "op"@ && k != "d"@ ==> #[trigger] spec_json_get(v, k) is None
}

/// What parsing a voice frame gives: the event, or the cause of the refusal.
pub open spec fn spec_voice_parse(text: Seq<char>, res: Result<VoiceGatewayEventView, Seq<char>>) -> bool {
    match spec_json_parse(text) {
        Err(cause) => res == Err::<VoiceGatewayEventView, Seq<char>>(cause),
        Ok(body) => match spec_voice_op(body) {
            None => res == Err::<VoiceGatewayEventView, Seq<char>>(BAD_VOICE_FRAME@),
            Some(op) => exists|d: serde_json::Value| #[trigger] spec_voice_data(body, d) && if op == 8 {
                match spec_hello_interval(d) {
                    Some(ms) => res == Ok::<VoiceGatewayEventView, Seq<char>>(VoiceGatewayEventView::Hello { heartbeat_interval_ms: ms }),
                    None => res == Err::<VoiceGatewayEventView, Seq<char>>(BAD_VOICE_HELLO@),
                }
            } else if op == 2 {
                match spec_ready(d) {
                    Some(e) => res == Ok::<VoiceGatewayEventView, Seq<char>>(e),
                    None => res == Err::<VoiceGatewayEventView, Seq<char>>(BAD_VOICE_READY@),
                }
            } else if op == 4 {
                match spec_session_description(d) {
                    Some(e) => res == Ok::<VoiceGatewayEventView, Seq<char>>(e),
                    None => res == Err::<VoiceGatewayEventView, Seq<char>>(BAD_VOICE_DESCRIPTION@),
                }
            } else if op == 6 {
                res == Ok::<VoiceGatewayEventView, Seq<char>>(VoiceGatewayEventView::HeartbeatAck)
            } else {
                res matches Ok(VoiceGatewayEventView::Unknown(v)) && spec_unknown_frame(v, op, d)
            },
        },
    }
}

/// The outcome of `parse_gateway_event`, as a view.
pub open spec fn spec_voice_outcome(res: Result<VoiceGatewayEvent, VoiceError>) -> Result<VoiceGatewayEventView, Seq<char>> {
    match res {
        Ok(e) => Ok(e@),
        Err(VoiceError::Payload(m)) => Err(m@),
        Err(_) => Err(Seq::empty()),
    }
}

/// Reads a JSON array of texts.
fn text_list(v: &serde_json::Value) -> (res: Option<Vec<String>>)
    ensures
        match spec_text_list(*v) {
            Some(l) => res matches Some(out) && out.deep_view() == l,
            None => res is None,
        },
{
    let items = match json_as_array(v) {
        Some(items) => items,
        None => return None,
    };
    let mut out: Vec<String> = Vec::new();
    let mut i: usize = 0;
    while i < items.len()
        invariant
            i <= items@.len(),
            out@.len() == i,
            spec_json_as_array(*v) == Some(items@),
            forall|k: int| 0 <= k < i ==> spec_json_as_str(#[trigger] items@[k]) == Some(out@[k]@),
        decreases items@.len() - i,
    {
        match json_as_str(&items[i]) {
            Some(t) => out.push(t),
            None => {
                assert(spec_json_as_str(items@[i as int]) is None);
                assert(!(forall|k: int| 0 <= k < items@.len() ==> #[trigger] spec_json_as_str(items@[k]) is Some));
                return None;
            },
        }
        i = i + 1;
    }
    proof {
        assert(out.deep_view() =~= items@.map_values(|item: serde_json::Value| spec_json_as_str(item)->0));
    }
    Some(out)
}

/// Reads a JSON array of bytes.
fn byte_list(v: &serde_json::Value) -> (res: Option<Vec<u8>>)
    ensures
        match spec_byte_list(*v) {
            Some(l) => res matches Some(out) && out@ == l,
            None => res is None,
        },
{
    let items = match json_as_array(v) {
        Some(items) => items,
        None => return None,
    };
    let mut out: Vec<u8> = Vec::new();
    let mut i: usize = 0;
    while i < items.len()
        invariant
            i <= items@.len(),
            out@.len() == i,
            spec_json_as_array(*v) == Some(items@),
            forall|k: int| 0 <= k < i ==> (#[trigger] spec_json_as_u64(items@[k]) matches Some(b) && b < 256
                && out@[k] == b as u8),
        decreases items@.len() - i,
    {
        match json_as_u64(&items[i]) {
            Some(b) => {
                if b >= 256 {
                    assert(!(forall|k: int| 0 <= k < items@.len() ==> (#[trigger] spec_json_as_u64(items@[k]) matches Some(c) && c < 256)));
                    return None;
                }
                out.push(b as u8);
            },
            None => {
                assert(!(forall|k: int| 0 <= k < items@.len() ==> (#[trigger] spec_json_as_u64(items@[k]) matches Some(c) && c < 256)));
                return None;
            },
        }
        i = i + 1;
    }
    proof {
        assert(out@ =~= items@.map_values(|item: serde_json::Value| spec_json_as_u64(item)->0 as u8));
    }
    Some(out)
}

/// Reads a list field that defaults to empty.
fn text_list_field(member: &Option<serde_json::Value>) -> (res: Option<Vec<String>>)
    ensures
        match spec_list_field(*member, |v: serde_json::Value| spec_text_list(v)) {
            Some(l) => res matches Some(out) && out.deep_view() == l,
            None => res is None,
        },
{
    match member {
        Some(v) => text_list(v),
        None => {
            let empty: Vec<String> = Vec::new();
            proof {
                assert(empty.deep_view() =~= Seq::<Seq<char>>::empty());
            }
            Some(empty)
        },
    }
}

/// Reads a byte-list field that defaults to empty.
fn byte_list_field(member: &Option<serde_json::Value>) -> (res: Option<Vec<u8>>)
    ensures
        match spec_list_field(*member, |v: serde_json::Value| spec_byte_list(v)) {
            Some(l) => res matches Some(out) && out@ == l,
            None => res is None,
        },
{
    match member {
        Some(v) => byte_list(v),
        None => Some(Vec::new()),
    }
}

/// Reads READY's payload.
fn ready(d: &serde_json::Value) -> (res: Option<VoiceGatewayEvent>)
    ensures
        match spec_ready(*d) {
            Some(e) => res matches Some(ev) && ev@ == e,
            None => res is None,
        },
{
    if !record_shape(d, 4) {
        return None;
    }
    let ip = match opt_str(&record_member(d, 0, "ip")) {
        Some(ip) => ip,
        None => return None,
    };
    let port = match opt_u64(&record_member(d, 1, "port")) {
        Some(p) => p,
        None => return None,
    };
    if port > 0xffff {
        return None;
    }
    let ssrc = match opt_u64(&record_member(d, 2, "ssrc")) {
        Some(s) => s,
        None => return None,
    };
    if ssrc > 0xffff_ffff {
        return None;
    }
    let modes = match text_list_field(&record_member(d, 3, "modes")) {
        Some(m) => m,
        None => return None,
    };
    Some(VoiceGatewayEvent::Ready { ip, port: port as u16, ssrc: ssrc as u32, modes })
}

/// Reads SESSION_DESCRIPTION's payload.
fn session_description(d: &serde_json::Value) -> (res: Option<VoiceGatewayEvent>)
    ensures
        match spec_session_description(*d) {
            Some(e) => res matches Some(ev) && ev@ == e,
            None => res is None,
        },
{
    if !record_shape(d, 2) {
        return None;
    }
    let mode = match opt_str(&record_member(d, 0, "mode")) {
        Some(m) => m,
        None => return None,
    };
    let secret_key = match byte_list_field(&record_member(d, 1, "secret_key")) {
        Some(k) => k,
        None => return None,
    };
    Some(VoiceGatewayEvent::SessionDescription { mode, secret_key })
}

/// Reads HELLO's payload.
fn hello(d: &serde_json::Value) -> (res: Option<u64>)
    ensures
        res == spec_hello_interval(*d),
{
    if record_shape(d, 1) {
        opt_u64(&record_member(d, 0, "heartbeat_interval"))
    } else {
        None
    }
}

/// Parses a voice gateway text frame.
///
/// The frame is `{op, d}` with `op` required and `d` null when absent.
/// HELLO (8), READY (2) and SESSION_DESCRIPTION (4) must carry their
/// payloads; HEARTBEAT_ACK (6) carries none; any other opcode is reported
/// as `Unknown` holding `{"op": op, "d": d}`. Refusals are `Payload` errors.
pub fn parse_gateway_event(payload: &str) -> (res: Result<VoiceGatewayEvent, VoiceError>)
    ensures
        res is Err ==> res matches Err(VoiceError::Payload(_)),
        spec_voice_parse(payload@, spec_voice_outcome(res)),
{
    let body = match json_parse(payload) {
        Ok(b) => b,
        Err(cause) => return Err(VoiceError::Payload(cause)),
    };
    if !record_shape(&body, 2) {
        return Err(VoiceError::Payload(to_owned_string(BAD_VOICE_FRAME)));
    }
    let op = match opt_u64(&record_member(&body, 0, "op")) {
        Some(op) => op,
        None => return Err(VoiceError::Payload(to_owned_string(BAD_VOICE_FRAME))),
    };
    let d = match record_member(&body, 1, "d") {
        Some(d) => d,
        None => json_null(),
    };
    assert(spec_voice_data(body, d));
    if op == 8 {
        match hello(&d) {
            Some(ms) => Ok(VoiceGatewayEvent::Hello { heartbeat_interval_ms: ms }),
            None => Err(VoiceError::Payload(to_owned_string(BAD_VOICE_HELLO))),
        }
    } else if op == 2 {
        match ready(&d) {
            Some(e) => Ok(e),
            None => Err(VoiceError::Payload(to_owned_string(BAD_VOICE_READY))),
        }
    } else if op == 4 {
        match session_description(&d) {
            Some(e) => Ok(e),
            None => Err(VoiceError::Payload(to_owned_string(BAD_VOICE_DESCRIPTION))),
        }
    } else if op == 6 {
        Ok(VoiceGatewayEvent::HeartbeatAck)
    } else {
        let mut frame = json_object();
        json_insert(&mut frame, "op", json_u64(op));
        json_insert(&mut frame, "d", d);
        proof {
            reveal_strlit("op");
            reveal_strlit("d");
            assert("op"@.len() != "d"@.len());
        }
        Ok(VoiceGatewayEvent::Unknown(frame))
    }
}

// ---------------------------------------------------------------------------
// Heartbeats and outgoing frames
// ---------------------------------------------------------------------------

/// The heartbeat bookkeeping of a voice connection: whether a heartbeat
/// awaits its ACK, and the nonce of the last heartbeat sent.
#[derive(Debug, Clone, Copy, PartialEq, Eq, Structural)]
pub struct VoiceHeartbeat {
    pub awaiting_ack: bool,
    pub nonce: u64,
}

/// The heartbeat state of a new connection: nothing sent yet.
pub open spec fn spec_heartbeat_start() -> VoiceHeartbeat {
    VoiceHeartbeat { awaiting_ack: false, nonce: 0 }
}

/// A heartbeat timer tick: with a heartbeat still unacknowledged the
/// connection must be re-established (`None`); otherwise the next nonce
/// (saturating) is sent and awaits its ACK.
pub open spec fn spec_heartbeat_tick(h: VoiceHeartbeat) -> (VoiceHeartbeat, Option<u64>) {
    if h.awaiting_ack {
        (h, None)
    } else {
        let next = if h.nonce == u64::MAX {
            u64::MAX
        } else {
            (h.nonce + 1) as u64
        };
        (VoiceHeartbeat { awaiting_ack: true, nonce: next }, Some(next))
    }
}

impl VoiceHeartbeat {
    /// A new connection's bookkeeping.
    pub fn new() -> (res: Self)
        ensures
            res == spec_heartbeat_start(),
    {
        VoiceHeartbeat { awaiting_ack: false, nonce: 0 }
    }

    /// The heartbeat timer fired: the nonce to send, or `None` to reconnect.
    pub fn on_tick(&mut self) -> (res: Option<u64>)
        ensures
            (*final(self), res) == spec_heartbeat_tick(*old(self)),
    {
        if self.awaiting_ack {
            return None;
        }
        self.nonce = self.nonce.saturating_add(1);
        self.awaiting_ack = true;
        Some(self.nonce)
    }

    /// A HEARTBEAT_ACK arrived.
    pub fn on_ack(&mut self)
        ensures
            *final(self) == (VoiceHeartbeat { awaiting_ack: false, ..*old(self) }),
    {
        self.awaiting_ack = false;
    }
}

/// Two ticks with no ACK between them: the second asks for a reconnect.
pub proof fn law_voice_tick_without_ack_reconnects(h: VoiceHeartbeat)
    ensures
        spec_heartbeat_tick(spec_heartbeat_tick(h).0).1 is None,
{
}

/// After an ACK the next tick sends a heartbeat whose nonce is larger than
/// the last one (until the nonce saturates).
pub proof fn law_voice_nonce_increases(h: VoiceHeartbeat)
    requires
        h.nonce < u64::MAX,
    ensures
        spec_heartbeat_tick(VoiceHeartbeat { awaiting_ack: false, ..h }).1 == Some((h.nonce + 1) as u64),
{
}

/// The event reported for a binary voice frame: `Unknown({"kind": "binary"})`.
pub fn binary_frame_event() -> (res: VoiceGatewayEvent)
    ensures
        res matches VoiceGatewayEvent::Unknown(v) && {
            &&& spec_json_is_object(v)
            &&& spec_opt_str(spec_json_get(v, "kind"@)) == Some("binary"@)
            &&& forall|k: Seq<char>| k != "kind"@ ==> #[trigger] spec_json_get(v, k) is None
        },
{
    let mut v = json_object();
    json_insert(&mut v, "kind", json_string("binary"));
    VoiceGatewayEvent::Unknown(v)
}

/// The voice IDENTIFY frame: `{"op": 0, "d": {server_id, user_id, session_id, token}}`.
pub open spec fn spec_identify_frame(v: serde_json::Value, config: VoiceConnectionConfig) -> bool {
    &&& spec_json_is_object(v)
    &&& spec_opt_u64(spec_json_get(v, "op"@)) == Some(0u64)
    &&& spec_json_get(v, "d"@) matches Some(d) && {
        &&& spec_json_is_object(d)
        &&& spec_opt_str(spec_json_get(d, "server_id"@)) == Some(config.guild_id@)
        &&& spec_opt_str(spec_json_get(d, "user_id"@)) == Some(config.user_id@)
        &&& spec_opt_str(spec_json_get(d, "session_id"@)) == Some(config.session_id@)
        &&& spec_opt_str(spec_json_get(d, "token"@)) == Some(config.token@)
        &&& spec_has_only(d, set!["server_id"@, "user_id"@, "session_id"@, "token"@])
    }
    &&& spec_has_only(v, set!["op"@, "d"@])
}

/// The voice IDENTIFY frame for a connection.
pub fn identify_payload(config: &VoiceConnectionConfig) -> (res: serde_json::Value)
    ensures
        spec_identify_frame(res, *config),
{
    proof {
        reveal_strlit("server_id");
        reveal_strlit("user_id");
        reveal_strlit("session_id");
        reveal_strlit("token");
        reveal_strlit("op");
        reveal_strlit("d");
        assert("op"@.len() != "d"@.len());
        assert("server_id"@.len() != "user_id"@.len());
        assert("server_id"@.len() != "session_id"@.len());
        assert("server_id"@.len() != "token"@.len());
        assert("user_id"@.len() != "session_id"@.len());
        assert("user_id"@.len() != "token"@.len());
        assert("session_id"@.len() != "token"@.len());
    }
    let mut d = json_object();
    json_insert(&mut d, "server_id", json_string(config.guild_id.as_str()));
    json_insert(&mut d, "user_id", json_string(config.user_id.as_str()));
    json_insert(&mut d, "session_id", json_string(config.session_id.as_str()));
    json_insert(&mut d, "token", json_string(config.token.as_str()));
    let mut frame = json_object();
    json_insert(&mut frame, "op", json_u64(0));
    json_insert(&mut frame, "d", d);
    frame
}

/// The voice HEARTBEAT frame for a nonce: `{"op": 3, "d": nonce}`.
pub fn heartbeat_payload(nonce: u64) -> (res: serde_json::Value)
    ensures
        spec_json_is_object(res),
        spec_opt_u64(spec_json_get(res, "op"@)) == Some(3u64),
        spec_opt_u64(spec_json_get(res, "d"@)) == Some(nonce),
        spec_has_only(res, set!["op"@, "d"@]),
{
    proof {
        reveal_strlit("op");
        reveal_strlit("d");
        assert("op"@.len() != "d"@.len());
    }
    let mut frame = json_object();
    json_insert(&mut frame, "op", json_u64(3));
    json_insert(&mut frame, "d", json_u64(nonce));
    frame
}

// ---------------------------------------------------------------------------
// UDP address discovery
// ---------------------------------------------------------------------------

/// The external address a voice server reports.
#[derive(Debug, PartialEq, Eq)]
pub struct VoiceUdpDiscoveryResult {
    pub ip: String,
    pub port: u16,
}

/// The length of discovery packets.
pub const DISCOVERY_PACKET_LEN: usize = 70;

/// Byte `k` (0 = most significant) of the big-endian form of `x`.
pub open spec fn spec_be_byte(x: u32, k: nat) -> u8 {
    let shifted: nat = if k == 0 {
        x as nat / 0x100_0000
    } else if k == 1 {
        x as nat / 0x1_0000
    } else if k == 2 {
        x as nat / 0x100
    } else {
        x as nat
    };
    (shifted % 256) as u8
}

/// The discovery probe: the SSRC big-endian in the first four bytes, zeros after.
pub open spec fn spec_discovery_probe(ssrc: u32) -> Seq<u8> {
    Seq::new(
        DISCOVERY_PACKET_LEN as nat,
        |i: int|
            if i < 4 {
                spec_be_byte(ssrc, i as nat)
            } else {
                0u8
            },
    )
}

/// Builds the discovery probe for an SSRC.
pub fn discovery_probe(ssrc: u32) -> (res: Vec<u8>)
    ensures
        res@ == spec_discovery_probe(ssrc),
{
    let mut out: Vec<u8> = Vec::new();
    out.push(((ssrc / 0x100_0000) % 256) as u8);
    out.push(((ssrc / 0x1_0000) % 256) as u8);
    out.push(((ssrc / 0x100) % 256) as u8);
    out.push((ssrc % 256) as u8);
    let mut i: usize = 4;
    while i < DISCOVERY_PACKET_LEN
        invariant
            4 <= i <= DISCOVERY_PACKET_LEN,
            out@.len() == i,
            forall|k: int| 0 <= k < 4 ==> out@[k] == spec_be_byte(ssrc, k as nat),
            forall|k: int| 4 <= k < i ==> out@[k] == 0u8,
        decreases DISCOVERY_PACKET_LEN - i,
    {
        out.push(0u8);
        i = i + 1;
    }
    proof {
        assert(out@ =~= spec_discovery_probe(ssrc));
    }
    out
}

/// What `String::from_utf8_lossy` makes of bytes: the text, with each
/// invalid sequence replaced by U+FFFD.
pub uninterp spec fn spec_utf8_lossy(bytes: Seq<u8>) -> Seq<char>;

/// Calls `String::from_utf8_lossy` and owns the text.
#[verifier::external_body]
fn utf8_lossy(bytes: &[u8]) -> (res: String)
    ensures
        res@ == spec_utf8_lossy(bytes@),
{
    String::from_utf8_lossy(bytes).into_owned()
}

/// Where the address text in a discovery response ends: at the first zero
/// byte among bytes 4 to 67, or after all 64 of them.
pub open spec fn spec_ip_len(response: Seq<u8>) -> int {
    if exists|k: int| 4 <= k < 68 && response[k] == 0 {
        (choose|k: int| 4 <= k < 68 && response[k] == 0 && forall|j: int| 4 <= j < k ==> response[j] != 0)
            - 4
    } else {
        64
    }
}

/// The address a discovery response reports: the text before the first zero
/// in bytes 4..68 (trimmed), and the big-endian port in bytes 68 and 69.
pub fn parse_discovery_response(response: &[u8]) -> (res: VoiceUdpDiscoveryResult)
    requires
        response@.len() == DISCOVERY_PACKET_LEN,
    ensures
        ({
            let n = spec_ip_len(response@);
            &&& res.ip@ == spec_trim(spec_utf8_lossy(response@.subrange(4, 4 + n)))
            &&& res.port == response@[68] as nat * 256 + response@[69] as nat
        }),
{
    let mut end: usize = 4;
    while end < 68 && response[end] != 0
        invariant
            response@.len() == DISCOVERY_PACKET_LEN,
            4 <= end <= 68,
            forall|j: int| 4 <= j < end ==> response@[j] != 0,
        decreases 68 - end,
    {
        end = end + 1;
    }
    proof {
        if end < 68 {
            assert(4 <= end < 68 && response@[end as int] == 0 && forall|j: int| 4 <= j < end ==> response@[j] != 0);
            let k = choose|k: int| 4 <= k < 68 && response@[k] == 0 && forall|j: int| 4 <= j < k ==> response@[j] != 0;
            if k < end {
                assert(response@[k] != 0);
            }
            if end < k {
                assert(response@[end as int] != 0);
            }
        } else {
            assert(!(exists|k: int| 4 <= k < 68 && response@[k] == 0));
        }
    }
    let raw = utf8_lossy(vstd::slice::slice_subrange(response, 4, end));
    let ip = to_owned_string(trim(raw.as_str()));
    let port: u16 = (response[68] as u16) * 256 + (response[69] as u16);
    VoiceUdpDiscoveryResult { ip, port }
}

} // verus!
