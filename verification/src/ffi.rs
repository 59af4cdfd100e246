//! What the C interface decides: status codes, message sanitizing, and the
//! JSON shapes of events handed across it. The `extern "C"` functions
//! themselves live outside this library.
use vstd::prelude::*;

use crate::api_types::GetChannelMessagesQuery;
use crate::gateway::{GatewayEvent, GatewayEventView};
use crate::json::{
    json_bool, json_insert, json_null, json_object, json_string, json_u64, spec_json_as_bool,
    spec_has_only, spec_json_as_str, spec_json_as_u64, spec_json_get, spec_json_is_null,
    spec_json_is_object, spec_opt_str, spec_opt_u64,
};
use crate::runtime::{GatewayRuntimeEvent, GatewayRuntimeEventView};
use crate::text::{concat2, to_owned_string};
use crate::time::{duration_as_millis, spec_duration_as_millis};
use crate::urls::{spec_url_parse, url_parse};

verus! {

/// The version of the `discord_*` C interface.
pub const DISCORD_FFI_ABI_VERSION: u32 = 1;

/// The version of the `opencord_*` C interface.
pub const OPENCORD_FFI_ABI_VERSION: u32 = 1;

/// Outcome of a `discord_*` C call.
#[derive(Clone, Copy, Debug, PartialEq, Eq, Structural)]
pub enum DiscordErrorCode {
    DiscordOk,
    DiscordNullPointer,
    DiscordInvalidUtf8,
    DiscordInvalidUrl,
    DiscordRuntimeInitError,
    DiscordClientError,
    DiscordSerializationError,
    DiscordGatewayAlreadyRunning,
    DiscordGatewayNotRunning,
}

impl DiscordErrorCode {
    /// The number the C side sees.
    pub fn code(&self) -> (res: u32)
        ensures
            res == match *self {
                DiscordErrorCode::DiscordOk => 0u32,
                DiscordErrorCode::DiscordNullPointer => 1,
                DiscordErrorCode::DiscordInvalidUtf8 => 2,
                DiscordErrorCode::DiscordInvalidUrl => 3,
                DiscordErrorCode::DiscordRuntimeInitError => 4,
                DiscordErrorCode::DiscordClientError => 5,
                DiscordErrorCode::DiscordSerializationError => 6,
                DiscordErrorCode::DiscordGatewayAlreadyRunning => 7,
                DiscordErrorCode::DiscordGatewayNotRunning => 8,
            },
    {
        match self {
            DiscordErrorCode::DiscordOk => 0,
            DiscordErrorCode::DiscordNullPointer => 1,
            DiscordErrorCode::DiscordInvalidUtf8 => 2,
            DiscordErrorCode::DiscordInvalidUrl => 3,
            DiscordErrorCode::DiscordRuntimeInitError => 4,
            DiscordErrorCode::DiscordClientError => 5,
            DiscordErrorCode::DiscordSerializationError => 6,
            DiscordErrorCode::DiscordGatewayAlreadyRunning => 7,
            DiscordErrorCode::DiscordGatewayNotRunning => 8,
        }
    }
}

/// Outcome of an `opencord_*` C call.
#[derive(Clone, Copy, Debug, PartialEq, Eq, Structural)]
pub enum OpenCordErrorCode {
    OpenCordOk,
    OpenCordNullPointer,
    OpenCordInvalidUtf8,
    OpenCordInvalidUrl,
    OpenCordRuntimeInitError,
    OpenCordClientError,
    OpenCordSerializationError,
}

impl OpenCordErrorCode {
    /// The number the C side sees.
    pub fn code(&self) -> (res: u32)
        ensures
            res == match *self {
                OpenCordErrorCode::OpenCordOk => 0u32,
                OpenCordErrorCode::OpenCordNullPointer => 1,
                OpenCordErrorCode::OpenCordInvalidUtf8 => 2,
                OpenCordErrorCode::OpenCordInvalidUrl => 3,
                OpenCordErrorCode::OpenCordRuntimeInitError => 4,
                OpenCordErrorCode::OpenCordClientError => 5,
                OpenCordErrorCode::OpenCordSerializationError => 6,
            },
    {
        match self {
            OpenCordErrorCode::OpenCordOk => 0,
            OpenCordErrorCode::OpenCordNullPointer => 1,
            OpenCordErrorCode::OpenCordInvalidUtf8 => 2,
            OpenCordErrorCode::OpenCordInvalidUrl => 3,
            OpenCordErrorCode::OpenCordRuntimeInitError => 4,
            OpenCordErrorCode::OpenCordClientError => 5,
            OpenCordErrorCode::OpenCordSerializationError => 6,
        }
    }
}

/// The opaque client handle of the `discord_*` interface (used only behind a pointer).
pub struct DiscordClientHandle {
    _private: [u8; 0],
}

/// The opaque client handle of the `opencord_*` interface (used only behind a pointer).
pub struct OpenCordClient {
    _private: [u8; 0],
}

/// A text made safe for a C string: every NUL becomes `?`.
pub open spec fn spec_sanitize(s: Seq<char>) -> Seq<char> {
    s.map_values(|c: char| if c == '\0' { '?' } else { c })
}

/// Replaces every NUL of a text with `?`, so that it fits in a C string.
pub fn sanitize_c_text(s: &str) -> (res: String)
    ensures
        res@ == spec_sanitize(s@),
{
    proof {
        reveal_strlit("?");
    }
    let n = s.unicode_len();
    let mut out = String::new();
    let mut start: usize = 0;
    let mut i: usize = 0;
    while i < n
        invariant
            n == s@.len(),
            start <= i <= n,
            out@ + s@.subrange(start as int, i as int) == spec_sanitize(s@.subrange(0, i as int)),
            forall|k: int| start <= k < i ==> s@[k] != '\0',
        decreases n - i,
    {
        let c = s.get_char(i);
        let ghost prev_out = out@;
        let ghost prev_start = start;
        assert(spec_sanitize(s@.subrange(0, i + 1)) =~= spec_sanitize(s@.subrange(0, i as int)).push(
            if c == '\0' { '?' } else { c },
        ));
        if c == '\0' {
            let chunk = s.substring_char(start, i);
            out.append(chunk);
            out.append("?");
            start = i + 1;
            proof {
                reveal_strlit("?");
                assert("?"@ =~= seq!['?']);
                assert(out@ =~= prev_out + s@.subrange(prev_start as int, i as int) + seq!['?']);
                assert(s@.subrange(start as int, (i + 1) as int) =~= Seq::<char>::empty());
                assert(out@ + s@.subrange(start as int, (i + 1) as int) =~= spec_sanitize(s@.subrange(0, i + 1)));
            }
        } else {
            proof {
                assert(s@.subrange(start as int, i + 1) =~= s@.subrange(start as int, i as int).push(c));
                assert(out@ + s@.subrange(start as int, i + 1) =~= (out@ + s@.subrange(start as int, i as int)).push(c));
            }
        }
        i = i + 1;
    }
    let rest = s.substring_char(start, n);
    out.append(rest);
    proof {
        assert(s@.subrange(0, n as int) =~= s@);
    }
    out
}

/// The failure of reading a C string argument: a null pointer, or bytes that
/// are not UTF-8, with the message naming the argument.
pub fn argument_failure(name: &str, is_null: bool) -> (res: (DiscordErrorCode, String))
    ensures
        is_null ==> res.0 == DiscordErrorCode::DiscordNullPointer && res.1@ == name@ + " cannot be null"@,
        !is_null ==> res.0 == DiscordErrorCode::DiscordInvalidUtf8 && res.1@ == name@ + " must be valid UTF-8"@,
{
    if is_null {
        (DiscordErrorCode::DiscordNullPointer, concat2(name, " cannot be null"))
    } else {
        (DiscordErrorCode::DiscordInvalidUtf8, concat2(name, " must be valid UTF-8"))
    }
}

/// The failure of reading a C string argument of an `opencord_*` call: a
/// null pointer, or bytes that are not UTF-8, with the message naming the
/// argument.
pub fn opencord_argument_failure(name: &str, is_null: bool) -> (res: (OpenCordErrorCode, String))
    ensures
        is_null ==> res.0 == OpenCordErrorCode::OpenCordNullPointer && res.1@ == name@ + " cannot be null"@,
        !is_null ==> res.0 == OpenCordErrorCode::OpenCordInvalidUtf8 && res.1@ == name@ + " must be valid UTF-8"@,
{
    if is_null {
        (OpenCordErrorCode::OpenCordNullPointer, concat2(name, " cannot be null"))
    } else {
        (OpenCordErrorCode::OpenCordInvalidUtf8, concat2(name, " must be valid UTF-8"))
    }
}

/// The API base URL a `discord_*` client is made with: the text must parse
/// as a URL; otherwise `DiscordInvalidUrl` with the parse error's message.
pub fn parse_base_url(base_url: &str) -> (res: Result<url::Url, (DiscordErrorCode, String)>)
    ensures
        match spec_url_parse(base_url@) {
            Ok(u) => res == Ok::<url::Url, (DiscordErrorCode, String)>(u),
            Err(m) => res matches Err((c, e)) && c == DiscordErrorCode::DiscordInvalidUrl
                && e@ == "invalid base_url: "@ + m,
        },
{
    match url_parse(base_url) {
        Ok(u) => Ok(u),
        Err(m) => Err((DiscordErrorCode::DiscordInvalidUrl, concat2("invalid base_url: ", m.as_str()))),
    }
}

/// The API base URL an `opencord_*` client is made with: the text must
/// parse as a URL; otherwise `OpenCordInvalidUrl` with the parse error's message.
pub fn parse_opencord_base_url(base_url: &str) -> (res: Result<url::Url, (OpenCordErrorCode, String)>)
    ensures
        match spec_url_parse(base_url@) {
            Ok(u) => res == Ok::<url::Url, (OpenCordErrorCode, String)>(u),
            Err(m) => res matches Err((c, e)) && c == OpenCordErrorCode::OpenCordInvalidUrl
                && e@ == "invalid base_url: "@ + m,
        },
{
    match url_parse(base_url) {
        Ok(u) => Ok(u),
        Err(m) => Err((OpenCordErrorCode::OpenCordInvalidUrl, concat2("invalid base_url: ", m.as_str()))),
    }
}

/// The message-list query for a C `limit`: 0 asks for Discord's default.
pub fn messages_query(limit: u8) -> (res: GetChannelMessagesQuery)
    ensures
        res.limit == (if limit == 0 { None } else { Some(limit) }),
        res.around is None,
        res.before is None,
        res.after is None,
{
    GetChannelMessagesQuery {
        around: None,
        before: None,
        after: None,
        limit: if limit == 0 {
            None
        } else {
            Some(limit)
        },
    }
}

/// A JSON member holding an optional text (null when absent).
pub open spec fn spec_opt_text_member(v: serde_json::Value, key: Seq<char>, t: Option<Seq<char>>) -> bool {
    spec_json_get(v, key) matches Some(m) && match t {
        Some(s) => spec_json_as_str(m) == Some(s),
        None => spec_json_is_null(m),
    }
}

/// A JSON member holding an optional number (null when absent).
pub open spec fn spec_opt_number_member(v: serde_json::Value, key: Seq<char>, n: Option<u64>) -> bool {
    spec_json_get(v, key) matches Some(m) && match n {
        Some(x) => spec_json_as_u64(m) == Some(x),
        None => spec_json_is_null(m),
    }
}

/// The JSON a gateway event is handed across as: its `kind`, and its fields.
pub open spec fn spec_event_json(v: serde_json::Value, e: GatewayEventView) -> bool {
    &&& spec_json_is_object(v)
    &&& match e {
        GatewayEventView::Dispatch { event_type, sequence, data } => {
            &&& spec_opt_str(spec_json_get(v, "kind"@)) == Some("dispatch"@)
            &&& spec_opt_text_member(v, "event_type"@, event_type)
            &&& spec_opt_number_member(v, "sequence"@, sequence)
            &&& spec_json_get(v, "data"@) == Some(data)
            &&& spec_has_only(v, set!["kind"@, "event_type"@, "sequence"@, "data"@])
        },
        GatewayEventView::HeartbeatRequest => {
            &&& spec_opt_str(spec_json_get(v, "kind"@)) == Some("heartbeat_request"@)
            &&& spec_has_only(v, set!["kind"@])
        },
        GatewayEventView::Hello { heartbeat_interval } => {
            &&& spec_opt_str(spec_json_get(v, "kind"@)) == Some("hello"@)
            &&& spec_opt_u64(spec_json_get(v, "heartbeat_interval_ms"@)) == Some(heartbeat_interval)
            &&& spec_has_only(v, set!["kind"@, "heartbeat_interval_ms"@])
        },
        GatewayEventView::HeartbeatAck => {
            &&& spec_opt_str(spec_json_get(v, "kind"@)) == Some("heartbeat_ack"@)
            &&& spec_has_only(v, set!["kind"@])
        },
        GatewayEventView::Reconnect => {
            &&& spec_opt_str(spec_json_get(v, "kind"@)) == Some("reconnect"@)
            &&& spec_has_only(v, set!["kind"@])
        },
        GatewayEventView::InvalidSession { resumable } => {
            &&& spec_opt_str(spec_json_get(v, "kind"@)) == Some("invalid_session"@)
            &&& spec_json_get(v, "resumable"@) matches Some(r) && spec_json_as_bool(r) == Some(resumable)
            &&& spec_has_only(v, set!["kind"@, "resumable"@])
        },
        GatewayEventView::NonTextFrame => {
            &&& spec_opt_str(spec_json_get(v, "kind"@)) == Some("non_text_frame"@)
            &&& spec_has_only(v, set!["kind"@])
        },
        GatewayEventView::Unknown(data) => {
            &&& spec_opt_str(spec_json_get(v, "kind"@)) == Some("unknown"@)
            &&& spec_json_get(v, "data"@) == Some(data)
            &&& spec_has_only(v, set!["kind"@, "data"@])
        },
    }
}

/// The JSON a gateway event is handed across as.
pub fn gateway_event_to_json(event: &GatewayEvent) -> (res: serde_json::Value)
    ensures
        spec_event_json(res, event@),
{
    proof {
        reveal_strlit("kind");
        reveal_strlit("event_type");
        reveal_strlit("sequence");
        reveal_strlit("data");
        reveal_strlit("heartbeat_interval_ms");
        reveal_strlit("resumable");
        assert("kind"@.len() == 4);
        assert("data"@.len() == 4);
        assert("kind"@[0] != "data"@[0]);
        assert("event_type"@.len() == 10);
        assert("sequence"@.len() == 8);
        assert("heartbeat_interval_ms"@.len() == 21);
        assert("resumable"@.len() == 9);
    }
    let mut v = json_object();
    match event {
        GatewayEvent::Dispatch { event_type, sequence, data } => {
            json_insert(&mut v, "kind", json_string("dispatch"));
            let t = match event_type {
                Some(t) => json_string(t.as_str()),
                None => json_null(),
            };
            json_insert(&mut v, "event_type", t);
            let s = match sequence {
                Some(s) => json_u64(*s),
                None => json_null(),
            };
            json_insert(&mut v, "sequence", s);
            json_insert(&mut v, "data", data.clone());
        },
        GatewayEvent::HeartbeatRequest => {
            json_insert(&mut v, "kind", json_string("heartbeat_request"));
        },
        GatewayEvent::Hello(payload) => {
            json_insert(&mut v, "kind", json_string("hello"));
            json_insert(&mut v, "heartbeat_interval_ms", json_u64(payload.heartbeat_interval));
        },
        GatewayEvent::HeartbeatAck => {
            json_insert(&mut v, "kind", json_string("heartbeat_ack"));
        },
        GatewayEvent::Reconnect => {
            json_insert(&mut v, "kind", json_string("reconnect"));
        },
        GatewayEvent::InvalidSession { resumable } => {
            json_insert(&mut v, "kind", json_string("invalid_session"));
            json_insert(&mut v, "resumable", json_bool(*resumable));
        },
        GatewayEvent::NonTextFrame => {
            json_insert(&mut v, "kind", json_string("non_text_frame"));
        },
        GatewayEvent::Unknown(data) => {
            json_insert(&mut v, "kind", json_string("unknown"));
            json_insert(&mut v, "data", data.clone());
        },
    }
    v
}

/// The JSON a runtime event is handed across as: its `type`, and its fields.
pub open spec fn spec_runtime_event_json(v: serde_json::Value, e: GatewayRuntimeEventView) -> bool {
    &&& spec_json_is_object(v)
    &&& match e {
        GatewayRuntimeEventView::GatewayEvent(g) => {
            &&& spec_opt_str(spec_json_get(v, "type"@)) == Some("gateway_event"@)
            &&& spec_json_get(v, "event"@) matches Some(inner) && spec_event_json(inner, g)
            &&& spec_has_only(v, set!["type"@, "event"@])
        },
        GatewayRuntimeEventView::ReconnectScheduled { attempt, resumable, delay } => {
            &&& spec_opt_str(spec_json_get(v, "type"@)) == Some("reconnect_scheduled"@)
            &&& spec_opt_u64(spec_json_get(v, "attempt"@)) == Some(attempt as u64)
            &&& spec_json_get(v, "resumable"@) matches Some(r) && spec_json_as_bool(r) == Some(resumable)
            &&& spec_opt_u64(spec_json_get(v, "delay_ms"@)) == Some(spec_duration_as_millis(delay) as u64)
            &&& spec_has_only(v, set!["type"@, "attempt"@, "resumable"@, "delay_ms"@])
        },
        GatewayRuntimeEventView::Shutdown => {
            &&& spec_opt_str(spec_json_get(v, "type"@)) == Some("shutdown"@)
            &&& spec_has_only(v, set!["type"@])
        },
    }
}

/// The JSON a runtime event is handed across as (the delay in whole
/// milliseconds, cut to the low 64 bits as `as u64` does).
pub fn runtime_event_to_json(event: &GatewayRuntimeEvent) -> (res: serde_json::Value)
    ensures
        spec_runtime_event_json(res, event@),
{
    proof {
        reveal_strlit("type");
        reveal_strlit("event");
        reveal_strlit("attempt");
        reveal_strlit("resumable");
        reveal_strlit("delay_ms");
        assert("type"@.len() == 4);
        assert("event"@.len() == 5);
        assert("attempt"@.len() == 7);
        assert("resumable"@.len() == 9);
        assert("delay_ms"@.len() == 8);
    }
    let mut v = json_object();
    match event {
        GatewayRuntimeEvent::GatewayEvent(e) => {
            json_insert(&mut v, "type", json_string("gateway_event"));
            json_insert(&mut v, "event", gateway_event_to_json(e));
        },
        GatewayRuntimeEvent::ReconnectScheduled { attempt, resumable, delay } => {
            json_insert(&mut v, "type", json_string("reconnect_scheduled"));
            json_insert(&mut v, "attempt", json_u64(*attempt as u64));
            json_insert(&mut v, "resumable", json_bool(*resumable));
            let ms: u128 = duration_as_millis(delay);
            json_insert(&mut v, "delay_ms", json_u64(#[verifier::truncate] (ms as u64)));
        },
        GatewayRuntimeEvent::Shutdown => {
            json_insert(&mut v, "type", json_string("shutdown"));
        },
    }
    v
}

/// Why a gateway stream command cannot run: starting one that runs, or
/// stopping or polling one that does not.
pub fn stream_state_failure(running: bool, starting: bool) -> (res: Option<(DiscordErrorCode, &'static str)>)
    ensures
        (starting && running) ==> (res matches Some((code, msg)) && code == DiscordErrorCode::DiscordGatewayAlreadyRunning
            && msg@ == "gateway stream already running"@),
        (!starting && !running) ==> (res matches Some((code, msg)) && code == DiscordErrorCode::DiscordGatewayNotRunning
            && msg@ == "gateway stream is not running"@),
        (starting != running) ==> res is None,
{
    if starting && running {
        Some((DiscordErrorCode::DiscordGatewayAlreadyRunning, "gateway stream already running"))
    } else if !starting && !running {
        Some((DiscordErrorCode::DiscordGatewayNotRunning, "gateway stream is not running"))
    } else {
        None
    }
}

/// The message of a failed client call: what was attempted, then the cause.
pub fn call_failure(action: &str, cause: &str) -> (res: String)
    ensures
        res@ == action@ + " failed: "@ + cause@,
{
    let mut out = concat2(action, " failed: ");
    out.append(cause);
    out
}

} // verus!
