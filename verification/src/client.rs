//! Client orchestration that needs no network: the gateway URL the client
//! connects to, and the persisted gateway session it resumes from.
use vstd::prelude::*;

use crate::auth::{spec_auth_error_message, AuthError};
use crate::gateway::{
    spec_fresh_machine, spec_restore_session, spec_session, spec_set_resume_url, GatewayClient, GatewayMachineView,
    GatewaySession, GatewayStateMachine, GatewayStateMachineConfig,
};
use crate::http::{spec_http_error_message, HttpError};
use crate::storage::{GatewaySessionRecord, GatewaySessionRecordView, StorageError};
use crate::text::{str_eq, to_owned_string};
use crate::urls::{
    spec_query_plain, spec_url_parse, spec_url_query, spec_url_scheme, spec_url_text, spec_url_with_query,
    url_parse, url_query, url_scheme, url_set_query, url_text,
};

verus! {

/// Why a client operation failed.
#[derive(Debug)]
pub enum ClientError {
    Auth(AuthError),
    Http(HttpError),
    Storage(StorageError),
    /// A URL could not be parsed.
    Url(String),
    /// A cached value could not be encoded or decoded.
    Json(String),
}

impl ClientError {
    /// The message shown for this error: the cause's own message.
    pub fn message(&self) -> (res: String)
        ensures
            match *self {
                ClientError::Auth(e) => res@ == spec_auth_error_message(e),
                ClientError::Http(e) => res@ == spec_http_error_message(e),
                ClientError::Url(m) => res@ == m@,
                ClientError::Json(m) => res@ == m@,
                ClientError::Storage(e) => res@ == (match e {
                    StorageError::Backend(m) => "storage backend error: "@ + m@,
                }),
            },
    {
        match self {
            ClientError::Auth(e) => e.message(),
            ClientError::Http(e) => e.message(),
            ClientError::Storage(e) => e.message(),
            ClientError::Url(m) => m.clone(),
            ClientError::Json(m) => m.clone(),
        }
    }
}

/// The query a websocket gateway URL gets when it has none.
pub const DEFAULT_GATEWAY_QUERY: &'static str = "v=10&encoding=json";

/// A websocket URL (`ws` or `wss`) without a query gets the default query;
/// any other URL is left as it is.
pub open spec fn spec_gateway_url_defaults(u: url::Url) -> url::Url {
    let scheme = spec_url_scheme(u);
    if (scheme == "ws"@ || scheme == "wss"@) && spec_url_query(u) is None {
        spec_url_with_query(u, Some(DEFAULT_GATEWAY_QUERY@))
    } else {
        u
    }
}

/// The query the gateway URL ends up with: the default one where the
/// default applies, else the announced URL's own.
pub open spec fn spec_gateway_query(u: url::Url) -> Option<Seq<char>> {
    let scheme = spec_url_scheme(u);
    if (scheme == "ws"@ || scheme == "wss"@) && spec_url_query(u) is None {
        Some(DEFAULT_GATEWAY_QUERY@)
    } else {
        spec_url_query(u)
    }
}

/// The URL the gateway is reached at, from the URL `/gateway/bot` announced:
/// the parsed URL with its scheme kept, and with the query that
/// `spec_gateway_query` gives.
pub fn gateway_url_with_defaults(announced: &str) -> (res: Result<url::Url, ClientError>)
    ensures
        match spec_url_parse(announced@) {
            Ok(u) => res == Ok::<url::Url, ClientError>(spec_gateway_url_defaults(u))
                && spec_url_scheme(spec_gateway_url_defaults(u)) == spec_url_scheme(u)
                && spec_url_query(spec_gateway_url_defaults(u)) == spec_gateway_query(u),
            Err(msg) => res matches Err(ClientError::Url(m)) && m@ == msg,
        },
{
    let mut url = match url_parse(announced) {
        Ok(u) => u,
        Err(msg) => return Err(ClientError::Url(msg)),
    };
    let is_websocket = {
        let scheme = url_scheme(&url);
        str_eq(scheme, "ws") || str_eq(scheme, "wss")
    };
    if is_websocket && url_query(&url).is_none() {
        proof {
            reveal_strlit("v=10&encoding=json");
            assert(spec_query_plain(DEFAULT_GATEWAY_QUERY@));
        }
        url_set_query(&mut url, Some(DEFAULT_GATEWAY_QUERY));
    }
    Ok(url)
}

/// What a gateway start-up hands to the runtime.
#[derive(Debug)]
pub struct GatewayStartup {
    pub gateway_client: GatewayClient,
    pub state_machine: GatewayStateMachine,
}

/// A persisted session is resumed from only when its resume URL parses.
pub open spec fn spec_record_resumable(r: GatewaySessionRecordView) -> bool {
    spec_url_parse(r.resume_url) is Ok
}

/// The machine after adopting a persisted record it can resume from.
pub open spec fn spec_adopt_record(m: GatewayMachineView, r: GatewaySessionRecordView) -> GatewayMachineView {
    spec_set_resume_url(spec_restore_session(m, (r.session_id, r.seq)), r.resume_url)
}

/// Sets up a gateway start: a fresh state machine with the configuration,
/// which resumes the persisted session when its resume URL parses. The flag
/// says whether the persisted session must be dropped (it had a resume URL
/// that does not parse).
pub fn plan_gateway_startup(
    gateway_url: url::Url,
    config: GatewayStateMachineConfig,
    persisted: Option<GatewaySessionRecord>,
) -> (res: (GatewayStartup, bool))
    ensures
        res.0.gateway_client.target() == gateway_url,
        res.0.state_machine@.config == config@,
        ({
            let fresh = spec_fresh_machine(config@);
            match persisted {
                Some(r) => if spec_record_resumable(r@) {
                    res.0.state_machine@ == spec_adopt_record(fresh, r@) && !res.1
                } else {
                    res.0.state_machine@ == fresh && res.1
                },
                None => res.0.state_machine@ == fresh && !res.1,
            }
        }),
{
    let mut machine = GatewayStateMachine::new(config);
    let mut drop_persisted = false;
    match persisted {
        Some(record) => {
            match url_parse(record.resume_url.as_str()) {
                Ok(_) => {
                    machine.restore_session_with_resume_url(
                        GatewaySession { session_id: record.session_id, sequence: record.seq },
                        record.resume_url,
                    );
                },
                Err(_) => {
                    drop_persisted = true;
                },
            }
        },
        None => {},
    }
    (GatewayStartup { gateway_client: GatewayClient::new(gateway_url), state_machine: machine }, drop_persisted)
}

/// The record to persist for a machine: its session, with its resume URL or
/// else the URL it connected to; `None` when it holds no session.
pub open spec fn spec_record_to_persist(m: GatewayMachineView, fallback: Seq<char>) -> Option<GatewaySessionRecordView> {
    match spec_session(m) {
        Some((sid, seq)) => Some(GatewaySessionRecordView {
            session_id: sid,
            seq,
            resume_url: match m.resume_url {
                Some(u) => u,
                None => fallback,
            },
        }),
        None => None,
    }
}

/// What to persist after a gateway run.
pub fn session_record_to_persist(machine: &GatewayStateMachine, fallback_resume_url: &url::Url) -> (res: Option<GatewaySessionRecord>)
    ensures
        match spec_record_to_persist(machine@, spec_url_text(*fallback_resume_url)) {
            Some(r) => res matches Some(rec) && rec@ == r,
            None => res is None,
        },
{
    match machine.session() {
        Some(session) => {
            let resume_url = match machine.resume_url() {
                Some(u) => to_owned_string(u),
                None => to_owned_string(url_text(fallback_resume_url)),
            };
            Some(GatewaySessionRecord { session_id: session.session_id, seq: session.sequence, resume_url })
        },
        None => None,
    }
}

/// Persisting a session and starting up again from the persisted record
/// resumes that very session, when the resume URL parses and is not blank.
pub proof fn law_persisted_session_resumes(m: GatewayMachineView, fallback: Seq<char>, fresh: GatewayMachineView)
    requires
        spec_record_to_persist(m, fallback) is Some,
        spec_record_resumable(spec_record_to_persist(m, fallback)->0),
    ensures
        spec_session(spec_adopt_record(fresh, spec_record_to_persist(m, fallback)->0)) == spec_session(m),
{
}

/// The announced gateway URL is kept as it is when it already has a query
/// or is not a websocket URL; only a bare `ws`/`wss` URL gets the default
/// query, and applying the defaults twice changes nothing more.
pub proof fn law_gateway_url_defaults_preserve(u: url::Url)
    ensures
        spec_url_query(u) is Some ==> spec_gateway_url_defaults(u) == u,
        !(spec_url_scheme(u) == "ws"@ || spec_url_scheme(u) == "wss"@) ==> spec_gateway_url_defaults(u) == u,
        (spec_url_scheme(u) == "ws"@ || spec_url_scheme(u) == "wss"@) && spec_url_query(u) is None
            ==> spec_gateway_url_defaults(u) == spec_url_with_query(u, Some(DEFAULT_GATEWAY_QUERY@)),
{
}

} // verus!
