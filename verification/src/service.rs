//! The app-facing service: its error taxonomy, OAuth token bookkeeping,
//! session stores, voice-session ownership and the realtime envelopes.
//!
//! HTTP routing, websockets and worker tasks run outside this library; they
//! call these functions for every decision.
use vstd::prelude::*;

use crate::api_types::{message_from_json, spec_message_from_json, Message, MessageView};
use crate::gateway::{GatewayEvent, GatewayEventView};
use crate::json::{
    json_array, json_insert, json_object, json_string, json_u64, opt_str, optional_bool,
    optional_text, record_member, record_optional, record_shape, spec_json_as_array,
    spec_json_as_bool, spec_json_as_str, spec_json_as_u64, spec_json_get, spec_json_is_null,
    spec_json_is_object, spec_opt_str, spec_opt_u64,
    spec_optional_bool, spec_optional_text, spec_record_member, spec_record_optional,
    spec_record_shape,
};
use crate::runtime::{GatewayRuntimeEvent, GatewayRuntimeEventView};
use crate::time::{clamp_duration_ms, spec_clamp_duration_ms};
use crate::urls::{
    spec_pair_value, spec_pairs, spec_url_parse, spec_url_parse_with_params, spec_url_text, spec_url_with_pairs,
    url_append_pairs, url_parse, url_parse_with_params, url_text,
};
use crate::text::{spec_decimal, u64_to_decimal};
use crate::voice::{VoiceConnectionConfig, VoiceGatewayEvent, VoiceGatewayEventView, VoiceRuntimeEvent};
use crate::http::{spec_http_error_message, HttpError};
use crate::storage::{GatewaySessionRecord, GatewaySessionRecordView, StorageError};
use crate::table::KeyedTable;
use crate::text::{concat2, spec_trim, str_eq, to_owned_string, trim};
use crate::time::{spec_unix_millis_at, unix_time_millis};

verus! {

/// The gateway intents a service session connects with.
pub const DEFAULT_GATEWAY_INTENTS: u64 = 641;

/// How long before expiry an access token is refreshed, in milliseconds.
pub const TOKEN_REFRESH_SKEW_MS: u64 = 30_000;

/// Why a service request failed.
#[derive(Debug)]
pub enum ServiceError {
    MissingAuthorization,
    InvalidAuthorization,
    UnauthorizedSession,
    MissingOAuthConfiguration,
    InvalidOAuthState,
    InvalidOAuthClientRedirectUri,
    OAuthExchange(String),
    NotFound,
    GatewayRuntime(String),
    VoiceRuntime(String),
    Http(HttpError),
    Storage(StorageError),
}

/// The HTTP status a service error is answered with.
pub open spec fn spec_service_status(e: ServiceError) -> u16 {
    match e {
        ServiceError::MissingAuthorization => 401,
        ServiceError::InvalidAuthorization => 401,
        ServiceError::UnauthorizedSession => 401,
        ServiceError::MissingOAuthConfiguration => 503,
        ServiceError::InvalidOAuthState => 400,
        ServiceError::InvalidOAuthClientRedirectUri => 400,
        ServiceError::OAuthExchange(_) => 502,
        ServiceError::GatewayRuntime(_) => 502,
        ServiceError::VoiceRuntime(_) => 502,
        ServiceError::NotFound => 404,
        ServiceError::Http(HttpError::Status { status, .. }) => status,
        ServiceError::Http(_) => 502,
        ServiceError::Storage(_) => 502,
    }
}

/// The machine-readable code a service error is answered with.
pub open spec fn spec_service_code(e: ServiceError) -> Seq<char> {
    match e {
        ServiceError::MissingAuthorization => "missing_authorization"@,
        ServiceError::InvalidAuthorization => "invalid_authorization"@,
        ServiceError::UnauthorizedSession => "unauthorized_session"@,
        ServiceError::MissingOAuthConfiguration => "missing_oauth_configuration"@,
        ServiceError::InvalidOAuthState => "invalid_oauth_state"@,
        ServiceError::InvalidOAuthClientRedirectUri => "invalid_oauth_client_redirect_uri"@,
        ServiceError::OAuthExchange(_) => "oauth_exchange_failed"@,
        ServiceError::NotFound => "not_found"@,
        ServiceError::GatewayRuntime(_) => "gateway_runtime_failed"@,
        ServiceError::VoiceRuntime(_) => "voice_runtime_failed"@,
        ServiceError::Http(HttpError::Status { .. }) => "discord_http_status"@,
        ServiceError::Http(_) => "discord_http_transport"@,
        ServiceError::Storage(_) => "storage_error"@,
    }
}

/// The human-readable message of a service error.
pub open spec fn spec_service_message(e: ServiceError) -> Seq<char> {
    match e {
        ServiceError::MissingAuthorization => "missing authorization header"@,
        ServiceError::InvalidAuthorization => "invalid authorization header"@,
        ServiceError::UnauthorizedSession => "unauthorized session"@,
        ServiceError::MissingOAuthConfiguration => "oauth configuration is missing"@,
        ServiceError::InvalidOAuthState => "oauth state is invalid or expired"@,
        ServiceError::InvalidOAuthClientRedirectUri => "invalid oauth client redirect URI"@,
        ServiceError::OAuthExchange(m) => "oauth exchange failed: "@ + m@,
        ServiceError::NotFound => "resource not found"@,
        ServiceError::GatewayRuntime(m) => "gateway runtime failed: "@ + m@,
        ServiceError::VoiceRuntime(m) => "voice runtime failed: "@ + m@,
        ServiceError::Http(h) => spec_http_error_message(h),
        ServiceError::Storage(StorageError::Backend(m)) => "storage backend error: "@ + m@,
    }
}

impl ServiceError {
    /// The HTTP status this error is answered with.
    pub fn status_code(&self) -> (res: u16)
        ensures
            res == spec_service_status(*self),
    {
        match self {
            ServiceError::MissingAuthorization
            | ServiceError::InvalidAuthorization
            | ServiceError::UnauthorizedSession => 401,
            ServiceError::MissingOAuthConfiguration => 503,
            ServiceError::InvalidOAuthState | ServiceError::InvalidOAuthClientRedirectUri => 400,
            ServiceError::OAuthExchange(_)
            | ServiceError::GatewayRuntime(_)
            | ServiceError::VoiceRuntime(_) => 502,
            ServiceError::NotFound => 404,
            ServiceError::Http(HttpError::Status { status, .. }) => *status,
            ServiceError::Http(_) | ServiceError::Storage(_) => 502,
        }
    }

    /// The machine-readable code of this error.
    pub fn code(&self) -> (res: &'static str)
        ensures
            res@ == spec_service_code(*self),
    {
        match self {
            ServiceError::MissingAuthorization => "missing_authorization",
            ServiceError::InvalidAuthorization => "invalid_authorization",
            ServiceError::UnauthorizedSession => "unauthorized_session",
            ServiceError::MissingOAuthConfiguration => "missing_oauth_configuration",
            ServiceError::InvalidOAuthState => "invalid_oauth_state",
            ServiceError::InvalidOAuthClientRedirectUri => "invalid_oauth_client_redirect_uri",
            ServiceError::OAuthExchange(_) => "oauth_exchange_failed",
            ServiceError::NotFound => "not_found",
            ServiceError::GatewayRuntime(_) => "gateway_runtime_failed",
            ServiceError::VoiceRuntime(_) => "voice_runtime_failed",
            ServiceError::Http(HttpError::Status { .. }) => "discord_http_status",
            ServiceError::Http(_) => "discord_http_transport",
            ServiceError::Storage(_) => "storage_error",
        }
    }

    /// The message shown for this error.
    pub fn message(&self) -> (res: String)
        ensures
            res@ == spec_service_message(*self),
    {
        match self {
            ServiceError::MissingAuthorization => to_owned_string("missing authorization header"),
            ServiceError::InvalidAuthorization => to_owned_string("invalid authorization header"),
            ServiceError::UnauthorizedSession => to_owned_string("unauthorized session"),
            ServiceError::MissingOAuthConfiguration => to_owned_string("oauth configuration is missing"),
            ServiceError::InvalidOAuthState => to_owned_string("oauth state is invalid or expired"),
            ServiceError::InvalidOAuthClientRedirectUri => to_owned_string("invalid oauth client redirect URI"),
            ServiceError::OAuthExchange(m) => concat2("oauth exchange failed: ", m.as_str()),
            ServiceError::NotFound => to_owned_string("resource not found"),
            ServiceError::GatewayRuntime(m) => concat2("gateway runtime failed: ", m.as_str()),
            ServiceError::VoiceRuntime(m) => concat2("voice runtime failed: ", m.as_str()),
            ServiceError::Http(e) => e.message(),
            ServiceError::Storage(e) => e.message(),
        }
    }
}

/// Every authorization failure is answered 401, and a Discord status is
/// passed on as it came.
pub proof fn law_auth_failures_are_unauthorized(e: ServiceError)
    ensures
        (e is MissingAuthorization || e is InvalidAuthorization || e is UnauthorizedSession)
            ==> spec_service_status(e) == 401,
        (e matches ServiceError::Http(HttpError::Status { status, .. })) ==> spec_service_status(e)
            == e->Http_0->status,
{
}

// ---------------------------------------------------------------------------
// OAuth
// ---------------------------------------------------------------------------

/// Where the OAuth flow starts and returns.
#[derive(Debug)]
pub struct OAuthConfig {
    pub authorize_url: url::Url,
    pub client_id: String,
    pub redirect_uri: url::Url,
    pub scope: String,
}

/// Tokens returned by an OAuth code exchange or refresh.
#[derive(Debug)]
pub struct OAuthTokenSet {
    pub access_token: String,
    pub token_type: String,
    pub expires_in: Option<u64>,
    pub refresh_token: Option<String>,
    pub scope: Option<String>,
}

/// The exchanger used when OAuth is not configured: every exchange fails.
#[derive(Debug, Default)]
pub struct UnsupportedOAuthCodeExchanger;

/// Cause given when no code exchange is configured.
pub const EXCHANGE_NOT_CONFIGURED: &'static str = "oauth code exchange is not configured";

/// Cause given when no token refresh is configured.
pub const REFRESH_NOT_CONFIGURED: &'static str = "oauth refresh is not configured";

impl UnsupportedOAuthCodeExchanger {
    /// Exchanging a code fails: no exchange is configured.
    pub fn exchange_code(&self, code: &str) -> (res: Result<OAuthTokenSet, ServiceError>)
        ensures
            res matches Err(ServiceError::OAuthExchange(m)) && m@ == EXCHANGE_NOT_CONFIGURED@,
    {
        Err(ServiceError::OAuthExchange(to_owned_string(EXCHANGE_NOT_CONFIGURED)))
    }

    /// Refreshing a token fails: no refresh is configured.
    pub fn refresh_token(&self, refresh_token: &str) -> (res: Result<OAuthTokenSet, ServiceError>)
        ensures
            res matches Err(ServiceError::OAuthExchange(m)) && m@ == REFRESH_NOT_CONFIGURED@,
    {
        Err(ServiceError::OAuthExchange(to_owned_string(REFRESH_NOT_CONFIGURED)))
    }
}

// ---------------------------------------------------------------------------
// Token state
// ---------------------------------------------------------------------------

/// The Discord tokens of a service session.
#[derive(Debug, PartialEq, Eq)]
pub struct SessionTokenState {
    pub access_token: String,
    pub token_type: Option<String>,
    pub refresh_token: Option<String>,
    pub scope: Option<String>,
    pub expires_at_unix_ms: Option<u64>,
}

pub struct TokenStateView {
    pub access_token: Seq<char>,
    pub token_type: Option<Seq<char>>,
    pub refresh_token: Option<Seq<char>>,
    pub scope: Option<Seq<char>>,
    pub expires_at_unix_ms: Option<u64>,
}

impl View for SessionTokenState {
    type V = TokenStateView;

    open spec fn view(&self) -> TokenStateView {
        TokenStateView {
            access_token: self.access_token@,
            token_type: self.token_type.deep_view(),
            refresh_token: self.refresh_token.deep_view(),
            scope: self.scope.deep_view(),
            expires_at_unix_ms: self.expires_at_unix_ms,
        }
    }
}

/// Copies an optional text.
fn clone_opt(s: &Option<String>) -> (res: Option<String>)
    ensures
        res.deep_view() == s.deep_view(),
{
    match s {
        Some(v) => Some(v.clone()),
        None => None,
    }
}

impl Clone for SessionTokenState {
    fn clone(&self) -> (res: Self)
        ensures
            res@ == self@,
    {
        SessionTokenState {
            access_token: self.access_token.clone(),
            token_type: clone_opt(&self.token_type),
            refresh_token: clone_opt(&self.refresh_token),
            scope: clone_opt(&self.scope),
            expires_at_unix_ms: self.expires_at_unix_ms,
        }
    }
}

/// A token state holding only an access token.
pub open spec fn spec_state_from_access_token(token: Seq<char>) -> TokenStateView {
    TokenStateView {
        access_token: token,
        token_type: None,
        refresh_token: None,
        scope: None,
        expires_at_unix_ms: None,
    }
}

/// `a + b`, saturating at `u64::MAX`.
pub open spec fn spec_sat_add(a: u64, b: nat) -> u64 {
    if a + b > u64::MAX {
        u64::MAX
    } else {
        (a + b) as u64
    }
}

/// When tokens issued at `now_ms` and valid `expires_in` seconds expire.
pub open spec fn spec_expiry(now_ms: u64, expires_in: Option<u64>) -> Option<u64> {
    match expires_in {
        Some(secs) => Some(spec_sat_add(now_ms, if secs * 1000 > u64::MAX { u64::MAX as nat } else { (secs * 1000) as nat })),
        None => None,
    }
}

/// The token state for a token set received at `now_ms`: a set without a
/// refresh token keeps the fallback one.
pub open spec fn spec_state_from_token_set(
    access_token: Seq<char>,
    token_type: Seq<char>,
    expires_in: Option<u64>,
    refresh_token: Option<Seq<char>>,
    scope: Option<Seq<char>>,
    fallback_refresh_token: Option<Seq<char>>,
    now_ms: u64,
) -> TokenStateView {
    TokenStateView {
        access_token,
        token_type: Some(token_type),
        refresh_token: match refresh_token {
            Some(t) => Some(t),
            None => fallback_refresh_token,
        },
        scope,
        expires_at_unix_ms: spec_expiry(now_ms, expires_in),
    }
}

/// Tokens are refreshed once the clock is within the skew of their expiry;
/// tokens without an expiry never are.
pub open spec fn spec_should_refresh(expires_at: Option<u64>, now_ms: u64) -> bool {
    match expires_at {
        Some(e) => e <= spec_sat_add(now_ms, TOKEN_REFRESH_SKEW_MS as nat),
        None => false,
    }
}

/// The wall clock in milliseconds since the Unix epoch, saturated to `u64`
/// (0 for a clock before the epoch).
pub fn current_unix_epoch_ms() -> (ms: u64)
    ensures
        exists|t: std::time::SystemTime| ms == #[trigger] spec_unix_millis_at(t),
{
    unix_time_millis()
}

impl SessionTokenState {
    /// A state holding only an access token.
    pub fn from_access_token(access_token: String) -> (res: Self)
        ensures
            res@ == spec_state_from_access_token(access_token@),
    {
        SessionTokenState {
            access_token,
            token_type: None,
            refresh_token: None,
            scope: None,
            expires_at_unix_ms: None,
        }
    }

    /// The state for a token set received at `now_ms`.
    pub fn from_token_set_at(token_set: OAuthTokenSet, fallback_refresh_token: Option<String>, now_ms: u64) -> (res: Self)
        ensures
            res@ == spec_state_from_token_set(
                token_set.access_token@,
                token_set.token_type@,
                token_set.expires_in,
                token_set.refresh_token.deep_view(),
                token_set.scope.deep_view(),
                fallback_refresh_token.deep_view(),
                now_ms,
            ),
    {
        let expires_at_unix_ms = match token_set.expires_in {
            Some(secs) => Some(now_ms.saturating_add(match secs.checked_mul(1000) {
                Some(ms) => ms,
                None => u64::MAX,
            })),
            None => None,
        };
        let refresh_token = match token_set.refresh_token {
            Some(t) => Some(t),
            None => fallback_refresh_token,
        };
        SessionTokenState {
            access_token: token_set.access_token,
            token_type: Some(token_set.token_type),
            refresh_token,
            scope: token_set.scope,
            expires_at_unix_ms,
        }
    }

    /// The state for a token set received now.
    pub fn from_token_set(token_set: OAuthTokenSet, fallback_refresh_token: Option<String>) -> (res: Self)
        ensures
            exists|now_ms: u64| res@ == #[trigger] spec_state_from_token_set(
                token_set.access_token@,
                token_set.token_type@,
                token_set.expires_in,
                token_set.refresh_token.deep_view(),
                token_set.scope.deep_view(),
                fallback_refresh_token.deep_view(),
                now_ms,
            ),
    {
        let now = current_unix_epoch_ms();
        Self::from_token_set_at(token_set, fallback_refresh_token, now)
    }

    /// Whether the tokens are due for refresh at `now_ms`.
    pub fn should_refresh_at(&self, now_ms: u64) -> (res: bool)
        ensures
            res == spec_should_refresh(self.expires_at_unix_ms, now_ms),
    {
        match self.expires_at_unix_ms {
            Some(e) => e <= now_ms.saturating_add(TOKEN_REFRESH_SKEW_MS),
            None => false,
        }
    }

    /// Whether the tokens are due for refresh now.
    pub fn should_refresh(&self) -> (res: bool)
        ensures
            self.expires_at_unix_ms is None ==> !res,
            exists|now_ms: u64| res == #[trigger] spec_should_refresh(self.expires_at_unix_ms, now_ms),
    {
        let now = current_unix_epoch_ms();
        self.should_refresh_at(now)
    }
}

/// A token that has expired, or expires within the skew, is refreshed; one
/// that expires later is not; one without expiry never is.
pub proof fn law_refresh_window(expires_at: u64, now_ms: u64)
    ensures
        expires_at <= now_ms ==> spec_should_refresh(Some(expires_at), now_ms),
        expires_at > now_ms + TOKEN_REFRESH_SKEW_MS ==> !spec_should_refresh(Some(expires_at), now_ms),
        !spec_should_refresh(None, now_ms),
{
}

/// Tokens from a set with an expiry are due for refresh exactly when the
/// clock has come within the skew of it: a fresh set valid for longer than
/// the skew is not refreshed at once.
pub proof fn law_fresh_tokens_not_refreshed(now_ms: u64, expires_in: u64)
    requires
        expires_in * 1000 > TOKEN_REFRESH_SKEW_MS,
        now_ms + expires_in * 1000 <= u64::MAX,
    ensures
        !spec_should_refresh(spec_expiry(now_ms, Some(expires_in)), now_ms),
{
}

/// The state made from a token set holds the set's own access token, token
/// type and scope; its refresh token is the set's own whenever the set has
/// one, and the fallback only when it has none; it expires `expires_in`
/// seconds after `now_ms` (saturating at `u64::MAX`), or never without an
/// `expires_in`.
pub proof fn law_token_set_state(
    access_token: Seq<char>,
    token_type: Seq<char>,
    expires_in: Option<u64>,
    refresh_token: Option<Seq<char>>,
    scope: Option<Seq<char>>,
    fallback_refresh_token: Option<Seq<char>>,
    now_ms: u64,
)
    ensures
        refresh_token is Some ==> spec_state_from_token_set(
            access_token, token_type, expires_in, refresh_token, scope, fallback_refresh_token, now_ms,
        ).refresh_token == refresh_token,
        refresh_token is None ==> spec_state_from_token_set(
            access_token, token_type, expires_in, refresh_token, scope, fallback_refresh_token, now_ms,
        ).refresh_token == fallback_refresh_token,
        spec_state_from_token_set(
            access_token, token_type, expires_in, refresh_token, scope, fallback_refresh_token, now_ms,
        ).access_token == access_token,
        spec_state_from_token_set(
            access_token, token_type, expires_in, refresh_token, scope, fallback_refresh_token, now_ms,
        ).token_type == Some(token_type),
        spec_state_from_token_set(
            access_token, token_type, expires_in, refresh_token, scope, fallback_refresh_token, now_ms,
        ).scope == scope,
        expires_in is None ==> spec_state_from_token_set(
            access_token, token_type, expires_in, refresh_token, scope, fallback_refresh_token, now_ms,
        ).expires_at_unix_ms is None,
        expires_in is Some && now_ms + expires_in->0 * 1000 <= u64::MAX ==> spec_state_from_token_set(
            access_token, token_type, expires_in, refresh_token, scope, fallback_refresh_token, now_ms,
        ).expires_at_unix_ms == Some((now_ms + expires_in->0 * 1000) as u64),
        expires_in is Some && now_ms + expires_in->0 * 1000 > u64::MAX ==> spec_state_from_token_set(
            access_token, token_type, expires_in, refresh_token, scope, fallback_refresh_token, now_ms,
        ).expires_at_unix_ms == Some(u64::MAX),
{
}

// ---------------------------------------------------------------------------
// Session records and stores
// ---------------------------------------------------------------------------

/// What a service session keeps: its Discord tokens and, once a gateway
/// connection has run, the gateway session to resume.
#[derive(Debug)]
pub struct SessionRecord {
    pub discord_token: String,
    pub token_type: Option<String>,
    pub refresh_token: Option<String>,
    pub scope: Option<String>,
    pub expires_at_unix_ms: Option<u64>,
    pub gateway_session: Option<GatewaySessionRecord>,
}

pub struct SessionRecordView {
    pub tokens: TokenStateView,
    pub gateway_session: Option<GatewaySessionRecordView>,
}

impl View for SessionRecord {
    type V = SessionRecordView;

    open spec fn view(&self) -> SessionRecordView {
        SessionRecordView {
            tokens: TokenStateView {
                access_token: self.discord_token@,
                token_type: self.token_type.deep_view(),
                refresh_token: self.refresh_token.deep_view(),
                scope: self.scope.deep_view(),
                expires_at_unix_ms: self.expires_at_unix_ms,
            },
            gateway_session: match self.gateway_session {
                Some(g) => Some(g@),
                None => None,
            },
        }
    }
}

/// Copies an optional gateway session record.
fn clone_gateway_record(r: &Option<GatewaySessionRecord>) -> (res: Option<GatewaySessionRecord>)
    ensures
        match *r {
            Some(g) => res matches Some(c) && c@ == g@,
            None => res is None,
        },
{
    match r {
        Some(g) => Some(g.clone()),
        None => None,
    }
}

impl Clone for SessionRecord {
    fn clone(&self) -> (res: Self)
        ensures
            res@ == self@,
    {
        SessionRecord {
            discord_token: self.discord_token.clone(),
            token_type: clone_opt(&self.token_type),
            refresh_token: clone_opt(&self.refresh_token),
            scope: clone_opt(&self.scope),
            expires_at_unix_ms: self.expires_at_unix_ms,
            gateway_session: clone_gateway_record(&self.gateway_session),
        }
    }
}

impl SessionRecord {
    /// A record holding a token state and no gateway session.
    pub fn from_token_state(token_state: SessionTokenState) -> (res: Self)
        ensures
            res@ == (SessionRecordView { tokens: token_state@, gateway_session: None }),
    {
        SessionRecord {
            discord_token: token_state.access_token,
            token_type: token_state.token_type,
            refresh_token: token_state.refresh_token,
            scope: token_state.scope,
            expires_at_unix_ms: token_state.expires_at_unix_ms,
            gateway_session: None,
        }
    }

    /// The record's token state.
    pub fn token_state(&self) -> (res: SessionTokenState)
        ensures
            res@ == self@.tokens,
    {
        SessionTokenState {
            access_token: self.discord_token.clone(),
            token_type: clone_opt(&self.token_type),
            refresh_token: clone_opt(&self.refresh_token),
            scope: clone_opt(&self.scope),
            expires_at_unix_ms: self.expires_at_unix_ms,
        }
    }

    /// Replaces the token state; the gateway session stays.
    pub fn set_token_state(&mut self, token_state: SessionTokenState)
        ensures
            final(self)@ == (SessionRecordView { tokens: token_state@, ..old(self)@ }),
    {
        self.discord_token = token_state.access_token;
        self.token_type = token_state.token_type;
        self.refresh_token = token_state.refresh_token;
        self.scope = token_state.scope;
        self.expires_at_unix_ms = token_state.expires_at_unix_ms;
    }

    /// The record after storing a token state for a session: its existing
    /// record with the tokens replaced, or a new record.
    pub fn with_token_state(existing: Option<SessionRecord>, token_state: SessionTokenState) -> (res: Self)
        ensures
            res@ == (match existing {
                Some(r) => SessionRecordView { tokens: token_state@, ..r@ },
                None => SessionRecordView { tokens: token_state@, gateway_session: None },
            }),
    {
        match existing {
            Some(mut r) => {
                r.set_token_state(token_state);
                r
            },
            None => SessionRecord::from_token_state(token_state),
        }
    }

    /// The record after storing (or clearing, with `None`) a session's
    /// gateway session; a session with no record is unauthorized.
    pub fn with_gateway_session(existing: Option<SessionRecord>, gateway_session: Option<GatewaySessionRecord>) -> (res: Result<Self, ServiceError>)
        ensures
            match existing {
                Some(r) => res matches Ok(n) && n@ == (SessionRecordView {
                    gateway_session: match gateway_session {
                        Some(g) => Some(g@),
                        None => None,
                    },
                    ..r@
                }),
                None => res matches Err(ServiceError::UnauthorizedSession),
            },
    {
        match existing {
            Some(mut r) => {
                r.gateway_session = gateway_session;
                Ok(r)
            },
            None => Err(ServiceError::UnauthorizedSession),
        }
    }
}

/// A record's token state is what was put in, and replacing it keeps the
/// gateway session.
pub proof fn law_record_token_state_round_trips(r: SessionRecordView, t: TokenStateView)
    ensures
        (SessionRecordView { tokens: t, gateway_session: None }).tokens == t,
        (SessionRecordView { tokens: t, ..r }).tokens == t,
        (SessionRecordView { tokens: t, ..r }).gateway_session == r.gateway_session,
{
}

/// A session store over a key-value store: each session's record lives
/// under the key prefix followed by the session id.
#[derive(Debug)]
pub struct KvSessionStore<S> {
    store: S,
    key_prefix: String,
}

impl<S> KvSessionStore<S> {
    /// The prefix of this store's keys.
    pub closed spec fn prefix(&self) -> Seq<char> {
        self.key_prefix@
    }

    /// The key-value store itself.
    pub closed spec fn backing(&self) -> S {
        self.store
    }

    pub fn new(store: S, key_prefix: String) -> (res: Self)
        ensures
            res.prefix() == key_prefix@,
            res.backing() == store,
    {
        KvSessionStore { store, key_prefix }
    }

    /// The key a session's record is kept under.
    pub fn key_for(&self, session_id: &str) -> (res: String)
        ensures
            res@ == self.prefix() + session_id@,
    {
        concat2(self.key_prefix.as_str(), session_id)
    }

    /// The key-value store the records live in.
    pub fn store(&self) -> (res: &S)
        ensures
            *res == self.backing(),
    {
        &self.store
    }
}

/// Sessions held in memory.
#[derive(Debug)]
pub struct MemorySessionStore {
    records: KeyedTable<SessionRecord>,
}

impl View for MemorySessionStore {
    type V = Map<Seq<char>, SessionRecordView>;

    closed spec fn view(&self) -> Map<Seq<char>, SessionRecordView> {
        self.records@.map_values(|r: SessionRecord| r@)
    }
}

/// A session's access token, if it has a record.
pub open spec fn spec_access_token(m: Map<Seq<char>, SessionRecordView>, id: Seq<char>) -> Option<Seq<char>> {
    if m.contains_key(id) {
        Some(m[id].tokens.access_token)
    } else {
        None
    }
}

impl MemorySessionStore {
    pub fn new() -> (res: Self)
        ensures
            res@ == Map::<Seq<char>, SessionRecordView>::empty(),
    {
        let res = MemorySessionStore { records: KeyedTable::new() };
        assert(res@ =~= Map::<Seq<char>, SessionRecordView>::empty());
        res
    }

    /// Stores a record for a session.
    fn put(&mut self, session_id: &str, record: SessionRecord)
        ensures
            final(self)@ == old(self)@.insert(session_id@, record@),
    {
        let ghost v = record@;
        self.records.insert(session_id, record);
        assert(self@ =~= old(self)@.insert(session_id@, v));
    }

    /// Takes a session's record out of the store.
    fn take(&mut self, session_id: &str) -> (res: Option<SessionRecord>)
        ensures
            final(self)@ == old(self)@.remove(session_id@),
            match res {
                Some(r) => old(self)@.contains_key(session_id@) && old(self)@[session_id@] == r@,
                None => !old(self)@.contains_key(session_id@),
            },
    {
        let res = self.records.remove(session_id);
        assert(self@ =~= old(self)@.remove(session_id@));
        res
    }

    /// Registers a session holding only an access token.
    pub fn insert_for_tests(&mut self, session_id: &str, token: &str)
        ensures
            final(self)@ == old(self)@.insert(
                session_id@,
                SessionRecordView { tokens: spec_state_from_access_token(token@), gateway_session: None },
            ),
    {
        self.put(session_id, SessionRecord::from_token_state(SessionTokenState::from_access_token(to_owned_string(token))));
    }

    /// A session's access token, if the session exists.
    pub fn get_discord_token(&self, session_id: &str) -> (res: Option<String>)
        ensures
            res.deep_view() == spec_access_token(self@, session_id@),
    {
        match self.records.get(session_id) {
            Some(r) => Some(r.discord_token.clone()),
            None => None,
        }
    }

    /// Gives a session an access token alone (creating the session if needed).
    pub fn set_discord_token(&mut self, session_id: &str, token: String)
        ensures
            final(self)@ == old(self)@.insert(
                session_id@,
                match old(self)@.get(session_id@) {
                    Some(r) => SessionRecordView { tokens: spec_state_from_access_token(token@), ..r },
                    None => SessionRecordView { tokens: spec_state_from_access_token(token@), gateway_session: None },
                },
            ),
    {
        self.set_token_state(session_id, SessionTokenState::from_access_token(token));
    }

    /// A session's token state, if the session exists.
    pub fn get_token_state(&self, session_id: &str) -> (res: Option<SessionTokenState>)
        ensures
            match res {
                Some(t) => self@.contains_key(session_id@) && t@ == self@[session_id@].tokens,
                None => !self@.contains_key(session_id@),
            },
    {
        match self.records.get(session_id) {
            Some(r) => Some(r.token_state()),
            None => None,
        }
    }

    /// Stores a session's token state (creating the session if needed).
    pub fn set_token_state(&mut self, session_id: &str, token_state: SessionTokenState)
        ensures
            final(self)@ == old(self)@.insert(
                session_id@,
                match old(self)@.get(session_id@) {
                    Some(r) => SessionRecordView { tokens: token_state@, ..r },
                    None => SessionRecordView { tokens: token_state@, gateway_session: None },
                },
            ),
    {
        let existing = self.take(session_id);
        let record = SessionRecord::with_token_state(existing, token_state);
        self.put(session_id, record);
        assert(final(self)@ =~= old(self)@.insert(session_id@, record@));
    }

    /// Forgets a session.
    pub fn delete_session(&mut self, session_id: &str)
        ensures
            final(self)@ == old(self)@.remove(session_id@),
    {
        let _ = self.take(session_id);
    }

    /// A session's gateway session, if any.
    pub fn load_gateway_session(&self, session_id: &str) -> (res: Option<GatewaySessionRecord>)
        ensures
            match res {
                Some(g) => self@.contains_key(session_id@) && self@[session_id@].gateway_session == Some(g@),
                None => !self@.contains_key(session_id@) || self@[session_id@].gateway_session is None,
            },
    {
        match self.records.get(session_id) {
            Some(r) => clone_gateway_record(&r.gateway_session),
            None => None,
        }
    }

    /// Stores (or, with `None`, clears) a session's gateway session; a
    /// session that does not exist is refused as unauthorized and nothing changes.
    pub fn replace_gateway_session(&mut self, session_id: &str, gateway_session: Option<GatewaySessionRecord>) -> (res: Result<(), ServiceError>)
        ensures
            old(self)@.contains_key(session_id@) ==> res is Ok && final(self)@ == old(self)@.insert(
                session_id@,
                SessionRecordView {
                    gateway_session: match gateway_session {
                        Some(g) => Some(g@),
                        None => None,
                    },
                    ..old(self)@[session_id@]
                },
            ),
            !old(self)@.contains_key(session_id@) ==> (res matches Err(ServiceError::UnauthorizedSession)
                && final(self)@ == old(self)@),
    {
        let existing = self.take(session_id);
        match existing {
            Some(r) => {
                match SessionRecord::with_gateway_session(Some(r), gateway_session) {
                    Ok(updated) => {
                        self.put(session_id, updated);
                        Ok(())
                    },
                    Err(e) => Err(e),
                }
            },
            None => {
                assert(self@ =~= old(self)@);
                Err(ServiceError::UnauthorizedSession)
            },
        }
    }

    /// Stores a session's gateway session (see `replace_gateway_session`).
    pub fn save_gateway_session(&mut self, session_id: &str, record: GatewaySessionRecord) -> (res: Result<(), ServiceError>)
        ensures
            old(self)@.contains_key(session_id@) ==> res is Ok && final(self)@ == old(self)@.insert(
                session_id@,
                SessionRecordView { gateway_session: Some(record@), ..old(self)@[session_id@] },
            ),
            !old(self)@.contains_key(session_id@) ==> (res matches Err(ServiceError::UnauthorizedSession)
                && final(self)@ == old(self)@),
    {
        self.replace_gateway_session(session_id, Some(record))
    }

    /// Clears a session's gateway session (see `replace_gateway_session`).
    pub fn clear_gateway_session(&mut self, session_id: &str) -> (res: Result<(), ServiceError>)
        ensures
            old(self)@.contains_key(session_id@) ==> res is Ok && final(self)@ == old(self)@.insert(
                session_id@,
                SessionRecordView { gateway_session: None, ..old(self)@[session_id@] },
            ),
            !old(self)@.contains_key(session_id@) ==> (res matches Err(ServiceError::UnauthorizedSession)
                && final(self)@ == old(self)@),
    {
        self.replace_gateway_session(session_id, None)
    }
}

/// A session store gives back what it was given: the token state last set,
/// the gateway session last saved (for an existing session), and nothing
/// after the session is deleted; saving for an unknown session changes nothing.
pub proof fn law_session_store_read_back(
    m: Map<Seq<char>, SessionRecordView>,
    id: Seq<char>,
    t: TokenStateView,
    g: GatewaySessionRecordView,
)
    ensures
        ({
            let after_set = m.insert(
                id,
                match m.get(id) {
                    Some(r) => SessionRecordView { tokens: t, ..r },
                    None => SessionRecordView { tokens: t, gateway_session: None },
                },
            );
            &&& after_set[id].tokens == t
            &&& m.contains_key(id) ==> after_set[id].gateway_session == m[id].gateway_session
            &&& after_set.insert(id, SessionRecordView { gateway_session: Some(g), ..after_set[id] })[id].gateway_session == Some(g)
            &&& spec_access_token(m.remove(id), id) is None
        }),
{
}

// ---------------------------------------------------------------------------
// Requests
// ---------------------------------------------------------------------------

/// The scheme prefix of an `Authorization` header carrying a session id.
pub const BEARER_PREFIX: &'static str = "Bearer ";

/// The session id a request's `Authorization` header names: the header must
/// be present, start with `Bearer `, and leave a non-blank id once trimmed.
pub open spec fn spec_bearer_session(header: Option<Seq<char>>) -> Result<Seq<char>, ServiceError> {
    match header {
        None => Err(ServiceError::MissingAuthorization),
        Some(h) => if h.len() >= BEARER_PREFIX@.len() && h.subrange(0, BEARER_PREFIX@.len() as int) == BEARER_PREFIX@ {
            let id = spec_trim(h.subrange(BEARER_PREFIX@.len() as int, h.len() as int));
            if id.len() == 0 {
                Err(ServiceError::InvalidAuthorization)
            } else {
                Ok(id)
            }
        } else {
            Err(ServiceError::InvalidAuthorization)
        },
    }
}

/// Reads the session id from an `Authorization` header's text (`None` when
/// the header is absent).
pub fn bearer_session_id(header: Option<&str>) -> (res: Result<String, ServiceError>)
    ensures
        match spec_bearer_session(match header {
            Some(h) => Some(h@),
            None => None,
        }) {
            Ok(id) => res matches Ok(s) && s@ == id,
            Err(ServiceError::MissingAuthorization) => res matches Err(ServiceError::MissingAuthorization),
            Err(_) => res matches Err(ServiceError::InvalidAuthorization),
        },
{
    proof {
        reveal_strlit("Bearer ");
    }
    let h = match header {
        Some(h) => h,
        None => return Err(ServiceError::MissingAuthorization),
    };
    let n = h.unicode_len();
    let p: usize = 7;
    assert(BEARER_PREFIX@.len() == 7);
    if n < p {
        return Err(ServiceError::InvalidAuthorization);
    }
    let head = h.substring_char(0, p);
    if !str_eq(head, BEARER_PREFIX) {
        return Err(ServiceError::InvalidAuthorization);
    }
    let id = trim(h.substring_char(p, n));
    if id.unicode_len() == 0 {
        return Err(ServiceError::InvalidAuthorization);
    }
    Ok(to_owned_string(id))
}

// ---------------------------------------------------------------------------
// Realtime envelopes
// ---------------------------------------------------------------------------

/// An event pushed to the clients of a service session.
#[derive(Debug)]
pub enum RealtimeEnvelope {
    MessageCreated { session_id: String, message: Message },
    MessageUpdated { session_id: String, message: Message },
    MessageDeleted { session_id: String, channel_id: String, message_id: String },
    VoiceStateChanged {
        session_id: String,
        voice_session_id: String,
        guild_id: String,
        channel_id: String,
        speaking: bool,
    },
    GatewayDispatch { session_id: String, event_type: String, data: serde_json::Value },
    ReconnectScheduled { session_id: String, attempt: u32, resumable: bool, delay_ms: u64 },
    /// A notice for one session, or for every session when `session_id` is `None`.
    Notification { session_id: Option<String>, title: String, body: String },
}

pub enum EnvelopeView {
    MessageCreated { session_id: Seq<char>, message: MessageView },
    MessageUpdated { session_id: Seq<char>, message: MessageView },
    MessageDeleted { session_id: Seq<char>, channel_id: Seq<char>, message_id: Seq<char> },
    VoiceStateChanged {
        session_id: Seq<char>,
        voice_session_id: Seq<char>,
        guild_id: Seq<char>,
        channel_id: Seq<char>,
        speaking: bool,
    },
    GatewayDispatch { session_id: Seq<char>, event_type: Seq<char>, data: serde_json::Value },
    ReconnectScheduled { session_id: Seq<char>, attempt: u32, resumable: bool, delay_ms: u64 },
    Notification { session_id: Option<Seq<char>>, title: Seq<char>, body: Seq<char> },
}

impl View for RealtimeEnvelope {
    type V = EnvelopeView;

    open spec fn view(&self) -> EnvelopeView {
        match self {
            RealtimeEnvelope::MessageCreated { session_id, message } => EnvelopeView::MessageCreated {
                session_id: session_id@,
                message: message@,
            },
            RealtimeEnvelope::MessageUpdated { session_id, message } => EnvelopeView::MessageUpdated {
                session_id: session_id@,
                message: message@,
            },
            RealtimeEnvelope::MessageDeleted { session_id, channel_id, message_id } => {
                EnvelopeView::MessageDeleted {
                    session_id: session_id@,
                    channel_id: channel_id@,
                    message_id: message_id@,
                }
            },
            RealtimeEnvelope::VoiceStateChanged {
                session_id,
                voice_session_id,
                guild_id,
                channel_id,
                speaking,
            } => EnvelopeView::VoiceStateChanged {
                session_id: session_id@,
                voice_session_id: voice_session_id@,
                guild_id: guild_id@,
                channel_id: channel_id@,
                speaking: *speaking,
            },
            RealtimeEnvelope::GatewayDispatch { session_id, event_type, data } => {
                EnvelopeView::GatewayDispatch {
                    session_id: session_id@,
                    event_type: event_type@,
                    data: *data,
                }
            },
            RealtimeEnvelope::ReconnectScheduled { session_id, attempt, resumable, delay_ms } => {
                EnvelopeView::ReconnectScheduled {
                    session_id: session_id@,
                    attempt: *attempt,
                    resumable: *resumable,
                    delay_ms: *delay_ms,
                }
            },
            RealtimeEnvelope::Notification { session_id, title, body } => EnvelopeView::Notification {
                session_id: session_id.deep_view(),
                title: title@,
                body: body@,
            },
        }
    }
}

/// The session an envelope is addressed to; `None` for a notice to everyone.
pub open spec fn spec_envelope_owner(e: EnvelopeView) -> Option<Seq<char>> {
    match e {
        EnvelopeView::MessageCreated { session_id, .. } => Some(session_id),
        EnvelopeView::MessageUpdated { session_id, .. } => Some(session_id),
        EnvelopeView::MessageDeleted { session_id, .. } => Some(session_id),
        EnvelopeView::VoiceStateChanged { session_id, .. } => Some(session_id),
        EnvelopeView::GatewayDispatch { session_id, .. } => Some(session_id),
        EnvelopeView::ReconnectScheduled { session_id, .. } => Some(session_id),
        EnvelopeView::Notification { session_id, .. } => session_id,
    }
}

impl RealtimeEnvelope {
    /// Whether a client of `session_id` receives this envelope: it is
    /// addressed to that session, or to every session.
    pub fn is_for_session(&self, session_id: &str) -> (res: bool)
        ensures
            res == match spec_envelope_owner(self@) {
                Some(owner) => owner == session_id@,
                None => true,
            },
    {
        match self {
            RealtimeEnvelope::MessageCreated { session_id: owner, .. }
            | RealtimeEnvelope::MessageUpdated { session_id: owner, .. }
            | RealtimeEnvelope::MessageDeleted { session_id: owner, .. }
            | RealtimeEnvelope::VoiceStateChanged { session_id: owner, .. }
            | RealtimeEnvelope::GatewayDispatch { session_id: owner, .. }
            | RealtimeEnvelope::ReconnectScheduled { session_id: owner, .. } => str_eq(owner.as_str(), session_id),
            RealtimeEnvelope::Notification { session_id: Some(owner), .. } => str_eq(owner.as_str(), session_id),
            RealtimeEnvelope::Notification { session_id: None, .. } => true,
        }
    }
}

/// An envelope reaches two different sessions only when it is a notice to everyone.
pub proof fn law_envelopes_stay_in_their_session(e: EnvelopeView, s1: Seq<char>, s2: Seq<char>)
    requires
        s1 != s2,
        match spec_envelope_owner(e) {
            Some(owner) => owner == s1,
            None => true,
        },
        match spec_envelope_owner(e) {
            Some(owner) => owner == s2,
            None => true,
        },
    ensures
        e matches EnvelopeView::Notification { session_id: None, .. },
{
}

/// A voice session a service session opened.
#[derive(Debug)]
pub struct VoiceSession {
    pub id: String,
    pub guild_id: String,
    pub channel_id: String,
    pub speaking: bool,
}

pub struct VoiceSessionView {
    pub id: Seq<char>,
    pub guild_id: Seq<char>,
    pub channel_id: Seq<char>,
    pub speaking: bool,
}

impl View for VoiceSession {
    type V = VoiceSessionView;

    open spec fn view(&self) -> VoiceSessionView {
        VoiceSessionView {
            id: self.id@,
            guild_id: self.guild_id@,
            channel_id: self.channel_id@,
            speaking: self.speaking,
        }
    }
}

impl Clone for VoiceSession {
    fn clone(&self) -> (res: Self)
        ensures
            res@ == self@,
    {
        VoiceSession {
            id: self.id.clone(),
            guild_id: self.guild_id.clone(),
            channel_id: self.channel_id.clone(),
            speaking: self.speaking,
        }
    }
}

/// The envelope announcing a voice session's state to its owner.
pub fn voice_state_envelope(owner_session_id: &str, session: &VoiceSession) -> (res: RealtimeEnvelope)
    ensures
        res@ == (EnvelopeView::VoiceStateChanged {
            session_id: owner_session_id@,
            voice_session_id: session.id@,
            guild_id: session.guild_id@,
            channel_id: session.channel_id@,
            speaking: session.speaking,
        }),
{
    RealtimeEnvelope::VoiceStateChanged {
        session_id: to_owned_string(owner_session_id),
        voice_session_id: session.id.clone(),
        guild_id: session.guild_id.clone(),
        channel_id: session.channel_id.clone(),
        speaking: session.speaking,
    }
}

// ---------------------------------------------------------------------------
// Voice sessions and their owners
// ---------------------------------------------------------------------------

/// A voice session with the service session that owns it.
#[derive(Debug)]
pub struct VoiceSessionState {
    pub owner_session_id: String,
    pub session: VoiceSession,
}

/// The voice sessions of the service, each visible to its owner only.
#[derive(Debug)]
pub struct VoiceSessionRegistry {
    sessions: KeyedTable<VoiceSessionState>,
}

impl View for VoiceSessionRegistry {
    type V = Map<Seq<char>, (Seq<char>, VoiceSessionView)>;

    closed spec fn view(&self) -> Map<Seq<char>, (Seq<char>, VoiceSessionView)> {
        self.sessions@.map_values(|s: VoiceSessionState| (s.owner_session_id@, s.session@))
    }
}

/// The registry holds voice session `id` and `owner` owns it.
pub open spec fn spec_owns(m: Map<Seq<char>, (Seq<char>, VoiceSessionView)>, id: Seq<char>, owner: Seq<char>) -> bool {
    m.contains_key(id) && m[id].0 == owner
}

impl VoiceSessionRegistry {
    pub fn new() -> (res: Self)
        ensures
            res@ == Map::<Seq<char>, (Seq<char>, VoiceSessionView)>::empty(),
    {
        let res = VoiceSessionRegistry { sessions: KeyedTable::new() };
        assert(res@ =~= Map::<Seq<char>, (Seq<char>, VoiceSessionView)>::empty());
        res
    }

    /// Records a new voice session for its owner, under the session's id.
    pub fn insert(&mut self, owner_session_id: &str, session: VoiceSession)
        ensures
            final(self)@ == old(self)@.insert(session.id@, (owner_session_id@, session@)),
    {
        let ghost v = (owner_session_id@, session@);
        let id = session.id.clone();
        self.sessions.insert(
            id.as_str(),
            VoiceSessionState { owner_session_id: to_owned_string(owner_session_id), session },
        );
        assert(self@ =~= old(self)@.insert(id@, v));
    }

    /// Removes a voice session on its owner's request; a session that does
    /// not exist or belongs to someone else is `NotFound`, and nothing changes.
    pub fn remove_owned(&mut self, voice_session_id: &str, owner_session_id: &str) -> (res: Result<VoiceSession, ServiceError>)
        ensures
            spec_owns(old(self)@, voice_session_id@, owner_session_id@) ==> (res matches Ok(s) && s@
                == old(self)@[voice_session_id@].1 && final(self)@ == old(self)@.remove(voice_session_id@)),
            !spec_owns(old(self)@, voice_session_id@, owner_session_id@) ==> (res matches Err(
                ServiceError::NotFound,
            ) && final(self)@ == old(self)@),
    {
        let owned = match self.sessions.get(voice_session_id) {
            Some(state) => str_eq(state.owner_session_id.as_str(), owner_session_id),
            None => false,
        };
        if !owned {
            return Err(ServiceError::NotFound);
        }
        match self.sessions.remove(voice_session_id) {
            Some(state) => {
                assert(self@ =~= old(self)@.remove(voice_session_id@));
                Ok(state.session)
            },
            None => Err(ServiceError::NotFound),
        }
    }

    /// Sets the speaking flag of a voice session on its owner's request and
    /// returns the updated session; otherwise `NotFound`, and nothing changes.
    pub fn set_speaking(&mut self, voice_session_id: &str, owner_session_id: &str, speaking: bool) -> (res: Result<VoiceSession, ServiceError>)
        ensures
            spec_owns(old(self)@, voice_session_id@, owner_session_id@) ==> (res matches Ok(s) && s@
                == (VoiceSessionView { speaking, ..old(self)@[voice_session_id@].1 }) && final(self)@
                == old(self)@.insert(voice_session_id@, (owner_session_id@, s@))),
            !spec_owns(old(self)@, voice_session_id@, owner_session_id@) ==> (res matches Err(
                ServiceError::NotFound,
            ) && final(self)@ == old(self)@),
    {
        let owned = match self.sessions.get(voice_session_id) {
            Some(state) => str_eq(state.owner_session_id.as_str(), owner_session_id),
            None => false,
        };
        if !owned {
            return Err(ServiceError::NotFound);
        }
        match self.sessions.remove(voice_session_id) {
            Some(state) => {
                let mut session = state.session;
                session.speaking = speaking;
                let updated = session.clone();
                let ghost v = (owner_session_id@, session@);
                self.sessions.insert(
                    voice_session_id,
                    VoiceSessionState { owner_session_id: state.owner_session_id, session },
                );
                assert(self@ =~= old(self)@.insert(voice_session_id@, v));
                Ok(updated)
            },
            None => Err(ServiceError::NotFound),
        }
    }

    /// Removes every voice session an owner holds (on logout); the others stay.
    pub fn remove_all_owned_by(&mut self, owner_session_id: &str)
        ensures
            forall|id: Seq<char>| #[trigger] final(self)@.contains_key(id) <==> (old(self)@.contains_key(id)
                && old(self)@[id].0 != owner_session_id@),
            forall|id: Seq<char>| #[trigger] final(self)@.contains_key(id) ==> final(self)@[id] == old(self)@[id],
    {
        let keys = self.sessions.keys();
        let mut i: usize = 0;
        while i < keys.len()
            invariant
                i <= keys@.len(),
                forall|a: int, b: int| 0 <= a < b < keys@.len() ==> keys@[a]@ != keys@[b]@,
                forall|k: Seq<char>| old(self)@.contains_key(k) <==> exists|j: int| 0 <= j < keys@.len() && #[trigger] keys@[j]@ == k,
                forall|id: Seq<char>| #[trigger] self@.contains_key(id) ==> old(self)@.contains_key(id) && self@[id] == old(self)@[id],
                forall|j: int| 0 <= j < i ==> !(#[trigger] self@.contains_key(keys@[j]@) && old(self)@[keys@[j]@].0 == owner_session_id@),
                forall|j: int| i <= j < keys@.len() ==> #[trigger] self@.contains_key(keys@[j]@) == old(self)@.contains_key(keys@[j]@),
                forall|j: int| 0 <= j < i ==> (old(self)@.contains_key(keys@[j]@) && old(self)@[keys@[j]@].0 != owner_session_id@) ==> #[trigger] self@.contains_key(keys@[j]@),
            decreases keys@.len() - i,
        {
            let key = keys[i].as_str();
            let ghost prev = self@;
            let owned = match self.sessions.get(key) {
                Some(state) => str_eq(state.owner_session_id.as_str(), owner_session_id),
                None => false,
            };
            if owned {
                proof {
                    assert(prev.contains_key(key@));
                    assert(prev[key@].0 == owner_session_id@);
                    assert(old(self)@[key@].0 == owner_session_id@);
                }
                let _ = self.sessions.remove(key);
                proof {
                    assert(self@ =~= prev.remove(key@));
                    assert forall|j: int| i < j < keys@.len() implies #[trigger] self@.contains_key(keys@[j]@) == old(self)@.contains_key(keys@[j]@) by {
                        assert(keys@[j]@ != keys@[i as int]@);
                    }
                    assert forall|j: int| 0 <= j < i implies !(#[trigger] self@.contains_key(keys@[j]@) && old(self)@[keys@[j]@].0 == owner_session_id@) by {
                        if j != i {
                            assert(keys@[j]@ != keys@[i as int]@);
                        }
                    }
                    assert forall|j: int| 0 <= j < i && (old(self)@.contains_key(keys@[j]@) && old(self)@[keys@[j]@].0 != owner_session_id@) implies #[trigger] self@.contains_key(keys@[j]@) by {
                        assert(keys@[j]@ != keys@[i as int]@);
                    }
                }
            } else {
                proof {
                    assert(self@.contains_key(keys@[i as int]@) == old(self)@.contains_key(keys@[i as int]@));
                }
            }
            i = i + 1;
        }
        proof {
            assert forall|id: Seq<char>| #[trigger] self@.contains_key(id) <==> (old(self)@.contains_key(id)
                && old(self)@[id].0 != owner_session_id@) by {
                if old(self)@.contains_key(id) {
                    let j = choose|j: int| 0 <= j < keys@.len() && #[trigger] keys@[j]@ == id;
                    assert(keys@[j]@ == id);
                }
            }
        }
    }
}

/// Voice sessions answer only to their owners: a request from another
/// session is `NotFound` and leaves the registry as it was.
pub proof fn law_voice_sessions_answer_only_owners(
    m: Map<Seq<char>, (Seq<char>, VoiceSessionView)>,
    id: Seq<char>,
    owner: Seq<char>,
    other: Seq<char>,
)
    requires
        spec_owns(m, id, owner),
        other != owner,
    ensures
        !spec_owns(m, id, other),
        spec_owns(m.remove(id), id, owner) == false,
{
}

// ---------------------------------------------------------------------------
// Pending OAuth states
// ---------------------------------------------------------------------------

/// The OAuth flows started and not yet completed, by state token, with the
/// client redirect each asked for.
#[derive(Debug)]
pub struct PendingOAuthStates {
    states: KeyedTable<Option<url::Url>>,
}

impl View for PendingOAuthStates {
    type V = Map<Seq<char>, Option<url::Url>>;

    closed spec fn view(&self) -> Map<Seq<char>, Option<url::Url>> {
        self.states@
    }
}

impl PendingOAuthStates {
    pub fn new() -> (res: Self)
        ensures
            res@ == Map::<Seq<char>, Option<url::Url>>::empty(),
    {
        PendingOAuthStates { states: KeyedTable::new() }
    }

    /// Remembers a started flow.
    pub fn insert(&mut self, state_token: &str, client_redirect_uri: Option<url::Url>)
        ensures
            final(self)@ == old(self)@.insert(state_token@, client_redirect_uri),
    {
        self.states.insert(state_token, client_redirect_uri);
    }

    /// Completes a flow: its state token is accepted once, giving back the
    /// client redirect; an unknown (or already used) token is `InvalidOAuthState`.
    pub fn take(&mut self, state_token: &str) -> (res: Result<Option<url::Url>, ServiceError>)
        ensures
            final(self)@ == old(self)@.remove(state_token@),
            old(self)@.contains_key(state_token@) ==> res == Ok::<Option<url::Url>, ServiceError>(old(self)@[state_token@]),
            !old(self)@.contains_key(state_token@) ==> res matches Err(ServiceError::InvalidOAuthState),
    {
        match self.states.remove(state_token) {
            Some(redirect) => Ok(redirect),
            None => Err(ServiceError::InvalidOAuthState),
        }
    }
}

/// An OAuth state token is accepted at most once.
pub proof fn law_oauth_state_single_use(m: Map<Seq<char>, Option<url::Url>>, token: Seq<char>)
    ensures
        !m.remove(token).contains_key(token),
{
}

// ---------------------------------------------------------------------------
// From runtime events to envelopes
// ---------------------------------------------------------------------------

/// The voice session id given to voice-state updates that come from the gateway.
pub const GATEWAY_VOICE_SESSION_ID: &'static str = "gateway";

/// A MESSAGE_DELETE payload: `{id, channel_id}`.
pub open spec fn spec_delete_payload(v: serde_json::Value) -> Option<(Seq<char>, Seq<char>)> {
    let id = spec_opt_str(spec_record_member(v, 0, "id"@));
    let channel_id = spec_opt_str(spec_record_member(v, 1, "channel_id"@));
    if spec_record_shape(v, 2) && id is Some && channel_id is Some {
        Some((id->0, channel_id->0))
    } else {
        None
    }
}

/// A VOICE_STATE_UPDATE payload that names a guild and a channel: those,
/// and whether the user can speak (muted by neither themself nor the server).
pub open spec fn spec_voice_state_payload(v: serde_json::Value) -> Option<(Seq<char>, Seq<char>, bool)> {
    let guild_id = spec_optional_text(spec_record_optional(v, 0, "guild_id"@, false));
    let channel_id = spec_optional_text(spec_record_optional(v, 1, "channel_id"@, false));
    let self_mute = spec_optional_bool(spec_record_optional(v, 2, "self_mute"@, true));
    let mute = spec_optional_bool(spec_record_optional(v, 3, "mute"@, true));
    if spec_record_shape(v, 4) && guild_id is Some && guild_id->0 is Some && channel_id is Some
        && channel_id->0 is Some && self_mute is Some && mute is Some {
        Some((
            guild_id->0->0,
            channel_id->0->0,
            self_mute->0 != Some(true) && mute->0 != Some(true),
        ))
    } else {
        None
    }
}

/// The envelope a gateway event becomes for a session: messages created,
/// updated and deleted and voice-state updates get their own envelopes
/// (nothing when their payload does not read), any other dispatch is passed
/// on with its type (`dispatch` when it has none); other events give nothing.
pub open spec fn spec_gateway_envelope(session_id: Seq<char>, e: GatewayEventView) -> Option<EnvelopeView> {
    match e {
        GatewayEventView::Dispatch { event_type, data, .. } => match event_type {
            Some(t) => if t == "MESSAGE_CREATE"@ {
                match spec_message_from_json(data) {
                    Some(m) => Some(EnvelopeView::MessageCreated { session_id, message: m }),
                    None => None,
                }
            } else if t == "MESSAGE_UPDATE"@ {
                match spec_message_from_json(data) {
                    Some(m) => Some(EnvelopeView::MessageUpdated { session_id, message: m }),
                    None => None,
                }
            } else if t == "MESSAGE_DELETE"@ {
                match spec_delete_payload(data) {
                    Some((id, channel_id)) => Some(EnvelopeView::MessageDeleted { session_id, channel_id, message_id: id }),
                    None => None,
                }
            } else if t == "VOICE_STATE_UPDATE"@ {
                match spec_voice_state_payload(data) {
                    Some((guild_id, channel_id, speaking)) => Some(EnvelopeView::VoiceStateChanged {
                        session_id,
                        voice_session_id: GATEWAY_VOICE_SESSION_ID@,
                        guild_id,
                        channel_id,
                        speaking,
                    }),
                    None => None,
                }
            } else {
                Some(EnvelopeView::GatewayDispatch { session_id, event_type: t, data })
            },
            None => Some(EnvelopeView::GatewayDispatch { session_id, event_type: "dispatch"@, data }),
        },
        _ => None,
    }
}

/// The envelope option, as a view.
pub open spec fn spec_opt_envelope(e: Option<RealtimeEnvelope>) -> Option<EnvelopeView> {
    match e {
        Some(v) => Some(v@),
        None => None,
    }
}

/// Reads a MESSAGE_DELETE payload.
fn delete_payload(v: &serde_json::Value) -> (res: Option<(String, String)>)
    ensures
        match spec_delete_payload(*v) {
            Some((id, c)) => res matches Some((i, ch)) && i@ == id && ch@ == c,
            None => res is None,
        },
{
    if !record_shape(v, 2) {
        return None;
    }
    let id = match opt_str(&record_member(v, 0, "id")) {
        Some(t) => t,
        None => return None,
    };
    let channel_id = match opt_str(&record_member(v, 1, "channel_id")) {
        Some(t) => t,
        None => return None,
    };
    Some((id, channel_id))
}

/// Reads a VOICE_STATE_UPDATE payload.
fn voice_state_payload(v: &serde_json::Value) -> (res: Option<(String, String, bool)>)
    ensures
        match spec_voice_state_payload(*v) {
            Some((g, c, speaking)) => res matches Some((gi, ch, sp)) && gi@ == g && ch@ == c && sp == speaking,
            None => res is None,
        },
{
    if !record_shape(v, 4) {
        return None;
    }
    let guild_id = match optional_text(&record_optional(v, 0, "guild_id", false)) {
        Some(Some(t)) => t,
        _ => return None,
    };
    let channel_id = match optional_text(&record_optional(v, 1, "channel_id", false)) {
        Some(Some(t)) => t,
        _ => return None,
    };
    let self_mute = match optional_bool(&record_optional(v, 2, "self_mute", true)) {
        Some(b) => b,
        None => return None,
    };
    let mute = match optional_bool(&record_optional(v, 3, "mute", true)) {
        Some(b) => b,
        None => return None,
    };
    let self_muted = match self_mute {
        Some(b) => b,
        None => false,
    };
    let muted = match mute {
        Some(b) => b,
        None => false,
    };
    Some((guild_id, channel_id, !self_muted && !muted))
}

/// The envelope a gateway event becomes for a session.
pub fn gateway_event_to_envelope(session_id: &str, event: &GatewayEvent) -> (res: Option<RealtimeEnvelope>)
    ensures
        spec_opt_envelope(res) == spec_gateway_envelope(session_id@, event@),
{
    match event {
        GatewayEvent::Dispatch { event_type, data, .. } => match event_type {
            Some(t) => {
                let t = t.as_str();
                if str_eq(t, "MESSAGE_CREATE") {
                    match message_from_json(data) {
                        Some(message) => Some(RealtimeEnvelope::MessageCreated { session_id: to_owned_string(session_id), message }),
                        None => None,
                    }
                } else if str_eq(t, "MESSAGE_UPDATE") {
                    match message_from_json(data) {
                        Some(message) => Some(RealtimeEnvelope::MessageUpdated { session_id: to_owned_string(session_id), message }),
                        None => None,
                    }
                } else if str_eq(t, "MESSAGE_DELETE") {
                    match delete_payload(data) {
                        Some((id, channel_id)) => Some(RealtimeEnvelope::MessageDeleted {
                            session_id: to_owned_string(session_id),
                            channel_id,
                            message_id: id,
                        }),
                        None => None,
                    }
                } else if str_eq(t, "VOICE_STATE_UPDATE") {
                    match voice_state_payload(data) {
                        Some((guild_id, channel_id, speaking)) => Some(RealtimeEnvelope::VoiceStateChanged {
                            session_id: to_owned_string(session_id),
                            voice_session_id: to_owned_string(GATEWAY_VOICE_SESSION_ID),
                            guild_id,
                            channel_id,
                            speaking,
                        }),
                        None => None,
                    }
                } else {
                    Some(RealtimeEnvelope::GatewayDispatch {
                        session_id: to_owned_string(session_id),
                        event_type: to_owned_string(t),
                        data: data.clone(),
                    })
                }
            },
            None => Some(RealtimeEnvelope::GatewayDispatch {
                session_id: to_owned_string(session_id),
                event_type: to_owned_string("dispatch"),
                data: data.clone(),
            }),
        },
        _ => None,
    }
}

/// A member of a JSON record (by position in its array form, by name in its
/// object form) that holds `true`.
pub open spec fn spec_field_true(v: serde_json::Value, index: nat, key: Seq<char>) -> bool {
    match spec_record_member(v, index, key) {
        Some(m) => !spec_json_is_null(m) && spec_json_as_bool(m) == Some(true),
        None => false,
    }
}

/// A voice-state update that becomes an envelope says the user is speaking
/// exactly when neither they (`self_mute`) nor the server (`mute`) muted
/// them, and names the guild and channel the payload names.
pub proof fn law_voice_state_speaking(session_id: Seq<char>, sequence: Option<u64>, data: serde_json::Value)
    ensures
        spec_gateway_envelope(
            session_id,
            (GatewayEventView::Dispatch { event_type: Some("VOICE_STATE_UPDATE"@), sequence, data }),
        ) matches Some(EnvelopeView::VoiceStateChanged { guild_id, channel_id, speaking, .. })
            ==> (speaking <==> !spec_field_true(data, 2, "self_mute"@) && !spec_field_true(data, 3, "mute"@))
            && spec_record_member(data, 0, "guild_id"@) is Some
            && spec_json_as_str(spec_record_member(data, 0, "guild_id"@)->0) == Some(guild_id)
            && spec_record_member(data, 1, "channel_id"@) is Some
            && spec_json_as_str(spec_record_member(data, 1, "channel_id"@)->0) == Some(channel_id),
        spec_gateway_envelope(
            session_id,
            (GatewayEventView::Dispatch { event_type: Some("VOICE_STATE_UPDATE"@), sequence, data }),
        ) is Some ==> spec_gateway_envelope(
            session_id,
            (GatewayEventView::Dispatch { event_type: Some("VOICE_STATE_UPDATE"@), sequence, data }),
        ) matches Some(EnvelopeView::VoiceStateChanged { .. }),
{
    reveal_strlit("VOICE_STATE_UPDATE");
    reveal_strlit("MESSAGE_CREATE");
    reveal_strlit("MESSAGE_UPDATE");
    reveal_strlit("MESSAGE_DELETE");
    assert("VOICE_STATE_UPDATE"@[0] != "MESSAGE_CREATE"@[0]);
    assert("VOICE_STATE_UPDATE"@[0] != "MESSAGE_UPDATE"@[0]);
    assert("VOICE_STATE_UPDATE"@[0] != "MESSAGE_DELETE"@[0]);
}

/// The title of the notice sent when a session's gateway runtime stops.
pub const GATEWAY_SHUTDOWN_TITLE: &'static str = "gateway_shutdown";

/// The body of the notice sent when a session's gateway runtime stops.
pub const GATEWAY_SHUTDOWN_BODY: &'static str = "gateway runtime stopped";

/// The envelope a gateway runtime event becomes for a session: gateway
/// events as above, a scheduled reconnect with its delay in whole
/// milliseconds, and a notice when the runtime stops.
pub open spec fn spec_runtime_envelope(session_id: Seq<char>, e: GatewayRuntimeEventView) -> Option<EnvelopeView> {
    match e {
        GatewayRuntimeEventView::GatewayEvent(g) => spec_gateway_envelope(session_id, g),
        GatewayRuntimeEventView::ReconnectScheduled { attempt, resumable, delay } => Some(EnvelopeView::ReconnectScheduled {
            session_id,
            attempt,
            resumable,
            delay_ms: spec_clamp_duration_ms(delay),
        }),
        GatewayRuntimeEventView::Shutdown => Some(EnvelopeView::Notification {
            session_id: Some(session_id),
            title: GATEWAY_SHUTDOWN_TITLE@,
            body: GATEWAY_SHUTDOWN_BODY@,
        }),
    }
}

/// The envelope a gateway runtime event becomes for a session.
pub fn runtime_event_to_envelope(session_id: &str, event: &GatewayRuntimeEvent) -> (res: Option<RealtimeEnvelope>)
    ensures
        spec_opt_envelope(res) == spec_runtime_envelope(session_id@, event@),
{
    match event {
        GatewayRuntimeEvent::GatewayEvent(e) => gateway_event_to_envelope(session_id, e),
        GatewayRuntimeEvent::ReconnectScheduled { attempt, resumable, delay } => Some(RealtimeEnvelope::ReconnectScheduled {
            session_id: to_owned_string(session_id),
            attempt: *attempt,
            resumable: *resumable,
            delay_ms: clamp_duration_ms(delay),
        }),
        GatewayRuntimeEvent::Shutdown => Some(RealtimeEnvelope::Notification {
            session_id: Some(to_owned_string(session_id)),
            title: to_owned_string(GATEWAY_SHUTDOWN_TITLE),
            body: to_owned_string(GATEWAY_SHUTDOWN_BODY),
        }),
    }
}

/// Every envelope made from a session's runtime events is addressed to that session.
pub proof fn law_runtime_envelopes_addressed_to_session(session_id: Seq<char>, e: GatewayRuntimeEventView)
    ensures
        spec_runtime_envelope(session_id, e) matches Some(env) ==> spec_envelope_owner(env) == Some(session_id),
{
}

/// The members of a voice dispatch's data: `voice_session_id` and the others named.
pub open spec fn spec_only_members(v: serde_json::Value, names: Seq<Seq<char>>) -> bool {
    forall|k: Seq<char>| !(k == "voice_session_id"@ || names.contains(k)) ==> #[trigger] spec_json_get(v, k) is None
}

/// A JSON array holding the given texts.
pub open spec fn spec_text_array(v: serde_json::Value, items: Seq<Seq<char>>) -> bool {
    spec_json_as_array(v) matches Some(vs) && vs.len() == items.len() && forall|i: int|
        0 <= i < items.len() ==> #[trigger] spec_json_as_str(vs[i]) == Some(items[i])
}

/// A JSON array holding the given bytes as numbers.
pub open spec fn spec_byte_array(v: serde_json::Value, bytes: Seq<u8>) -> bool {
    spec_json_as_array(v) matches Some(vs) && vs.len() == bytes.len() && forall|i: int|
        0 <= i < bytes.len() ==> #[trigger] spec_json_as_u64(vs[i]) == Some(bytes[i] as u64)
}

/// The data of a voice dispatch for a voice gateway event: the voice session
/// id, and the event's fields.
pub open spec fn spec_voice_event_data(data: serde_json::Value, voice_session_id: Seq<char>, e: VoiceGatewayEventView) -> bool {
    &&& spec_json_is_object(data)
    &&& spec_opt_str(spec_json_get(data, "voice_session_id"@)) == Some(voice_session_id)
    &&& match e {
        VoiceGatewayEventView::Hello { heartbeat_interval_ms } => {
            &&& spec_opt_u64(spec_json_get(data, "heartbeat_interval_ms"@)) == Some(heartbeat_interval_ms)
            &&& spec_only_members(data, seq!["heartbeat_interval_ms"@])
        },
        VoiceGatewayEventView::Ready { ip, port, ssrc, modes } => {
            &&& spec_opt_str(spec_json_get(data, "ip"@)) == Some(ip)
            &&& spec_opt_u64(spec_json_get(data, "port"@)) == Some(port as u64)
            &&& spec_opt_u64(spec_json_get(data, "ssrc"@)) == Some(ssrc as u64)
            &&& spec_json_get(data, "modes"@) matches Some(m) && spec_text_array(m, modes)
            &&& spec_only_members(data, seq!["ip"@, "port"@, "ssrc"@, "modes"@])
        },
        VoiceGatewayEventView::SessionDescription { mode, secret_key } => {
            &&& spec_opt_str(spec_json_get(data, "mode"@)) == Some(mode)
            &&& spec_json_get(data, "secret_key"@) matches Some(k) && spec_byte_array(k, secret_key)
            &&& spec_only_members(data, seq!["mode"@, "secret_key"@])
        },
        VoiceGatewayEventView::HeartbeatAck => spec_only_members(data, Seq::empty()),
        VoiceGatewayEventView::Unknown(payload) => {
            &&& spec_json_get(data, "payload"@) == Some(payload)
            &&& spec_only_members(data, seq!["payload"@])
        },
    }
}

/// The dispatch type a voice gateway event is reported under.
pub open spec fn spec_voice_event_type(e: VoiceGatewayEventView) -> Seq<char> {
    match e {
        VoiceGatewayEventView::Hello { .. } => "VOICE_HELLO"@,
        VoiceGatewayEventView::Ready { .. } => "VOICE_READY"@,
        VoiceGatewayEventView::SessionDescription { .. } => "VOICE_SESSION_DESCRIPTION"@,
        VoiceGatewayEventView::HeartbeatAck => "VOICE_HEARTBEAT_ACK"@,
        VoiceGatewayEventView::Unknown(_) => "VOICE_UNKNOWN"@,
    }
}

proof fn lemma_single_contains(a: Seq<char>)
    ensures
        forall|k: Seq<char>| #[trigger] seq![a].contains(k) <==> k == a,
{
    assert forall|k: Seq<char>| #[trigger] seq![a].contains(k) <==> k == a by {
        if k == a {
            assert(seq![a][0] == k);
        }
    }
}

/// Builds a JSON array of texts.
fn text_array(items: &Vec<String>) -> (res: serde_json::Value)
    ensures
        spec_text_array(res, items.deep_view()),
{
    let mut out: Vec<serde_json::Value> = Vec::new();
    let mut i: usize = 0;
    while i < items.len()
        invariant
            i <= items@.len(),
            out@.len() == i,
            forall|k: int| 0 <= k < i ==> #[trigger] spec_json_as_str(out@[k]) == Some(items@[k]@),
        decreases items@.len() - i,
    {
        out.push(json_string(items[i].as_str()));
        i = i + 1;
    }
    json_array(out)
}

/// Builds a JSON array of byte values.
fn byte_array(bytes: &Vec<u8>) -> (res: serde_json::Value)
    ensures
        spec_byte_array(res, bytes@),
{
    let mut out: Vec<serde_json::Value> = Vec::new();
    let mut i: usize = 0;
    while i < bytes.len()
        invariant
            i <= bytes@.len(),
            out@.len() == i,
            forall|k: int| 0 <= k < i ==> #[trigger] spec_json_as_u64(out@[k]) == Some(bytes@[k] as u64),
        decreases bytes@.len() - i,
    {
        out.push(json_u64(bytes[i] as u64));
        i = i + 1;
    }
    json_array(out)
}

/// The data object of a voice dispatch.
fn voice_event_data(voice_session_id: &str, event: &VoiceGatewayEvent) -> (res: serde_json::Value)
    ensures
        spec_voice_event_data(res, voice_session_id@, event@),
{
    proof {
        reveal_strlit("voice_session_id");
        reveal_strlit("heartbeat_interval_ms");
        reveal_strlit("ip");
        reveal_strlit("port");
        reveal_strlit("ssrc");
        reveal_strlit("modes");
        reveal_strlit("mode");
        reveal_strlit("secret_key");
        reveal_strlit("payload");
        assert("port"@[0] != "ssrc"@[0]);
        assert("mode"@[0] != "port"@[0]);
        assert("mode"@[0] != "ssrc"@[0]);
        assert("voice_session_id"@.len() == 16);
        assert("heartbeat_interval_ms"@.len() == 21);
        assert("ip"@.len() == 2);
        assert("port"@.len() == 4);
        assert("ssrc"@.len() == 4);
        assert("modes"@.len() == 5);
        assert("mode"@.len() == 4);
        assert("secret_key"@.len() == 10);
        assert("payload"@.len() == 7);
        assert("port"@ != "ssrc"@);
        assert("mode"@ != "port"@);
        assert("mode"@ != "ssrc"@);
    }
    let mut data = json_object();
    json_insert(&mut data, "voice_session_id", json_string(voice_session_id));
    match event {
        VoiceGatewayEvent::Hello { heartbeat_interval_ms } => {
            json_insert(&mut data, "heartbeat_interval_ms", json_u64(*heartbeat_interval_ms));
            proof {
                lemma_single_contains("heartbeat_interval_ms"@);
            }
        },
        VoiceGatewayEvent::Ready { ip, port, ssrc, modes } => {
            json_insert(&mut data, "ip", json_string(ip.as_str()));
            json_insert(&mut data, "port", json_u64(*port as u64));
            json_insert(&mut data, "ssrc", json_u64(*ssrc as u64));
            json_insert(&mut data, "modes", text_array(modes));
        },
        VoiceGatewayEvent::SessionDescription { mode, secret_key } => {
            json_insert(&mut data, "mode", json_string(mode.as_str()));
            json_insert(&mut data, "secret_key", byte_array(secret_key));
        },
        VoiceGatewayEvent::HeartbeatAck => {},
        VoiceGatewayEvent::Unknown(payload) => {
            json_insert(&mut data, "payload", payload.clone());
            proof {
                lemma_single_contains("payload"@);
            }
        },
    }
    data
}

/// The title of the notice sent when a voice runtime stops.
pub const VOICE_SHUTDOWN_TITLE: &'static str = "voice_runtime_shutdown";

/// The envelope a voice runtime event becomes for the owning session.
pub open spec fn spec_voice_envelope_ok(session_id: Seq<char>, voice_session_id: Seq<char>, e: VoiceRuntimeEvent, env: EnvelopeView) -> bool {
    match e {
        VoiceRuntimeEvent::GatewayEvent(g) => env matches EnvelopeView::GatewayDispatch { session_id: s, event_type, data }
            && s == session_id && event_type == spec_voice_event_type(g@) && spec_voice_event_data(data, voice_session_id, g@),
        VoiceRuntimeEvent::ReconnectScheduled { attempt, delay } => env == EnvelopeView::ReconnectScheduled {
            session_id,
            attempt,
            resumable: false,
            delay_ms: spec_clamp_duration_ms(delay),
        },
        VoiceRuntimeEvent::Shutdown => env == EnvelopeView::Notification {
            session_id: Some(session_id),
            title: VOICE_SHUTDOWN_TITLE@,
            body: "voice runtime stopped for session "@ + voice_session_id,
        },
    }
}

/// The envelope a voice runtime event becomes for the owning session.
pub fn voice_runtime_event_to_envelope(session_id: &str, voice_session_id: &str, event: &VoiceRuntimeEvent) -> (res: Option<RealtimeEnvelope>)
    ensures
        res matches Some(env) && spec_voice_envelope_ok(session_id@, voice_session_id@, *event, env@),
{
    match event {
        VoiceRuntimeEvent::GatewayEvent(g) => {
            let event_type = match g {
                VoiceGatewayEvent::Hello { .. } => "VOICE_HELLO",
                VoiceGatewayEvent::Ready { .. } => "VOICE_READY",
                VoiceGatewayEvent::SessionDescription { .. } => "VOICE_SESSION_DESCRIPTION",
                VoiceGatewayEvent::HeartbeatAck => "VOICE_HEARTBEAT_ACK",
                VoiceGatewayEvent::Unknown(_) => "VOICE_UNKNOWN",
            };
            Some(RealtimeEnvelope::GatewayDispatch {
                session_id: to_owned_string(session_id),
                event_type: to_owned_string(event_type),
                data: voice_event_data(voice_session_id, g),
            })
        },
        VoiceRuntimeEvent::ReconnectScheduled { attempt, delay } => Some(RealtimeEnvelope::ReconnectScheduled {
            session_id: to_owned_string(session_id),
            attempt: *attempt,
            resumable: false,
            delay_ms: clamp_duration_ms(delay),
        }),
        VoiceRuntimeEvent::Shutdown => Some(RealtimeEnvelope::Notification {
            session_id: Some(to_owned_string(session_id)),
            title: to_owned_string(VOICE_SHUTDOWN_TITLE),
            body: concat2("voice runtime stopped for session ", voice_session_id),
        }),
    }
}

// ---------------------------------------------------------------------------
// OAuth redirects
// ---------------------------------------------------------------------------

/// The client redirect a flow asked for: none, or a URL that must parse.
pub fn parse_client_redirect(uri: Option<&str>) -> (res: Result<Option<url::Url>, ServiceError>)
    ensures
        match uri {
            None => res == Ok::<Option<url::Url>, ServiceError>(None),
            Some(u) => match spec_url_parse(u@) {
                Ok(parsed) => res == Ok::<Option<url::Url>, ServiceError>(Some(parsed)),
                Err(_) => res matches Err(ServiceError::InvalidOAuthClientRedirectUri),
            },
        },
{
    match uri {
        None => Ok(None),
        Some(u) => match url_parse(u) {
            Ok(parsed) => Ok(Some(parsed)),
            Err(_) => Err(ServiceError::InvalidOAuthClientRedirectUri),
        },
    }
}

/// The query of the authorize URL: the code flow for this client, its
/// redirect, its scope and the state token.
pub open spec fn spec_authorize_pairs(client_id: Seq<char>, redirect: Seq<char>, scope: Seq<char>, state: Seq<char>) -> Seq<(Seq<char>, Seq<char>)> {
    seq![
        ("response_type"@, "code"@),
        ("client_id"@, client_id),
        ("redirect_uri"@, redirect),
        ("scope"@, scope),
        ("state"@, state),
    ]
}

/// A text pair.
fn pair(k: &str, v: &str) -> (res: (String, String))
    ensures
        res.0@ == k@,
        res.1@ == v@,
{
    (to_owned_string(k), to_owned_string(v))
}

/// The URL the user is sent to to authorize this service.
pub fn authorize_url(config: &OAuthConfig, state_token: &str) -> (res: Result<url::Url, ServiceError>)
    ensures
        match spec_url_parse_with_params(
            spec_url_text(config.authorize_url),
            spec_authorize_pairs(config.client_id@, spec_url_text(config.redirect_uri), config.scope@, state_token@),
        ) {
            Ok(u) => res == Ok::<url::Url, ServiceError>(u),
            Err(msg) => res matches Err(ServiceError::OAuthExchange(m)) && m@ == "failed to build authorize URL: "@ + msg,
        },
{
    let mut pairs: Vec<(String, String)> = Vec::new();
    pairs.push(pair("response_type", "code"));
    pairs.push(pair("client_id", config.client_id.as_str()));
    pairs.push(pair("redirect_uri", url_text(&config.redirect_uri)));
    pairs.push(pair("scope", config.scope.as_str()));
    pairs.push(pair("state", state_token));
    proof {
        assert(spec_pairs(pairs@) =~= spec_authorize_pairs(
            config.client_id@,
            spec_url_text(config.redirect_uri),
            config.scope@,
            state_token@,
        ));
    }
    match url_parse_with_params(url_text(&config.authorize_url), &pairs) {
        Ok(u) => Ok(u),
        Err(msg) => Err(ServiceError::OAuthExchange(concat2("failed to build authorize URL: ", msg.as_str()))),
    }
}

/// The query pairs a completed flow hands back to the client: the new
/// session id, the token type, and the lifetime when known.
pub open spec fn spec_callback_pairs(session_id: Seq<char>, token_type: Seq<char>, expires_in: Option<u64>) -> Seq<(Seq<char>, Seq<char>)> {
    let base = seq![("session_id"@, session_id), ("token_type"@, token_type)];
    match expires_in {
        Some(secs) => base.push(("expires_in"@, spec_decimal(secs as nat))),
        None => base,
    }
}

/// The client redirect of a completed flow, carrying its outcome in the query.
pub fn callback_redirect(redirect: url::Url, session_id: &str, token_type: &str, expires_in: Option<u64>) -> (res: url::Url)
    ensures
        res == spec_url_with_pairs(redirect, spec_callback_pairs(session_id@, token_type@, expires_in)),
{
    let mut pairs: Vec<(String, String)> = Vec::new();
    pairs.push(pair("session_id", session_id));
    pairs.push(pair("token_type", token_type));
    match expires_in {
        Some(secs) => {
            let text = u64_to_decimal(secs);
            pairs.push(pair("expires_in", text.as_str()));
        },
        None => {},
    }
    proof {
        assert(spec_pairs(pairs@) =~= spec_callback_pairs(session_id@, token_type@, expires_in));
    }
    let mut url = redirect;
    url_append_pairs(&mut url, &pairs);
    url
}

/// The authorize URL asks for the authorization-code flow: its query names
/// `response_type=code`, the client, the redirect, the scope and the state
/// token, and nothing else.
pub proof fn law_authorize_query(client_id: Seq<char>, redirect: Seq<char>, scope: Seq<char>, state: Seq<char>)
    ensures
        spec_authorize_pairs(client_id, redirect, scope, state).len() == 5,
        spec_pair_value(spec_authorize_pairs(client_id, redirect, scope, state), "response_type"@) == Some("code"@),
        spec_pair_value(spec_authorize_pairs(client_id, redirect, scope, state), "client_id"@) == Some(client_id),
        spec_pair_value(spec_authorize_pairs(client_id, redirect, scope, state), "redirect_uri"@) == Some(redirect),
        spec_pair_value(spec_authorize_pairs(client_id, redirect, scope, state), "scope"@) == Some(scope),
        spec_pair_value(spec_authorize_pairs(client_id, redirect, scope, state), "state"@) == Some(state),
{
    reveal_strlit("response_type");
    reveal_strlit("client_id");
    reveal_strlit("redirect_uri");
    reveal_strlit("scope");
    reveal_strlit("state");
    reveal_strlit("code");
    let p = spec_authorize_pairs(client_id, redirect, scope, state);
    assert("client_id"@[0] != "response_type"@[0]);
    assert("redirect_uri"@[2] != "response_type"@[2]);
    assert("redirect_uri"@[0] != "client_id"@[0]);
    assert("scope"@[1] != "response_type"@[1]);
    assert("scope"@[0] != "client_id"@[0]);
    assert("scope"@[0] != "redirect_uri"@[0]);
    assert("state"@[1] != "response_type"@[1]);
    assert("state"@[0] != "client_id"@[0]);
    assert("state"@[0] != "redirect_uri"@[0]);
    assert("state"@[1] != "scope"@[1]);
    assert(p.drop_first().drop_first().drop_first().drop_first().drop_first().len() == 0);
    reveal_with_fuel(spec_pair_value, 6);
}

/// The client redirect of a completed flow carries the new session id under
/// `session_id`, the token type under `token_type`, and the lifetime in
/// decimal under `expires_in` exactly when it is known.
pub proof fn law_callback_query(session_id: Seq<char>, token_type: Seq<char>, expires_in: Option<u64>)
    ensures
        spec_callback_pairs(session_id, token_type, expires_in).len() == (if expires_in is Some { 3int } else { 2int }),
        spec_pair_value(spec_callback_pairs(session_id, token_type, expires_in), "session_id"@) == Some(session_id),
        spec_pair_value(spec_callback_pairs(session_id, token_type, expires_in), "token_type"@) == Some(token_type),
        spec_pair_value(spec_callback_pairs(session_id, token_type, expires_in), "expires_in"@) == match expires_in {
            Some(secs) => Some(spec_decimal(secs as nat)),
            None => None::<Seq<char>>,
        },
{
    reveal_strlit("session_id");
    reveal_strlit("token_type");
    reveal_strlit("expires_in");
    let p = spec_callback_pairs(session_id, token_type, expires_in);
    assert("token_type"@[0] != "session_id"@[0]);
    assert("expires_in"@[0] != "session_id"@[0]);
    assert("expires_in"@[0] != "token_type"@[0]);
    reveal_with_fuel(spec_pair_value, 4);
    if expires_in is Some {
        assert(p.drop_first().drop_first().drop_first().len() == 0);
    } else {
        assert(p.drop_first().drop_first().len() == 0);
    }
}

/// Whether a key of the per-session gateway store is the gateway session
/// key; every other key is neither read nor written.
pub fn is_gateway_session_key(key: &str) -> (res: bool)
    ensures
        res == (key@ == crate::storage::GATEWAY_SESSION_STORAGE_KEY@),
{
    str_eq(key, crate::storage::GATEWAY_SESSION_STORAGE_KEY)
}

/// A session-store failure seen through the per-session gateway store: a
/// storage backend error carrying the service error's message.
pub fn gateway_store_error(error: ServiceError) -> (res: StorageError)
    ensures
        res matches StorageError::Backend(m) && m@ == spec_service_message(error),
{
    StorageError::Backend(error.message())
}

/// The outcome of forgetting a session's gateway record through the
/// per-session gateway store: a session without a record has nothing to
/// forget, so `UnauthorizedSession` counts as done; any other failure is a
/// storage error with its message.
pub fn gateway_store_clear_outcome(res: Result<(), ServiceError>) -> (out: Result<(), StorageError>)
    ensures
        match res {
            Ok(()) => out is Ok,
            Err(ServiceError::UnauthorizedSession) => out is Ok,
            Err(e) => out matches Err(StorageError::Backend(m)) && m@ == spec_service_message(e),
        },
{
    match res {
        Ok(()) => Ok(()),
        Err(ServiceError::UnauthorizedSession) => Ok(()),
        Err(e) => Err(gateway_store_error(e)),
    }
}

// ---------------------------------------------------------------------------
// Decisions of the request handlers and workers
// ---------------------------------------------------------------------------

/// The refresh token to use for a session's tokens at `now_ms`: they are
/// due for refresh and a refresh token is held; otherwise none.
pub fn token_refresh_due(state: &SessionTokenState, now_ms: u64) -> (res: Option<String>)
    ensures
        match res {
            Some(t) => spec_should_refresh(state.expires_at_unix_ms, now_ms) && state.refresh_token.deep_view() == Some(t@),
            None => !spec_should_refresh(state.expires_at_unix_ms, now_ms) || state.refresh_token is None,
        },
{
    if state.should_refresh_at(now_ms) {
        clone_opt(&state.refresh_token)
    } else {
        None
    }
}

/// What a client asks for to connect a voice session to a voice server.
#[derive(Debug)]
pub struct VoiceConnectionRequest {
    pub gateway_url: String,
    pub user_id: String,
    pub session_id: String,
    pub token: String,
}

/// A new voice session (not speaking) for a guild channel, and, when a
/// connection was asked for, the runtime configuration and the voice
/// gateway URL, which must parse.
pub fn plan_voice_session(
    id: String,
    guild_id: String,
    channel_id: String,
    connection: Option<VoiceConnectionRequest>,
) -> (res: Result<(VoiceSession, Option<(VoiceConnectionConfig, url::Url)>), ServiceError>)
    ensures
        match connection {
            None => res matches Ok((v, None)) && v@ == (VoiceSessionView {
                id: id@,
                guild_id: guild_id@,
                channel_id: channel_id@,
                speaking: false,
            }),
            Some(c) => match spec_url_parse(c.gateway_url@) {
                Err(msg) => res matches Err(ServiceError::VoiceRuntime(m)) && m@ == "invalid voice gateway URL: "@ + msg,
                Ok(u) => res matches Ok((v, Some((config, url)))) && v@ == (VoiceSessionView {
                    id: id@,
                    guild_id: guild_id@,
                    channel_id: channel_id@,
                    speaking: false,
                }) && url == u && config.guild_id@ == guild_id@ && config.user_id@ == c.user_id@
                    && config.session_id@ == c.session_id@ && config.token@ == c.token@,
            },
        },
{
    let session = VoiceSession { id, guild_id, channel_id, speaking: false };
    match connection {
        None => Ok((session, None)),
        Some(c) => {
            let url = match url_parse(c.gateway_url.as_str()) {
                Ok(u) => u,
                Err(msg) => return Err(ServiceError::VoiceRuntime(concat2("invalid voice gateway URL: ", msg.as_str()))),
            };
            let config = VoiceConnectionConfig {
                guild_id: session.guild_id.clone(),
                user_id: c.user_id,
                session_id: c.session_id,
                token: c.token,
            };
            Ok((session, Some((config, url))))
        },
    }
}

/// A notice to one session.
pub fn session_notice(session_id: &str, title: &str, body: &str) -> (res: RealtimeEnvelope)
    ensures
        res@ == (EnvelopeView::Notification { session_id: Some(session_id@), title: title@, body: body@ }),
{
    RealtimeEnvelope::Notification {
        session_id: Some(to_owned_string(session_id)),
        title: to_owned_string(title),
        body: to_owned_string(body),
    }
}

/// The title of the notice sent when a client's event stream fell behind.
pub const STREAM_LAGGED_TITLE: &'static str = "event_stream_lagged";

/// The body of the notice sent when a client's event stream fell behind.
pub const STREAM_LAGGED_BODY: &'static str = "realtime stream lag detected; some events may have been skipped";

/// The notice sent to a session whose event stream fell behind.
pub fn lag_notice(session_id: &str) -> (res: RealtimeEnvelope)
    ensures
        res@ == (EnvelopeView::Notification {
            session_id: Some(session_id@),
            title: STREAM_LAGGED_TITLE@,
            body: STREAM_LAGGED_BODY@,
        }),
{
    session_notice(session_id, STREAM_LAGGED_TITLE, STREAM_LAGGED_BODY)
}

} // verus!
