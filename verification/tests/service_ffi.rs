use opencord::ffi::{
    argument_failure, call_failure, gateway_event_to_json, messages_query, opencord_argument_failure,
    parse_base_url,
    parse_opencord_base_url, runtime_event_to_json,
    sanitize_c_text, stream_state_failure, DiscordErrorCode, OpenCordErrorCode,
    DISCORD_FFI_ABI_VERSION, OPENCORD_FFI_ABI_VERSION,
};
use opencord::gateway::GatewayEvent;
use opencord::http::HttpError;
use opencord::runtime::GatewayRuntimeEvent;
use opencord::service::{
    bearer_session_id, gateway_event_to_envelope, gateway_store_clear_outcome, gateway_store_error, lag_notice, plan_voice_session,
    runtime_event_to_envelope, token_refresh_due, voice_runtime_event_to_envelope,
    KvSessionStore, MemorySessionStore, OAuthTokenSet, PendingOAuthStates, RealtimeEnvelope,
    ServiceError, SessionRecord, SessionTokenState, UnsupportedOAuthCodeExchanger,
    VoiceConnectionRequest, VoiceSession, VoiceSessionRegistry,
};
use opencord::storage::{GatewaySessionRecord, MemoryStore, StorageError};
use opencord::voice::{VoiceGatewayEvent, VoiceRuntimeEvent};
use std::time::Duration;

fn gateway_record(url: &str) -> GatewaySessionRecord {
    GatewaySessionRecord {
        session_id: "gateway-session".to_owned(),
        seq: 12,
        resume_url: url.to_owned(),
    }
}

fn json(text: &str) -> serde_json::Value {
    serde_json::from_str(text).unwrap()
}

#[test]
fn memory_session_store_persists_gateway_state_with_token() {
    let mut store = MemorySessionStore::new();
    store.set_discord_token("session-1", "token-1".to_owned());
    let record = gateway_record("wss://gateway.discord.gg/?v=10&encoding=json");
    store
        .save_gateway_session("session-1", record.clone())
        .expect("save gateway session should succeed");

    let loaded = store.load_gateway_session("session-1").expect("gateway session should exist");
    assert_eq!(loaded, record);
    assert_eq!(store.get_discord_token("session-1").as_deref(), Some("token-1"));
}

#[test]
fn saving_gateway_state_for_unknown_session_returns_unauthorized() {
    let mut store = MemorySessionStore::new();
    let result = store.save_gateway_session(
        "unknown-session",
        gateway_record("wss://gateway.discord.gg/?v=10&encoding=json"),
    );
    assert!(matches!(result, Err(ServiceError::UnauthorizedSession)));
    assert!(store.load_gateway_session("unknown-session").is_none());
}

#[test]
fn token_state_round_trip_preserves_refresh_metadata() {
    let mut store = MemorySessionStore::new();
    let state = SessionTokenState {
        access_token: "access-token".to_owned(),
        token_type: Some("Bearer".to_owned()),
        refresh_token: Some("refresh-token".to_owned()),
        scope: Some("identify guilds".to_owned()),
        expires_at_unix_ms: Some(1_800_000_000_000),
    };
    store.set_token_state("session-1", state.clone());
    assert_eq!(store.get_token_state("session-1"), Some(state));
}

#[test]
fn kv_session_store_keys_records_by_prefix() {
    let kv = KvSessionStore::new(MemoryStore::new(), "service.session.".to_owned());
    assert_eq!(kv.key_for("session-1"), "service.session.session-1");
    assert!(kv.store().get("service.session.session-1").is_none());
}

#[test]
fn setting_a_token_keeps_the_gateway_session() {
    let mut store = MemorySessionStore::new();
    store.insert_for_tests("s", "old");
    store.save_gateway_session("s", gateway_record("wss://x")).unwrap();
    store.set_discord_token("s", "new".to_owned());
    assert_eq!(store.get_discord_token("s").as_deref(), Some("new"));
    assert!(store.load_gateway_session("s").is_some());
    store.clear_gateway_session("s").unwrap();
    assert!(store.load_gateway_session("s").is_none());
    store.delete_session("s");
    assert_eq!(store.get_discord_token("s"), None);
    assert!(matches!(store.clear_gateway_session("s"), Err(ServiceError::UnauthorizedSession)));
}

#[test]
fn session_record_keeps_gateway_session_across_token_updates() {
    let record = SessionRecord::from_token_state(SessionTokenState::from_access_token("a".to_owned()));
    let record = SessionRecord::with_gateway_session(Some(record), Some(gateway_record("wss://x"))).unwrap();
    let record = SessionRecord::with_token_state(Some(record), SessionTokenState::from_access_token("b".to_owned()));
    assert_eq!(record.token_state().access_token, "b");
    assert!(record.gateway_session.is_some());
    assert!(matches!(
        SessionRecord::with_gateway_session(None, None),
        Err(ServiceError::UnauthorizedSession)
    ));
}

#[test]
fn token_refresh_follows_expiry_and_skew() {
    let set = OAuthTokenSet {
        access_token: "fresh".to_owned(),
        token_type: "Bearer".to_owned(),
        expires_in: Some(3600),
        refresh_token: None,
        scope: Some("identify".to_owned()),
    };
    let state = SessionTokenState::from_token_set_at(set, Some("old-refresh".to_owned()), 1_000);
    assert_eq!(state.expires_at_unix_ms, Some(3_601_000));
    assert_eq!(state.refresh_token.as_deref(), Some("old-refresh"));
    assert_eq!(state.token_type.as_deref(), Some("Bearer"));
    assert!(!state.should_refresh_at(1_000));
    assert!(state.should_refresh_at(3_571_000));
    assert!(!state.should_refresh_at(3_570_999));
    assert_eq!(token_refresh_due(&state, 3_601_000).as_deref(), Some("old-refresh"));
    assert_eq!(token_refresh_due(&state, 0), None);
    let plain = SessionTokenState::from_access_token("x".to_owned());
    assert!(!plain.should_refresh());
    assert!(!plain.should_refresh_at(u64::MAX));
}

#[test]
fn service_errors_map_to_status_and_code() {
    assert_eq!(ServiceError::MissingAuthorization.status_code(), 401);
    assert_eq!(ServiceError::InvalidAuthorization.code(), "invalid_authorization");
    assert_eq!(ServiceError::MissingOAuthConfiguration.status_code(), 503);
    assert_eq!(ServiceError::InvalidOAuthState.status_code(), 400);
    assert_eq!(ServiceError::NotFound.status_code(), 404);
    assert_eq!(ServiceError::GatewayRuntime("x".to_owned()).status_code(), 502);
    let status = ServiceError::Http(HttpError::Status { status: 403, body: "no".to_owned() });
    assert_eq!(status.status_code(), 403);
    assert_eq!(status.code(), "discord_http_status");
    assert_eq!(ServiceError::Http(HttpError::Request("t".to_owned())).code(), "discord_http_transport");
    assert_eq!(
        ServiceError::Storage(StorageError::Backend("down".to_owned())).message(),
        "storage backend error: down"
    );
    assert_eq!(
        ServiceError::OAuthExchange("bad".to_owned()).message(),
        "oauth exchange failed: bad"
    );
}

#[test]
fn unsupported_exchanger_always_fails() {
    let exchanger = UnsupportedOAuthCodeExchanger;
    match exchanger.exchange_code("code") {
        Err(ServiceError::OAuthExchange(m)) => assert_eq!(m, "oauth code exchange is not configured"),
        other => panic!("unexpected result: {other:?}"),
    }
    match exchanger.refresh_token("r") {
        Err(ServiceError::OAuthExchange(m)) => assert_eq!(m, "oauth refresh is not configured"),
        other => panic!("unexpected result: {other:?}"),
    }
}

#[test]
fn bearer_header_names_the_session() {
    assert_eq!(bearer_session_id(Some("Bearer session-1")).unwrap(), "session-1");
    assert_eq!(bearer_session_id(Some("Bearer   padded  ")).unwrap(), "padded");
    assert!(matches!(bearer_session_id(None), Err(ServiceError::MissingAuthorization)));
    assert!(matches!(bearer_session_id(Some("Basic abc")), Err(ServiceError::InvalidAuthorization)));
    assert!(matches!(bearer_session_id(Some("Bearer    ")), Err(ServiceError::InvalidAuthorization)));
    assert!(matches!(bearer_session_id(Some("Bear")), Err(ServiceError::InvalidAuthorization)));
}

#[test]
fn envelopes_reach_only_their_session() {
    let deleted = RealtimeEnvelope::MessageDeleted {
        session_id: "s1".to_owned(),
        channel_id: "123".to_owned(),
        message_id: "456".to_owned(),
    };
    assert!(deleted.is_for_session("s1"));
    assert!(!deleted.is_for_session("s2"));
    let broadcast = RealtimeEnvelope::Notification {
        session_id: None,
        title: "t".to_owned(),
        body: "b".to_owned(),
    };
    assert!(broadcast.is_for_session("anyone"));
    assert!(lag_notice("s1").is_for_session("s1"));
    assert!(!lag_notice("s1").is_for_session("s2"));
}

#[test]
fn gateway_events_become_envelopes() {
    let message = GatewayEvent::Dispatch {
        event_type: Some("MESSAGE_CREATE".to_owned()),
        sequence: Some(1),
        data: json(r#"{"id":"9","channel_id":"3","author":{"id":"1","username":"u","global_name":null,"avatar":null,"bot":null},"content":"hi","timestamp":"t"}"#),
    };
    match gateway_event_to_envelope("s", &message) {
        Some(RealtimeEnvelope::MessageCreated { session_id, message }) => {
            assert_eq!(session_id, "s");
            assert_eq!(message.content, "hi");
        }
        other => panic!("unexpected envelope: {other:?}"),
    }
    let delete = GatewayEvent::Dispatch {
        event_type: Some("MESSAGE_DELETE".to_owned()),
        sequence: None,
        data: json(r#"{"id":"456","channel_id":"123"}"#),
    };
    match gateway_event_to_envelope("s", &delete) {
        Some(RealtimeEnvelope::MessageDeleted { channel_id, message_id, .. }) => {
            assert_eq!(channel_id, "123");
            assert_eq!(message_id, "456");
        }
        other => panic!("unexpected envelope: {other:?}"),
    }
    let voice = GatewayEvent::Dispatch {
        event_type: Some("VOICE_STATE_UPDATE".to_owned()),
        sequence: None,
        data: json(r#"{"guild_id":"g","channel_id":"c","self_mute":true}"#),
    };
    match gateway_event_to_envelope("s", &voice) {
        Some(RealtimeEnvelope::VoiceStateChanged { voice_session_id, speaking, .. }) => {
            assert_eq!(voice_session_id, "gateway");
            assert!(!speaking);
        }
        other => panic!("unexpected envelope: {other:?}"),
    }
    let left = GatewayEvent::Dispatch {
        event_type: Some("VOICE_STATE_UPDATE".to_owned()),
        sequence: None,
        data: json(r#"{"guild_id":"g","channel_id":null}"#),
    };
    assert!(gateway_event_to_envelope("s", &left).is_none());
    let other = GatewayEvent::Dispatch {
        event_type: Some("TYPING_START".to_owned()),
        sequence: None,
        data: json(r#"{"x":1}"#),
    };
    assert!(matches!(
        gateway_event_to_envelope("s", &other),
        Some(RealtimeEnvelope::GatewayDispatch { .. })
    ));
    let untyped = GatewayEvent::Dispatch { event_type: None, sequence: None, data: serde_json::Value::Null };
    match gateway_event_to_envelope("s", &untyped) {
        Some(RealtimeEnvelope::GatewayDispatch { event_type, .. }) => assert_eq!(event_type, "dispatch"),
        other => panic!("unexpected envelope: {other:?}"),
    }
    assert!(gateway_event_to_envelope("s", &GatewayEvent::HeartbeatAck).is_none());
}

#[test]
fn runtime_events_become_envelopes() {
    let scheduled = GatewayRuntimeEvent::ReconnectScheduled {
        attempt: 2,
        resumable: true,
        delay: Duration::from_millis(1200),
    };
    match runtime_event_to_envelope("s", &scheduled) {
        Some(RealtimeEnvelope::ReconnectScheduled { attempt, resumable, delay_ms, .. }) => {
            assert_eq!(attempt, 2);
            assert!(resumable);
            assert_eq!(delay_ms, 1200);
        }
        other => panic!("unexpected envelope: {other:?}"),
    }
    match runtime_event_to_envelope("s", &GatewayRuntimeEvent::Shutdown) {
        Some(RealtimeEnvelope::Notification { session_id, title, .. }) => {
            assert_eq!(session_id.as_deref(), Some("s"));
            assert_eq!(title, "gateway_shutdown");
        }
        other => panic!("unexpected envelope: {other:?}"),
    }
    let ready = VoiceRuntimeEvent::GatewayEvent(VoiceGatewayEvent::Ready {
        ip: "1.2.3.4".to_owned(),
        port: 5,
        ssrc: 6,
        modes: vec!["m".to_owned()],
    });
    match voice_runtime_event_to_envelope("s", "v", &ready) {
        Some(RealtimeEnvelope::GatewayDispatch { event_type, data, .. }) => {
            assert_eq!(event_type, "VOICE_READY");
            assert_eq!(
                data,
                json(r#"{"voice_session_id":"v","ip":"1.2.3.4","port":5,"ssrc":6,"modes":["m"]}"#)
            );
        }
        other => panic!("unexpected envelope: {other:?}"),
    }
    match voice_runtime_event_to_envelope("s", "v", &VoiceRuntimeEvent::Shutdown) {
        Some(RealtimeEnvelope::Notification { body, .. }) => {
            assert_eq!(body, "voice runtime stopped for session v")
        }
        other => panic!("unexpected envelope: {other:?}"),
    }
}

#[test]
fn voice_sessions_answer_only_their_owner() {
    let mut registry = VoiceSessionRegistry::new();
    let (session, connection) =
        plan_voice_session("v1".to_owned(), "g1".to_owned(), "c1".to_owned(), None).unwrap();
    assert!(connection.is_none());
    assert!(!session.speaking);
    registry.insert("owner", session);
    registry.insert(
        "other",
        VoiceSession { id: "v2".to_owned(), guild_id: "g".to_owned(), channel_id: "c".to_owned(), speaking: false },
    );
    assert!(matches!(registry.set_speaking("v1", "intruder", true), Err(ServiceError::NotFound)));
    let updated = registry.set_speaking("v1", "owner", true).unwrap();
    assert!(updated.speaking);
    assert!(matches!(registry.remove_owned("v1", "intruder"), Err(ServiceError::NotFound)));
    registry.remove_all_owned_by("owner");
    assert!(matches!(registry.remove_owned("v1", "owner"), Err(ServiceError::NotFound)));
    assert_eq!(registry.remove_owned("v2", "other").unwrap().id, "v2");
}

#[test]
fn voice_session_connection_needs_valid_url() {
    let request = VoiceConnectionRequest {
        gateway_url: "not a url".to_owned(),
        user_id: "u".to_owned(),
        session_id: "s".to_owned(),
        token: "t".to_owned(),
    };
    assert!(matches!(
        plan_voice_session("v".to_owned(), "g".to_owned(), "c".to_owned(), Some(request)),
        Err(ServiceError::VoiceRuntime(_))
    ));
    let request = VoiceConnectionRequest {
        gateway_url: "wss://voice.example".to_owned(),
        user_id: "u".to_owned(),
        session_id: "s".to_owned(),
        token: "t".to_owned(),
    };
    let (_, connection) =
        plan_voice_session("v".to_owned(), "g".to_owned(), "c".to_owned(), Some(request)).unwrap();
    let (config, url) = connection.unwrap();
    assert_eq!(config.guild_id, "g");
    assert_eq!(url.as_str(), "wss://voice.example/");
}

#[test]
fn oauth_states_are_single_use() {
    let mut states = PendingOAuthStates::new();
    states.insert("state-1", None);
    assert!(matches!(states.take("state-1"), Ok(None)));
    assert!(matches!(states.take("state-1"), Err(ServiceError::InvalidOAuthState)));
}

#[test]
fn abi_version_is_set() {
    assert_eq!(DISCORD_FFI_ABI_VERSION, 1);
    assert_eq!(OPENCORD_FFI_ABI_VERSION, 1);
}

#[test]
fn runtime_event_serialization_contains_event_type() {
    let payload = runtime_event_to_json(&GatewayRuntimeEvent::ReconnectScheduled {
        attempt: 2,
        resumable: true,
        delay: Duration::from_millis(1200),
    });

    assert_eq!(payload["type"], "reconnect_scheduled");
    assert_eq!(payload["attempt"], 2);
    assert_eq!(payload["delay_ms"], 1200);
}

#[test]
fn ffi_codes_and_messages() {
    assert_eq!(DiscordErrorCode::DiscordOk.code(), 0);
    assert_eq!(DiscordErrorCode::DiscordGatewayNotRunning.code(), 8);
    assert_eq!(OpenCordErrorCode::OpenCordSerializationError.code(), 6);
    assert_eq!(sanitize_c_text("a\0b\0"), "a?b?");
    assert_eq!(sanitize_c_text("plain"), "plain");
    let (code, message) = argument_failure("token", true);
    assert_eq!(code, DiscordErrorCode::DiscordNullPointer);
    assert_eq!(message, "token cannot be null");
    let (code, message) = argument_failure("token", false);
    assert_eq!(code, DiscordErrorCode::DiscordInvalidUtf8);
    assert_eq!(message, "token must be valid UTF-8");
    let (code, message) = opencord_argument_failure("base_url", true);
    assert_eq!(code, OpenCordErrorCode::OpenCordNullPointer);
    assert_eq!(message, "base_url cannot be null");
    let (code, message) = opencord_argument_failure("token", false);
    assert_eq!(code, OpenCordErrorCode::OpenCordInvalidUtf8);
    assert_eq!(message, "token must be valid UTF-8");
    assert_eq!(
        stream_state_failure(true, true),
        Some((DiscordErrorCode::DiscordGatewayAlreadyRunning, "gateway stream already running"))
    );
    assert_eq!(
        stream_state_failure(false, false),
        Some((DiscordErrorCode::DiscordGatewayNotRunning, "gateway stream is not running"))
    );
    assert_eq!(stream_state_failure(false, true), None);
    assert_eq!(call_failure("list guilds", "boom"), "list guilds failed: boom");
    assert_eq!(messages_query(0).limit, None);
    assert_eq!(messages_query(25).limit, Some(25));
    let event = gateway_event_to_json(&GatewayEvent::InvalidSession { resumable: true });
    assert_eq!(event["kind"], "invalid_session");
    assert_eq!(event["resumable"], true);
}

#[test]
fn gateway_store_maps_session_failures() {
    assert_eq!(gateway_store_clear_outcome(Ok(())), Ok(()));
    assert_eq!(gateway_store_clear_outcome(Err(ServiceError::UnauthorizedSession)), Ok(()));
    assert_eq!(
        gateway_store_clear_outcome(Err(ServiceError::NotFound)),
        Err(StorageError::Backend("resource not found".to_owned()))
    );
    assert_eq!(
        gateway_store_error(ServiceError::OAuthExchange("bad".to_owned())),
        StorageError::Backend("oauth exchange failed: bad".to_owned())
    );
}

#[test]
fn lib_client_new_rejects_invalid_base_url() {
    let (code, message) = parse_base_url("not a url").unwrap_err();
    assert_eq!(code, DiscordErrorCode::DiscordInvalidUrl);
    assert!(message.contains("invalid base_url"));
    assert_eq!(message, "invalid base_url: relative URL without a base");

    let (code, message) = parse_opencord_base_url("not a url").unwrap_err();
    assert_eq!(code, OpenCordErrorCode::OpenCordInvalidUrl);
    assert!(message.contains("invalid base_url"));

    assert_eq!(parse_base_url("https://discord.com/api/v10").unwrap().as_str(), "https://discord.com/api/v10");
    assert_eq!(
        parse_opencord_base_url("https://discord.com/api/v10").unwrap().as_str(),
        "https://discord.com/api/v10"
    );
}

#[test]
fn ffi_regression_client_new_rejects_null_base_url() {
    let (code, message) = argument_failure("base_url", true);
    assert_eq!(code, DiscordErrorCode::DiscordNullPointer);
    assert_eq!(message, "base_url cannot be null");
}
