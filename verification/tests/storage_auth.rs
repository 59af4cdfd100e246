use opencord::auth::{AuthError, MemoryTokenProvider};
use opencord::storage::{
    decode_gateway_session, encode_gateway_session, validate_gateway_session,
    GatewaySessionRecord, MemoryStore, StorageError, GATEWAY_SESSION_STORAGE_KEY,
};

fn record() -> GatewaySessionRecord {
    GatewaySessionRecord {
        session_id: "session-1".to_owned(),
        seq: 42,
        resume_url: "wss://gateway.discord.gg/?v=10&encoding=json".to_owned(),
    }
}

fn save(store: &mut MemoryStore, record: &GatewaySessionRecord) -> Result<(), StorageError> {
    let bytes = encode_gateway_session(record)?;
    store.set(GATEWAY_SESSION_STORAGE_KEY, bytes);
    Ok(())
}

fn load(store: &MemoryStore) -> Result<Option<GatewaySessionRecord>, StorageError> {
    decode_gateway_session(store.get(GATEWAY_SESSION_STORAGE_KEY))
}

#[test]
fn gateway_session_roundtrips_through_store() {
    let mut store = MemoryStore::new();
    let record = record();

    save(&mut store, &record).expect("save should succeed");
    let loaded = load(&store).expect("load should succeed");

    assert_eq!(loaded, Some(record));
}

#[test]
fn gateway_session_can_be_cleared() {
    let mut store = MemoryStore::new();
    save(&mut store, &record()).expect("save should succeed");
    store.delete(GATEWAY_SESSION_STORAGE_KEY);
    let loaded = load(&store).expect("load should succeed");
    assert!(loaded.is_none());
}

#[test]
fn gateway_session_load_rejects_invalid_payload() {
    let mut store = MemoryStore::new();
    store.set(GATEWAY_SESSION_STORAGE_KEY, b"not-json".to_vec());

    let error = load(&store).expect_err("invalid payload should fail");
    let message = error.message();
    assert!(message.contains("failed to deserialize gateway session"));
}

#[test]
fn save_rejects_empty_session_id() {
    let mut store = MemoryStore::new();
    let record = GatewaySessionRecord {
        session_id: "   ".to_owned(),
        seq: 1,
        resume_url: "wss://gateway.discord.gg/?v=10&encoding=json".to_owned(),
    };

    let err = save(&mut store, &record).expect_err("empty session_id should fail validation");
    assert!(err.message().contains("session_id"));
}

#[test]
fn load_rejects_persisted_record_with_empty_resume_url() {
    let mut store = MemoryStore::new();
    store.set(
        GATEWAY_SESSION_STORAGE_KEY,
        br#"{"session_id":"session-123","seq":9,"resume_url":""}"#.to_vec(),
    );

    let err = load(&store).expect_err("poisoned payload should fail validation");
    assert!(err.message().contains("resume_url"));
}

#[test]
fn storage_public_api_lock() {
    let _store = MemoryStore::new();
    let _key: &str = GATEWAY_SESSION_STORAGE_KEY;
    let _record = GatewaySessionRecord {
        session_id: "session-1".to_owned(),
        seq: 1,
        resume_url: "wss://gateway.discord.gg".to_owned(),
    };
}

#[test]
fn encoded_record_is_a_json_object_of_its_fields() {
    let bytes = encode_gateway_session(&record()).unwrap();
    let doc: serde_json::Value = serde_json::from_slice(&bytes).unwrap();
    let expected: serde_json::Value = serde_json::from_str(
        r#"{"session_id":"session-1","seq":42,"resume_url":"wss://gateway.discord.gg/?v=10&encoding=json"}"#,
    )
    .unwrap();
    assert_eq!(doc, expected);
}

#[test]
fn encoded_record_with_escapes_decodes_back() {
    let tricky = GatewaySessionRecord {
        session_id: "a\"b\\c\u{1}é😀".to_owned(),
        seq: u64::MAX,
        resume_url: "wss://x/\n".to_owned(),
    };
    let bytes = encode_gateway_session(&tricky).unwrap();
    assert_eq!(decode_gateway_session(Some(bytes)).unwrap(), Some(tricky));
}

#[test]
fn record_in_array_form_and_with_extra_members_loads() {
    let loaded = decode_gateway_session(Some(br#"["s",7,"wss://x"]"#.to_vec())).unwrap();
    assert_eq!(
        loaded,
        Some(GatewaySessionRecord {
            session_id: "s".to_owned(),
            seq: 7,
            resume_url: "wss://x".to_owned()
        })
    );
    let loaded =
        decode_gateway_session(Some(br#"{"seq":7,"resume_url":"wss://x","session_id":"s","other":true}"#.to_vec()))
            .unwrap();
    assert!(loaded.is_some());
    assert!(decode_gateway_session(Some(br#"{"session_id":"s","seq":-1,"resume_url":"x"}"#.to_vec())).is_err());
    assert!(decode_gateway_session(None).unwrap().is_none());
}

#[test]
fn validation_reports_session_id_before_resume_url() {
    let both_blank = GatewaySessionRecord {
        session_id: "".to_owned(),
        seq: 0,
        resume_url: " ".to_owned(),
    };
    assert_eq!(
        validate_gateway_session(&both_blank),
        Err(StorageError::Backend("gateway session_id cannot be empty".to_owned()))
    );
    assert_eq!(validate_gateway_session(&record()), Ok(()));
}

#[test]
fn store_reads_back_writes_and_forgets_deletes() {
    let mut store = MemoryStore::new();
    store.set("a", vec![1, 2]);
    store.set("b", vec![3]);
    store.set("a", vec![9]);
    assert_eq!(store.get("a"), Some(vec![9]));
    assert_eq!(store.get("b"), Some(vec![3]));
    store.delete("a");
    assert_eq!(store.get("a"), None);
    assert_eq!(store.get("b"), Some(vec![3]));
    store.delete("missing");
    assert_eq!(store.get("b"), Some(vec![3]));
}

#[test]
fn auth_public_api_lock() {
    let _provider = MemoryTokenProvider::new();
    let _provider = MemoryTokenProvider::from_token("token-123");

    let _ = AuthError::MissingToken;
    let _ = AuthError::Provider("provider error".to_owned());
}

#[test]
fn token_provider_reads_back_and_clears() {
    let mut provider = MemoryTokenProvider::new();
    assert_eq!(provider.get_token(), None);
    assert_eq!(provider.require_token(), Err(AuthError::MissingToken));
    provider.set_token("t-1".to_owned());
    assert_eq!(provider.get_token().as_deref(), Some("t-1"));
    provider.clear_token();
    assert_eq!(provider.get_token(), None);
    assert_eq!(MemoryTokenProvider::from_token("x").require_token(), Ok("x".to_owned()));
    assert_eq!(AuthError::MissingToken.message(), "token is missing");
    assert_eq!(AuthError::Provider("down".to_owned()).message(), "auth provider failed: down");
}
