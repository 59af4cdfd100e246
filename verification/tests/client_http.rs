use opencord::client::{
    gateway_url_with_defaults, plan_gateway_startup, session_record_to_persist, ClientError,
};
use opencord::auth::AuthError;
use opencord::gateway::{GatewaySession, GatewayStateMachine, GatewayStateMachineConfig};
use opencord::http::{
    endpoint, endpoint_text, rate_limit_retry, retry_after_ms, seconds_to_ms, status_text, HttpError,
};
use opencord::storage::GatewaySessionRecord;

#[test]
fn gateway_client_preserves_existing_gateway_query() {
    let url = gateway_url_with_defaults("wss://gateway.discord.gg/?v=9&encoding=etf").expect("gateway client");
    assert_eq!(url.query(), Some("v=9&encoding=etf"));
}

#[test]
fn gateway_client_keeps_non_websocket_url_unchanged() {
    let url = gateway_url_with_defaults("https://gateway.discord.gg/path").expect("gateway client");
    assert_eq!(url.scheme(), "https");
    assert_eq!(url.query(), None);
    assert_eq!(url.path(), "/path");
}

#[test]
fn gateway_url_gets_default_query() {
    let url = gateway_url_with_defaults("wss://gateway.discord.gg").unwrap();
    assert_eq!(url.as_str(), "wss://gateway.discord.gg/?v=10&encoding=json");
    assert!(matches!(gateway_url_with_defaults("not a url"), Err(ClientError::Url(_))));
}

#[test]
fn gateway_url_default_query_reads_back_beside_fragment() {
    let url = gateway_url_with_defaults("ws://127.0.0.1:9000/gw#frag").unwrap();
    assert_eq!(url.scheme(), "ws");
    assert_eq!(url.query(), Some("v=10&encoding=json"));
    assert_eq!(url.fragment(), Some("frag"));
    assert_eq!(url.as_str(), "ws://127.0.0.1:9000/gw?v=10&encoding=json#frag");
}

#[test]
fn bootstrap_gateway_drops_invalid_persisted_resume_url() {
    let url = gateway_url_with_defaults("wss://gateway.discord.gg/").unwrap();
    let (startup, drop_persisted) = plan_gateway_startup(
        url,
        GatewayStateMachineConfig::new("token-123".to_owned(), 513),
        Some(GatewaySessionRecord {
            session_id: "session-abc".to_owned(),
            seq: 42,
            resume_url: "not-a-url".to_owned(),
        }),
    );

    assert_eq!(
        startup.gateway_client.gateway_url().as_str(),
        "wss://gateway.discord.gg/?v=10&encoding=json"
    );
    assert!(!startup.state_machine.can_resume());
    assert!(drop_persisted);
}

#[test]
fn bootstrap_gateway_resumes_valid_persisted_session() {
    let url = gateway_url_with_defaults("wss://gateway.discord.gg/").unwrap();
    let (startup, drop_persisted) = plan_gateway_startup(
        url,
        GatewayStateMachineConfig::new("token-123".to_owned(), 513),
        Some(GatewaySessionRecord {
            session_id: "session-abc".to_owned(),
            seq: 42,
            resume_url: "wss://resume.discord.gg".to_owned(),
        }),
    );
    assert!(!drop_persisted);
    assert!(startup.state_machine.can_resume());
    assert_eq!(startup.state_machine.resume_url(), Some("wss://resume.discord.gg"));
}

#[test]
fn persisted_record_falls_back_to_gateway_url() {
    let mut machine = GatewayStateMachine::new(GatewayStateMachineConfig::new("t".to_owned(), 1));
    let fallback = url::Url::parse("wss://gateway.discord.gg").unwrap();
    assert!(session_record_to_persist(&machine, &fallback).is_none());
    machine.restore_session(GatewaySession { session_id: "s".to_owned(), sequence: 4 });
    assert_eq!(
        session_record_to_persist(&machine, &fallback),
        Some(GatewaySessionRecord {
            session_id: "s".to_owned(),
            seq: 4,
            resume_url: "wss://gateway.discord.gg/".to_owned()
        })
    );
    machine.set_resume_url("wss://resume".to_owned());
    assert_eq!(
        session_record_to_persist(&machine, &fallback).map(|r| r.resume_url),
        Some("wss://resume".to_owned())
    );
}

#[test]
fn client_public_api_lock() {
    let _ = ClientError::Auth(AuthError::MissingToken);
}

#[test]
fn client_error_messages_are_the_cause() {
    assert_eq!(ClientError::Auth(AuthError::MissingToken).message(), "token is missing");
    assert_eq!(
        ClientError::Http(HttpError::InvalidPath("/".to_owned())).message(),
        "invalid URL path: /"
    );
}

#[test]
fn endpoint_joins_base_and_path() {
    assert_eq!(
        endpoint_text("https://discord.com/api/v10/", "/users/@me").unwrap(),
        "https://discord.com/api/v10/users/@me"
    );
    assert_eq!(
        endpoint_text("https://discord.com/api/v10", "gateway/bot").unwrap(),
        "https://discord.com/api/v10/gateway/bot"
    );
    assert_eq!(
        endpoint_text("https://discord.com/api/v10", "///"),
        Err(HttpError::InvalidPath("///".to_owned()))
    );
    let base = url::Url::parse("https://discord.com/api/v10").unwrap();
    assert_eq!(
        endpoint(&base, "channels/1/messages").unwrap().as_str(),
        "https://discord.com/api/v10/channels/1/messages"
    );
    assert_eq!(endpoint(&base, ""), Err(HttpError::InvalidPath("".to_owned())));
}

#[test]
fn http_error_messages() {
    assert_eq!(
        HttpError::Status { status: 400, body: "body".to_owned() }.message(),
        "request failed with status 400 Bad Request: body"
    );
    assert_eq!(status_text(429), "429 Too Many Requests");
    assert_eq!(status_text(404), "404 Not Found");
    assert_eq!(status_text(599), "599 <unknown status code>");
    assert_eq!(status_text(7), "7 <unknown status code>");
    assert_eq!(HttpError::Request("x".to_owned()).message(), "request failed: x");
    assert_eq!(HttpError::Url("y".to_owned()).message(), "url parse error: y");
}

#[test]
fn retries_from_json_body_retry_after_without_headers() {
    let body = br#"{"message":"rate limited","retry_after":0.01}"#;
    assert_eq!(rate_limit_retry(429, 0, None, body), Some(10));
    assert_eq!(rate_limit_retry(200, 0, None, br#"{"ok":true}"#), None);
}

#[test]
fn rate_limit_retry_prefers_header_and_is_bounded() {
    assert_eq!(retry_after_ms(Some("2"), br#"{"retry_after":0.01}"#), 2000);
    assert_eq!(retry_after_ms(Some("soon"), br#"{"retry_after":1.5}"#), 1500);
    assert_eq!(retry_after_ms(None, b"not json"), 1000);
    assert_eq!(rate_limit_retry(429, 3, None, b""), None);
    assert_eq!(rate_limit_retry(429, 2, None, b""), Some(1000));
}

#[test]
fn seconds_round_up_to_milliseconds() {
    assert_eq!(seconds_to_ms("0.01"), Some(10));
    assert_eq!(seconds_to_ms("1.2345"), Some(1235));
    assert_eq!(seconds_to_ms("1.2340"), Some(1234));
    assert_eq!(seconds_to_ms("3"), Some(3000));
    assert_eq!(seconds_to_ms("3."), Some(3000));
    assert_eq!(seconds_to_ms(".5"), None);
    assert_eq!(seconds_to_ms("+1"), None);
    assert_eq!(seconds_to_ms("1e3"), None);
    assert_eq!(seconds_to_ms("18446744073709551615"), Some(u64::MAX));
}
