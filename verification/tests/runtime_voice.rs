use opencord::gateway::{GatewayCommand, GatewayStateAction};
use opencord::runtime::{
    first_reconnect, jitter_seed_at, next_reconnect_attempt, reconnect_delay_ms,
    schedule_reconnect, GatewayRuntimeEvent, GatewayRuntimeOptions,
};
use opencord::voice::{
    binary_frame_event, discovery_probe, heartbeat_payload, identify_payload, parse_discovery_response,
    parse_gateway_event, voice_jitter_seed_at, VoiceConnectionConfig, VoiceError,
    VoiceGatewayClient, VoiceGatewayEvent, VoiceHeartbeat, VoiceRuntimeEvent,
    VoiceRuntimeOptions,
};
use std::time::Duration;

fn options(base: u64, max: u64, jitter: u64) -> GatewayRuntimeOptions {
    GatewayRuntimeOptions {
        reconnect_base_delay: Duration::from_millis(base),
        reconnect_max_delay: Duration::from_millis(max),
        reconnect_jitter: Duration::from_millis(jitter),
    }
}

#[test]
fn backoff_doubles_then_caps() {
    assert_eq!(reconnect_delay_ms(500, 30_000, 0, 1, 0), 500);
    assert_eq!(reconnect_delay_ms(500, 30_000, 0, 2, 0), 1_000);
    assert_eq!(reconnect_delay_ms(500, 30_000, 0, 3, 0), 2_000);
    assert_eq!(reconnect_delay_ms(500, 30_000, 0, 7, 0), 30_000);
    assert_eq!(reconnect_delay_ms(10, 1_000_000, 0, 11, 0), 10_240);
    assert_eq!(reconnect_delay_ms(10, 1_000_000, 0, 40, 0), 10_240);
    assert_eq!(reconnect_delay_ms(500, 100, 0, 0, 0), 500);
    assert_eq!(reconnect_delay_ms(u64::MAX, u64::MAX, 0, 5, 0), u64::MAX);
}

#[test]
fn jitter_is_seed_modulo_range() {
    assert_eq!(reconnect_delay_ms(500, 30_000, 250, 1, 1000), 500 + 1000 % 251);
    assert_eq!(reconnect_delay_ms(500, 30_000, 250, 1, 250), 750);
    assert_eq!(reconnect_delay_ms(u64::MAX, u64::MAX, 10, 1, 7), u64::MAX);
}

#[test]
fn options_delay_uses_configured_durations() {
    let opts = options(10, 50, 0);
    assert_eq!(opts.reconnect_delay_with_seed(1, 99), Duration::from_millis(10));
    assert_eq!(opts.reconnect_delay_with_seed(4, 99), Duration::from_millis(50));
    assert_eq!(opts.reconnect_delay(2), Duration::from_millis(20));
    assert_eq!(opts.checked_reconnect_delay(3), Some(Duration::from_millis(40)));
    let huge = GatewayRuntimeOptions {
        reconnect_base_delay: Duration::from_millis(1),
        reconnect_max_delay: Duration::from_millis(1),
        reconnect_jitter: Duration::MAX,
    };
    assert_eq!(huge.checked_reconnect_delay(1), None);
}

#[test]
fn default_options_match_documented_policy() {
    let opts = GatewayRuntimeOptions::default();
    assert_eq!(opts.reconnect_base_delay, Duration::from_millis(500));
    assert_eq!(opts.reconnect_max_delay, Duration::from_secs(30));
    assert_eq!(opts.reconnect_jitter, Duration::from_millis(250));
    let delay = opts.reconnect_delay(1);
    assert!(delay >= Duration::from_millis(500) && delay <= Duration::from_millis(750));
    let voice = VoiceRuntimeOptions::default();
    assert_eq!(voice.reconnect_base_delay, Duration::from_millis(500));
    let delay = voice.reconnect_delay(20);
    assert!(delay >= Duration::from_secs(30) && delay <= Duration::from_millis(30_250));
}

#[test]
fn jitter_seeds_mix_clock_and_attempt() {
    assert_eq!(jitter_seed_at(0, 1), 0x9E37_79B1_85EB_CA87);
    assert_eq!(jitter_seed_at(5, 0), 5);
    assert_eq!(jitter_seed_at(1, 2), 1 ^ 0x9E37_79B1_85EB_CA87u64.wrapping_mul(2));
    assert_eq!(voice_jitter_seed_at(0, 0, 1), 0x9E37_79B9_7F4A_7C15);
    assert_eq!(voice_jitter_seed_at(1 << 64, 1, 0), 1 << 16);
}

#[test]
fn reconnect_attempts_saturate() {
    assert_eq!(next_reconnect_attempt(0), 1);
    assert_eq!(next_reconnect_attempt(u32::MAX), u32::MAX);
    let (attempt, event) = schedule_reconnect(&options(10, 50, 0), 1, true);
    assert_eq!(attempt, 2);
    match event {
        GatewayRuntimeEvent::ReconnectScheduled { attempt, resumable, delay } => {
            assert_eq!(attempt, 2);
            assert!(resumable);
            assert_eq!(delay, Duration::from_millis(20));
        }
        other => panic!("unexpected event: {other:?}"),
    }
}

#[test]
fn first_reconnect_stops_action_list() {
    let actions = vec![
        GatewayStateAction::SendHeartbeat(GatewayCommand { op: 1, d: None }),
        GatewayStateAction::Reconnect { resumable: false },
        GatewayStateAction::Reconnect { resumable: true },
    ];
    assert_eq!(first_reconnect(&actions), Some((1, false)));
    assert_eq!(first_reconnect(&actions[..1].to_vec()), None);
}

#[test]
fn parses_hello_payload() {
    let payload = r#"{"op":8,"d":{"heartbeat_interval":41250}}"#;
    let event = parse_gateway_event(payload).expect("hello payload should parse");

    assert!(matches!(
        event,
        VoiceGatewayEvent::Hello {
            heartbeat_interval_ms: 41250,
        }
    ));
}

#[test]
fn parses_ready_payload() {
    let payload = r#"{"op":2,"d":{"ip":"203.0.113.1","port":50000,"ssrc":42,"modes":["xsalsa20_poly1305"]}}"#;
    let event = parse_gateway_event(payload).expect("ready payload should parse");

    match event {
        VoiceGatewayEvent::Ready { ip, port, ssrc, modes } => {
            assert_eq!(ip, "203.0.113.1");
            assert_eq!(port, 50000);
            assert_eq!(ssrc, 42);
            assert_eq!(modes, vec!["xsalsa20_poly1305".to_owned()]);
        }
        other => panic!("unexpected event: {other:?}"),
    }
}

#[test]
fn voice_frames_other_kinds() {
    match parse_gateway_event(r#"{"op":4,"d":{"mode":"m","secret_key":[1,2,255]}}"#).unwrap() {
        VoiceGatewayEvent::SessionDescription { mode, secret_key } => {
            assert_eq!(mode, "m");
            assert_eq!(secret_key, vec![1, 2, 255]);
        }
        other => panic!("unexpected event: {other:?}"),
    }
    assert!(matches!(
        parse_gateway_event(r#"{"op":6,"d":null}"#).unwrap(),
        VoiceGatewayEvent::HeartbeatAck
    ));
    match parse_gateway_event(r#"{"op":13,"d":{"x":1}}"#).unwrap() {
        VoiceGatewayEvent::Unknown(v) => {
            assert_eq!(v, serde_json::from_str::<serde_json::Value>(r#"{"op":13,"d":{"x":1}}"#).unwrap())
        }
        other => panic!("unexpected event: {other:?}"),
    }
    match parse_gateway_event(r#"{"op":13}"#).unwrap() {
        VoiceGatewayEvent::Unknown(v) => {
            assert_eq!(v, serde_json::from_str::<serde_json::Value>(r#"{"op":13,"d":null}"#).unwrap())
        }
        other => panic!("unexpected event: {other:?}"),
    }
    match parse_gateway_event(r#"{"op":2,"d":{"ip":"1.2.3.4","port":1,"ssrc":2}}"#).unwrap() {
        VoiceGatewayEvent::Ready { modes, .. } => assert!(modes.is_empty()),
        other => panic!("unexpected event: {other:?}"),
    }
}

#[test]
fn voice_frames_refused() {
    assert!(matches!(parse_gateway_event("{"), Err(VoiceError::Payload(_))));
    assert_eq!(
        parse_gateway_event(r#"{"d":1}"#).unwrap_err(),
        VoiceError::Payload(opencord::voice::BAD_VOICE_FRAME.to_owned())
    );
    assert_eq!(
        parse_gateway_event(r#"{"op":2,"d":{"ip":"1","port":70000,"ssrc":1}}"#).unwrap_err(),
        VoiceError::Payload(opencord::voice::BAD_VOICE_READY.to_owned())
    );
    assert_eq!(
        parse_gateway_event(r#"{"op":4,"d":{"mode":"m","secret_key":[256]}}"#).unwrap_err(),
        VoiceError::Payload(opencord::voice::BAD_VOICE_DESCRIPTION.to_owned())
    );
    assert_eq!(
        parse_gateway_event(r#"{"op":8,"d":{}}"#).unwrap_err(),
        VoiceError::Payload(opencord::voice::BAD_VOICE_HELLO.to_owned())
    );
    assert_eq!(VoiceError::Udp("x".to_owned()).message(), "voice udp error: x");
}

#[test]
fn voice_public_api_lock() {
    let client = VoiceGatewayClient::new(url::Url::parse("wss://gateway.discord.gg").expect("valid URL"));
    let _ = client.gateway_url();

    let _ = VoiceRuntimeEvent::Shutdown;
    let _ = VoiceRuntimeEvent::ReconnectScheduled {
        attempt: 1,
        delay: std::time::Duration::from_millis(10),
    };
    let _ = VoiceRuntimeEvent::GatewayEvent(VoiceGatewayEvent::HeartbeatAck);
}

#[test]
fn voice_heartbeat_needs_ack_between_ticks() {
    let mut hb = VoiceHeartbeat::new();
    assert_eq!(hb.on_tick(), Some(1));
    assert_eq!(hb.on_tick(), None);
    hb.on_ack();
    assert_eq!(hb.on_tick(), Some(2));
}

#[test]
fn voice_outgoing_frames() {
    let config = VoiceConnectionConfig {
        guild_id: "guild-1".to_owned(),
        user_id: "user-1".to_owned(),
        session_id: "session-1".to_owned(),
        token: "token-1".to_owned(),
    };
    let identify = identify_payload(&config);
    assert_eq!(identify["op"], 0);
    assert_eq!(identify["d"]["server_id"], "guild-1");
    assert_eq!(identify["d"]["user_id"], "user-1");
    assert_eq!(identify["d"]["session_id"], "session-1");
    assert_eq!(identify["d"]["token"], "token-1");
    let heartbeat = heartbeat_payload(7);
    assert_eq!(heartbeat["op"], 3);
    assert_eq!(heartbeat["d"], 7);
}

#[test]
fn udp_discovery_packets() {
    let probe = discovery_probe(0x0102_0304);
    assert_eq!(probe.len(), 70);
    assert_eq!(&probe[..4], &[1, 2, 3, 4]);
    assert!(probe[4..].iter().all(|b| *b == 0));

    let mut response = [0_u8; 70];
    response[4..15].copy_from_slice(b" 203.0.113.");
    response[15] = b'9';
    response[68] = 0xC3;
    response[69] = 0x50;
    let result = parse_discovery_response(&response);
    assert_eq!(result.ip, "203.0.113.9");
    assert_eq!(result.port, 50000);
}

#[test]
fn binary_voice_frames_are_reported_as_unknown() {
    match binary_frame_event() {
        VoiceGatewayEvent::Unknown(v) => assert_eq!(v, serde_json::from_str::<serde_json::Value>(r#"{"kind":"binary"}"#).unwrap()),
        other => panic!("unexpected event: {other:?}"),
    }
}
