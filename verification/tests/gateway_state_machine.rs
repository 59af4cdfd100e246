use opencord::gateway::{
    command_frame, heartbeat_command, identify_command, parse_event, resume_command, GatewayClient,
    GatewayCommand, GatewayConnectionState, GatewayError, GatewayEvent, GatewayHelloPayload,
    GatewayIdentifyPayload, GatewayResumePayload, GatewaySession, GatewayStateAction,
    GatewayStateMachine, GatewayStateMachineConfig,
};
use opencord::runtime::{connection_step, ConnectionStep, GatewayRuntimeEvent, GatewayRuntimeOptions, SocketInput};
use serde_json::Value;
use std::time::Duration;

fn machine() -> GatewayStateMachine {
    GatewayStateMachine::new(GatewayStateMachineConfig::new("token-123".to_owned(), 513))
}

fn edge_machine() -> GatewayStateMachine {
    GatewayStateMachine::new(GatewayStateMachineConfig::new("token-edge".to_owned(), 513))
}

fn json(text: &str) -> Value {
    serde_json::from_str(text).expect("test JSON should parse")
}

fn establish_session(sm: &mut GatewayStateMachine, sequence: u64, session_id: &str) {
    sm.on_connect();
    let actions = sm.on_event(&GatewayEvent::Hello(GatewayHelloPayload {
        heartbeat_interval: 5_000,
    }));

    assert_eq!(
        actions[0],
        GatewayStateAction::ConfigureHeartbeat {
            interval: Duration::from_millis(5_000)
        }
    );

    sm.on_event(&GatewayEvent::Dispatch {
        event_type: Some("READY".to_owned()),
        sequence: Some(sequence),
        data: json(&format!("{{\"session_id\":\"{session_id}\"}}")),
    });
    assert_eq!(sm.state(), GatewayConnectionState::Connected);
}

#[test]
fn parse_hello_event() {
    let event = parse_event(r#"{"op":10,"d":{"heartbeat_interval":41250}}"#).unwrap();
    assert!(matches!(
        event,
        GatewayEvent::Hello(GatewayHelloPayload {
            heartbeat_interval: 41250
        })
    ));
}

#[test]
fn hello_without_session_sends_identify() {
    let mut sm = machine();
    sm.on_connect();

    let actions = sm.on_event(&GatewayEvent::Hello(GatewayHelloPayload {
        heartbeat_interval: 1000,
    }));

    assert_eq!(sm.state(), GatewayConnectionState::Handshaking);
    assert_eq!(actions.len(), 2);
    assert_eq!(
        actions[0],
        GatewayStateAction::ConfigureHeartbeat {
            interval: Duration::from_millis(1000)
        }
    );
    assert!(matches!(
        &actions[1],
        GatewayStateAction::SendIdentify(GatewayCommand { op: 2, .. })
    ));
}

#[test]
fn hello_with_restored_session_sends_resume() {
    let mut sm = machine();
    sm.restore_session(GatewaySession {
        session_id: "session-abc".to_owned(),
        sequence: 42,
    });
    sm.on_connect();

    let actions = sm.on_event(&GatewayEvent::Hello(GatewayHelloPayload {
        heartbeat_interval: 45000,
    }));

    assert!(matches!(
        &actions[1],
        GatewayStateAction::SendResume(GatewayCommand {
            op: 6,
            d: GatewayResumePayload { seq: 42, .. }
        })
    ));
}

#[test]
fn ready_dispatch_persists_session_and_marks_connected() {
    let mut sm = machine();
    sm.on_connect();
    sm.on_event(&GatewayEvent::Hello(GatewayHelloPayload {
        heartbeat_interval: 30000,
    }));

    let dispatch = GatewayEvent::Dispatch {
        event_type: Some("READY".to_owned()),
        sequence: Some(7),
        data: json(r#"{ "session_id": "session-xyz" }"#),
    };
    let actions = sm.on_event(&dispatch);

    assert!(actions.is_empty());
    assert_eq!(sm.state(), GatewayConnectionState::Connected);
    assert_eq!(
        sm.session(),
        Some(GatewaySession {
            session_id: "session-xyz".to_owned(),
            sequence: 7
        })
    );
    assert!(sm.resume_url().is_none());
}

#[test]
fn ready_dispatch_persists_resume_url() {
    let mut sm = machine();
    sm.on_connect();
    sm.on_event(&GatewayEvent::Hello(GatewayHelloPayload {
        heartbeat_interval: 30000,
    }));

    let dispatch = GatewayEvent::Dispatch {
        event_type: Some("READY".to_owned()),
        sequence: Some(7),
        data: json(
            r#"{"session_id": "session-xyz", "resume_gateway_url": "wss://gateway.discord.gg/?v=10&encoding=json"}"#,
        ),
    };

    let actions = sm.on_event(&dispatch);
    assert!(actions.is_empty());
    assert_eq!(
        sm.resume_url(),
        Some("wss://gateway.discord.gg/?v=10&encoding=json")
    );
}

#[test]
fn heartbeat_tick_requires_ack_before_next_tick() {
    let mut sm = machine();
    sm.restore_session(GatewaySession {
        session_id: "session-xyz".to_owned(),
        sequence: 99,
    });

    let first = sm.on_heartbeat_tick();
    assert!(matches!(
        first,
        GatewayStateAction::SendHeartbeat(GatewayCommand { op: 1, d: Some(99) })
    ));

    let second = sm.on_heartbeat_tick();
    assert_eq!(second, GatewayStateAction::Reconnect { resumable: true });
    assert_eq!(sm.state(), GatewayConnectionState::ReconnectRequested);

    sm.on_event(&GatewayEvent::HeartbeatAck);
    assert_eq!(sm.state(), GatewayConnectionState::ReconnectRequested);
}

#[test]
fn invalid_session_non_resumable_forces_identify_next_time() {
    let mut sm = machine();
    sm.restore_session(GatewaySession {
        session_id: "session-xyz".to_owned(),
        sequence: 9,
    });

    let actions = sm.on_event(&GatewayEvent::InvalidSession { resumable: false });
    assert_eq!(
        actions,
        vec![GatewayStateAction::Reconnect { resumable: false }]
    );
    assert!(!sm.can_resume());

    sm.on_connect();
    let actions = sm.on_event(&GatewayEvent::Hello(GatewayHelloPayload {
        heartbeat_interval: 1000,
    }));
    assert!(matches!(
        actions[1],
        GatewayStateAction::SendIdentify(GatewayCommand { op: 2, .. })
    ));
}

#[test]
fn restore_session_with_resume_url_sets_both_fields() {
    let mut sm = machine();
    sm.restore_session_with_resume_url(
        GatewaySession {
            session_id: "session-abc".to_owned(),
            sequence: 42,
        },
        "wss://gateway.discord.gg/?v=10&encoding=json".to_owned(),
    );

    assert!(sm.can_resume());
    assert_eq!(
        sm.resume_url(),
        Some("wss://gateway.discord.gg/?v=10&encoding=json")
    );
}

#[test]
fn timer_tick_after_ack_sends_next_heartbeat_without_reconnect() {
    let mut sm = machine();
    establish_session(&mut sm, 12, "session-timer");

    let first = sm.on_heartbeat_tick();
    assert!(matches!(
        first,
        GatewayStateAction::SendHeartbeat(GatewayCommand { op: 1, d: Some(12) })
    ));

    sm.on_event(&GatewayEvent::HeartbeatAck);

    let second = sm.on_heartbeat_tick();
    assert!(matches!(
        second,
        GatewayStateAction::SendHeartbeat(GatewayCommand { op: 1, d: Some(12) })
    ));
    assert_eq!(sm.state(), GatewayConnectionState::Connected);
}

#[test]
fn timer_tick_without_ack_requests_resumable_reconnect() {
    let mut sm = machine();
    establish_session(&mut sm, 99, "session-reconnect");

    let _ = sm.on_heartbeat_tick();
    let reconnect = sm.on_heartbeat_tick();

    assert_eq!(reconnect, GatewayStateAction::Reconnect { resumable: true });
    assert_eq!(sm.state(), GatewayConnectionState::ReconnectRequested);
}

#[test]
fn reconnect_event_without_session_is_not_resumable() {
    let mut sm = machine();
    sm.on_connect();
    sm.on_event(&GatewayEvent::Hello(GatewayHelloPayload {
        heartbeat_interval: 1_000,
    }));

    let actions = sm.on_event(&GatewayEvent::Reconnect);
    assert_eq!(
        actions,
        vec![GatewayStateAction::Reconnect { resumable: false }]
    );
    assert_eq!(sm.state(), GatewayConnectionState::ReconnectRequested);
}

#[test]
fn reconnect_event_with_session_is_resumable() {
    let mut sm = machine();
    establish_session(&mut sm, 77, "session-reconnect-event");

    let actions = sm.on_event(&GatewayEvent::Reconnect);
    assert_eq!(
        actions,
        vec![GatewayStateAction::Reconnect { resumable: true }]
    );
    assert_eq!(sm.state(), GatewayConnectionState::ReconnectRequested);
}

#[test]
fn resumable_invalid_session_keeps_resume_state_for_next_hello() {
    let mut sm = machine();
    sm.restore_session(GatewaySession {
        session_id: "session-resume".to_owned(),
        sequence: 42,
    });

    let actions = sm.on_event(&GatewayEvent::InvalidSession { resumable: true });
    assert_eq!(
        actions,
        vec![GatewayStateAction::Reconnect { resumable: true }]
    );

    sm.on_connect();
    let hello_actions = sm.on_event(&GatewayEvent::Hello(GatewayHelloPayload {
        heartbeat_interval: 1_000,
    }));

    assert!(matches!(
        hello_actions[1],
        GatewayStateAction::SendResume(GatewayCommand {
            op: 6,
            d: GatewayResumePayload { seq: 42, .. }
        })
    ));
}

#[test]
fn parse_invalid_session_without_bool_defaults_to_non_resumable() {
    let event = parse_event(r#"{"op":9,"d":{}}"#).expect("parse should succeed");
    assert!(matches!(
        event,
        GatewayEvent::InvalidSession { resumable: false }
    ));
}

#[test]
fn empty_resume_url_is_ignored_to_prevent_poisoned_state() {
    let mut sm = edge_machine();
    sm.set_resume_url("   ".to_owned());
    assert!(sm.resume_url().is_none());

    sm.set_resume_url("wss://gateway.discord.gg".to_owned());
    assert_eq!(sm.resume_url(), Some("wss://gateway.discord.gg"));
}

#[test]
fn heartbeat_request_without_ack_forces_reconnect_on_next_tick() {
    let mut sm = edge_machine();
    sm.restore_session(GatewaySession {
        session_id: "session-edge".to_owned(),
        sequence: 88,
    });
    sm.on_connect();
    sm.on_event(&GatewayEvent::Hello(GatewayHelloPayload {
        heartbeat_interval: 1_000,
    }));

    let actions = sm.on_event(&GatewayEvent::HeartbeatRequest);
    assert!(matches!(
        actions.as_slice(),
        [GatewayStateAction::SendHeartbeat(GatewayCommand { op: 1, d: Some(88) })]
    ));

    let reconnect = sm.on_heartbeat_tick();
    assert_eq!(reconnect, GatewayStateAction::Reconnect { resumable: true });
}

#[test]
fn gateway_public_api_lock() {
    let client = GatewayClient::new(url::Url::parse("wss://gateway.discord.gg").expect("valid URL"));
    let _ = client.gateway_url();

    let _ = parse_event(r#"{"op":11}"#);

    let identify: GatewayCommand<GatewayIdentifyPayload> =
        identify_command(GatewayIdentifyPayload {
            token: "token".to_owned(),
            intents: 513,
            properties: Default::default(),
        });
    assert_eq!(identify.op, 2);

    let resume = resume_command(GatewayResumePayload {
        token: "token".to_owned(),
        session_id: "session".to_owned(),
        seq: 1,
    });
    assert_eq!(resume.op, 6);

    let heartbeat = heartbeat_command(Some(1));
    assert_eq!(heartbeat.op, 1);

    let mut machine = machine();
    machine.on_connect();
    let _ = machine.state();
    let _ = machine.heartbeat_interval();
    let _ = machine.can_resume();
    let _ = machine.on_event(&GatewayEvent::Hello(GatewayHelloPayload {
        heartbeat_interval: 1000,
    }));
    let _ = machine.on_heartbeat_tick();
    machine.restore_session(GatewaySession {
        session_id: "session".to_owned(),
        sequence: 1,
    });
    machine.set_resume_url("wss://gateway.discord.gg".to_owned());
    let _ = machine.resume_url();
    machine.clear_session();
    machine.on_disconnect();

    let _ = GatewayConnectionState::Disconnected;
    let _ = GatewayStateAction::Reconnect { resumable: true };
    let _ = GatewayEvent::Unknown(Value::Null);

    let _ = GatewayRuntimeOptions::default();
    let _ = GatewayRuntimeEvent::GatewayEvent(GatewayEvent::HeartbeatAck);
    let _ = GatewayRuntimeEvent::ReconnectScheduled {
        attempt: 1,
        resumable: true,
        delay: Duration::from_secs(1),
    };
    let _ = GatewayRuntimeEvent::Shutdown;
}

// ---------------------------------------------------------------------------
// Frames and laws on concrete values
// ---------------------------------------------------------------------------

#[test]
fn parse_dispatch_reads_type_sequence_and_payload() {
    let event = parse_event(r#"{"op":0,"t":"MESSAGE_CREATE","s":5,"d":{"id":"1"}}"#).unwrap();
    match event {
        GatewayEvent::Dispatch { event_type, sequence, data } => {
            assert_eq!(event_type.as_deref(), Some("MESSAGE_CREATE"));
            assert_eq!(sequence, Some(5));
            assert_eq!(data, json(r#"{"id":"1"}"#));
        }
        other => panic!("unexpected event: {other:?}"),
    }
}

#[test]
fn parse_frame_without_op_is_a_dispatch_with_null_payload() {
    let event = parse_event(r#"{"t":"X"}"#).unwrap();
    match event {
        GatewayEvent::Dispatch { event_type, sequence, data } => {
            assert_eq!(event_type.as_deref(), Some("X"));
            assert_eq!(sequence, None);
            assert!(data.is_null());
        }
        other => panic!("unexpected event: {other:?}"),
    }
}

#[test]
fn parse_invalid_session_true_is_resumable() {
    let event = parse_event(r#"{"op":9,"d":true}"#).unwrap();
    assert!(matches!(event, GatewayEvent::InvalidSession { resumable: true }));
}

#[test]
fn parse_other_opcodes() {
    assert!(matches!(parse_event(r#"{"op":1}"#).unwrap(), GatewayEvent::HeartbeatRequest));
    assert!(matches!(parse_event(r#"{"op":7}"#).unwrap(), GatewayEvent::Reconnect));
    assert!(matches!(parse_event(r#"{"op":11}"#).unwrap(), GatewayEvent::HeartbeatAck));
    match parse_event(r#"{"op":42,"d":1}"#).unwrap() {
        GatewayEvent::Unknown(body) => assert_eq!(body, json(r#"{"op":42,"d":1}"#)),
        other => panic!("unexpected event: {other:?}"),
    }
}

#[test]
fn parse_rejects_invalid_json_and_bad_hello() {
    assert!(matches!(parse_event("not json"), Err(GatewayError::Payload(_))));
    match parse_event(r#"{"op":10,"d":{}}"#) {
        Err(GatewayError::Payload(message)) => {
            assert_eq!(message, opencord::gateway::BAD_HELLO)
        }
        other => panic!("unexpected result: {other:?}"),
    }
    assert!(parse_event(r#"{"op":10}"#).is_err());
    assert!(parse_event(r#"{"op":10,"d":{"heartbeat_interval":-5}}"#).is_err());
}

#[test]
fn parse_hello_accepts_array_form() {
    let event = parse_event(r#"{"op":10,"d":[250]}"#).unwrap();
    assert!(matches!(
        event,
        GatewayEvent::Hello(GatewayHelloPayload { heartbeat_interval: 250 })
    ));
    assert!(parse_event(r#"{"op":10,"d":[250, 1]}"#).is_err());
}

#[test]
fn gateway_error_messages_name_their_kind() {
    assert_eq!(
        GatewayError::Payload("bad".to_owned()).message(),
        "invalid gateway payload: bad"
    );
    assert_eq!(GatewayError::Url("x".to_owned()).message(), "invalid gateway URL: x");
    assert_eq!(GatewayError::WebSocket("y".to_owned()).message(), "websocket error: y");
}

#[test]
fn cleared_session_cannot_resume_and_identifies() {
    let mut sm = machine();
    sm.restore_session_with_resume_url(
        GatewaySession { session_id: "s".to_owned(), sequence: 3 },
        "wss://resume".to_owned(),
    );
    sm.clear_session();
    assert!(!sm.can_resume());
    assert!(sm.session().is_none());
    assert!(sm.resume_url().is_none());
    sm.on_connect();
    let actions = sm.on_event(&GatewayEvent::Hello(GatewayHelloPayload { heartbeat_interval: 10 }));
    match &actions[1] {
        GatewayStateAction::SendIdentify(command) => {
            assert_eq!(command.d.token, "token-123");
            assert_eq!(command.d.intents, 513);
            assert_eq!(command.d.properties.browser, "opencord-rust-client");
        }
        other => panic!("unexpected action: {other:?}"),
    }
}

#[test]
fn session_survives_disconnect_and_reconnect() {
    let mut sm = machine();
    establish_session(&mut sm, 5, "kept");
    sm.on_disconnect();
    assert_eq!(sm.state(), GatewayConnectionState::Disconnected);
    assert!(sm.heartbeat_interval().is_none());
    sm.on_connect();
    assert_eq!(sm.state(), GatewayConnectionState::AwaitingHello);
    assert_eq!(
        sm.session(),
        Some(GatewaySession { session_id: "kept".to_owned(), sequence: 5 })
    );
}

#[test]
fn dispatch_sequence_is_carried_by_next_heartbeat() {
    let mut sm = machine();
    sm.on_event(&GatewayEvent::Dispatch {
        event_type: Some("TYPING_START".to_owned()),
        sequence: Some(31),
        data: Value::Null,
    });
    assert_eq!(
        sm.on_heartbeat_tick(),
        GatewayStateAction::SendHeartbeat(GatewayCommand { op: 1, d: Some(31) })
    );
}

#[test]
fn resumed_dispatch_marks_connected() {
    let mut sm = machine();
    sm.on_connect();
    sm.on_event(&GatewayEvent::Dispatch {
        event_type: Some("RESUMED".to_owned()),
        sequence: None,
        data: Value::Null,
    });
    assert_eq!(sm.state(), GatewayConnectionState::Connected);
}

#[test]
fn ready_with_blank_resume_url_keeps_previous_url() {
    let mut sm = machine();
    sm.set_resume_url("wss://kept".to_owned());
    sm.on_event(&GatewayEvent::Dispatch {
        event_type: Some("READY".to_owned()),
        sequence: Some(1),
        data: json(r#"{"session_id":"s","resume_gateway_url":"  "}"#),
    });
    assert_eq!(sm.resume_url(), Some("wss://kept"));
}

#[test]
fn identify_properties_default_names_this_client() {
    let properties = opencord::gateway::GatewayIdentifyProperties::default();
    assert_eq!(properties.browser, "opencord-rust-client");
    assert_eq!(properties.device, "opencord-rust-client");
    assert_eq!(properties.os, "unknown");
}

#[test]
fn command_frames_carry_opcode_and_payload() {
    let mut sm = machine();
    sm.on_connect();
    let actions = sm.on_event(&GatewayEvent::Hello(GatewayHelloPayload { heartbeat_interval: 1_000 }));
    assert_eq!(command_frame(&actions[0]), None);
    let identify = command_frame(&actions[1]).expect("identify is sent");
    assert_eq!(identify["op"], 2);
    assert_eq!(identify["d"]["token"], "token-123");
    assert_eq!(identify["d"]["intents"], 513);
    assert!(identify["d"]["properties"]["os"].is_string());
    assert!(identify["d"]["properties"]["browser"].is_string());
    assert!(identify["d"]["properties"]["device"].is_string());

    let resume = GatewayStateAction::SendResume(resume_command(GatewayResumePayload {
        token: "t".to_owned(),
        session_id: "s".to_owned(),
        seq: 9,
    }));
    let frame = command_frame(&resume).expect("resume is sent");
    assert_eq!(frame, json(r#"{"op":6,"d":{"token":"t","session_id":"s","seq":9}}"#));

    let beat = command_frame(&GatewayStateAction::SendHeartbeat(heartbeat_command(Some(41)))).expect("heartbeat");
    assert_eq!(beat, json(r#"{"op":1,"d":41}"#));
    let first_beat = command_frame(&GatewayStateAction::SendHeartbeat(heartbeat_command(None))).expect("heartbeat");
    assert_eq!(first_beat, json(r#"{"op":1,"d":null}"#));
    assert_eq!(command_frame(&GatewayStateAction::Reconnect { resumable: true }), None);
}

#[test]
fn socket_inputs_drive_the_connection() {
    let mut sm = machine();
    sm.on_connect();
    match connection_step(&mut sm, SocketInput::Text(r#"{"op":10,"d":{"heartbeat_interval":1000}}"#.to_owned())).unwrap() {
        ConnectionStep::Handle { event, actions } => {
            assert!(matches!(event, GatewayEvent::Hello(GatewayHelloPayload { heartbeat_interval: 1000 })));
            assert_eq!(actions.len(), 2);
            assert!(matches!(actions[1], GatewayStateAction::SendIdentify(_)));
        }
        other => panic!("unexpected step: {other:?}"),
    }
    assert!(matches!(
        connection_step(&mut sm, SocketInput::Text("not json".to_owned())),
        Err(GatewayError::Payload(_))
    ));
    match connection_step(&mut sm, SocketInput::Binary).unwrap() {
        ConnectionStep::Handle { event, actions } => {
            assert!(matches!(event, GatewayEvent::NonTextFrame));
            assert!(actions.is_empty());
        }
        other => panic!("unexpected step: {other:?}"),
    }
    match connection_step(&mut sm, SocketInput::Ping(vec![1, 2])).unwrap() {
        ConnectionStep::Pong(p) => assert_eq!(p, vec![1, 2]),
        other => panic!("unexpected step: {other:?}"),
    }
    assert!(matches!(connection_step(&mut sm, SocketInput::Quiet).unwrap(), ConnectionStep::Ignore));
    assert!(matches!(
        connection_step(&mut sm, SocketInput::Close).unwrap(),
        ConnectionStep::Reconnect { resumable: false }
    ));
    establish_session(&mut sm, 3, "s-1");
    assert!(matches!(
        connection_step(&mut sm, SocketInput::Failed).unwrap(),
        ConnectionStep::Reconnect { resumable: true }
    ));
}

#[test]
fn cleared_session_identifies_until_ready() {
    let mut sm = machine();
    establish_session(&mut sm, 7, "s-9");
    assert!(sm.can_resume());
    sm.clear_session();
    sm.on_disconnect();
    sm.on_connect();
    sm.on_event(&GatewayEvent::Dispatch { event_type: Some("RESUMED".to_owned()), sequence: Some(8), data: json("{}") });
    sm.on_event(&GatewayEvent::HeartbeatAck);
    sm.on_heartbeat_tick();
    sm.set_resume_url("wss://resume.example".to_owned());
    let actions = sm.on_event(&GatewayEvent::Hello(GatewayHelloPayload { heartbeat_interval: 500 }));
    assert!(!sm.can_resume());
    assert!(matches!(actions[1], GatewayStateAction::SendIdentify(_)));
}
