use slight::error_code;
use slight::gateway::{authorize, session_error, AuthContext, ConnState, FrameDecision, GatewayConfig, Scope};
use slight::protocol::{ClientHello, Frame, GatewayCommand, PingFrame, PROTOCOL_VERSION};
use slight::session_types::SessionError;
use slight::time::rfc3339_from_ms;

#[test]
fn formats_rfc3339_utc() {
    assert_eq!(rfc3339_from_ms(0), "1970-01-01T00:00:00Z");
    assert_eq!(rfc3339_from_ms(1_700_000_000_000), "2023-11-14T22:13:20Z");
    assert_eq!(rfc3339_from_ms(1_700_000_000_123), "2023-11-14T22:13:20.123Z");
}

#[test]
fn formats_leap_days_and_times_before_the_epoch() {
    assert_eq!(rfc3339_from_ms(951_782_400_000), "2000-02-29T00:00:00Z");
    assert_eq!(rfc3339_from_ms(-1), "1969-12-31T23:59:59.999Z");
    assert_eq!(rfc3339_from_ms(-62_135_596_800_000), "0001-01-01T00:00:00Z");
}

#[test]
fn unsupported_capability_maps_to_stable_code() {
    let error = session_error(SessionError::UnsupportedCapability("session/load".to_string()));
    assert_eq!(error.code(), error_code::UNSUPPORTED_CAPABILITY);
    assert!(!error.retryable());
}

#[test]
fn session_errors_keep_their_meaning() {
    assert_eq!(session_error(SessionError::UnknownAgent("x".to_string())).message(), "invalid params: unknown agent: x");
    assert_eq!(session_error(SessionError::EmptyTitle).code(), error_code::INVALID_PARAMS);
}

fn hello(version: u32) -> ClientHello {
    ClientHello {
        protocol_version: version,
        client_id: "test-client".to_string(),
        client_name: "test".to_string(),
        client_version: "0.1.0".to_string(),
        device_id: Some("test-device".to_string()),
        credential: Some("secret".to_string()),
        resume: None,
    }
}

#[test]
fn commands_before_hello_are_refused_and_retries_are_answered_once() {
    let mut state = ConnState::new();
    let command = GatewayCommand::new("r-1", "session.list");
    match state.process_frame(Frame::Command(command)) {
        FrameDecision::Reply(frame) => match &*frame {
            Frame::Ack(ack) => {
                assert!(!ack.ok);
                assert_eq!(ack.error.as_ref().unwrap().code, "unauthenticated");
            }
            other => panic!("expected ack, got {other:?}"),
        },
        _ => panic!("expected a reply"),
    }
    let config = GatewayConfig::local_default();
    let limited = AuthContext { device_id: "d".to_string(), device_label: "l".to_string(), scopes: vec![Scope::ReadSessions] };
    let welcome = state.accept_hello(&hello(PROTOCOL_VERSION), Ok(limited), &config, "c-1".to_string());
    assert!(matches!(&*welcome, Frame::Welcome(_)));
    let refused = match state.process_frame(Frame::Command(GatewayCommand::new("r-2", "host.stop"))) {
        FrameDecision::Reply(frame) => frame,
        _ => panic!("expected a refusal"),
    };
    match state.process_frame(Frame::Command(GatewayCommand::new("r-2", "host.stop"))) {
        FrameDecision::Reply(again) => assert!(std::sync::Arc::ptr_eq(&again, &refused)),
        _ => panic!("expected the remembered refusal"),
    }
    assert!(matches!(state.process_frame(Frame::Command(GatewayCommand::new("r-3", "session.list"))), FrameDecision::Dispatch(_)));
    match state.process_frame(Frame::Ping(PingFrame { protocol_version: PROTOCOL_VERSION, nonce: "n".to_string() })) {
        FrameDecision::Reply(frame) => assert!(matches!(&*frame, Frame::Pong(p) if p.nonce == "n")),
        _ => panic!("expected a pong"),
    }
}

#[test]
fn hello_of_another_version_is_refused() {
    let mut state = ConnState::new();
    match state.process_frame(Frame::Hello(hello(PROTOCOL_VERSION + 1))) {
        FrameDecision::Reply(frame) => match &*frame {
            Frame::Error(error) => assert_eq!(error.code, "invalid_version"),
            other => panic!("expected error, got {other:?}"),
        },
        _ => panic!("expected a reply"),
    }
}

#[test]
fn authorization_names_the_missing_scope() {
    let context = AuthContext { device_id: "d".to_string(), device_label: "l".to_string(), scopes: vec![] };
    let error = authorize(&context, "session.input").unwrap_err();
    assert_eq!(error.message(), "not authorized: session.input requires SendInput");
    assert!(authorize(&AuthContext::all("d", "l"), "host.stop").is_ok());
    assert!(authorize(&context, "unknown.command").is_ok());
}

#[test]
fn sample_hellos_carry_the_credential_and_resume_point() {
    let hello = slight::samples::sample_hello("dev");
    assert_eq!(hello.protocol_version, PROTOCOL_VERSION);
    assert_eq!(hello.client_id, "test-client");
    assert_eq!(hello.credential.as_deref(), Some("dev"));
    assert!(hello.resume.is_none());
    let resume = slight::samples::sample_resume_hello("dev", "s-1", 7);
    let request = resume.resume.expect("a resume request");
    assert_eq!(request.session_id.as_deref(), Some("s-1"));
    assert_eq!(request.last_event_sequence, Some(7));
    assert_eq!(resume.device_id.as_deref(), Some("test-device"));
}

#[test]
fn a_dispatched_command_is_answered_again_with_its_first_answer() {
    let mut state = ConnState::new();
    let config = GatewayConfig::local_default();
    let everything = AuthContext::all("d", "l");
    let _ = state.accept_hello(&hello(PROTOCOL_VERSION), Ok(everything), &config, "c-1".to_string());
    let command = GatewayCommand::new("r-9", "session.list");
    assert!(matches!(state.process_frame(Frame::Command(command)), FrameDecision::Dispatch(_)));
    let answer = Frame::Pong(slight::protocol::PongFrame { protocol_version: PROTOCOL_VERSION, nonce: "first".to_string() });
    let sent = state.complete_command("r-9".to_string(), answer);
    let later = Frame::Pong(slight::protocol::PongFrame { protocol_version: PROTOCOL_VERSION, nonce: "second".to_string() });
    let _ = state.complete_command("r-9".to_string(), later);
    match state.process_frame(Frame::Command(GatewayCommand::new("r-9", "session.list"))) {
        FrameDecision::Reply(again) => {
            assert!(std::sync::Arc::ptr_eq(&again, &sent));
            assert!(matches!(&*again, Frame::Pong(p) if p.nonce == "first"));
        }
        _ => panic!("expected the remembered answer"),
    }
}

#[test]
fn every_answered_command_gets_an_ack_with_its_request_id() {
    let mut state = ConnState::new();
    let ok = state.answer_command("r-1".to_string(), Ok(serde_json::Value::Bool(true)));
    match &*ok {
        Frame::Ack(ack) => {
            assert_eq!(ack.request_id, "r-1");
            assert_eq!(ack.protocol_version, PROTOCOL_VERSION);
            assert!(ack.ok);
            assert!(ack.error.is_none());
            assert_eq!(ack.result, Some(serde_json::Value::Bool(true)));
        }
        other => panic!("expected an ack, got {other:?}"),
    }
    let failed = state.answer_command("r-2".to_string(), Err(session_error(SessionError::UnknownSession("s-9".to_string()))));
    match &*failed {
        Frame::Ack(ack) => {
            assert_eq!(ack.request_id, "r-2");
            assert!(!ack.ok);
            assert!(ack.result.is_none());
            assert_eq!(ack.error.as_ref().unwrap().code, "unknown_session");
        }
        other => panic!("expected an ack, got {other:?}"),
    }
}
