use slight::acp_client::{decimal_i64, request_id_text, ClientError, ClientState, RequestId};
use slight::admin::{DeviceSummaryDto, HostRunState, HostStatusResult, PairingCreateResult};
use slight::cli::{bind_list, cli_command, device_line, listening_line, serve_settings, status_lines, CliCommand, Options};
use slight::codex::{CodexAdapter, CodexConfig};
use slight::connection::{heartbeat_due, heartbeat_interval, read_action, write_action, ReadAction, ReadOutcome, WriteAction, WriteOutcome};
use slight::env::HostEnvironment;
use slight::gateway::{AuthContext, Scope};
use slight::host::{restart_answer, run_state, start_answer, stop_answer};
use slight::jsonrpc::{classify, classify_inbound, Inbound, RawMessage};
use slight::metadata::WireAgentCapabilities;
use slight::opencode::OpencodeConfig;
use slight::protocol::{ClientHello, ProtocolError};
use slight::registry::{pairing_code, CredentialRegistry, DevAccess};
use slight::routing::{history_limit, pairing_label, plan_command, replay_limit, sessions_list_result, Route};
use slight::session_manager::resolve_working_directory;
use slight::stdio::{default_env_allowlist, sanitized_environment};
use slight::transport::WireError;
use slight::worker::{prompt_event, prompt_outcome, PromptOutcome, WorkerState};
use slight::agent_events::{AgentEvent, ListedSessionPage, StopReason};
use slight::metadata::ListedSessionSummary;

fn hello(credential: Option<&str>) -> ClientHello {
    ClientHello {
        protocol_version: 1,
        client_id: "test-client".to_string(),
        client_name: "Test Client".to_string(),
        client_version: "0.1.0".to_string(),
        device_id: Some("device-under-test".to_string()),
        credential: credential.map(str::to_string),
        resume: None,
    }
}

fn no_dev() -> DevAccess {
    DevAccess { dev_mode: false, dev_token: None }
}

#[test]
fn sanitized_environment_applies_overrides_in_order() {
    let config = OpencodeConfig {
        environment: vec![("OPENCODE_TEST".to_string(), "from-config".to_string())],
        ..OpencodeConfig::default()
    };
    let launch_environment = vec![
        ("OPENCODE_TEST".to_string(), "from-launch".to_string()),
        ("ANTHROPIC_API_KEY".to_string(), "secret".to_string()),
    ];
    let allowlist = default_env_allowlist();
    let environment =
        sanitized_environment(&allowlist, &config.environment, &launch_environment, &HostEnvironment::empty());
    let find = |key: &str| environment.iter().find(|(candidate, _)| candidate == key).map(|(_, value)| value.clone());
    assert_eq!(find("OPENCODE_TEST").as_deref(), Some("from-launch"));
    assert_eq!(find("ANTHROPIC_API_KEY").as_deref(), Some("secret"));
    assert_eq!(find("SLIGHT_ENSURE_ABSENT"), None);
}

#[test]
fn global_fallback_is_off_unless_enabled() {
    let adapter = CodexAdapter::new(CodexConfig {
        bundle_dir: Some("/definitely/not/a/bundle".to_string()),
        ..CodexConfig::default()
    });
    let host = HostEnvironment::empty();
    assert!(!adapter.allow_global_fallback(&host));
    let error = adapter.resolve_launch(&host).unwrap_err();
    assert!(error.message().contains("global fallback is disabled"));
}

#[test]
fn explicit_working_directory_is_preserved() {
    assert_eq!(resolve_working_directory("/tmp/slight-session", "/home/me"), "/tmp/slight-session");
}

#[test]
fn tilde_working_directory_resolves_to_home() {
    assert_eq!(resolve_working_directory("~/projects", "/home/me"), "/home/me/projects");
    assert_eq!(resolve_working_directory("~", "/home/me"), "/home/me");
}

#[test]
fn pairing_code_is_six_zero_padded_digits() {
    assert_eq!(pairing_code(42), "000042");
    assert_eq!(pairing_code(1_234_567), "234567");
    assert_eq!(pairing_code(999_999), "999999");
    assert_eq!(pairing_code(u32::MAX).len(), 6);
}

#[test]
fn empty_credential_is_refused() {
    let mut registry = CredentialRegistry::new();
    let result = registry.authenticate_at(&hello(None), &no_dev(), 0, "a", "b");
    assert!(matches!(result, Err(ProtocolError::Unauthenticated(m)) if m == "credential required"));
}

#[test]
fn pairing_code_pairs_one_device_once() {
    let mut registry = CredentialRegistry::new();
    let created = registry.begin_pairing_at("my phone", 1_000, 300, "pairing-1", "123456", "slight-local", "127.0.0.1:8787");
    assert_eq!(created.code, "123456");
    assert_eq!(created.label, "my phone");
    assert_eq!(created.qr_payload, "slight://pair?host=slight-local&code=123456&addr=127.0.0.1:8787");
    assert_eq!(created.expires_at, "1970-01-01T00:05:01Z");

    let context = registry.authenticate_at(&hello(Some("123456")), &no_dev(), 2_000, "d1", "token-1").unwrap();
    assert_eq!(context.device_id, "device-d1");
    assert_eq!(context.device_label, "my phone");
    assert!(context.has(Scope::ManageHost));

    let again = registry.authenticate_at(&hello(Some("123456")), &no_dev(), 3_000, "d2", "token-2");
    assert!(matches!(again, Err(ProtocolError::Unauthenticated(m)) if m == "invalid credential"));

    let pairings = registry.list_pairings();
    assert_eq!(pairings.pairings.len(), 1);
    assert!(pairings.pairings[0].consumed);

    let devices = registry.list_devices();
    assert_eq!(devices.devices.len(), 1);
    assert_eq!(devices.devices[0].device_id, "device-d1");
    assert_eq!(registry.paired_device_count(), 1);
}

#[test]
fn expired_pairing_code_is_refused() {
    let mut registry = CredentialRegistry::new();
    registry.begin_pairing_at("tablet", 0, 1, "pairing-1", "654321", "host", "addr");
    let result = registry.authenticate_at(&hello(Some("654321")), &no_dev(), 1_001, "d", "t");
    assert!(matches!(result, Err(ProtocolError::Unauthenticated(_))));
    let result = registry.authenticate_at(&hello(Some("654321")), &no_dev(), 1_000, "d", "t");
    assert!(result.is_ok());
}

#[test]
fn device_token_authenticates_until_revoked() {
    let mut registry = CredentialRegistry::new();
    registry.begin_pairing_at("laptop", 0, 300, "p", "111111", "host", "addr");
    registry.authenticate_at(&hello(Some("111111")), &no_dev(), 10, "dev1", "tok").unwrap();

    let context = registry.authenticate_at(&hello(Some("tok")), &no_dev(), 20, "x", "y").unwrap();
    assert_eq!(context.device_id, "device-dev1");
    assert_eq!(registry.devices[0].last_seen_at_ms, 20);

    let revoked = registry.revoke_device("device-dev1").unwrap();
    assert!(revoked.device.revoked);
    assert_eq!(registry.paired_device_count(), 0);
    let refused = registry.authenticate_at(&hello(Some("tok")), &no_dev(), 30, "x", "y");
    assert!(matches!(refused, Err(ProtocolError::Unauthenticated(m)) if m == "invalid credential"));

    let unknown = registry.revoke_device("nobody");
    assert!(matches!(unknown, Err(ProtocolError::InvalidParams(m)) if m == "unknown device: nobody"));
}

#[test]
fn development_host_accepts_its_token_for_the_hello_device() {
    let mut registry = CredentialRegistry::new();
    let access = DevAccess { dev_mode: true, dev_token: Some("dev".to_string()) };
    let context = registry.authenticate_at(&hello(Some("dev")), &access, 0, "a", "b").unwrap();
    assert_eq!(context.device_id, "device-under-test");
    assert_eq!(context.device_label, "Test Client");
    assert!(registry.authenticate_at(&hello(Some("other")), &access, 0, "a", "b").is_err());
    let open = DevAccess { dev_mode: true, dev_token: None };
    assert!(registry.authenticate_at(&hello(Some("anything")), &open, 0, "a", "b").is_ok());
}

#[test]
fn commands_route_and_refuse() {
    assert!(matches!(plan_command("session.list", &None), Ok(Route::ListSessions)));
    assert!(matches!(plan_command("session.resume", &Some("s".to_string())), Ok(Route::Attach)));
    assert!(matches!(plan_command("host.configuration", &None), Ok(Route::HostStatus)));
    assert!(matches!(plan_command("host.shutdown", &None), Ok(Route::HostStop)));
    assert!(matches!(plan_command("session.detach", &None), Ok(Route::Detach)));
    assert!(matches!(
        plan_command("session.input", &None),
        Err(ProtocolError::InvalidParams(m)) if m == "session_id required"
    ));
    match plan_command("session.teleport", &None) {
        Err(error) => {
            assert_eq!(error.code(), "unsupported");
            assert_eq!(error.message(), "unsupported command: session.teleport");
        }
        Ok(route) => panic!("expected refusal, got {route:?}"),
    }
}

#[test]
fn command_parameters_take_their_defaults() {
    assert_eq!(history_limit(None), 200);
    assert_eq!(history_limit(Some(5)), 5);
    assert_eq!(replay_limit(None), 256);
    assert_eq!(replay_limit(Some(0)), 1);
    assert_eq!(replay_limit(Some(10)), 10);
    assert_eq!(pairing_label(None), "paired device");
    assert_eq!(pairing_label(Some("phone".to_string())), "phone");
}

#[test]
fn worker_targets_the_open_session() {
    let mut state = WorkerState::new();
    match state.prompt_target() {
        Err(AgentEvent::Failed { message }) => assert_eq!(message, "prompt sent before session/new completed"),
        other => panic!("expected failure, got {other:?}"),
    }
    assert_eq!(state.open_session().unwrap_err().0, "session is not open");
    state.opened(&slight::metadata::SessionMetadata {
        agent_session_id: "agent-1".to_string(),
        modes: None,
        config_options: Vec::new(),
    });
    assert_eq!(state.open_session().unwrap(), "agent-1");
    assert_eq!(state.prompt_target().unwrap(), "agent-1");
}

#[test]
fn prompt_outcomes_become_events() {
    match prompt_event(PromptOutcome::Completed(StopReason::EndTurn)) {
        (AgentEvent::TurnEnded { stop_reason: StopReason::EndTurn }, true) => {}
        other => panic!("unexpected {other:?}"),
    }
    match prompt_event(PromptOutcome::Closed) {
        (AgentEvent::Exited { code: None, reason }, false) => assert_eq!(reason, "agent connection closed"),
        other => panic!("unexpected {other:?}"),
    }
    match prompt_event(PromptOutcome::Failed("boom".to_string())) {
        (AgentEvent::Failed { message }, true) => assert_eq!(message, "boom"),
        other => panic!("unexpected {other:?}"),
    }
}

#[test]
fn connection_loop_decisions() {
    assert_eq!(read_action(ReadOutcome::Binary), ReadAction::Process);
    assert_eq!(read_action(ReadOutcome::WouldBlock), ReadAction::Idle);
    assert_eq!(read_action(ReadOutcome::Close), ReadAction::Stop);
    assert_eq!(write_action(WriteOutcome::WouldBlock), WriteAction::Requeue);
    assert_eq!(write_action(WriteOutcome::Failed), WriteAction::Stop);
    assert_eq!(heartbeat_interval(Some(0)), None);
    assert_eq!(heartbeat_interval(Some(15_000)), Some(15_000));
    assert!(heartbeat_due(Some(15_000), 15_000));
    assert!(!heartbeat_due(Some(15_000), 14_999));
    assert!(!heartbeat_due(None, u64::MAX));
}

fn args(items: &[&str]) -> Vec<String> {
    items.iter().map(|s| s.to_string()).collect()
}

#[test]
fn command_line_reads_flags_and_positionals() {
    let options = Options::parse(&args(&["dev-1", "--json", "--addr", "10.0.0.1:9000", "--label=my phone", "--token"]));
    assert_eq!(options.positionals, vec!["dev-1".to_string()]);
    assert!(options.json());
    assert_eq!(options.socket_addr(), "10.0.0.1:9000");
    assert_eq!(options.get("label").as_deref(), Some("my phone"));
    assert_eq!(options.get("token").as_deref(), Some("true"));
    let options = Options::parse(&args(&["--bind", "--json"]));
    assert_eq!(options.get("bind").as_deref(), Some("true"));
    assert_eq!(Options::parse(&args(&[])).socket_addr(), "127.0.0.1:8787");
    assert_eq!(Options::parse(&args(&[])).token(Some("env-token".to_string())), "env-token");
    assert_eq!(Options::parse(&args(&[])).token(None), "dev");
    assert_eq!(cli_command("--help"), CliCommand::Help);
    assert_eq!(cli_command("revoke"), CliCommand::Revoke);
    assert_eq!(cli_command("explode"), CliCommand::Unknown);
}

#[test]
fn serve_reads_its_settings() {
    let options = Options::parse(&args(&["--bind", "127.0.0.1:1, 127.0.0.1:2", "--no-dev", "--host-name", "box"]));
    let settings = serve_settings(&options, None, Some("/opt/opencode".to_string()));
    assert!(!settings.dev_mode);
    assert_eq!(settings.dev_token, None);
    assert_eq!(settings.binds, vec!["127.0.0.1:1".to_string(), "127.0.0.1:2".to_string()]);
    assert_eq!(settings.host_name, "box");
    assert_eq!(settings.server_id, "slight-local");
    assert_eq!(settings.opencode_program.as_deref(), Some("/opt/opencode"));
    let settings = serve_settings(&Options::parse(&args(&["--token", "t"])), None, None);
    assert!(settings.dev_mode);
    assert_eq!(settings.dev_token.as_deref(), Some("t"));
    assert_eq!(bind_list("a,,b "), vec!["a".to_string(), "".to_string(), "b".to_string()]);
}

#[test]
fn command_line_prints_status_and_devices() {
    let status = HostStatusResult {
        state: HostRunState::Running,
        host_name: "slight-host".to_string(),
        server_id: "slight-local".to_string(),
        server_version: "0.1.0".to_string(),
        protocol_version: 1,
        listener: None,
        session_count: 3,
        active_session_count: 2,
        paired_device_count: 1,
        uptime_ms: 42,
        supported_agents: vec!["opencode".to_string(), "codex".to_string()],
        agent_catalog: Vec::new(),
    };
    let lines = status_lines(&status);
    assert_eq!(lines[0], "state:            Running");
    assert_eq!(lines[3], "listener:         ");
    assert_eq!(lines[4], "sessions:         3 (2 active)");
    assert_eq!(lines[7], "supported agents: opencode, codex");
    let device = DeviceSummaryDto {
        device_id: "device-1".to_string(),
        label: "phone".to_string(),
        created_at: "t0".to_string(),
        last_seen_at: "t1".to_string(),
        revoked: false,
    };
    assert_eq!(device_line(&device), "device-1 [phone] revoked=false last_seen=t1");
    assert_eq!(
        listening_line(&vec!["127.0.0.1:8787".to_string()], true),
        "acp-host listening on 127.0.0.1:8787 (dev mode: true)"
    );
    let created = PairingCreateResult {
        pairing_id: "p".to_string(),
        code: "000042".to_string(),
        label: "l".to_string(),
        expires_at: "e".to_string(),
        qr_payload: "q".to_string(),
    };
    assert_eq!(slight::cli::pairing_created_lines(&created)[0], "pairing code: 000042");
}

#[test]
fn lifecycle_answers() {
    assert_eq!(run_state(true, true), HostRunState::Stopping);
    assert_eq!(run_state(false, true), HostRunState::Running);
    assert_eq!(run_state(false, false), HostRunState::Stopped);
    assert_eq!(start_answer(true).state, HostRunState::Failed);
    assert_eq!(start_answer(false).message.as_deref(), Some("host already running"));
    assert_eq!(stop_answer().message.as_deref(), Some("shutdown requested"));
    assert_eq!(restart_answer().message.as_deref(), Some("restart requires an external supervisor"));
}

fn capabilities(load: bool, list: bool, resume: bool) -> WireAgentCapabilities {
    let mut c = WireAgentCapabilities::none();
    c.load_session = load;
    c.session_list = list;
    c.session_resume = resume;
    c
}

#[test]
fn typed_lifecycle_requires_initialize_then_known_session() {
    let mut client = ClientState::new();
    assert!(matches!(client.check_prompt("s-1"), Err(ClientError::NotInitialized)));
    client.on_initialized(1, capabilities(false, false, false)).unwrap();
    assert!(matches!(client.check_prompt("s-1"), Err(ClientError::UnknownSession(s)) if s == "s-1"));
    client.remember_session("s-1");
    assert!(client.check_prompt("s-1").is_ok());
}

#[test]
fn capabilities_gate_list_load_and_resume() {
    let mut client = ClientState::new();
    client.on_initialized(1, capabilities(false, false, true)).unwrap();
    match client.ensure_list_supported() {
        Err(error) => assert_eq!(error.message(), "agent does not advertise the session/list capability"),
        Ok(()) => panic!("list must be refused"),
    }
    assert!(matches!(client.check_open(true), Err(ClientError::UnsupportedCapability("session/load"))));
    assert!(client.check_open(false).is_ok());
    let mut other = ClientState::new();
    assert!(matches!(other.on_initialized(2, capabilities(true, true, true)), Err(ClientError::UnsupportedProtocol(2))));
    assert!(!other.initialized);
}

#[test]
fn request_ids_count_up_and_deferred_requests_answer_once() {
    let mut client = ClientState::new();
    assert!(matches!(client.next_request_id(), RequestId::Number(1)));
    assert!(matches!(client.next_request_id(), RequestId::Number(2)));
    client.defer(RequestId::Number(42));
    assert!(client.take_deferred(&RequestId::Number(42)).is_ok());
    match client.take_deferred(&RequestId::Number(42)) {
        Err(error) => assert_eq!(error.message(), "no deferred request with id 42"),
        Ok(()) => panic!("a deferred request is answered once"),
    }
    assert_eq!(request_id_text(&RequestId::Str("req-1".to_string())), "req-1");
    assert_eq!(request_id_text(&RequestId::Null), "null");
    assert_eq!(decimal_i64(-32601), "-32601");
    assert_eq!(decimal_i64(i64::MIN), i64::MIN.to_string());
}

#[test]
fn rejects_missing_jsonrpc_field() {
    let error = classify(r#"{"id":1,"method":"initialize"}"#).unwrap_err();
    assert!(matches!(error, WireError::Malformed(_)));
}

#[test]
fn classifies_error_response() {
    let line = r#"{"jsonrpc":"2.0","id":"req-1","error":{"code":-32601,"message":"method not found"}}"#;
    match classify_inbound(line).unwrap() {
        Inbound::Response { id, outcome } => {
            assert!(matches!(id, RequestId::Str(s) if s == "req-1"));
            assert!(outcome.is_err());
        }
        _ => panic!("expected response"),
    }
}

#[test]
fn rejects_unknown_method_without_dropping_it() {
    let line = r#"{"jsonrpc":"2.0","method":"custom/thing","params":{"x":1}}"#;
    match classify_inbound(line).unwrap() {
        Inbound::OtherNotification { method, .. } => assert_eq!(method, "custom/thing"),
        _ => panic!("expected other notification"),
    }
}

#[test]
fn classifies_requests_notifications_and_results() {
    match classify(r#"{"jsonrpc":"2.0","id":7,"method":"session/prompt","params":{}}"#).unwrap() {
        RawMessage::Request { id, method, params } => {
            assert!(matches!(id, RequestId::Number(7)));
            assert_eq!(method, "session/prompt");
            assert!(params.is_some());
        }
        _ => panic!("expected request"),
    }
    assert!(matches!(
        classify(r#"{"jsonrpc":"2.0","id":null,"method":"session/cancel"}"#).unwrap(),
        RawMessage::Notification { .. }
    ));
    match classify(r#"{"jsonrpc":"2.0","id":3}"#).unwrap() {
        RawMessage::Response { outcome: Ok(value), .. } => assert!(value.is_null()),
        _ => panic!("expected a result"),
    }
    assert!(matches!(classify(r#"{"jsonrpc":"1.0","id":3}"#), Err(WireError::Malformed(m)) if m == "unsupported jsonrpc version: 1.0"));
    assert!(matches!(classify(r#"{"jsonrpc":"2.0","id":1.5}"#), Err(WireError::Malformed(m)) if m == "request id is not an integer"));
    assert!(matches!(classify(r#"{"jsonrpc":"2.0"}"#), Err(WireError::Malformed(_))));
    assert!(matches!(classify("[1,2]"), Err(WireError::Malformed(m)) if m == "frame is not a JSON object"));
    assert!(matches!(classify("{not json"), Err(WireError::Json(_))));
    assert!(matches!(
        classify_inbound(r#"{"jsonrpc":"2.0","id":42,"method":"session/request_permission","params":{}}"#).unwrap(),
        Inbound::PermissionRequest { id: RequestId::Number(42), .. }
    ));
}

#[test]
fn authorization_context_grants_every_scope() {
    let context = AuthContext::all("d", "l");
    assert!(context.has(Scope::ReadSessions));
    assert!(context.has(Scope::RespondPermission));
}

#[test]
fn listed_sessions_skip_imported_ones_in_page_order() {
    let listed = |id: &str, title: &str| ListedSessionSummary {
        agent_session_id: id.to_string(),
        cwd: "/work".to_string(),
        additional_directories: vec!["/extra".to_string()],
        title: Some(title.to_string()),
        updated_at: Some("2024-01-01T00:00:00Z".to_string()),
    };
    let page = ListedSessionPage {
        sessions: vec![listed("a", "first"), listed("b", "second"), listed("c", "third")],
        next_cursor: Some("next".to_string()),
    };
    let result = sessions_list_result("fake", page, &vec!["b".to_string()]);
    assert_eq!(result.next_cursor.as_deref(), Some("next"));
    assert_eq!(result.sessions.len(), 2);
    assert_eq!(result.sessions[0].agent, "fake");
    assert_eq!(result.sessions[0].agent_session_id, "a");
    assert_eq!(result.sessions[0].title.as_deref(), Some("first"));
    assert_eq!(result.sessions[0].additional_directories, vec!["/extra".to_string()]);
    assert_eq!(result.sessions[1].agent_session_id, "c");
    assert_eq!(result.sessions[1].title.as_deref(), Some("third"));
    assert_eq!(result.sessions[1].updated_at.as_deref(), Some("2024-01-01T00:00:00Z"));
}

#[test]
fn prompt_replies_become_turn_outcomes() {
    assert!(matches!(prompt_outcome(Ok("max_tokens".to_string())), PromptOutcome::Completed(StopReason::MaxTokens)));
    assert!(matches!(prompt_outcome(Ok("end_turn".to_string())), PromptOutcome::Completed(StopReason::EndTurn)));
    assert!(matches!(prompt_outcome(Err(ClientError::Closed)), PromptOutcome::Closed));
    match prompt_outcome(Err(ClientError::Protocol { code: -32603, message: "boom".to_string() })) {
        PromptOutcome::Failed(message) => assert_eq!(message, "agent returned JSON-RPC error -32603: boom"),
        _ => panic!("expected a failure"),
    }
}
