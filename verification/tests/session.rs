use slight::agent_events::{AgentEvent, StopReason};
use slight::content::{NormalizedContent, WireContentBlock};
use slight::fake::{FakeAgentConfig, FakeAgentSession, FAKE_SESSION_ID};
use slight::kinds::{AcpCommand, MessageRole, PermissionOptionKind, ToolCallStatus};
use slight::legacy::{normalize_legacy_event, AcpEvent, FakeAgentConnection};
use slight::normalize::{
    map_permission_kind, map_tool_status, normalize_permission, normalize_update, parse_stop_reason,
    AutoApproveHandler, DenyAllHandler, PermissionDecision, WirePermissionOption, WirePermissionOptionKind,
    WirePermissionRequest, WireSessionUpdate, WireToolCallStatus,
};
use slight::session_manager::normalized_working_directory_label;

#[test]
fn tool_call_status_maps_without_cancelled() {
    assert_eq!(map_tool_status(WireToolCallStatus::InProgress), ToolCallStatus::InProgress);
    assert_eq!(map_tool_status(WireToolCallStatus::Failed), ToolCallStatus::Failed);
}

#[test]
fn permission_options_map_reject_to_deny() {
    assert_eq!(map_permission_kind(WirePermissionOptionKind::RejectOnce), PermissionOptionKind::Deny);
    assert_eq!(map_permission_kind(WirePermissionOptionKind::AllowAlways), PermissionOptionKind::AllowAlways);
}

#[test]
fn empty_working_directory_defaults_to_home_label() {
    assert_eq!(normalized_working_directory_label("  "), "~");
}

#[test]
fn permission_request_uses_envelope_id() {
    let request = WirePermissionRequest {
        tool_call_id: "tool-1".to_string(),
        title: None,
        raw_input_pretty: None,
        options: Vec::new(),
    };
    let normalized = normalize_permission("42", &request);
    assert_eq!(normalized.permission_id, "42");
    assert_eq!(normalized.tool_call_id.as_deref(), Some("tool-1"));
    assert_eq!(normalized.title, "Permission required");
}

fn option(id: &str, kind: WirePermissionOptionKind) -> WirePermissionOption {
    WirePermissionOption { option_id: id.to_string(), name: id.to_string(), kind }
}

#[test]
fn auto_approver_prefers_configured_then_allowing_then_first() {
    let options = vec![
        option("reject", WirePermissionOptionKind::RejectOnce),
        option("allow", WirePermissionOptionKind::AllowOnce),
        option("always", WirePermissionOptionKind::AllowAlways),
    ];
    assert_eq!(
        AutoApproveHandler::preferred("always").select(&options),
        PermissionDecision::Selected("always".to_string())
    );
    assert_eq!(
        AutoApproveHandler::preferred("missing").select(&options),
        PermissionDecision::Selected("allow".to_string())
    );
    let rejections = vec![option("no", WirePermissionOptionKind::RejectOnce)];
    assert_eq!(AutoApproveHandler::new().select(&rejections), PermissionDecision::Selected("no".to_string()));
    assert_eq!(AutoApproveHandler::new().select(&[]), PermissionDecision::Cancelled);
    assert_eq!(DenyAllHandler.select(&options), PermissionDecision::Cancelled);
}

#[test]
fn stop_reasons_read_from_wire_names() {
    assert_eq!(parse_stop_reason("max_tokens"), StopReason::MaxTokens);
    assert_eq!(parse_stop_reason("cancelled"), StopReason::Cancelled);
    assert_eq!(parse_stop_reason("something-new"), StopReason::EndTurn);
}

#[test]
fn message_chunks_normalize_and_unknown_content_is_dropped() {
    let events = normalize_update(WireSessionUpdate::AgentMessageChunk(WireContentBlock::Text { text: "hi".to_string() }));
    assert_eq!(events.len(), 1);
    match &events[0] {
        AgentEvent::Message { role, content } => {
            assert_eq!(*role, MessageRole::Assistant);
            assert_eq!(content, &NormalizedContent::Text { text: "hi".to_string() });
        }
        other => panic!("expected message, got {other:?}"),
    }
    assert!(normalize_update(WireSessionUpdate::UserMessageChunk(WireContentBlock::Unknown)).is_empty());
    assert!(normalize_update(WireSessionUpdate::Other).is_empty());
}

#[test]
fn fake_session_prompt_echoes_and_asks_permission() {
    let mut session = FakeAgentSession::new(FakeAgentConfig::default());
    session.prompt("hello").unwrap();
    let events = session.drain();
    assert_eq!(events.len(), 6);
    match &events[0] {
        AgentEvent::Message { content: NormalizedContent::Text { text }, .. } => assert_eq!(text, "echo: hello"),
        other => panic!("expected echo, got {other:?}"),
    }
    match &events[5] {
        AgentEvent::PermissionRequest(request) => {
            assert_eq!(request.permission_id, "perm-1");
            assert_eq!(request.tool_call_id.as_deref(), Some("tool-1"));
        }
        other => panic!("expected permission request, got {other:?}"),
    }
    assert!(session.drain().is_empty());
    session.respond_permission("allow").unwrap();
    let events = session.drain();
    match &events[0] {
        AgentEvent::ToolCall(update) => {
            assert_eq!(update.tool_call_id, "tool-1");
            assert_eq!(update.status, ToolCallStatus::Completed);
            assert_eq!(update.detail.as_deref(), Some("allow"));
        }
        other => panic!("expected tool call, got {other:?}"),
    }
}

#[test]
fn failing_fake_session_exits_on_prompt() {
    let mut session = FakeAgentSession::new(FakeAgentConfig { fail_on_prompt: true, ..FakeAgentConfig::default() });
    session.prompt("hello").unwrap();
    assert!(!session.is_running());
    let events = session.drain();
    assert_eq!(events.len(), 2);
    assert!(matches!(events[1], AgentEvent::Exited { code: Some(1), .. }));
}

#[test]
fn fake_session_loads_known_sessions_only() {
    let mut session = FakeAgentSession::new(FakeAgentConfig::default());
    assert!(session.load_session("nope").is_err());
    let metadata = session.load_session("fake-listed-1").unwrap();
    assert_eq!(metadata.agent_session_id, "fake-listed-1");
    assert_eq!(session.drain().len(), 2);
    let created = session.new_session().unwrap();
    assert_eq!(created.agent_session_id, FAKE_SESSION_ID);
    assert_eq!(created.modes.unwrap().current_mode_id, "auto");
}

#[test]
fn legacy_connection_answers_permission_with_both_ids() {
    let mut connection = FakeAgentConnection::new(FakeAgentConfig::default());
    connection.send(AcpCommand::Prompt { text: "x".to_string() }).unwrap();
    connection
        .send(AcpCommand::RespondPermission { permission_id: "perm-1".to_string(), option_id: "allow".to_string() })
        .unwrap();
    let events = connection.try_recv().unwrap();
    assert_eq!(events.len(), 5);
    match &events[3] {
        AcpEvent::ToolCall(update) => assert_eq!(update.detail.as_deref(), Some("perm-1:allow")),
        other => panic!("expected tool call, got {other:?}"),
    }
    let mut pending = None;
    let event = normalize_legacy_event(&mut pending, AcpEvent::TurnEnded { stop_reason: "refusal".to_string() });
    assert!(matches!(event, AgentEvent::TurnEnded { stop_reason: StopReason::Refusal }));
    assert!(pending.is_none());
}
