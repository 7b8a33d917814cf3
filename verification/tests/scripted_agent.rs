use slight::acp_client::RequestId;
use slight::agent_events::StopReason;
use slight::content::{WireContentBlock, WireToolCallContent};
use slight::env::HostEnvironment;
use slight::jsonrpc::{classify, rpc_error_text, RawMessage, RpcError};
use slight::metadata::WireConfigKind;
use slight::normalize::{WireSessionUpdate, WireToolCallStatus};
use slight::wire_agent::{
    enabled, next_permission_id, permission_request, permission_resolution, permission_wait, prompt_closing,
    prompt_opening, prompt_text, reply_to, AgentReply, FakeWireAgentConfig, PermissionResolution, PermissionWait,
    WirePermissionOutcome,
};

#[test]
fn switches_read_zero_and_false_as_off() {
    assert!(!enabled("0"));
    assert!(!enabled("false"));
    assert!(!enabled("FaLsE"));
    assert!(enabled("1"));
    assert!(enabled("no"));
    assert!(enabled(""));
}

#[test]
fn environment_overrides_the_scripted_behaviour() {
    let host = HostEnvironment {
        vars: vec![
            ("FAKE_ACP_REQUEST_PERMISSION".to_string(), "false".to_string()),
            ("FAKE_ACP_SESSION_ID".to_string(), "custom".to_string()),
            ("FAKE_ACP_LOAD_SUPPORTED".to_string(), "0".to_string()),
        ],
        os: "linux".to_string(),
        arch: "x86_64".to_string(),
        executable_dir: None,
    };
    let config = FakeWireAgentConfig::from_environment(&host);
    assert!(!config.request_permission);
    assert_eq!(config.session_id, "custom");
    assert!(!config.load_supported);
    assert!(config.list_supported);
    assert!(matches!(reply_to(&config, "session/load"), AgentReply::MethodNotFound));
}

#[test]
fn agent_answers_each_method() {
    let config = FakeWireAgentConfig::default();
    match reply_to(&config, "initialize") {
        AgentReply::Initialize { agent_name, capabilities, .. } => {
            assert_eq!(agent_name, "fake-acp-agent");
            assert!(capabilities.load_session && capabilities.session_list && capabilities.session_resume);
            assert!(!capabilities.prompt_image);
        }
        other => panic!("unexpected {other:?}"),
    }
    match reply_to(&config, "session/new") {
        AgentReply::NewSession { session_id, config_options } => {
            assert_eq!(session_id, "session-1");
            assert_eq!(config_options.len(), 2);
            assert_eq!(config_options[1].kind, WireConfigKind::Boolean { current_value: false });
        }
        other => panic!("unexpected {other:?}"),
    }
    match reply_to(&config, "session/list") {
        AgentReply::ListSessions(sessions) => assert_eq!(sessions[0].cwd, "/tmp/work"),
        other => panic!("unexpected {other:?}"),
    }
    assert!(matches!(reply_to(&config, "session/prompt"), AgentReply::Prompt));
    assert!(matches!(reply_to(&config, "session/fork"), AgentReply::MethodNotFound));
}

#[test]
fn prompt_turn_streams_its_script() {
    let blocks = vec![
        WireContentBlock::Image { data: "x".to_string(), mime_type: "image/png".to_string(), uri: None },
        WireContentBlock::Text { text: "hello".to_string() },
    ];
    assert_eq!(prompt_text(&blocks), "hello");
    assert_eq!(prompt_text(&Vec::new()), "");
    let opening = prompt_opening("hello");
    assert_eq!(opening.len(), 6);
    assert!(matches!(
        &opening[0],
        WireSessionUpdate::AgentMessageChunk(WireContentBlock::Text { text }) if text == "echo: hello"
    ));
    match &opening[5] {
        WireSessionUpdate::ToolCall(tool) => {
            assert_eq!(tool.tool_call_id, "tool-1");
            assert!(matches!(&tool.content[2], WireToolCallContent::Terminal { terminal_id } if terminal_id == "term-1"));
            assert_eq!(tool.raw_input.as_ref().unwrap()["path"], "/tmp/work/src/main.rs");
            assert_eq!(tool.raw_output.as_ref().unwrap()["exit"], 0);
        }
        other => panic!("unexpected {other:?}"),
    }
    match &opening[4] {
        WireSessionUpdate::UsageUpdate(usage) => {
            assert_eq!(f64::from_bits(usage.cost.as_ref().unwrap().amount_bits), 0.02)
        }
        other => panic!("unexpected {other:?}"),
    }
    let (updates, reason) = prompt_closing(None);
    assert_eq!(reason, StopReason::EndTurn);
    assert!(matches!(&updates[0], WireSessionUpdate::ToolCallUpdate(u) if u.status == Some(WireToolCallStatus::Completed)));
    let (updates, reason) = prompt_closing(Some(PermissionResolution::Cancelled));
    assert_eq!(reason, StopReason::Cancelled);
    assert!(matches!(&updates[0], WireSessionUpdate::ToolCallUpdate(u) if u.status == Some(WireToolCallStatus::Failed)));
    let (updates, reason) = prompt_closing(Some(PermissionResolution::Selected("allow".to_string())));
    assert_eq!(reason, StopReason::EndTurn);
    assert!(matches!(
        &updates[0],
        WireSessionUpdate::AgentMessageChunk(WireContentBlock::Text { text }) if text == "permission:allow"
    ));
}

#[test]
fn permission_requests_are_numbered_and_awaited() {
    let mut counter = 1000;
    assert!(matches!(next_permission_id(&mut counter), RequestId::Number(1000)));
    assert_eq!(counter, 1001);
    let (tool, options) = permission_request();
    assert_eq!(tool.title.as_deref(), Some("edit_file"));
    assert_eq!(options[1].option_id, "reject");

    let awaited = RequestId::Number(1000);
    let other = classify(r#"{"jsonrpc":"2.0","id":999,"result":{}}"#).unwrap();
    assert!(matches!(permission_wait(other, &awaited, true), PermissionWait::Skip));
    let cancel = classify(r#"{"jsonrpc":"2.0","method":"session/cancel","params":{"sessionId":"s"}}"#).unwrap();
    assert!(matches!(permission_wait(cancel, &awaited, true), PermissionWait::Cancelled));
    let cancel = classify(r#"{"jsonrpc":"2.0","method":"session/cancel","params":{"sessionId":"s"}}"#).unwrap();
    assert!(matches!(permission_wait(cancel, &awaited, false), PermissionWait::Skip));
    let answer = classify(r#"{"jsonrpc":"2.0","id":1000,"result":{"outcome":{"outcome":"cancelled"}}}"#).unwrap();
    assert!(matches!(permission_wait(answer, &awaited, true), PermissionWait::Answered(RawMessage::Response { .. })));
    assert!(matches!(
        permission_resolution(WirePermissionOutcome::Selected("allow".to_string())),
        PermissionResolution::Selected(o) if o == "allow"
    ));
    assert!(matches!(permission_resolution(WirePermissionOutcome::Other), PermissionResolution::Cancelled));
}

#[test]
fn rpc_errors_read_as_message_or_code() {
    let error = RpcError { code: -32601, message: "method not found".to_string(), data: None };
    assert_eq!(rpc_error_text(&error), "method not found");
    let error = RpcError { code: -32601, message: String::new(), data: None };
    assert_eq!(rpc_error_text(&error), "-32601");
    let error = RpcError { code: 1, message: "m".to_string(), data: Some(serde_json::Value::from(3)) };
    assert_eq!(rpc_error_text(&error), "m: 3");
}
