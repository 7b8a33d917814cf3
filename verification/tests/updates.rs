use slight::agent_events::AgentEvent;
use slight::content::{NormalizedContent, NormalizedToolContent, WireContentBlock, WireToolCallContent, WireToolCallLocation};
use slight::json::normalized_raw;
use slight::kinds::{MessageRole, ToolCallStatus};
use slight::metadata::{
    AcpCost, AcpUsage, AgentCapabilitiesSummary, WireAgentCapabilities, WireAvailableCommand, WireConfigKind,
    WireConfigOption, WirePlanEntry, WirePlanPriority, WirePlanStatus, WireSessionInfoUpdate,
};
use slight::normalize::{
    normalize_tool_call, normalize_tool_call_update, normalize_update, WireSessionUpdate, WireToolCall,
    WireToolCallStatus, WireToolCallUpdate, WireToolKind,
};

fn json(text: &str) -> serde_json::Value {
    serde_json::from_str(text).unwrap()
}

#[test]
fn capabilities_summary_flattens_capability_groups() {
    let capabilities = WireAgentCapabilities {
        load_session: true,
        prompt_image: true,
        prompt_audio: true,
        prompt_embedded_context: false,
        mcp_http: false,
        mcp_sse: false,
        session_list: true,
        session_resume: true,
        session_close: false,
        session_delete: false,
        session_additional_directories: false,
    };
    let summary = AgentCapabilitiesSummary::from_wire(&capabilities);
    assert!(summary.load_session);
    assert!(summary.prompt_image);
    assert!(summary.prompt_audio);
    assert!(!summary.prompt_embedded_context);
    assert!(summary.session_list);
    assert!(summary.session_resume);
    assert!(!summary.session_close);
}

#[test]
fn plan_update_normalizes_to_plan_summary() {
    let events = normalize_update(WireSessionUpdate::Plan(vec![WirePlanEntry {
        content: "write tests".to_string(),
        priority: WirePlanPriority::Medium,
        status: WirePlanStatus::Pending,
    }]));
    match events.as_slice() {
        [AgentEvent::Plan(plan)] => {
            assert_eq!(plan.entries.len(), 1);
            assert_eq!(plan.entries[0].content, "write tests");
            assert_eq!(plan.entries[0].status, "pending");
        }
        other => panic!("expected plan event, got {other:?}"),
    }
}

#[test]
fn available_commands_update_normalizes_to_command_summaries() {
    let events = normalize_update(WireSessionUpdate::AvailableCommandsUpdate(vec![WireAvailableCommand {
        name: "compact".to_string(),
        description: "Compact the conversation".to_string(),
        input_hint: None,
    }]));
    match events.as_slice() {
        [AgentEvent::AvailableCommands(commands)] => {
            assert_eq!(commands.len(), 1);
            assert_eq!(commands[0].name, "compact");
        }
        other => panic!("expected commands event, got {other:?}"),
    }
}

#[test]
fn current_mode_update_normalizes_to_mode_event() {
    let events = normalize_update(WireSessionUpdate::CurrentModeUpdate("build".to_string()));
    match events.as_slice() {
        [AgentEvent::Mode { current_mode_id }] => assert_eq!(current_mode_id, "build"),
        other => panic!("expected mode event, got {other:?}"),
    }
}

#[test]
fn config_option_update_normalizes_to_config_options_event() {
    let events = normalize_update(WireSessionUpdate::ConfigOptionUpdate(vec![WireConfigOption {
        id: "brave_mode".to_string(),
        name: "Brave Mode".to_string(),
        description: None,
        category: None,
        kind: WireConfigKind::Boolean { current_value: true },
    }]));
    match events.as_slice() {
        [AgentEvent::ConfigOptions(options)] => {
            assert_eq!(options.len(), 1);
            assert_eq!(options[0].id, "brave_mode");
        }
        other => panic!("expected config options event, got {other:?}"),
    }
}

#[test]
fn session_info_update_normalizes_to_session_info_event() {
    let events = normalize_update(WireSessionUpdate::SessionInfoUpdate(WireSessionInfoUpdate {
        title: Some(Some("Renamed".to_string())),
        updated_at: None,
    }));
    match events.as_slice() {
        [AgentEvent::SessionInfo(update)] => assert_eq!(update.title, Some(Some("Renamed".to_string()))),
        other => panic!("expected session info event, got {other:?}"),
    }
}

#[test]
fn usage_update_normalizes_to_usage_event() {
    let events = normalize_update(WireSessionUpdate::UsageUpdate(AcpUsage {
        used: 1_000,
        size: 8_000,
        cost: Some(AcpCost { amount_bits: 0.5f64.to_bits(), currency: "USD".to_string() }),
    }));
    match events.as_slice() {
        [AgentEvent::Usage(usage)] => {
            assert_eq!(usage.used, 1_000);
            assert_eq!(usage.size, 8_000);
            assert_eq!(usage.cost.as_ref().unwrap().currency, "USD");
        }
        other => panic!("expected usage event, got {other:?}"),
    }
}

#[test]
fn agent_message_chunk_normalizes_to_assistant_message() {
    let events =
        normalize_update(WireSessionUpdate::AgentMessageChunk(WireContentBlock::Text { text: "hello".to_string() }));
    match events.as_slice() {
        [AgentEvent::Message { role, content }] => {
            assert_eq!(*role, MessageRole::Assistant);
            assert_eq!(*content, NormalizedContent::Text { text: "hello".to_string() });
        }
        other => panic!("expected message event, got {other:?}"),
    }
}

#[test]
fn image_chunk_normalizes_to_rich_content() {
    let events = normalize_update(WireSessionUpdate::AgentMessageChunk(WireContentBlock::Image {
        data: "aGk=".to_string(),
        mime_type: "image/png".to_string(),
        uri: None,
    }));
    match events.as_slice() {
        [AgentEvent::Message { role, content }] => {
            assert_eq!(*role, MessageRole::Assistant);
            assert_eq!(
                *content,
                NormalizedContent::Image {
                    data_base64: "aGk=".to_string(),
                    mime_type: "image/png".to_string(),
                    uri: None,
                }
            );
        }
        other => panic!("expected message event, got {other:?}"),
    }
}

#[test]
fn thought_chunk_normalizes_to_thought() {
    let events =
        normalize_update(WireSessionUpdate::AgentThoughtChunk(WireContentBlock::Text { text: "thinking".to_string() }));
    match events.as_slice() {
        [AgentEvent::Thought { content }] => {
            assert_eq!(*content, NormalizedContent::Text { text: "thinking".to_string() })
        }
        other => panic!("expected thought event, got {other:?}"),
    }
}

#[test]
fn tool_call_carries_content_locations_and_raw_io() {
    let tool = WireToolCall {
        tool_call_id: "tool-1".to_string(),
        title: "edit_file".to_string(),
        kind: WireToolKind::Other,
        status: WireToolCallStatus::Completed,
        content: vec![
            WireToolCallContent::Diff {
                path: "/work/src/main.rs".to_string(),
                old_text: Some("old".to_string()),
                new_text: "new".to_string(),
            },
            WireToolCallContent::Terminal { terminal_id: "term-1".to_string() },
        ],
        locations: vec![WireToolCallLocation { path: "/work/src/main.rs".to_string(), line: Some(3) }],
        raw_input: Some(json(r#"{"path":"/work/src/main.rs"}"#)),
        raw_output: Some(json(r#"{"exit":0}"#)),
    };
    let update = normalize_tool_call(tool);
    assert_eq!(update.detail.as_deref(), Some("/work/src/main.rs:3"));
    assert_eq!(update.locations.len(), 1);
    assert_eq!(update.locations[0].line, Some(3));
    assert_eq!(update.content.len(), 2);
    assert!(matches!(
        &update.content[0],
        NormalizedToolContent::Diff(diff) if diff.path == "/work/src/main.rs"
    ));
    assert!(matches!(
        &update.content[1],
        NormalizedToolContent::Terminal(terminal) if terminal.terminal_id == "term-1"
    ));
    assert_eq!(update.raw_input.unwrap()["path"], "/work/src/main.rs");
    assert_eq!(update.raw_output.unwrap()["exit"], 0);
}

#[test]
fn tool_call_update_drops_null_raw_output() {
    let update = normalize_tool_call_update(WireToolCallUpdate {
        tool_call_id: "tool-2".to_string(),
        title: None,
        kind: None,
        status: Some(WireToolCallStatus::Failed),
        content: None,
        locations: None,
        raw_input: None,
        raw_output: Some(serde_json::Value::Null),
    });
    assert!(update.raw_output.is_none());
    assert_eq!(update.status, ToolCallStatus::Failed);
}

#[test]
fn raw_null_is_dropped() {
    assert_eq!(normalized_raw(None), None);
    assert_eq!(normalized_raw(Some(serde_json::Value::Null)), None);
    assert_eq!(normalized_raw(Some(json(r#"{"exit":0}"#))), Some(json(r#"{"exit":0}"#)));
}

#[test]
fn tool_call_update_without_fields_is_pending_and_untitled() {
    let update = normalize_tool_call_update(WireToolCallUpdate {
        tool_call_id: "tool-3".to_string(),
        title: None,
        kind: Some(WireToolKind::Edit),
        status: None,
        content: None,
        locations: None,
        raw_input: None,
        raw_output: None,
    });
    assert_eq!(update.status, ToolCallStatus::Pending);
    assert_eq!(update.title, "");
    assert_eq!(update.kind.as_deref(), Some("edit"));
    assert!(update.content.is_empty());
}
