use slight::metadata::{
    AcpConfigCategory, AcpConfigKind, AcpConfigOption, AcpModeState, AcpSessionInfoUpdate,
    AvailableCommandSummary, ListedSessionSummary, PlanSummary, SessionMetadata, WireAvailableCommand,
    WireConfigCategory, WireConfigKind, WireConfigOption, WireConfigSelectGroup, WireConfigSelectOption,
    WireConfigSelectOptions, WirePlanEntry, WirePlanPriority, WirePlanStatus, WireSessionInfo,
    WireSessionInfoUpdate, WireSessionMode, WireSessionModeState,
};

fn boolean_option(id: &str, name: &str, value: bool) -> WireConfigOption {
    WireConfigOption {
        id: id.to_string(),
        name: name.to_string(),
        description: None,
        category: None,
        kind: WireConfigKind::Boolean { current_value: value },
    }
}

#[test]
fn plan_summary_uses_wire_strings() {
    let plan = vec![WirePlanEntry {
        content: "ship it".to_string(),
        priority: WirePlanPriority::High,
        status: WirePlanStatus::InProgress,
    }];
    let summary = PlanSummary::from_wire(&plan);
    assert_eq!(summary.entries.len(), 1);
    assert_eq!(summary.entries[0].priority, "high");
    assert_eq!(summary.entries[0].status, "in_progress");
}

#[test]
fn available_command_keeps_unstructured_hint() {
    let command = WireAvailableCommand {
        name: "create_plan".to_string(),
        description: "Create a plan".to_string(),
        input_hint: Some("describe the task".to_string()),
    };
    let summary = AvailableCommandSummary::from_wire(&command);
    assert_eq!(summary.input_hint.as_deref(), Some("describe the task"));
}

#[test]
fn mode_state_maps_ids_and_labels() {
    let state = WireSessionModeState {
        current_mode_id: "plan".to_string(),
        available_modes: vec![
            WireSessionMode { id: "plan".to_string(), name: "Plan".to_string(), description: None },
            WireSessionMode { id: "build".to_string(), name: "Build".to_string(), description: None },
        ],
    };
    let summary = AcpModeState::from_wire(&state);
    assert_eq!(summary.current_mode_id, "plan");
    assert_eq!(summary.available_modes.len(), 2);
}

#[test]
fn select_config_option_keeps_choices_and_category() {
    let option = WireConfigOption {
        id: "model".to_string(),
        name: "Model".to_string(),
        description: Some("Pick a model".to_string()),
        category: Some(WireConfigCategory::Model),
        kind: WireConfigKind::Select {
            current_value: "fast".to_string(),
            options: WireConfigSelectOptions::Ungrouped(vec![
                WireConfigSelectOption { value: "fast".to_string(), name: "Fast".to_string(), description: None },
                WireConfigSelectOption {
                    value: "smart".to_string(),
                    name: "Smart".to_string(),
                    description: Some("slower".to_string()),
                },
            ]),
        },
    };
    let normalized = AcpConfigOption::from_wire(&option);
    assert_eq!(normalized.id, "model");
    assert_eq!(normalized.category, Some(AcpConfigCategory::Model));
    assert_eq!(normalized.description.as_deref(), Some("Pick a model"));
    match normalized.kind {
        AcpConfigKind::Select { current_value_id, groups } => {
            assert_eq!(current_value_id, "fast");
            assert_eq!(groups.len(), 1);
            assert!(groups[0].id.is_none());
            assert_eq!(groups[0].options.len(), 2);
            assert_eq!(groups[0].options[1].description.as_deref(), Some("slower"));
        }
        other => panic!("expected select option, got {other:?}"),
    }
}

#[test]
fn grouped_select_config_option_preserves_group_labels() {
    let option = WireConfigOption {
        id: "model".to_string(),
        name: "Model".to_string(),
        description: None,
        category: None,
        kind: WireConfigKind::Select {
            current_value: "fast".to_string(),
            options: WireConfigSelectOptions::Grouped(vec![WireConfigSelectGroup {
                group: "cheap".to_string(),
                name: "Cheap".to_string(),
                options: vec![WireConfigSelectOption {
                    value: "fast".to_string(),
                    name: "Fast".to_string(),
                    description: None,
                }],
            }]),
        },
    };
    let normalized = AcpConfigOption::from_wire(&option);
    match normalized.kind {
        AcpConfigKind::Select { groups, .. } => {
            assert_eq!(groups.len(), 1);
            assert_eq!(groups[0].id.as_deref(), Some("cheap"));
            assert_eq!(groups[0].name.as_deref(), Some("Cheap"));
        }
        other => panic!("expected select option, got {other:?}"),
    }
}

#[test]
fn boolean_config_option_maps_current_value() {
    let normalized = AcpConfigOption::from_wire(&boolean_option("brave_mode", "Brave Mode", true));
    assert_eq!(normalized.kind, AcpConfigKind::Boolean { current_value: true });
    assert!(normalized.category.is_none());
}

#[test]
fn session_info_update_preserves_undefined_and_null() {
    let update = WireSessionInfoUpdate { title: Some(Some("Renamed".to_string())), updated_at: None };
    let normalized = AcpSessionInfoUpdate::from_wire(&update);
    assert_eq!(normalized.title, Some(Some("Renamed".to_string())));
    assert_eq!(normalized.updated_at, None);
}

#[test]
fn listed_session_maps_native_identity_and_cwd() {
    let info = WireSessionInfo {
        session_id: "native-7".to_string(),
        cwd: "/work/project".to_string(),
        additional_directories: vec!["/work/extra".to_string()],
        title: Some("Prior work".to_string()),
        updated_at: Some("2026-02-02T00:00:00Z".to_string()),
    };
    let summary = ListedSessionSummary::from_wire(&info);
    assert_eq!(summary.agent_session_id, "native-7");
    assert_eq!(summary.cwd, "/work/project");
    assert_eq!(summary.title.as_deref(), Some("Prior work"));
    assert_eq!(summary.updated_at.as_deref(), Some("2026-02-02T00:00:00Z"));
    assert_eq!(summary.additional_directories, vec!["/work/extra"]);
}

#[test]
fn session_metadata_carries_config_options() {
    let metadata = SessionMetadata {
        agent_session_id: "s-1".to_string(),
        modes: None,
        config_options: vec![AcpConfigOption::from_wire(&boolean_option("brave_mode", "Brave Mode", false))],
    };
    assert_eq!(metadata.config_options.len(), 1);
    assert_eq!(metadata.config_options[0].id, "brave_mode");
}

#[test]
fn mode_state_round_trips_through_session_metadata() {
    let state = WireSessionModeState {
        current_mode_id: "plan".to_string(),
        available_modes: vec![WireSessionMode { id: "plan".to_string(), name: "Plan".to_string(), description: None }],
    };
    let metadata = SessionMetadata {
        agent_session_id: "s-1".to_string(),
        modes: Some(AcpModeState::from_wire(&state)),
        config_options: Vec::new(),
    };
    assert_eq!(metadata.modes.as_ref().unwrap().current_mode_id, "plan");
}
