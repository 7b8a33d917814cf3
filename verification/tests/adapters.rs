use slight::codex::{first_bundle, CodexAdapter, CodexConfig};
use slight::env::HostEnvironment;
use slight::kinds::AgentKind;
use slight::matrix::{catalog_entry, AdapterCapability, CapabilityMatrix, ProbeOutcome, ProbeSummary};
use slight::acp_client::host_client_capabilities;
use slight::metadata::AgentCapabilitiesSummary;
use slight::opencode::{OpencodeAdapter, OpencodeConfig};
use slight::process::ChildSpec;
use slight::stdio::{resolve_candidate, resolve_program};

fn host() -> HostEnvironment {
    HostEnvironment::empty()
}

#[test]
fn codex_missing_explicit_program_reports_clear_error() {
    let adapter = CodexAdapter::new(CodexConfig {
        program: Some("/definitely/not/codex-acp".to_string()),
        ..CodexConfig::default()
    });
    let error = adapter.resolve_program(&host()).unwrap_err();
    assert!(error.message().contains("does not exist"));
}

#[test]
fn codex_capability_reports_broker_and_auth() {
    let capability = CodexAdapter::default().capability(&host());
    assert_eq!(capability.kind, AgentKind::Codex);
    assert_eq!(capability.auth.login_command.as_deref(), Some("codex login"));
    assert!(capability.notes.iter().any(|note| note.contains("codex-acp")));
}

#[test]
fn unsupported_capabilities_names_negotiated_gaps() {
    let summary = ProbeSummary {
        protocol_version: 1,
        agent_name: Some("agent".to_string()),
        agent_title: None,
        agent_version: None,
        auth_methods: Vec::new(),
        capabilities: AgentCapabilitiesSummary {
            load_session: true,
            session_list: true,
            ..AgentCapabilitiesSummary::default()
        },
        config_options: Vec::new(),
    };
    let unsupported = summary.unsupported_capabilities();
    assert!(!unsupported.contains(&"session/load"));
    assert!(!unsupported.contains(&"session/list"));
    assert!(unsupported.contains(&"session/resume"));
    assert!(unsupported.contains(&"prompt image"));
}

#[test]
fn matrix_available_filters_missing_executables() {
    let matrix = CapabilityMatrix {
        generated_at_ms: 0,
        entries: vec![
            AdapterCapability::placeholder(AgentKind::Fake, "Fake".to_string(), true),
            AdapterCapability::placeholder(AgentKind::Codex, "Codex".to_string(), false),
        ],
    };
    assert_eq!(matrix.available().len(), 1);
    assert_eq!(matrix.available()[0].kind, AgentKind::Fake);
}

#[test]
fn opencode_missing_explicit_program_reports_clear_error() {
    let adapter = OpencodeAdapter::new(OpencodeConfig {
        program: Some("/definitely/not/opencode".to_string()),
        ..OpencodeConfig::default()
    });
    let error = adapter.resolve_program(&host()).unwrap_err();
    assert!(error.message().contains("does not exist"));
}

#[test]
fn capability_reports_launch_and_auth() {
    let capability = OpencodeAdapter::default().capability(&host());
    assert_eq!(capability.args, vec!["acp".to_string()]);
    assert_eq!(capability.auth.login_command.as_deref(), Some("opencode auth login"));
}

#[test]
fn spec_builder_records_launch_configuration() {
    let spec = ChildSpec::new("/bin/echo")
        .args(vec!["--help".to_string()])
        .working_directory("/tmp")
        .environment("FOO", "bar");
    assert_eq!(spec.program, "/bin/echo".to_string());
    assert_eq!(spec.args, vec!["--help".to_string()]);
    assert_eq!(spec.working_directory, Some("/tmp".to_string()));
    assert_eq!(spec.environment, vec![("FOO".to_string(), "bar".to_string())]);
    assert!(!spec.env_clear);
    assert!(!spec.capture_stderr);
}

#[test]
fn missing_explicit_program_reports_hint() {
    let error = resolve_program(
        Some("/definitely/not/a/real/agent"),
        "SLIGHT_TEST_BIN",
        "test-agent",
        "Install test-agent.",
        &host(),
    )
    .unwrap_err();
    assert!(error.message().contains("does not exist"));
    assert!(error.message().contains("Install test-agent."));
}

#[test]
fn missing_default_executable_reports_env_var() {
    let error = resolve_program(
        None,
        "SLIGHT_DEFINITELY_UNSET_BIN",
        "definitely-not-a-real-agent-xyz",
        "Install it.",
        &host(),
    )
    .unwrap_err();
    assert!(error.message().contains("SLIGHT_DEFINITELY_UNSET_BIN"));
}

#[test]
fn the_first_bundle_that_passes_its_check_wins() {
    let candidates = vec!["configured".to_string(), "target".to_string(), "beside".to_string()];
    assert_eq!(first_bundle(&candidates, &vec![false, true, true]), Some("target".to_string()));
    assert_eq!(first_bundle(&candidates, &vec![true, true, false]), Some("configured".to_string()));
    assert_eq!(first_bundle(&candidates, &vec![false, false, false]), None);
}

#[test]
fn catalog_entries_are_available_only_when_installed_and_compatible() {
    let summary = ProbeSummary {
        protocol_version: 1,
        agent_name: Some("agent".to_string()),
        agent_title: None,
        agent_version: Some("1.2.3".to_string()),
        auth_methods: Vec::new(),
        capabilities: AgentCapabilitiesSummary::default(),
        config_options: Vec::new(),
    };
    let entry = catalog_entry(AgentKind::Codex, "Codex".to_string(), true, ProbeOutcome::Compatible(summary.clone()));
    assert_eq!(entry.id, "codex");
    assert_eq!(entry.display_name, "Codex");
    assert_eq!(entry.version.as_deref(), Some("1.2.3"));
    assert!(entry.available);
    let missing = catalog_entry(AgentKind::Codex, "Codex".to_string(), false, ProbeOutcome::Compatible(summary));
    assert!(!missing.available);
    assert_eq!(missing.version.as_deref(), Some("1.2.3"));
    let failed = catalog_entry(
        AgentKind::Fake,
        "Fake".to_string(),
        true,
        ProbeOutcome::Failed { message: "handshake failed".to_string() },
    );
    assert_eq!(failed.id, "fake");
    assert!(!failed.available);
    assert!(failed.version.is_none());
    assert!(failed.config_options.is_empty());
}

#[test]
fn host_capabilities_advertise_boolean_config_options_only() {
    let capabilities = host_client_capabilities();
    assert!(capabilities.boolean_config_options);
    assert!(!capabilities.terminal);
    assert!(!capabilities.read_text_file);
    assert!(!capabilities.write_text_file);
}

#[test]
fn a_bare_name_is_searched_on_path_and_a_path_is_checked_as_a_file() {
    let host = HostEnvironment {
        vars: vec![("PATH".to_string(), "/definitely/not/a/dir".to_string())],
        os: "linux".to_string(),
        arch: "x86_64".to_string(),
        executable_dir: None,
    };
    let bare = resolve_candidate("no-such-broker", "Install it.", &host).unwrap_err();
    assert_eq!(bare.0, "executable `no-such-broker` was not found; check the configured path or PATH. Install it.");
    let rooted = resolve_candidate("/definitely/not/no-such-broker", "Install it.", &host).unwrap_err();
    assert_eq!(rooted.0, "executable `/definitely/not/no-such-broker` does not exist or is not a file. Install it.");
    let nested = resolve_candidate("bin/no-such-broker", "Install it.", &host).unwrap_err();
    assert_eq!(nested.0, "executable `bin/no-such-broker` does not exist or is not a file. Install it.");
}

#[test]
fn bundle_layout_needs_node_entry_and_binary() {
    assert!(slight::codex::bundle_layout_complete(true, true, true));
    assert!(!slight::codex::bundle_layout_complete(true, true, false));
    assert!(!slight::codex::bundle_layout_complete(false, true, true));
    assert!(!slight::codex::is_codex_bundle_dir("/definitely/not/a/bundle"));
}

#[test]
fn opencode_and_codex_configs_expose_their_launch_shape() {
    let opencode = OpencodeAdapter::default().capability(&host());
    assert_eq!(opencode.args, vec!["acp".to_string()]);

    let codex = CodexAdapter::default().capability(&host());
    assert_eq!(codex.kind, AgentKind::Codex);
    assert!(codex.args.is_empty());
}
