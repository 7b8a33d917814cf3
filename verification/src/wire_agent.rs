//! A scripted ACP agent for conformance tests: what it answers to each
//! request, what a prompt turn streams, and how it waits for the client's
//! permission decision. The loop that reads and writes newline-delimited
//! JSON-RPC performs the script.

use vstd::prelude::*;
use crate::acp_client::{same_id, RequestId};
use crate::agent_events::StopReason;
use crate::content::{WireContentBlock, WireToolCallContent, WireToolCallLocation};
use crate::env::{env_get, pairs_view, HostEnvironment};
use crate::json::{json_integer_member, json_string_member};
use crate::jsonrpc::RawMessage;
use crate::metadata::{
    AcpCost, AcpUsage, WireAgentCapabilities, WireConfigCategory, WireConfigKind, WireConfigOption,
    WireConfigSelectOption, WireConfigSelectOptions, WireSessionInfo, WireSessionInfoUpdate, WireSessionMode,
    WireSessionModeState,
};
use crate::normalize::{
    WirePermissionOption, WirePermissionOptionKind, WireSessionUpdate, WireToolCall, WireToolCallStatus,
    WireToolCallUpdate, WireToolKind,
};
use crate::text::{concat2, owned, str_equal};

verus! {

/// How the scripted agent behaves.
#[derive(Debug, Clone)]
pub struct FakeWireAgentConfig {
    /// The session id `session/new` returns.
    pub session_id: String,
    pub agent_name: String,
    pub agent_version: String,
    /// Whether a prompt turn asks the client for a permission.
    pub request_permission: bool,
    /// Whether `session/cancel` ends a wait for a permission decision.
    pub cancellation_supported: bool,
    /// Whether the agent advertises and answers `session/list`.
    pub list_supported: bool,
    /// Whether the agent advertises `loadSession` and answers `session/load`.
    pub load_supported: bool,
    /// Whether the agent advertises and answers `session/resume`.
    pub resume_supported: bool,
}

impl FakeWireAgentConfig {
    /// The default behaviour: session `session-1`, every capability, and a
    /// permission request on each prompt.
    pub open spec fn is_default(self) -> bool {
        &&& self.session_id@ == "session-1"@
        &&& self.agent_name@ == "fake-acp-agent"@
        &&& self.agent_version@ == "0.1.0"@
        &&& self.request_permission && self.cancellation_supported
        &&& self.list_supported && self.load_supported && self.resume_supported
    }
}

impl Default for FakeWireAgentConfig {
    fn default() -> (res: Self)
        ensures
            res.is_default(),
    {
        FakeWireAgentConfig {
            session_id: owned("session-1"),
            agent_name: owned("fake-acp-agent"),
            agent_version: owned("0.1.0"),
            request_permission: true,
            cancellation_supported: true,
            list_supported: true,
            load_supported: true,
            resume_supported: true,
        }
    }
}

/// Whether `c` is the letter `lower` in either case.
pub open spec fn either_case(c: char, lower: char, upper: char) -> bool {
    c == lower || c == upper
}

/// Whether `value` spells `false` in any mix of cases.
pub open spec fn spells_false(value: Seq<char>) -> bool {
    value.len() == 5 && either_case(value[0], 'f', 'F') && either_case(value[1], 'a', 'A') && either_case(
        value[2],
        'l',
        'L',
    ) && either_case(value[3], 's', 'S') && either_case(value[4], 'e', 'E')
}

/// Whether a switch's value turns it on: anything but `0` and `false`.
pub open spec fn switch_on(value: Seq<char>) -> bool {
    value != "0"@ && !spells_false(value)
}

/// Whether a switch's value turns it on: anything but `0` and `false` (in
/// any case).
pub fn enabled(value: &str) -> (res: bool)
    ensures
        res == switch_on(value@),
{
    proof {
        reveal_strlit("0");
    }
    if str_equal(value, "0") {
        return false;
    }
    if value.unicode_len() != 5 {
        return true;
    }
    let c0 = value.get_char(0);
    let c1 = value.get_char(1);
    let c2 = value.get_char(2);
    let c3 = value.get_char(3);
    let c4 = value.get_char(4);
    !((c0 == 'f' || c0 == 'F') && (c1 == 'a' || c1 == 'A') && (c2 == 'l' || c2 == 'L') && (c3 == 's' || c3 == 'S')
        && (c4 == 'e' || c4 == 'E'))
}

/// The switch `key` of `vars`, or `current` when it is not set.
pub open spec fn switch_of(vars: Seq<(Seq<char>, Seq<char>)>, key: Seq<char>, current: bool) -> bool {
    match env_get(vars, key) {
        Some(v) => switch_on(v),
        None => current,
    }
}

impl FakeWireAgentConfig {
    /// The default behaviour with the overrides `host` sets:
    /// `FAKE_ACP_REQUEST_PERMISSION`, `FAKE_ACP_SESSION_ID`,
    /// `FAKE_ACP_LIST_SUPPORTED`, `FAKE_ACP_LOAD_SUPPORTED` and
    /// `FAKE_ACP_RESUME_SUPPORTED`.
    pub fn from_environment(host: &HostEnvironment) -> (res: Self)
        ensures
            ({
                let vars = pairs_view(host.vars@);
                &&& res.request_permission == switch_of(vars, "FAKE_ACP_REQUEST_PERMISSION"@, true)
                &&& res.session_id@ == match env_get(vars, "FAKE_ACP_SESSION_ID"@) {
                    Some(id) => id,
                    None => "session-1"@,
                }
                &&& res.list_supported == switch_of(vars, "FAKE_ACP_LIST_SUPPORTED"@, true)
                &&& res.load_supported == switch_of(vars, "FAKE_ACP_LOAD_SUPPORTED"@, true)
                &&& res.resume_supported == switch_of(vars, "FAKE_ACP_RESUME_SUPPORTED"@, true)
                &&& res.agent_name@ == "fake-acp-agent"@
                &&& res.agent_version@ == "0.1.0"@
                &&& res.cancellation_supported
            }),
    {
        let mut config = FakeWireAgentConfig::default();
        if let Some(v) = host.var("FAKE_ACP_REQUEST_PERMISSION") {
            config.request_permission = enabled(v.as_str());
        }
        if let Some(v) = host.var("FAKE_ACP_SESSION_ID") {
            config.session_id = v;
        }
        if let Some(v) = host.var("FAKE_ACP_LIST_SUPPORTED") {
            config.list_supported = enabled(v.as_str());
        }
        if let Some(v) = host.var("FAKE_ACP_LOAD_SUPPORTED") {
            config.load_supported = enabled(v.as_str());
        }
        if let Some(v) = host.var("FAKE_ACP_RESUME_SUPPORTED") {
            config.resume_supported = enabled(v.as_str());
        }
        config
    }
}

/// What the agent advertises: `loadSession`, `session/list` and
/// `session/resume` as configured, nothing else.
pub fn agent_capabilities(config: &FakeWireAgentConfig) -> (res: WireAgentCapabilities)
    ensures
        res == (WireAgentCapabilities {
            load_session: config.load_supported,
            session_list: config.list_supported,
            session_resume: config.resume_supported,
            ..WireAgentCapabilities::spec_none()
        }),
{
    let mut capabilities = WireAgentCapabilities::none();
    capabilities.load_session = config.load_supported;
    capabilities.session_list = config.list_supported;
    capabilities.session_resume = config.resume_supported;
    capabilities
}

/// The mode state the agent reports: `auto` of `none` and `auto`.
pub fn session_mode_state() -> (res: WireSessionModeState)
    ensures
        res.current_mode_id@ == "auto"@,
        res.available_modes@.len() == 2,
        res.available_modes@[0].id@ == "none"@ && res.available_modes@[0].name@ == "None"@,
        res.available_modes@[1].id@ == "auto"@ && res.available_modes@[1].name@ == "Auto"@,
{
    let mut modes: Vec<WireSessionMode> = Vec::new();
    modes.push(WireSessionMode { id: owned("none"), name: owned("None"), description: None });
    modes.push(WireSessionMode { id: owned("auto"), name: owned("Auto"), description: None });
    WireSessionModeState { current_mode_id: owned("auto"), available_modes: modes }
}

/// `u` is a chunk of text `text` in the role `assistant` (or `user`).
pub open spec fn text_chunk(u: WireSessionUpdate, assistant: bool, text: Seq<char>) -> bool {
    if assistant {
        u matches WireSessionUpdate::AgentMessageChunk(WireContentBlock::Text { text: t }) && t@ == text
    } else {
        u matches WireSessionUpdate::UserMessageChunk(WireContentBlock::Text { text: t }) && t@ == text
    }
}

fn text_block(text: &str) -> (res: WireContentBlock)
    ensures
        res matches WireContentBlock::Text { text: t } && t@ == text@,
{
    WireContentBlock::Text { text: owned(text) }
}

/// The history `session/load` replays before it answers.
pub fn load_replay() -> (res: Vec<WireSessionUpdate>)
    ensures
        res@.len() == 2,
        text_chunk(res@[0], false, "replayed user"@),
        text_chunk(res@[1], true, "replayed assistant"@),
{
    let mut updates: Vec<WireSessionUpdate> = Vec::new();
    updates.push(WireSessionUpdate::UserMessageChunk(text_block("replayed user")));
    updates.push(WireSessionUpdate::AgentMessageChunk(text_block("replayed assistant")));
    updates
}

/// The configuration options a new session offers: a model selection
/// between `wire-model` and `wire-smart`, and the `brave_mode` switch, off.
pub fn new_session_options() -> (res: Vec<WireConfigOption>)
    ensures
        res@.len() == 2,
        res@[0].id@ == "model"@ && res@[0].name@ == "Model"@ && res@[0].category == Some(WireConfigCategory::Model),
        res@[0].kind matches WireConfigKind::Select { current_value, options: WireConfigSelectOptions::Ungrouped(choices) }
            && current_value@ == "wire-model"@ && choices@.len() == 2 && choices@[0].value@ == "wire-model"@
            && choices@[0].name@ == "Wire Model"@ && choices@[1].value@ == "wire-smart"@ && choices@[1].name@
            == "Wire Smart"@,
        res@[1].id@ == "brave_mode"@ && res@[1].name@ == "Brave Mode"@,
        res@[1].kind == (WireConfigKind::Boolean { current_value: false }),
{
    let mut choices: Vec<WireConfigSelectOption> = Vec::new();
    choices.push(WireConfigSelectOption { value: owned("wire-model"), name: owned("Wire Model"), description: None });
    choices.push(WireConfigSelectOption { value: owned("wire-smart"), name: owned("Wire Smart"), description: None });
    let mut options: Vec<WireConfigOption> = Vec::new();
    options.push(
        WireConfigOption {
            id: owned("model"),
            name: owned("Model"),
            description: None,
            category: Some(WireConfigCategory::Model),
            kind: WireConfigKind::Select {
                current_value: owned("wire-model"),
                options: WireConfigSelectOptions::Ungrouped(choices),
            },
        },
    );
    options.push(brave_mode(false));
    options
}

fn brave_mode(on: bool) -> (res: WireConfigOption)
    ensures
        res.id@ == "brave_mode"@ && res.name@ == "Brave Mode"@,
        res.description is None && res.category is None,
        res.kind == (WireConfigKind::Boolean { current_value: on }),
{
    WireConfigOption {
        id: owned("brave_mode"),
        name: owned("Brave Mode"),
        description: None,
        category: None,
        kind: WireConfigKind::Boolean { current_value: on },
    }
}

/// The sessions `session/list` reports: one, `session-1` in `/tmp/work`,
/// when listing is supported; none otherwise.
pub fn listed_sessions(config: &FakeWireAgentConfig) -> (res: Vec<WireSessionInfo>)
    ensures
        !config.list_supported ==> res@.len() == 0,
        config.list_supported ==> res@.len() == 1 && res@[0].session_id@ == "session-1"@ && res@[0].cwd@
            == "/tmp/work"@ && res@[0].additional_directories@.len() == 0 && (res@[0].title matches Some(t) && t@
            == "Wire session"@) && (res@[0].updated_at matches Some(u) && u@ == "2026-01-01T00:00:00Z"@),
{
    let mut sessions: Vec<WireSessionInfo> = Vec::new();
    if config.list_supported {
        sessions.push(
            WireSessionInfo {
                session_id: owned("session-1"),
                cwd: owned("/tmp/work"),
                additional_directories: Vec::new(),
                title: Some(owned("Wire session")),
                updated_at: Some(owned("2026-01-01T00:00:00Z")),
            },
        );
    }
    sessions
}

/// What the agent answers to a request.
#[derive(Debug)]
pub enum AgentReply {
    Initialize { agent_name: String, agent_version: String, capabilities: WireAgentCapabilities },
    ListSessions(Vec<WireSessionInfo>),
    /// Replays the history as session updates, then answers with the modes.
    Load { replay: Vec<WireSessionUpdate>, modes: WireSessionModeState },
    Resume { modes: WireSessionModeState },
    NewSession { session_id: String, config_options: Vec<WireConfigOption> },
    /// Runs a prompt turn.
    Prompt,
    /// A JSON-RPC `method_not_found` error.
    MethodNotFound,
}

/// What the agent answers to a request for `method`: `initialize`,
/// `session/list`, `session/new` and `session/prompt` always; `session/load`
/// and `session/resume` when supported; anything else is not found.
pub fn reply_to(config: &FakeWireAgentConfig, method: &str) -> (res: AgentReply)
    ensures
        method@ == "initialize"@ ==> (res matches AgentReply::Initialize { agent_name, agent_version, capabilities }
            && agent_name@ == config.agent_name@ && agent_version@ == config.agent_version@ && capabilities
            == (WireAgentCapabilities {
            load_session: config.load_supported,
            session_list: config.list_supported,
            session_resume: config.resume_supported,
            ..WireAgentCapabilities::spec_none()
        })),
        method@ == "session/list"@ ==> (res matches AgentReply::ListSessions(s) && (config.list_supported
            <==> s@.len() == 1)),
        method@ == "session/load"@ ==> if config.load_supported {
            res matches AgentReply::Load { replay, modes } && replay@.len() == 2 && modes.current_mode_id@ == "auto"@
        } else {
            res is MethodNotFound
        },
        method@ == "session/resume"@ ==> if config.resume_supported {
            res matches AgentReply::Resume { modes } && modes.current_mode_id@ == "auto"@
        } else {
            res is MethodNotFound
        },
        method@ == "session/new"@ ==> (res matches AgentReply::NewSession { session_id, config_options }
            && session_id@ == config.session_id@ && config_options@.len() == 2),
        method@ == "session/prompt"@ ==> res is Prompt,
        method@ != "initialize"@ && method@ != "session/list"@ && method@ != "session/load"@ && method@
            != "session/resume"@ && method@ != "session/new"@ && method@ != "session/prompt"@ ==> res is MethodNotFound,
{
    proof {
        reveal_strlit("initialize");
        reveal_strlit("session/list");
        reveal_strlit("session/load");
        reveal_strlit("session/resume");
        reveal_strlit("session/new");
        reveal_strlit("session/prompt");
        assert("initialize"@.len() == 10 && "session/list"@.len() == 12 && "session/new"@.len() == 11);
        assert("session/resume"@.len() == 14 && "session/prompt"@.len() == 14);
        assert("session/list"@[9] != "session/load"@[9]);
        assert("session/resume"@[8] != "session/prompt"@[8]);
    }
    if str_equal(method, "initialize") {
        AgentReply::Initialize {
            agent_name: config.agent_name.clone(),
            agent_version: config.agent_version.clone(),
            capabilities: agent_capabilities(config),
        }
    } else if str_equal(method, "session/list") {
        AgentReply::ListSessions(listed_sessions(config))
    } else if str_equal(method, "session/load") {
        if config.load_supported {
            AgentReply::Load { replay: load_replay(), modes: session_mode_state() }
        } else {
            AgentReply::MethodNotFound
        }
    } else if str_equal(method, "session/resume") {
        if config.resume_supported {
            AgentReply::Resume { modes: session_mode_state() }
        } else {
            AgentReply::MethodNotFound
        }
    } else if str_equal(method, "session/new") {
        AgentReply::NewSession { session_id: config.session_id.clone(), config_options: new_session_options() }
    } else if str_equal(method, "session/prompt") {
        AgentReply::Prompt
    } else {
        AgentReply::MethodNotFound
    }
}

/// The text of a prompt: its first text block, or nothing.
pub open spec fn prompt_text_of(blocks: Seq<WireContentBlock>) -> Seq<char>
    decreases blocks.len(),
{
    if blocks.len() == 0 {
        Seq::empty()
    } else {
        match blocks[0] {
            WireContentBlock::Text { text } => text@,
            _ => prompt_text_of(blocks.drop_first()),
        }
    }
}

/// The text of a prompt: its first text block, or nothing.
pub fn prompt_text(blocks: &Vec<WireContentBlock>) -> (res: String)
    ensures
        res@ == prompt_text_of(blocks@),
{
    let mut i: usize = 0;
    proof {
        assert(blocks@.skip(0) =~= blocks@);
    }
    while i < blocks.len()
        invariant
            i <= blocks@.len(),
            prompt_text_of(blocks@) == prompt_text_of(blocks@.skip(i as int)),
        decreases blocks.len() - i,
    {
        proof {
            assert(blocks@.skip(i as int)[0] == blocks@[i as int]);
            assert(blocks@.skip(i as int).drop_first() =~= blocks@.skip(i + 1));
        }
        match &blocks[i] {
            WireContentBlock::Text { text } => return text.clone(),
            _ => {},
        }
        i = i + 1;
    }
    String::new()
}

/// The IEEE-754 bits of the cost a prompt turn reports, 0.02.
pub const TURN_COST_BITS: u64 = 0x3F94_7AE1_47AE_147B;

/// The file the scripted tool call edits.
pub open spec fn edited_file() -> Seq<char> {
    "/tmp/work/src/main.rs"@
}

/// `u` is the scripted `edit_file` tool call, still in progress.
pub open spec fn scripted_tool_call(u: WireSessionUpdate) -> bool {
    u matches WireSessionUpdate::ToolCall(t) && {
        &&& t.tool_call_id@ == "tool-1"@ && t.title@ == "edit_file"@
        &&& t.kind == WireToolKind::Edit && t.status == WireToolCallStatus::InProgress
        &&& t.content@.len() == 3
        &&& t.content@[0] matches WireToolCallContent::Content(WireContentBlock::Text { text }) && text@
            == "patching main.rs"@
        &&& t.content@[1] matches WireToolCallContent::Diff { path, old_text: Some(old), new_text } && path@
            == edited_file() && old@ == "fn main() {}"@ && new_text@ == "fn main() { run() }"@
        &&& t.content@[2] matches WireToolCallContent::Terminal { terminal_id } && terminal_id@ == "term-1"@
        &&& t.locations@.len() == 1 && t.locations@[0].path@ == edited_file() && t.locations@[0].line == Some(
            12u32,
        )
        &&& t.raw_input is Some && t.raw_output is Some
    }
}

fn scripted_tool() -> (res: WireToolCall)
    ensures
        scripted_tool_call(WireSessionUpdate::ToolCall(res)),
{
    let mut content: Vec<WireToolCallContent> = Vec::new();
    content.push(WireToolCallContent::Content(text_block("patching main.rs")));
    content.push(
        WireToolCallContent::Diff {
            path: owned("/tmp/work/src/main.rs"),
            old_text: Some(owned("fn main() {}")),
            new_text: owned("fn main() { run() }"),
        },
    );
    content.push(WireToolCallContent::Terminal { terminal_id: owned("term-1") });
    let mut locations: Vec<WireToolCallLocation> = Vec::new();
    locations.push(WireToolCallLocation { path: owned("/tmp/work/src/main.rs"), line: Some(12) });
    WireToolCall {
        tool_call_id: owned("tool-1"),
        title: owned("edit_file"),
        kind: WireToolKind::Edit,
        status: WireToolCallStatus::InProgress,
        content,
        locations,
        raw_input: Some(json_string_member("path", "/tmp/work/src/main.rs")),
        raw_output: Some(json_integer_member("exit", 0)),
    }
}

/// What a prompt turn streams before it asks for a permission: the echo of
/// the prompt, an image, the `brave_mode` switch turned on, the session
/// title, the usage, and the scripted tool call.
pub fn prompt_opening(text: &str) -> (res: Vec<WireSessionUpdate>)
    ensures
        res@.len() == 6,
        text_chunk(res@[0], true, "echo: "@ + text@),
        res@[1] matches WireSessionUpdate::AgentMessageChunk(WireContentBlock::Image { data, mime_type, uri: Some(u) })
            && data@ == "aGVsbG8="@ && mime_type@ == "image/png"@ && u@ == "file:///tmp/rich.png"@,
        res@[2] matches WireSessionUpdate::ConfigOptionUpdate(options) && options@.len() == 1 && options@[0].id@
            == "brave_mode"@ && options@[0].kind == (WireConfigKind::Boolean { current_value: true }),
        res@[3] matches WireSessionUpdate::SessionInfoUpdate(info) && (info.title matches Some(Some(t)) && t@
            == "Wire session"@) && info.updated_at is None,
        res@[4] matches WireSessionUpdate::UsageUpdate(usage) && usage.used == 1024 && usage.size == 200_000 && (
        usage.cost matches Some(c) && c.amount_bits == TURN_COST_BITS && c.currency@ == "USD"@),
        scripted_tool_call(res@[5]),
{
    let mut updates: Vec<WireSessionUpdate> = Vec::new();
    updates.push(WireSessionUpdate::AgentMessageChunk(WireContentBlock::Text { text: concat2("echo: ", text) }));
    updates.push(
        WireSessionUpdate::AgentMessageChunk(
            WireContentBlock::Image {
                data: owned("aGVsbG8="),
                mime_type: owned("image/png"),
                uri: Some(owned("file:///tmp/rich.png")),
            },
        ),
    );
    let mut options: Vec<WireConfigOption> = Vec::new();
    options.push(brave_mode(true));
    updates.push(WireSessionUpdate::ConfigOptionUpdate(options));
    updates.push(
        WireSessionUpdate::SessionInfoUpdate(
            WireSessionInfoUpdate { title: Some(Some(owned("Wire session"))), updated_at: None },
        ),
    );
    updates.push(
        WireSessionUpdate::UsageUpdate(
            AcpUsage {
                used: 1024,
                size: 200_000,
                cost: Some(AcpCost { amount_bits: TURN_COST_BITS, currency: owned("USD") }),
            },
        ),
    );
    updates.push(WireSessionUpdate::ToolCall(scripted_tool()));
    updates
}

/// `u` moves the scripted tool call to `status`.
pub open spec fn tool_progress(u: WireSessionUpdate, status: WireToolCallStatus) -> bool {
    u matches WireSessionUpdate::ToolCallUpdate(t) && t.tool_call_id@ == "tool-1"@ && t.status == Some(status)
        && t.title is None && t.content is None && t.locations is None
}

fn progress(status: WireToolCallStatus) -> (res: WireSessionUpdate)
    ensures
        tool_progress(res, status),
{
    WireSessionUpdate::ToolCallUpdate(
        WireToolCallUpdate {
            tool_call_id: owned("tool-1"),
            title: None,
            kind: None,
            status: Some(status),
            content: None,
            locations: None,
            raw_input: None,
            raw_output: None,
        },
    )
}

/// The id of the next permission request the agent sends: the counter's
/// value, which then moves on.
pub fn next_permission_id(counter: &mut i64) -> (res: RequestId)
    requires
        *old(counter) < i64::MAX,
    ensures
        res matches RequestId::Number(n) && n == *old(counter),
        *final(counter) == *old(counter) + 1,
{
    let id = *counter;
    *counter = *counter + 1;
    RequestId::Number(id)
}

/// The permission request of a prompt turn: about the scripted tool call,
/// offering to allow it once or to reject it once.
pub fn permission_request() -> (res: (WireToolCallUpdate, Vec<WirePermissionOption>))
    ensures
        res.0.tool_call_id@ == "tool-1"@ && (res.0.title matches Some(t) && t@ == "edit_file"@) && res.0.status
            == Some(WireToolCallStatus::InProgress),
        res.1@.len() == 2,
        res.1@[0].option_id@ == "allow"@ && res.1@[0].name@ == "Allow"@ && res.1@[0].kind
            == WirePermissionOptionKind::AllowOnce,
        res.1@[1].option_id@ == "reject"@ && res.1@[1].name@ == "Reject"@ && res.1@[1].kind
            == WirePermissionOptionKind::RejectOnce,
{
    let tool = WireToolCallUpdate {
        tool_call_id: owned("tool-1"),
        title: Some(owned("edit_file")),
        kind: None,
        status: Some(WireToolCallStatus::InProgress),
        content: None,
        locations: None,
        raw_input: None,
        raw_output: None,
    };
    let mut options: Vec<WirePermissionOption> = Vec::new();
    options.push(
        WirePermissionOption {
            option_id: owned("allow"),
            name: owned("Allow"),
            kind: WirePermissionOptionKind::AllowOnce,
        },
    );
    options.push(
        WirePermissionOption {
            option_id: owned("reject"),
            name: owned("Reject"),
            kind: WirePermissionOptionKind::RejectOnce,
        },
    );
    (tool, options)
}

/// How a permission request ended.
#[derive(Debug, Clone)]
pub enum PermissionResolution {
    Cancelled,
    Selected(String),
}

/// How a prompt turn ends: without a permission request the tool call
/// completes; a cancelled request fails it and the turn is cancelled; a
/// selected option is echoed and the tool call completes.
pub fn prompt_closing(resolution: Option<PermissionResolution>) -> (res: (Vec<WireSessionUpdate>, StopReason))
    ensures
        match resolution {
            None => res.0@.len() == 1 && tool_progress(res.0@[0], WireToolCallStatus::Completed) && res.1
                == StopReason::EndTurn,
            Some(PermissionResolution::Cancelled) => res.0@.len() == 1 && tool_progress(
                res.0@[0],
                WireToolCallStatus::Failed,
            ) && res.1 == StopReason::Cancelled,
            Some(PermissionResolution::Selected(option)) => res.0@.len() == 2 && text_chunk(
                res.0@[0],
                true,
                "permission:"@ + option@,
            ) && tool_progress(res.0@[1], WireToolCallStatus::Completed) && res.1 == StopReason::EndTurn,
        },
{
    let mut updates: Vec<WireSessionUpdate> = Vec::new();
    match resolution {
        None => {
            updates.push(progress(WireToolCallStatus::Completed));
            (updates, StopReason::EndTurn)
        },
        Some(PermissionResolution::Cancelled) => {
            updates.push(progress(WireToolCallStatus::Failed));
            (updates, StopReason::Cancelled)
        },
        Some(PermissionResolution::Selected(option)) => {
            updates.push(
                WireSessionUpdate::AgentMessageChunk(
                    WireContentBlock::Text { text: concat2("permission:", option.as_str()) },
                ),
            );
            updates.push(progress(WireToolCallStatus::Completed));
            (updates, StopReason::EndTurn)
        },
    }
}

/// What a message that arrives while the agent waits for a permission
/// decision leads to.
#[derive(Debug)]
pub enum PermissionWait {
    /// The answer to the permission request, still to decode.
    Answered(RawMessage),
    /// A cancel the agent honours.
    Cancelled,
    /// Anything else, which the agent skips.
    Skip,
}

/// Sorts a message that arrived while the agent waits for the answer to
/// permission request `awaited`: the response with that id answers it; a
/// `session/cancel` cancels it when cancelling is supported; the rest is
/// skipped.
pub fn permission_wait(message: RawMessage, awaited: &RequestId, cancellation_supported: bool) -> (res: PermissionWait)
    ensures
        match message {
            RawMessage::Response { id, .. } => if same_id(id, *awaited) {
                res matches PermissionWait::Answered(m) && m == message
            } else {
                res is Skip
            },
            RawMessage::Notification { method, .. } => if method@ == "session/cancel"@ && cancellation_supported {
                res is Cancelled
            } else {
                res is Skip
            },
            RawMessage::Request { .. } => res is Skip,
        },
{
    let matched = match &message {
        RawMessage::Response { id, .. } => Some(crate::acp_client::ids_equal(id, awaited)),
        RawMessage::Notification { method, .. } => {
            if str_equal(method.as_str(), "session/cancel") && cancellation_supported {
                return PermissionWait::Cancelled;
            }
            None
        },
        RawMessage::Request { .. } => None,
    };
    match matched {
        Some(true) => PermissionWait::Answered(message),
        _ => PermissionWait::Skip,
    }
}

/// A permission outcome as the client sent it.
#[derive(Debug, Clone)]
pub enum WirePermissionOutcome {
    Cancelled,
    Selected(String),
    /// An outcome this agent does not model.
    Other,
}

/// How the agent reads the client's outcome: a selection is a selection;
/// anything else refuses.
pub fn permission_resolution(outcome: WirePermissionOutcome) -> (res: PermissionResolution)
    ensures
        match outcome {
            WirePermissionOutcome::Selected(o) => res matches PermissionResolution::Selected(s) && s@ == o@,
            _ => res is Cancelled,
        },
{
    match outcome {
        WirePermissionOutcome::Selected(o) => PermissionResolution::Selected(o),
        _ => PermissionResolution::Cancelled,
    }
}

} // verus!
