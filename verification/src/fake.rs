//! A deterministic in-memory ACP agent for tests and development. It emits
//! the same normalized events as a real agent on the wire: an echo of each
//! prompt, a plan, commands, a mode switch and an editing tool call that
//! either asks for permission or completes.

use vstd::prelude::*;
use crate::agent_events::{AgentEvent, InitializeSummary, ListedSessionPage};
use crate::content::{DiffSummary, NormalizedContent, NormalizedToolContent, TerminalRef, ToolLocation};
use crate::json::json_string_member;
use crate::kinds::{
    AcpError, AgentDescriptor, AgentKind, DiagnosticLevel, MessageRole, PermissionOption, PermissionOptionKind,
    PermissionRequest, ToolCallStatus,
};
use crate::metadata::{
    AcpMode, AcpModeState, AvailableCommandSummary, ListedSessionSummary, PlanEntrySummary, PlanSummary,
    SessionMetadata, WireAgentCapabilities,
};
use crate::session_types::ToolCallUpdate;
use crate::text::{decimal_u64, owned, spec_decimal, str_equal};

verus! {

/// How the fake agent behaves.
#[derive(Debug, Clone, Copy, PartialEq, Eq, Structural)]
pub struct FakeAgentConfig {
    /// Ask for permission before completing the tool call of a prompt.
    pub request_permission: bool,
    /// Exit when a prompt is cancelled.
    pub exit_on_cancel: bool,
    /// Fail and exit on every prompt.
    pub fail_on_prompt: bool,
}

impl Default for FakeAgentConfig {
    fn default() -> (res: Self)
        ensures
            res == (FakeAgentConfig { request_permission: true, exit_on_cancel: false, fail_on_prompt: false }),
    {
        FakeAgentConfig { request_permission: true, exit_on_cancel: false, fail_on_prompt: false }
    }
}

/// The adapter that launches the fake agent.
#[derive(Debug, Clone, Copy)]
pub struct FakeAgentAdapter {
    pub config: FakeAgentConfig,
}

impl FakeAgentAdapter {
    pub fn new(config: FakeAgentConfig) -> (res: Self)
        ensures
            res.config == config,
    {
        FakeAgentAdapter { config }
    }

    pub fn kind(&self) -> (res: AgentKind)
        ensures
            res == AgentKind::Fake,
    {
        AgentKind::Fake
    }

    pub fn descriptor(&self) -> (res: AgentDescriptor)
        ensures
            res.kind == AgentKind::Fake,
            res.display_name@ == "Fake ACP agent"@,
            res.version matches Some(v) && v@ == "0.1.0"@,
    {
        AgentDescriptor::new(AgentKind::Fake, "Fake ACP agent", Some(owned("0.1.0")))
    }

    /// A fresh session of the fake agent.
    pub fn spawn_session(&self) -> (res: FakeAgentSession)
        ensures
            res.config == self.config,
            res.queue@.len() == 0,
            res.running,
            res.prompt_count == 0,
            res.agent_session_id is None,
    {
        FakeAgentSession::new(self.config)
    }
}

impl Default for FakeAgentAdapter {
    fn default() -> (res: Self)
        ensures
            res.config == (FakeAgentConfig { request_permission: true, exit_on_cancel: false, fail_on_prompt: false }),
    {
        FakeAgentAdapter::new(FakeAgentConfig::default())
    }
}

/// The native session id a fresh fake session creates.
pub const FAKE_SESSION_ID: &'static str = "fake-session-1";

/// The id of the tool call of the `n`th prompt.
pub open spec fn tool_id(n: nat) -> Seq<char> {
    "tool-"@ + spec_decimal(n)
}

/// The id of the permission request of the `n`th prompt.
pub open spec fn permission_id(n: nat) -> Seq<char> {
    "perm-"@ + spec_decimal(n)
}

/// `e` is a text message from `role`.
pub open spec fn text_message(e: AgentEvent, role: MessageRole, text: Seq<char>) -> bool {
    e matches AgentEvent::Message { role: r, content: NormalizedContent::Text { text: t } } && r == role && t@ == text
}

/// `e` is the editing tool call the `n`th prompt starts: in progress on
/// `src/main.rs`, with a text, a diff and a terminal.
pub open spec fn prompt_tool_call(e: AgentEvent, n: nat) -> bool {
    e matches AgentEvent::ToolCall(u) && {
        &&& u.tool_call_id@ == tool_id(n)
        &&& u.title@ == "edit_file"@
        &&& u.kind matches Some(k) && k@ == "edit"@
        &&& u.status == ToolCallStatus::InProgress
        &&& u.detail matches Some(d) && d@ == "src/main.rs"@
        &&& u.content@.len() == 3
        &&& u.content@[0] matches NormalizedToolContent::Content(c) && *c matches NormalizedContent::Text { text }
            && text@ == "patching main"@
        &&& u.content@[1] matches NormalizedToolContent::Diff(d) && d.path@ == "src/main.rs"@
            && (d.old_text matches Some(o) && o@ == "fn main() {}"@) && d.new_text@ == "fn main() { run() }"@
        &&& u.content@[2] matches NormalizedToolContent::Terminal(t) && t.terminal_id@ == "term-1"@
        &&& u.locations@.len() == 1
        &&& u.locations@[0].path@ == "src/main.rs"@
        &&& u.locations@[0].line == Some(12u32)
        &&& u.raw_input is Some
        &&& u.raw_output is None
    }
}

/// `e` completes the editing tool call of the `n`th prompt.
pub open spec fn completed_tool_call(e: AgentEvent, n: nat, detail: Option<Seq<char>>) -> bool {
    e matches AgentEvent::ToolCall(u) && {
        &&& u.tool_call_id@ == tool_id(n)
        &&& u.title@ == "edit_file"@
        &&& u.kind matches Some(k) && k@ == "edit"@
        &&& u.status == ToolCallStatus::Completed
        &&& crate::env::opt_text(u.detail) == detail
        &&& u.content@.len() == 0
        &&& u.locations@.len() == 0
        &&& u.raw_input is None
        &&& u.raw_output is None
    }
}

/// `r` asks to allow the editing tool call of the `n`th prompt, offering to
/// allow or to deny.
pub open spec fn edit_permission(r: PermissionRequest, n: nat) -> bool {
    &&& r.permission_id@ == permission_id(n)
    &&& r.title@ == "Allow edit_file?"@
    &&& r.detail matches Some(d) && d@ == "src/main.rs"@
    &&& r.tool_call_id matches Some(t) && t@ == tool_id(n)
    &&& r.options@.len() == 2
    &&& r.options@[0].option_id@ == "allow"@ && r.options@[0].label@ == "Allow"@
        && r.options@[0].kind == PermissionOptionKind::Allow
    &&& r.options@[1].option_id@ == "deny"@ && r.options@[1].label@ == "Deny"@
        && r.options@[1].kind == PermissionOptionKind::Deny
}

/// The fake agent's mode state: `auto` out of `none`, `auto` and `all`.
pub open spec fn fake_modes(m: AcpModeState) -> bool {
    &&& m.current_mode_id@ == "auto"@
    &&& m.available_modes@.len() == 3
    &&& m.available_modes@[0].id@ == "none"@ && m.available_modes@[0].name@ == "None"@
        && m.available_modes@[0].description is None
    &&& m.available_modes@[1].id@ == "auto"@ && m.available_modes@[1].name@ == "Auto"@
        && m.available_modes@[1].description is None
    &&& m.available_modes@[2].id@ == "all"@ && m.available_modes@[2].name@ == "All"@
        && m.available_modes@[2].description is None
}

/// The metadata of a fake session called `id`.
pub open spec fn fake_metadata(m: SessionMetadata, id: Seq<char>) -> bool {
    &&& m.agent_session_id@ == id
    &&& m.modes matches Some(modes) && fake_modes(modes)
    &&& m.config_options@.len() == 0
}

/// An in-memory, deterministic ACP session.
#[derive(Debug)]
pub struct FakeAgentSession {
    pub config: FakeAgentConfig,
    /// Events not yet drained, oldest first.
    pub queue: Vec<AgentEvent>,
    pub running: bool,
    pub prompt_count: u64,
    pub agent_session_id: Option<String>,
}

fn text_event(role: MessageRole, text: &str) -> (res: AgentEvent)
    ensures
        text_message(res, role, text@),
{
    AgentEvent::Message { role, content: NormalizedContent::Text { text: owned(text) } }
}

fn numbered(prefix: &str, n: u64) -> (res: String)
    ensures
        res@ == prefix@ + spec_decimal(n as nat),
{
    let mut s = owned(prefix);
    let digits = decimal_u64(n);
    s.append(digits.as_str());
    s
}

fn completed_edit(n: u64, detail: Option<String>) -> (res: AgentEvent)
    ensures
        completed_tool_call(res, n as nat, crate::env::opt_text(detail)),
{
    AgentEvent::ToolCall(ToolCallUpdate {
        tool_call_id: numbered("tool-", n),
        title: owned("edit_file"),
        kind: Some(owned("edit")),
        status: ToolCallStatus::Completed,
        detail,
        content: Vec::new(),
        locations: Vec::new(),
        raw_input: None,
        raw_output: None,
    })
}

pub(crate) fn edit_permission_request(n: u64) -> (res: PermissionRequest)
    ensures
        edit_permission(res, n as nat),
{
    PermissionRequest {
        permission_id: numbered("perm-", n),
        title: owned("Allow edit_file?"),
        detail: Some(owned("src/main.rs")),
        tool_call_id: Some(numbered("tool-", n)),
        options: vec![
            PermissionOption { option_id: owned("allow"), label: owned("Allow"), kind: PermissionOptionKind::Allow },
            PermissionOption { option_id: owned("deny"), label: owned("Deny"), kind: PermissionOptionKind::Deny },
        ],
    }
}

fn fake_mode_state() -> (res: AcpModeState)
    ensures
        fake_modes(res),
{
    AcpModeState {
        current_mode_id: owned("auto"),
        available_modes: vec![
            AcpMode { id: owned("none"), name: owned("None"), description: None },
            AcpMode { id: owned("auto"), name: owned("Auto"), description: None },
            AcpMode { id: owned("all"), name: owned("All"), description: None },
        ],
    }
}

fn session_metadata(agent_session_id: &str) -> (res: SessionMetadata)
    ensures
        fake_metadata(res, agent_session_id@),
{
    SessionMetadata { agent_session_id: owned(agent_session_id), modes: Some(fake_mode_state()), config_options: Vec::new() }
}

/// The sessions the fake agent reports for `session/list`: two prior
/// sessions, the first titled and dated.
pub open spec fn fake_listed(s: Seq<ListedSessionSummary>) -> bool {
    &&& s.len() == 2
    &&& s[0].agent_session_id@ == "fake-listed-1"@ && s[0].cwd@ == "/tmp/slight/fake-project"@
    &&& s[0].additional_directories@.len() == 0
    &&& s[0].title matches Some(t) && t@ == "Prior fake session"@
    &&& s[0].updated_at matches Some(u) && u@ == "2026-01-01T00:00:00Z"@
    &&& s[1].agent_session_id@ == "fake-listed-2"@ && s[1].cwd@ == "/tmp/slight/other-project"@
        && s[1].additional_directories@.len() == 0 && s[1].title is None && s[1].updated_at is None
}

/// Whether a fake session knows the native session `id`: the one it
/// created or loaded, the id a fresh session creates, or a listed one.
pub open spec fn fake_knows(current: Option<String>, id: Seq<char>) -> bool {
    (current matches Some(c) && c@ == id) || id == FAKE_SESSION_ID@ || id == "fake-listed-1"@ || id == "fake-listed-2"@
}

impl FakeAgentSession {
    pub fn new(config: FakeAgentConfig) -> (res: Self)
        ensures
            res.config == config,
            res.queue@.len() == 0,
            res.running,
            res.prompt_count == 0,
            res.agent_session_id is None,
    {
        FakeAgentSession { config, queue: Vec::new(), running: true, prompt_count: 0, agent_session_id: None }
    }

    /// The sessions the fake agent reports for `session/list`.
    pub fn listed_sessions() -> (res: Vec<ListedSessionSummary>)
        ensures
            fake_listed(res@),
    {
        vec![
            ListedSessionSummary {
                agent_session_id: owned("fake-listed-1"),
                cwd: owned("/tmp/slight/fake-project"),
                additional_directories: Vec::new(),
                title: Some(owned("Prior fake session")),
                updated_at: Some(owned("2026-01-01T00:00:00Z")),
            },
            ListedSessionSummary {
                agent_session_id: owned("fake-listed-2"),
                cwd: owned("/tmp/slight/other-project"),
                additional_directories: Vec::new(),
                title: None,
                updated_at: None,
            },
        ]
    }

    /// Whether this session knows the native session `agent_session_id`.
    pub fn knows_session(&self, agent_session_id: &str) -> (res: bool)
        ensures
            res == fake_knows(self.agent_session_id, agent_session_id@),
    {
        let current = match &self.agent_session_id {
            Some(c) => str_equal(c.as_str(), agent_session_id),
            None => false,
        };
        current || str_equal(agent_session_id, FAKE_SESSION_ID) || str_equal(agent_session_id, "fake-listed-1")
            || str_equal(agent_session_id, "fake-listed-2")
    }

    /// The `initialize` answer: protocol 1, named "Fake ACP agent" 0.1.0,
    /// able to load, list and resume sessions.
    pub fn initialize(&self) -> (res: InitializeSummary)
        ensures
            res.protocol_version == 1,
            res.agent_name matches Some(n) && n@ == "Fake ACP agent"@,
            res.agent_title matches Some(n) && n@ == "Fake ACP agent"@,
            res.agent_version matches Some(v) && v@ == "0.1.0"@,
            res.agent_capabilities == (WireAgentCapabilities { load_session: true, session_list: true, session_resume: true,
                ..WireAgentCapabilities::spec_none() }),
            res.auth_methods@.len() == 0,
    {
        InitializeSummary {
            protocol_version: 1,
            agent_name: Some(owned("Fake ACP agent")),
            agent_title: Some(owned("Fake ACP agent")),
            agent_version: Some(owned("0.1.0")),
            agent_capabilities: WireAgentCapabilities {
                load_session: true,
                session_list: true,
                session_resume: true,
                ..WireAgentCapabilities::none()
            },
            auth_methods: Vec::new(),
        }
    }

    /// Creates the native session `fake-session-1` and remembers it.
    pub fn new_session(&mut self) -> (res: Result<SessionMetadata, AcpError>)
        ensures
            res matches Ok(m) && fake_metadata(m, FAKE_SESSION_ID@),
            final(self).agent_session_id matches Some(id) && id@ == FAKE_SESSION_ID@,
            final(self).queue == old(self).queue,
            final(self).running == old(self).running,
            final(self).prompt_count == old(self).prompt_count,
            final(self).config == old(self).config,
    {
        let metadata = session_metadata(FAKE_SESSION_ID);
        self.agent_session_id = Some(owned(FAKE_SESSION_ID));
        Ok(metadata)
    }

    /// The listed sessions, on one page.
    pub fn list_sessions(&self) -> (res: Result<ListedSessionPage, AcpError>)
        ensures
            res matches Ok(page) && fake_listed(page.sessions@) && page.next_cursor is None,
    {
        Ok(ListedSessionPage { sessions: Self::listed_sessions(), next_cursor: None })
    }

    /// Loads a known native session, replaying a prior question and answer
    /// before answering; an unknown one is refused.
    pub fn load_session(&mut self, agent_session_id: &str) -> (res: Result<SessionMetadata, AcpError>)
        ensures
            fake_knows(old(self).agent_session_id, agent_session_id@) ==> {
                &&& res matches Ok(m) && fake_metadata(m, agent_session_id@)
                &&& final(self).agent_session_id matches Some(id) && id@ == agent_session_id@
                &&& final(self).queue@.len() == old(self).queue@.len() + 2
                &&& final(self).queue@.take(old(self).queue@.len() as int) == old(self).queue@
                &&& text_message(final(self).queue@[old(self).queue@.len() as int], MessageRole::User, "replayed question"@)
                &&& text_message(final(self).queue@[old(self).queue@.len() + 1int], MessageRole::Assistant, "replayed answer"@)
            },
            !fake_knows(old(self).agent_session_id, agent_session_id@) ==> {
                &&& res matches Err(e) && e.0@ == "unknown session: "@ + agent_session_id@
                &&& final(self).agent_session_id == old(self).agent_session_id
                &&& final(self).queue == old(self).queue
            },
            final(self).running == old(self).running,
            final(self).prompt_count == old(self).prompt_count,
            final(self).config == old(self).config,
    {
        if !self.knows_session(agent_session_id) {
            return Err(AcpError(crate::text::concat2("unknown session: ", agent_session_id)));
        }
        let ghost before = self.queue@;
        self.queue.push(text_event(MessageRole::User, "replayed question"));
        self.queue.push(text_event(MessageRole::Assistant, "replayed answer"));
        proof {
            assert(self.queue@.take(before.len() as int) =~= before);
        }
        self.agent_session_id = Some(owned(agent_session_id));
        Ok(session_metadata(agent_session_id))
    }

    /// Resumes a known native session without replaying it; an unknown one
    /// is refused.
    pub fn resume_session(&mut self, agent_session_id: &str) -> (res: Result<SessionMetadata, AcpError>)
        ensures
            fake_knows(old(self).agent_session_id, agent_session_id@) ==> {
                &&& res matches Ok(m) && fake_metadata(m, agent_session_id@)
                &&& final(self).agent_session_id matches Some(id) && id@ == agent_session_id@
            },
            !fake_knows(old(self).agent_session_id, agent_session_id@) ==> {
                &&& res matches Err(e) && e.0@ == "unknown session: "@ + agent_session_id@
                &&& final(self).agent_session_id == old(self).agent_session_id
            },
            final(self).queue == old(self).queue,
            final(self).running == old(self).running,
            final(self).prompt_count == old(self).prompt_count,
            final(self).config == old(self).config,
    {
        if !self.knows_session(agent_session_id) {
            return Err(AcpError(crate::text::concat2("unknown session: ", agent_session_id)));
        }
        self.agent_session_id = Some(owned(agent_session_id));
        Ok(session_metadata(agent_session_id))
    }

    /// Answers a prompt. A failing agent reports an error and exits. Any
    /// other echoes the prompt, replaces its plan, offers a command,
    /// switches to the `build` mode and starts an editing tool call, which
    /// then either asks for permission or completes.
    pub fn prompt(&mut self, text: &str) -> (res: Result<(), AcpError>)
        requires
            old(self).prompt_count < u64::MAX,
        ensures
            res is Ok,
            final(self).prompt_count == old(self).prompt_count + 1,
            final(self).queue@.take(old(self).queue@.len() as int) == old(self).queue@,
            final(self).config == old(self).config,
            final(self).agent_session_id == old(self).agent_session_id,
            old(self).config.fail_on_prompt ==> {
                &&& final(self).queue@.len() == old(self).queue@.len() + 2
                &&& final(self).queue@[old(self).queue@.len() as int] matches AgentEvent::Diagnostics { level, message }
                    && level == DiagnosticLevel::Error && message@ == "fake agent failed to handle prompt"@
                &&& final(self).queue@[old(self).queue@.len() + 1int] matches AgentEvent::Exited { code, reason }
                    && code == Some(1i32) && reason@ == "prompt_failure"@
                &&& !final(self).running
            },
            !old(self).config.fail_on_prompt ==> {
                let q = final(self).queue@;
                let o = old(self).queue@.len() as int;
                let n = final(self).prompt_count as nat;
                &&& q.len() == o + 6
                &&& text_message(q[o], MessageRole::Assistant, "echo: "@ + text@)
                &&& q[o + 1] matches AgentEvent::Plan(p) && p.entries@.len() == 1
                    && p.entries@[0].content@ == "edit the file"@ && p.entries@[0].priority@ == "high"@
                    && p.entries@[0].status@ == "in_progress"@
                &&& q[o + 2] matches AgentEvent::AvailableCommands(cs) && cs@.len() == 1
                    && cs@[0].name@ == "compact"@ && cs@[0].description@ == "Compact the conversation"@
                    && cs@[0].input_hint is None
                &&& q[o + 3] matches AgentEvent::Mode { current_mode_id } && current_mode_id@ == "build"@
                &&& prompt_tool_call(q[o + 4], n)
                &&& old(self).config.request_permission ==> (q[o + 5] matches AgentEvent::PermissionRequest(r)
                    && edit_permission(r, n))
                &&& !old(self).config.request_permission ==> completed_tool_call(q[o + 5], n, None)
                &&& final(self).running == old(self).running
            },
    {
        self.prompt_count = self.prompt_count + 1;
        let n = self.prompt_count;
        let ghost before = self.queue@;
        if self.config.fail_on_prompt {
            self.queue.push(AgentEvent::Diagnostics {
                level: DiagnosticLevel::Error,
                message: owned("fake agent failed to handle prompt"),
            });
            self.queue.push(AgentEvent::Exited { code: Some(1), reason: owned("prompt_failure") });
            self.running = false;
            proof {
                assert(self.queue@.take(before.len() as int) =~= before);
            }
            return Ok(());
        }
        self.queue.push(AgentEvent::Message {
            role: MessageRole::Assistant,
            content: NormalizedContent::Text { text: crate::text::concat2("echo: ", text) },
        });
        self.queue.push(AgentEvent::Plan(PlanSummary {
            entries: vec![PlanEntrySummary {
                content: owned("edit the file"),
                priority: owned("high"),
                status: owned("in_progress"),
            }],
        }));
        self.queue.push(AgentEvent::AvailableCommands(vec![AvailableCommandSummary {
            name: owned("compact"),
            description: owned("Compact the conversation"),
            input_hint: None,
        }]));
        self.queue.push(AgentEvent::Mode { current_mode_id: owned("build") });
        self.queue.push(AgentEvent::ToolCall(ToolCallUpdate {
            tool_call_id: numbered("tool-", n),
            title: owned("edit_file"),
            kind: Some(owned("edit")),
            status: ToolCallStatus::InProgress,
            detail: Some(owned("src/main.rs")),
            content: vec![
                NormalizedToolContent::Content(Box::new(NormalizedContent::Text { text: owned("patching main") })),
                NormalizedToolContent::Diff(DiffSummary {
                    path: owned("src/main.rs"),
                    old_text: Some(owned("fn main() {}")),
                    new_text: owned("fn main() { run() }"),
                }),
                NormalizedToolContent::Terminal(TerminalRef { terminal_id: owned("term-1") }),
            ],
            locations: vec![ToolLocation { path: owned("src/main.rs"), line: Some(12) }],
            raw_input: Some(json_string_member("path", "src/main.rs")),
            raw_output: None,
        }));
        if self.config.request_permission {
            self.queue.push(AgentEvent::PermissionRequest(edit_permission_request(n)));
        } else {
            self.queue.push(completed_edit(n, None));
        }
        proof {
            assert(self.queue@.take(before.len() as int) =~= before);
        }
        Ok(())
    }

    /// Cancels the current prompt: a system message, and an exit when the
    /// agent exits on cancel.
    pub fn cancel(&mut self) -> (res: Result<(), AcpError>)
        ensures
            res is Ok,
            final(self).queue@.take(old(self).queue@.len() as int) == old(self).queue@,
            text_message(final(self).queue@[old(self).queue@.len() as int], MessageRole::System, "cancelled"@),
            old(self).config.exit_on_cancel ==> {
                &&& final(self).queue@.len() == old(self).queue@.len() + 2
                &&& final(self).queue@[old(self).queue@.len() + 1int] matches AgentEvent::Exited { code, reason }
                    && code is None && reason@ == "cancelled"@
                &&& !final(self).running
            },
            !old(self).config.exit_on_cancel ==> final(self).queue@.len() == old(self).queue@.len() + 1
                && final(self).running == old(self).running,
            final(self).prompt_count == old(self).prompt_count,
            final(self).config == old(self).config,
            final(self).agent_session_id == old(self).agent_session_id,
    {
        let ghost before = self.queue@;
        self.queue.push(text_event(MessageRole::System, "cancelled"));
        if self.config.exit_on_cancel {
            self.queue.push(AgentEvent::Exited { code: None, reason: owned("cancelled") });
            self.running = false;
        }
        proof {
            assert(self.queue@.take(before.len() as int) =~= before);
        }
        Ok(())
    }

    /// Answers the pending permission: the editing tool call completes with
    /// the chosen option as its detail, then the agent says it is done.
    pub fn respond_permission(&mut self, option_id: &str) -> (res: Result<(), AcpError>)
        ensures
            res is Ok,
            final(self).queue@.len() == old(self).queue@.len() + 2,
            final(self).queue@.take(old(self).queue@.len() as int) == old(self).queue@,
            completed_tool_call(final(self).queue@[old(self).queue@.len() as int], old(self).prompt_count as nat,
                Some(option_id@)),
            text_message(final(self).queue@[old(self).queue@.len() + 1int], MessageRole::Assistant, "done"@),
            final(self).running == old(self).running,
            final(self).prompt_count == old(self).prompt_count,
            final(self).config == old(self).config,
            final(self).agent_session_id == old(self).agent_session_id,
    {
        let ghost before = self.queue@;
        self.queue.push(completed_edit(self.prompt_count, Some(owned(option_id))));
        self.queue.push(text_event(MessageRole::Assistant, "done"));
        proof {
            assert(self.queue@.take(before.len() as int) =~= before);
        }
        Ok(())
    }

    /// Switches mode, reporting the new mode.
    pub fn set_mode(&mut self, mode_id: &str) -> (res: Result<(), AcpError>)
        ensures
            res is Ok,
            final(self).queue@.len() == old(self).queue@.len() + 1,
            final(self).queue@.drop_last() == old(self).queue@,
            final(self).queue@.last() matches AgentEvent::Mode { current_mode_id } && current_mode_id@ == mode_id@,
            final(self).running == old(self).running,
            final(self).prompt_count == old(self).prompt_count,
            final(self).config == old(self).config,
            final(self).agent_session_id == old(self).agent_session_id,
    {
        self.queue.push(AgentEvent::Mode { current_mode_id: owned(mode_id) });
        Ok(())
    }

    /// Hands out the pending events, oldest first, and forgets them.
    pub fn drain(&mut self) -> (res: Vec<AgentEvent>)
        ensures
            res@ == old(self).queue@,
            final(self).queue@.len() == 0,
            final(self).running == old(self).running,
            final(self).prompt_count == old(self).prompt_count,
            final(self).config == old(self).config,
            final(self).agent_session_id == old(self).agent_session_id,
    {
        let mut out: Vec<AgentEvent> = Vec::new();
        std::mem::swap(&mut out, &mut self.queue);
        out
    }

    pub fn is_running(&self) -> (res: bool)
        ensures
            res == self.running,
    {
        self.running
    }
}

} // verus!
