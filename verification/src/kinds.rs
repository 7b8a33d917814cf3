//! Agent identity and the agent-neutral vocabulary shared by every layer:
//! agent kinds, message roles, tool-call statuses, permission options and
//! the legacy command model.

use vstd::prelude::*;
use crate::text::{owned, str_equal};

verus! {

/// The kind of ACP agent behind a session.
#[derive(Debug, Clone, PartialEq, Eq, Hash)]
pub enum AgentKind {
    ClaudeCode,
    Codex,
    Fake,
    Custom(String),
}

/// The wire name of an agent kind.
pub open spec fn agent_kind_name(kind: AgentKind) -> Seq<char> {
    match kind {
        AgentKind::ClaudeCode => "claude_code"@,
        AgentKind::Codex => "codex"@,
        AgentKind::Fake => "fake"@,
        AgentKind::Custom(name) => name@,
    }
}

/// Whether `name` is the wire name of one of the built-in agent kinds.
pub open spec fn is_builtin_agent_name(name: Seq<char>) -> bool {
    name == "claude_code"@ || name == "codex"@ || name == "fake"@
}

/// `kind` is what the wire name `name` denotes: built-in names denote their
/// kind, every other name a custom agent of that name.
pub open spec fn denotes_agent(name: Seq<char>, kind: AgentKind) -> bool {
    &&& agent_kind_name(kind) == name
    &&& (kind is Custom <==> !is_builtin_agent_name(name))
}

impl AgentKind {
    /// A copy of this kind.
    pub fn duplicate(&self) -> (res: Self)
        ensures
            res == *self,
    {
        match self {
            AgentKind::ClaudeCode => AgentKind::ClaudeCode,
            AgentKind::Codex => AgentKind::Codex,
            AgentKind::Fake => AgentKind::Fake,
            AgentKind::Custom(name) => AgentKind::Custom(name.clone()),
        }
    }

    pub fn as_str(&self) -> (res: &str)
        ensures
            res@ == agent_kind_name(*self),
    {
        match self {
            AgentKind::ClaudeCode => "claude_code",
            AgentKind::Codex => "codex",
            AgentKind::Fake => "fake",
            AgentKind::Custom(name) => name.as_str(),
        }
    }
}

/// Reads an agent kind from its wire name.
pub fn parse_agent(value: &str) -> (res: AgentKind)
    ensures
        denotes_agent(value@, res),
{
    if str_equal(value, "claude_code") {
        AgentKind::ClaudeCode
    } else if str_equal(value, "codex") {
        AgentKind::Codex
    } else if str_equal(value, "fake") {
        AgentKind::Fake
    } else {
        AgentKind::Custom(owned(value))
    }
}

/// Reading the wire name of a kind gives the kind back, unless it is a custom
/// agent that took one of the built-in names.
pub proof fn lemma_agent_name_round_trip(kind: AgentKind, parsed: AgentKind)
    requires
        denotes_agent(agent_kind_name(kind), parsed),
        !(kind is Custom && is_builtin_agent_name(agent_kind_name(kind))),
    ensures
        agent_kind_name(parsed) == agent_kind_name(kind),
        parsed is Custom <==> kind is Custom,
        !(kind is Custom) ==> parsed == kind,
{
    reveal_strlit("claude_code");
    reveal_strlit("codex");
    reveal_strlit("fake");
    assert("claude_code"@.len() == 11);
    assert("codex"@.len() == 5);
    assert("fake"@.len() == 4);
    assert("codex"@[0] != "fake"@[0]);
}

/// A registered agent and how it presents itself.
#[derive(Debug, Clone, PartialEq, Eq)]
pub struct AgentDescriptor {
    pub kind: AgentKind,
    pub display_name: String,
    pub version: Option<String>,
}

impl AgentDescriptor {
    pub fn new(kind: AgentKind, display_name: &str, version: Option<String>) -> (res: Self)
        ensures
            res.kind == kind,
            res.display_name@ == display_name@,
            res.version == version,
    {
        AgentDescriptor { kind, display_name: owned(display_name), version }
    }
}

#[derive(Debug, Clone, Copy, PartialEq, Eq, Structural)]
pub enum MessageRole {
    User,
    Assistant,
    System,
}

#[derive(Debug, Clone, Copy, PartialEq, Eq, Structural)]
pub enum ToolCallStatus {
    Pending,
    InProgress,
    Completed,
    Failed,
    Cancelled,
}

#[derive(Debug, Clone, Copy, PartialEq, Eq, Structural)]
pub enum PermissionOptionKind {
    Allow,
    AllowAlways,
    Deny,
    DenyAlways,
    Custom,
}

#[derive(Debug, Clone, PartialEq, Eq)]
pub struct PermissionOption {
    pub option_id: String,
    pub label: String,
    pub kind: PermissionOptionKind,
}

#[derive(Debug, Clone, PartialEq, Eq)]
pub struct PermissionRequest {
    pub permission_id: String,
    pub title: String,
    pub detail: Option<String>,
    pub tool_call_id: Option<String>,
    pub options: Vec<PermissionOption>,
}

#[derive(Debug, Clone, Copy, PartialEq, Eq, Structural)]
pub enum DiagnosticLevel {
    Debug,
    Info,
    Warning,
    Error,
}

/// The legacy command model sent to an agent connection.
#[derive(Debug, Clone, PartialEq, Eq)]
pub enum AcpCommand {
    Prompt { text: String },
    Cancel,
    RespondPermission { permission_id: String, option_id: String },
}

/// An error reported by an agent connection, carrying its message.
#[derive(Debug, Clone, PartialEq, Eq)]
pub struct AcpError(pub String);

impl AcpError {
    pub fn new(message: &str) -> (res: Self)
        ensures
            res.0@ == message@,
    {
        AcpError(owned(message))
    }

    /// The error's message, as its `Display` form would render it.
    pub fn message(&self) -> (res: String)
        ensures
            res@ == self.0@,
    {
        self.0.clone()
    }
}

} // verus!
