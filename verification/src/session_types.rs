//! The session vocabulary of the host: statuses, content blocks, the events
//! a session journals, and the summaries and results it hands to clients.

use vstd::prelude::*;
use crate::content::{NormalizedContent, NormalizedToolContent, ResourceContent, ToolLocation};
use crate::kinds::{AcpError, AgentKind, DiagnosticLevel, MessageRole, PermissionOption, ToolCallStatus};
use crate::metadata::{
    AcpConfigOption, AcpCost, AcpModeState, AgentCapabilitiesSummary, AgentMetadataSummary,
    AuthMethodSummary, AvailableCommandSummary, PlanEntrySummary,
};
use crate::text::owned;

verus! {

#[derive(Debug, Clone, Copy, PartialEq, Eq, Structural)]
pub enum SessionStatus {
    Idle,
    Working,
    WaitingPermission,
    Exited,
    Failed,
}

#[derive(Debug, Clone, Copy, PartialEq, Eq, Structural)]
pub enum ContentKind {
    Text,
    Code,
    Reasoning,
    ToolResult,
    Image,
    Audio,
    ResourceLink,
    ResourceText,
    ResourceBlob,
}

/// A normalized content block safe to send to a client. Media and resource
/// blocks always label their payload with a MIME type when one is known;
/// resource URIs are never resolved by the host.
#[derive(Debug, Clone, PartialEq, Eq)]
pub struct ContentBlock {
    pub id: String,
    pub kind: ContentKind,
    pub text: String,
    pub language: Option<String>,
    pub mime_type: Option<String>,
    pub data_base64: Option<String>,
    pub uri: Option<String>,
    pub name: Option<String>,
    pub title: Option<String>,
    pub description: Option<String>,
    pub size: Option<i64>,
}

/// `b` is a block of `kind` with text `text` and no other field set (its id
/// is fresh and non-empty).
pub open spec fn plain_block(b: ContentBlock, kind: ContentKind, text: Seq<char>) -> bool {
    &&& b.id@.len() > 0
    &&& b.kind == kind
    &&& b.text@ == text
    &&& b.language is None
    &&& b.mime_type is None
    &&& b.data_base64 is None
    &&& b.uri is None
    &&& b.name is None
    &&& b.title is None
    &&& b.description is None
    &&& b.size is None
}

/// The MIME type a blob resource is labelled with when the agent gives none.
pub const DEFAULT_BLOB_MIME_TYPE: &'static str = "application/octet-stream";

/// `b` flattens the normalized content `c` (its id is fresh and non-empty).
/// Base64 data always comes with a MIME type.
pub open spec fn block_of(c: NormalizedContent, b: ContentBlock) -> bool {
    &&& b.id@.len() > 0
    &&& b.language is None
    &&& (b.data_base64 is Some ==> b.mime_type is Some)
    &&& match c {
        NormalizedContent::Text { text } => plain_block(b, ContentKind::Text, text@),
        NormalizedContent::Image { data_base64, mime_type, uri } => b.kind == ContentKind::Image
            && b.text@.len() == 0 && b.mime_type == Some(mime_type)
            && b.data_base64 == Some(data_base64) && b.uri == uri && b.name is None
            && b.title is None && b.description is None && b.size is None,
        NormalizedContent::Audio { data_base64, mime_type } => b.kind == ContentKind::Audio
            && b.text@.len() == 0 && b.mime_type == Some(mime_type)
            && b.data_base64 == Some(data_base64) && b.uri is None && b.name is None
            && b.title is None && b.description is None && b.size is None,
        NormalizedContent::ResourceLink(link) => b.kind == ContentKind::ResourceLink
            && b.text@.len() == 0 && b.uri == Some(link.uri) && b.name == Some(link.name)
            && b.mime_type == link.mime_type && b.title == link.title
            && b.description == link.description && b.size == link.size
            && b.data_base64 is None,
        NormalizedContent::Resource(ResourceContent::Text { uri, text, mime_type }) =>
            b.kind == ContentKind::ResourceText && b.text@ == text@ && b.uri == Some(uri)
            && b.mime_type == mime_type && b.data_base64 is None && b.name is None
            && b.title is None && b.description is None && b.size is None,
        NormalizedContent::Resource(ResourceContent::Blob { uri, data_base64, mime_type }) =>
            b.kind == ContentKind::ResourceBlob && b.text@.len() == 0 && b.uri == Some(uri)
            && (match mime_type {
                Some(m) => b.mime_type == Some(m),
                None => b.mime_type matches Some(t) && t@ == DEFAULT_BLOB_MIME_TYPE@,
            })
            && b.data_base64 == Some(data_base64) && b.name is None
            && b.title is None && b.description is None && b.size is None,
    }
}

fn clone_opt(s: &Option<String>) -> (res: Option<String>)
    ensures
        res == *s,
{
    match s {
        Some(v) => Some(v.clone()),
        None => None,
    }
}

impl ContentBlock {
    fn new(kind: ContentKind, text: String) -> (res: Self)
        ensures
            plain_block(res, kind, text@),
    {
        ContentBlock {
            id: crate::ids::fresh_id(),
            kind,
            text,
            language: None,
            mime_type: None,
            data_base64: None,
            uri: None,
            name: None,
            title: None,
            description: None,
            size: None,
        }
    }

    pub fn text(text: &str) -> (res: Self)
        ensures
            plain_block(res, ContentKind::Text, text@),
    {
        Self::new(ContentKind::Text, owned(text))
    }

    pub fn reasoning(text: &str) -> (res: Self)
        ensures
            plain_block(res, ContentKind::Reasoning, text@),
    {
        Self::new(ContentKind::Reasoning, owned(text))
    }

    /// Flattens a normalized agent content block into the gateway payload.
    pub fn from_normalized(content: &NormalizedContent) -> (res: Self)
        ensures
            block_of(*content, res),
    {
        match content {
            NormalizedContent::Text { text } => {
                let t = text.clone();
                let block = Self::new(ContentKind::Text, t);
                assert(block.text@ == text@);
                block
            },
            NormalizedContent::Image { data_base64, mime_type, uri } => {
                let mut block = Self::new(ContentKind::Image, String::new());
                block.mime_type = Some(mime_type.clone());
                block.data_base64 = Some(data_base64.clone());
                block.uri = clone_opt(uri);
                block
            },
            NormalizedContent::Audio { data_base64, mime_type } => {
                let mut block = Self::new(ContentKind::Audio, String::new());
                block.mime_type = Some(mime_type.clone());
                block.data_base64 = Some(data_base64.clone());
                block
            },
            NormalizedContent::ResourceLink(link) => {
                let mut block = Self::new(ContentKind::ResourceLink, String::new());
                block.uri = Some(link.uri.clone());
                block.name = Some(link.name.clone());
                block.mime_type = clone_opt(&link.mime_type);
                block.title = clone_opt(&link.title);
                block.description = clone_opt(&link.description);
                block.size = link.size;
                block
            },
            NormalizedContent::Resource(ResourceContent::Text { uri, text, mime_type }) => {
                let mut block = Self::new(ContentKind::ResourceText, text.clone());
                block.uri = Some(uri.clone());
                block.mime_type = clone_opt(mime_type);
                block
            },
            NormalizedContent::Resource(ResourceContent::Blob { uri, data_base64, mime_type }) => {
                let mut block = Self::new(ContentKind::ResourceBlob, String::new());
                block.uri = Some(uri.clone());
                block.mime_type = match mime_type {
                    Some(m) => Some(m.clone()),
                    None => Some(owned(DEFAULT_BLOB_MIME_TYPE)),
                };
                block.data_base64 = Some(data_base64.clone());
                block
            },
        }
    }
}

#[derive(Debug, Clone, PartialEq, Eq)]
pub struct StatusPayload {
    pub status: SessionStatus,
}

#[derive(Debug, Clone, PartialEq, Eq)]
pub struct MessagePayload {
    pub role: MessageRole,
    pub text: String,
    pub blocks: Vec<ContentBlock>,
}

/// One piece of rich tool-call output.
#[derive(Debug, Clone, PartialEq, Eq)]
pub enum ToolCallContentPayload {
    Content(Box<ContentBlock>),
    Diff { path: String, old_text: Option<String>, new_text: String },
    Terminal { terminal_id: String },
}

/// `p` flattens the normalized tool content `c`.
pub open spec fn tool_payload_of(c: NormalizedToolContent, p: ToolCallContentPayload) -> bool {
    match c {
        NormalizedToolContent::Content(block) => p matches ToolCallContentPayload::Content(b) && block_of(*block, *b),
        NormalizedToolContent::Diff(d) =>
            p == ToolCallContentPayload::Diff { path: d.path, old_text: d.old_text, new_text: d.new_text },
        NormalizedToolContent::Terminal(t) => p == ToolCallContentPayload::Terminal { terminal_id: t.terminal_id },
    }
}

impl ToolCallContentPayload {
    pub fn from_normalized(content: &NormalizedToolContent) -> (res: Self)
        ensures
            tool_payload_of(*content, res),
    {
        match content {
            NormalizedToolContent::Content(block) =>
                ToolCallContentPayload::Content(Box::new(ContentBlock::from_normalized(block))),
            NormalizedToolContent::Diff(diff) => ToolCallContentPayload::Diff {
                path: diff.path.clone(),
                old_text: clone_opt(&diff.old_text),
                new_text: diff.new_text.clone(),
            },
            NormalizedToolContent::Terminal(t) => ToolCallContentPayload::Terminal {
                terminal_id: t.terminal_id.clone(),
            },
        }
    }
}

/// A file location touched by a tool call.
#[derive(Debug, Clone, PartialEq, Eq)]
pub struct ToolCallLocationPayload {
    pub path: String,
    pub line: Option<u32>,
}

impl ToolCallLocationPayload {
    pub fn from_location(location: &ToolLocation) -> (res: Self)
        ensures
            res.path == location.path,
            res.line == location.line,
    {
        ToolCallLocationPayload { path: location.path.clone(), line: location.line }
    }
}

/// A normalized tool-call creation or progress update.
#[derive(Debug)]
pub struct ToolCallUpdate {
    pub tool_call_id: String,
    pub title: String,
    pub kind: Option<String>,
    pub status: ToolCallStatus,
    pub detail: Option<String>,
    pub content: Vec<NormalizedToolContent>,
    pub locations: Vec<ToolLocation>,
    pub raw_input: Option<serde_json::Value>,
    pub raw_output: Option<serde_json::Value>,
}

#[derive(Debug)]
pub struct ToolCallPayload {
    pub id: String,
    pub title: String,
    pub kind: Option<String>,
    pub status: ToolCallStatus,
    pub detail: Option<String>,
    pub content: Vec<ToolCallContentPayload>,
    pub locations: Vec<ToolCallLocationPayload>,
    pub raw_input: Option<serde_json::Value>,
    pub raw_output: Option<serde_json::Value>,
}

#[derive(Debug, Clone, PartialEq, Eq)]
pub struct PermissionRequestPayload {
    pub id: String,
    pub title: String,
    pub detail: Option<String>,
    pub tool_call_id: Option<String>,
    pub options: Vec<PermissionOption>,
}

#[derive(Debug, Clone, PartialEq, Eq)]
pub struct PermissionResolvedPayload {
    pub id: String,
    pub option_id: String,
}

#[derive(Debug, Clone, PartialEq, Eq)]
pub struct ExitPayload {
    pub code: Option<i32>,
    pub reason: String,
}

#[derive(Debug, Clone, PartialEq, Eq)]
pub struct DiagnosticsPayload {
    pub level: DiagnosticLevel,
    pub message: String,
}

/// Final outcome of a prompt turn, with the ACP stop reason string.
#[derive(Debug, Clone, PartialEq, Eq)]
pub struct TurnEndedPayload {
    pub stop_reason: String,
    pub reasoning_started_at_ms: Option<i64>,
    pub reasoning_ended_at_ms: Option<i64>,
}

#[derive(Debug, Clone, PartialEq, Eq)]
pub struct PlanPayload {
    pub entries: Vec<PlanEntrySummary>,
}

#[derive(Debug, Clone, PartialEq, Eq)]
pub struct ModePayload {
    pub current_mode_id: String,
}

#[derive(Debug, Clone, PartialEq, Eq)]
pub struct CommandsPayload {
    pub commands: Vec<AvailableCommandSummary>,
}

#[derive(Debug, Clone, PartialEq, Eq)]
pub struct ConfigOptionsPayload {
    pub options: Vec<AcpConfigOption>,
}

/// A partial session metadata update from the agent.
#[derive(Debug, Clone, Default, PartialEq, Eq)]
pub struct SessionInfoPayload {
    pub title: Option<String>,
    pub updated_at: Option<String>,
}

#[derive(Debug, Clone, PartialEq, Eq)]
pub struct UsagePayload {
    pub used: u64,
    pub size: u64,
    pub cost: Option<AcpCost>,
}

/// Negotiated ACP capability and session metadata for one session.
#[derive(Debug, Clone, Default, PartialEq, Eq)]
pub struct SessionAcpMetadata {
    pub protocol_version: u16,
    pub agent: AgentMetadataSummary,
    pub auth_methods: Vec<AuthMethodSummary>,
    pub capabilities: AgentCapabilitiesSummary,
    pub modes: Option<AcpModeState>,
    pub config_options: Vec<AcpConfigOption>,
}

#[derive(Debug, Clone, PartialEq, Eq)]
pub struct SnapshotPayload {
    pub summary: SessionSummary,
    pub pending_permission: Option<PermissionRequestPayload>,
}

/// One event in a session's journal.
#[derive(Debug)]
pub enum SessionEvent {
    Status(StatusPayload),
    Message(MessagePayload),
    ToolCall(ToolCallPayload),
    Plan(PlanPayload),
    Mode(ModePayload),
    Commands(CommandsPayload),
    ConfigOptions(ConfigOptionsPayload),
    SessionInfo(SessionInfoPayload),
    Usage(UsagePayload),
    TurnEnded(TurnEndedPayload),
    PermissionRequest(PermissionRequestPayload),
    PermissionResolved(PermissionResolvedPayload),
    Exit(ExitPayload),
    Diagnostics(DiagnosticsPayload),
    Snapshot(SnapshotPayload),
}

/// The gateway event name of a session event.
pub open spec fn event_name(e: SessionEvent) -> Seq<char> {
    match e {
        SessionEvent::Status(_) => "session.status"@,
        SessionEvent::Message(_) => "session.message"@,
        SessionEvent::ToolCall(_) => "session.tool_call"@,
        SessionEvent::Plan(_) => "session.plan"@,
        SessionEvent::Mode(_) => "session.mode"@,
        SessionEvent::Commands(_) => "session.commands"@,
        SessionEvent::ConfigOptions(_) => "session.config_options"@,
        SessionEvent::SessionInfo(_) => "session.info"@,
        SessionEvent::Usage(_) => "session.usage"@,
        SessionEvent::TurnEnded(_) => "session.turn_ended"@,
        SessionEvent::PermissionRequest(_) => "session.permission_request"@,
        SessionEvent::PermissionResolved(_) => "session.permission_resolved"@,
        SessionEvent::Exit(_) => "session.exit"@,
        SessionEvent::Diagnostics(_) => "session.diagnostics"@,
        SessionEvent::Snapshot(_) => "session.snapshot"@,
    }
}

impl SessionEvent {
    pub fn name(&self) -> (res: &'static str)
        ensures
            res@ == event_name(*self),
    {
        match self {
            SessionEvent::Status(_) => "session.status",
            SessionEvent::Message(_) => "session.message",
            SessionEvent::ToolCall(_) => "session.tool_call",
            SessionEvent::Plan(_) => "session.plan",
            SessionEvent::Mode(_) => "session.mode",
            SessionEvent::Commands(_) => "session.commands",
            SessionEvent::ConfigOptions(_) => "session.config_options",
            SessionEvent::SessionInfo(_) => "session.info",
            SessionEvent::Usage(_) => "session.usage",
            SessionEvent::TurnEnded(_) => "session.turn_ended",
            SessionEvent::PermissionRequest(_) => "session.permission_request",
            SessionEvent::PermissionResolved(_) => "session.permission_resolved",
            SessionEvent::Exit(_) => "session.exit",
            SessionEvent::Diagnostics(_) => "session.diagnostics",
            SessionEvent::Snapshot(_) => "session.snapshot",
        }
    }
}

/// A journaled event with its sequence number and timestamp. The event is
/// shared, so a replayed copy is the very event that was journaled.
#[derive(Debug)]
pub struct SequencedEvent {
    pub sequence: u64,
    pub timestamp_ms: i64,
    pub event: std::sync::Arc<SessionEvent>,
}

/// Another handle on a shared event.
///
/// Calls `std::sync::Arc::clone`; the contract states that the new handle
/// denotes the same event, which is what `Arc::clone` documents.
#[verifier::external_body]
fn share_event(event: &std::sync::Arc<SessionEvent>) -> (res: std::sync::Arc<SessionEvent>)
    ensures
        res == *event,
{
    std::sync::Arc::clone(event)
}

impl Clone for SequencedEvent {
    fn clone(&self) -> (res: Self)
        ensures
            res == *self,
    {
        SequencedEvent { sequence: self.sequence, timestamp_ms: self.timestamp_ms, event: share_event(&self.event) }
    }
}

impl SessionRecoveryState {
    /// A structurally equal copy.
    pub fn duplicate(&self) -> (res: Self)
        ensures
            res == *self,
    {
        match self {
            SessionRecoveryState::Live => SessionRecoveryState::Live,
            SessionRecoveryState::Recovered => SessionRecoveryState::Recovered,
            SessionRecoveryState::Stale { reason } => SessionRecoveryState::Stale { reason: reason.clone() },
            SessionRecoveryState::Unavailable { reason } => SessionRecoveryState::Unavailable { reason: reason.clone() },
        }
    }
}

/// Durable recovery outcome for a session after a host restart.
#[derive(Debug, Clone, PartialEq, Eq, Default)]
pub enum SessionRecoveryState {
    /// The session is live on this host and was not restored from disk.
    #[default]
    Live,
    /// The session was rehydrated by resuming its native agent session.
    Recovered,
    /// The native agent session no longer exists; the journal is retained.
    Stale { reason: String },
    /// The agent could not be launched or cannot resume; the journal is retained.
    Unavailable { reason: String },
}

#[derive(Debug, Clone, PartialEq, Eq)]
pub struct SessionSummary {
    pub id: String,
    pub title: String,
    pub agent: String,
    pub model: Option<String>,
    pub effort: Option<String>,
    pub working_directory_label: String,
    pub git_branch: Option<String>,
    pub status: SessionStatus,
    pub created_at_ms: i64,
    pub last_activity_at_ms: i64,
    pub last_sequence: u64,
    pub recovery: SessionRecoveryState,
    pub archived: bool,
}

impl SessionSummary {
    /// A structurally equal copy.
    pub fn duplicate(&self) -> (res: Self)
        ensures
            res == *self,
    {
        SessionSummary {
            id: self.id.clone(),
            title: self.title.clone(),
            agent: self.agent.clone(),
            model: clone_opt(&self.model),
            effort: clone_opt(&self.effort),
            working_directory_label: self.working_directory_label.clone(),
            git_branch: clone_opt(&self.git_branch),
            status: self.status,
            created_at_ms: self.created_at_ms,
            last_activity_at_ms: self.last_activity_at_ms,
            last_sequence: self.last_sequence,
            recovery: self.recovery.duplicate(),
            archived: self.archived,
        }
    }
}

#[derive(Debug, Clone, PartialEq, Eq)]
pub struct CreateSessionRequest {
    pub agent: AgentKind,
    pub model: Option<String>,
    pub effort: Option<String>,
    pub working_directory_label: String,
    pub initial_prompt: Option<String>,
}

/// How an existing agent session is brought into the host.
#[derive(Debug, Clone, Copy, PartialEq, Eq, Structural)]
pub enum SessionRecovery {
    /// `session/load`: replay the agent's retained history into the journal.
    Load,
    /// `session/resume`: reconnect without replaying agent-side history.
    Resume,
}

#[derive(Debug, Clone, PartialEq, Eq)]
pub struct ImportSessionRequest {
    pub agent: AgentKind,
    pub agent_session_id: String,
    pub working_directory_label: String,
    pub recovery: SessionRecovery,
    pub title: Option<String>,
}

/// The errors a session operation reports.
#[derive(Debug, Clone, PartialEq, Eq)]
pub enum SessionError {
    UnknownAgent(String),
    UnknownSession(String),
    NotRunning(String),
    EmptyTitle,
    UnsupportedCapability(String),
    NoPendingPermission(String),
    PermissionMismatch { session_id: String, expected: String, actual: String },
    Agent(AcpError),
    Store(crate::store_error::StoreError),
}

} // verus!
