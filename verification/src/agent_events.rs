//! The normalized events an ACP agent session emits, and what the host learns
//! from `initialize`.

use vstd::prelude::*;
use crate::content::NormalizedContent;
use crate::kinds::{DiagnosticLevel, MessageRole, PermissionRequest};
use crate::metadata::{
    AcpConfigOption, AcpSessionInfoUpdate, AcpUsage, AgentCapabilitiesSummary,
    AuthMethodSummary, AvailableCommandSummary, ListedSessionSummary, PlanSummary,
    WireAgentCapabilities,
};
use crate::session_types::ToolCallUpdate;

verus! {

/// Why an ACP prompt turn ended.
#[derive(Debug, Clone, Copy, PartialEq, Eq, Structural)]
pub enum StopReason {
    EndTurn,
    MaxTokens,
    MaxTurnRequests,
    Refusal,
    Cancelled,
}

/// The ACP wire string of a stop reason.
pub open spec fn stop_reason_name(r: StopReason) -> Seq<char> {
    match r {
        StopReason::EndTurn => "end_turn"@,
        StopReason::MaxTokens => "max_tokens"@,
        StopReason::MaxTurnRequests => "max_turn_requests"@,
        StopReason::Refusal => "refusal"@,
        StopReason::Cancelled => "cancelled"@,
    }
}

/// The name of a stop reason as its `Debug` form prints it.
pub open spec fn stop_reason_debug(r: StopReason) -> Seq<char> {
    match r {
        StopReason::EndTurn => "EndTurn"@,
        StopReason::MaxTokens => "MaxTokens"@,
        StopReason::MaxTurnRequests => "MaxTurnRequests"@,
        StopReason::Refusal => "Refusal"@,
        StopReason::Cancelled => "Cancelled"@,
    }
}

impl StopReason {
    /// The ACP wire string of this stop reason.
    pub fn wire_name(&self) -> (res: &'static str)
        ensures
            res@ == stop_reason_name(*self),
    {
        match self {
            StopReason::EndTurn => "end_turn",
            StopReason::MaxTokens => "max_tokens",
            StopReason::MaxTurnRequests => "max_turn_requests",
            StopReason::Refusal => "refusal",
            StopReason::Cancelled => "cancelled",
        }
    }

    /// This stop reason as its `Debug` form prints it.
    pub fn debug_name(&self) -> (res: &'static str)
        ensures
            res@ == stop_reason_debug(*self),
    {
        match self {
            StopReason::EndTurn => "EndTurn",
            StopReason::MaxTokens => "MaxTokens",
            StopReason::MaxTurnRequests => "MaxTurnRequests",
            StopReason::Refusal => "Refusal",
            StopReason::Cancelled => "Cancelled",
        }
    }
}

/// A normalized, agent-neutral event emitted by an ACP session.
#[derive(Debug)]
pub enum AgentEvent {
    /// A streamed user or assistant message chunk.
    Message { role: MessageRole, content: NormalizedContent },
    /// A streamed agent reasoning/thought chunk.
    Thought { content: NormalizedContent },
    /// A tool-call creation or progress update.
    ToolCall(ToolCallUpdate),
    /// A full execution-plan replacement from the agent.
    Plan(PlanSummary),
    /// A replacement list of slash commands the agent makes available.
    AvailableCommands(Vec<AvailableCommandSummary>),
    /// A replacement set of session configuration options.
    ConfigOptions(Vec<AcpConfigOption>),
    /// A partial session metadata update (title and last-activity timestamp).
    SessionInfo(AcpSessionInfoUpdate),
    /// Context-window and cost usage for the session.
    Usage(AcpUsage),
    /// The agent switched its current session mode.
    Mode { current_mode_id: String },
    /// A permission request awaiting a client decision.
    PermissionRequest(PermissionRequest),
    /// Diagnostics from the agent or the transport.
    Diagnostics { level: DiagnosticLevel, message: String },
    /// The prompt turn finished, with the agent's stop reason.
    TurnEnded { stop_reason: StopReason },
    /// The agent process or connection exited.
    Exited { code: Option<i32>, reason: String },
    /// A structured protocol, decode, or transport failure.
    Failed { message: String },
}

/// The subset of the `initialize` response the host consumes.
#[derive(Debug, Clone)]
pub struct InitializeSummary {
    pub protocol_version: u16,
    pub agent_name: Option<String>,
    pub agent_title: Option<String>,
    pub agent_version: Option<String>,
    pub agent_capabilities: WireAgentCapabilities,
    pub auth_methods: Vec<AuthMethodSummary>,
}

impl InitializeSummary {
    /// The flattened capability view safe to expose through the gateway.
    pub fn capability_summary(&self) -> (res: AgentCapabilitiesSummary)
        ensures
            res.load_session == self.agent_capabilities.load_session,
            res.prompt_image == self.agent_capabilities.prompt_image,
            res.prompt_audio == self.agent_capabilities.prompt_audio,
            res.prompt_embedded_context == self.agent_capabilities.prompt_embedded_context,
            res.mcp_http == self.agent_capabilities.mcp_http,
            res.mcp_sse == self.agent_capabilities.mcp_sse,
            res.session_list == self.agent_capabilities.session_list,
            res.session_resume == self.agent_capabilities.session_resume,
            res.session_close == self.agent_capabilities.session_close,
            res.session_delete == self.agent_capabilities.session_delete,
            res.session_additional_directories == self.agent_capabilities.session_additional_directories,
    {
        AgentCapabilitiesSummary::from_wire(&self.agent_capabilities)
    }
}

/// One page of `session/list` results.
#[derive(Debug, Clone, PartialEq, Eq)]
pub struct ListedSessionPage {
    pub sessions: Vec<ListedSessionSummary>,
    pub next_cursor: Option<String>,
}

} // verus!
