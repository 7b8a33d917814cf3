//! The parameters of gateway commands and the results they answer with.

use vstd::prelude::*;
use crate::dto::{AgentSessionSummaryDto, SessionSummaryDto};
use crate::session_types::SessionRecovery;

verus! {

#[derive(Debug, Clone, PartialEq, Eq)]
pub struct CreateSessionParams {
    pub agent: String,
    pub model: Option<String>,
    pub effort: Option<String>,
    pub working_directory_label: String,
    pub initial_prompt: Option<String>,
}

#[derive(Debug, Clone, Copy, PartialEq, Eq, Default)]
pub struct AttachSessionParams {
    pub after_sequence: Option<u64>,
}

#[derive(Debug, Clone, Copy, PartialEq, Eq, Default)]
pub struct SessionHistoryParams {
    pub before_sequence: Option<u64>,
    pub limit: Option<usize>,
}

#[derive(Debug, Clone, PartialEq, Eq)]
pub struct AgentSessionsListParams {
    pub agent: String,
    pub working_directory_label: Option<String>,
    pub cursor: Option<String>,
}

#[derive(Debug, Clone, PartialEq, Eq)]
pub struct ImportAgentSessionParams {
    pub agent: String,
    pub agent_session_id: String,
    pub working_directory_label: String,
    pub recovery: SessionRecovery,
    pub title: Option<String>,
}

#[derive(Debug, Clone, PartialEq, Eq)]
pub struct SendInputParams {
    pub text: String,
}

#[derive(Debug, Clone, PartialEq, Eq)]
pub struct RenameSessionParams {
    pub title: String,
}

#[derive(Debug, Clone, Copy, PartialEq, Eq)]
pub struct ArchiveSessionParams {
    pub archived: bool,
}

#[derive(Debug, Clone, PartialEq, Eq)]
pub struct SetSessionModeParams {
    pub mode_id: String,
}

#[derive(Debug, Clone, PartialEq, Eq)]
pub struct SetSessionConfigOptionParams {
    pub config_id: String,
    pub value_id: String,
}

#[derive(Debug, Clone, PartialEq, Eq)]
pub struct RespondPermissionParams {
    pub permission_id: String,
    pub option_id: String,
}

#[derive(Debug, Clone, PartialEq, Eq)]
pub struct BeginPairingParams {
    pub label: String,
}

#[derive(Debug, Clone, PartialEq, Eq)]
pub struct RevokeDeviceParams {
    pub device_id: String,
}

#[derive(Debug, Clone, PartialEq, Eq)]
pub struct SessionListResult {
    pub sessions: Vec<SessionSummaryDto>,
}

#[derive(Debug, Clone, PartialEq, Eq)]
pub struct SessionWorkingDirectoriesResult {
    pub paths: Vec<String>,
}

#[derive(Debug, Clone, PartialEq, Eq)]
pub struct AgentSessionsListResult {
    pub sessions: Vec<AgentSessionSummaryDto>,
    pub next_cursor: Option<String>,
}

#[derive(Debug, Clone, PartialEq, Eq)]
pub struct ImportAgentSessionResult {
    pub session: SessionSummaryDto,
}

#[derive(Debug, Clone, PartialEq, Eq)]
pub struct SessionCreateResult {
    pub session: SessionSummaryDto,
}

#[derive(Debug, Clone, PartialEq, Eq)]
pub struct SessionRenameResult {
    pub session: SessionSummaryDto,
}

#[derive(Debug, Clone, PartialEq, Eq)]
pub struct SessionArchiveResult {
    pub session: SessionSummaryDto,
}

} // verus!
