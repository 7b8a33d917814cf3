//! The session, agent and native-session summaries the gateway sends to
//! clients.

use vstd::prelude::*;
use crate::kinds::{agent_kind_name, AgentDescriptor};
use crate::metadata::{clone_opt, clone_strings, ListedSessionSummary};
use crate::session_types::{SessionRecoveryState, SessionStatus, SessionSummary};
use crate::text::owned;
use crate::time::{rfc3339_from_ms, timestamp_text};

verus! {

/// A session as a client sees it, with its times as RFC 3339 timestamps.
#[derive(Debug, Clone, PartialEq, Eq)]
pub struct SessionSummaryDto {
    pub id: String,
    pub title: String,
    pub agent: String,
    pub model: Option<String>,
    pub effort: Option<String>,
    pub working_directory_label: String,
    pub git_branch: Option<String>,
    pub status: SessionStatus,
    pub created_at: Option<String>,
    pub last_activity_at: Option<String>,
    pub last_sequence: u64,
    pub recovery: SessionRecoveryState,
    pub archived: bool,
}

impl SessionSummaryDto {
    /// The client's view of a session summary.
    pub fn from_summary(summary: &SessionSummary) -> (res: Self)
        ensures
            res.id == summary.id,
            res.title == summary.title,
            res.agent == summary.agent,
            res.model == summary.model,
            res.effort == summary.effort,
            res.working_directory_label == summary.working_directory_label,
            res.git_branch == summary.git_branch,
            res.status == summary.status,
            res.created_at matches Some(t) && t@ == timestamp_text(summary.created_at_ms as int),
            res.last_activity_at matches Some(t) && t@ == timestamp_text(summary.last_activity_at_ms as int),
            res.last_sequence == summary.last_sequence,
            res.recovery == summary.recovery,
            res.archived == summary.archived,
    {
        SessionSummaryDto {
            id: summary.id.clone(),
            title: summary.title.clone(),
            agent: summary.agent.clone(),
            model: clone_opt(&summary.model),
            effort: clone_opt(&summary.effort),
            working_directory_label: summary.working_directory_label.clone(),
            git_branch: clone_opt(&summary.git_branch),
            status: summary.status,
            created_at: Some(rfc3339_from_ms(summary.created_at_ms)),
            last_activity_at: Some(rfc3339_from_ms(summary.last_activity_at_ms)),
            last_sequence: summary.last_sequence,
            recovery: summary.recovery.duplicate(),
            archived: summary.archived,
        }
    }
}

/// An agent as a client sees it.
#[derive(Debug, Clone, PartialEq, Eq)]
pub struct AgentDescriptorDto {
    pub kind: String,
    pub display_name: String,
    pub version: Option<String>,
}

impl AgentDescriptorDto {
    pub fn from_descriptor(descriptor: &AgentDescriptor) -> (res: Self)
        ensures
            res.kind@ == agent_kind_name(descriptor.kind),
            res.display_name == descriptor.display_name,
            res.version == descriptor.version,
    {
        AgentDescriptorDto {
            kind: owned(descriptor.kind.as_str()),
            display_name: descriptor.display_name.clone(),
            version: clone_opt(&descriptor.version),
        }
    }
}

/// A native, agent-owned session not yet imported. Its native id and
/// working directory are exposed so a client can ask to import it.
#[derive(Debug, Clone, PartialEq, Eq)]
pub struct AgentSessionSummaryDto {
    pub agent: String,
    pub agent_session_id: String,
    pub cwd: String,
    pub additional_directories: Vec<String>,
    pub title: Option<String>,
    pub updated_at: Option<String>,
}

impl AgentSessionSummaryDto {
    pub fn from_listed(agent: &str, listed: &ListedSessionSummary) -> (res: Self)
        ensures
            res.agent@ == agent@,
            res.agent_session_id == listed.agent_session_id,
            res.cwd == listed.cwd,
            res.additional_directories@ == listed.additional_directories@,
            res.title == listed.title,
            res.updated_at == listed.updated_at,
    {
        AgentSessionSummaryDto {
            agent: owned(agent),
            agent_session_id: listed.agent_session_id.clone(),
            cwd: listed.cwd.clone(),
            additional_directories: clone_strings(&listed.additional_directories),
            title: clone_opt(&listed.title),
            updated_at: clone_opt(&listed.updated_at),
        }
    }
}

} // verus!
