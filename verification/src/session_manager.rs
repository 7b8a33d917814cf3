//! The decisions the session manager makes around its sessions: titles and
//! working-directory labels for new sessions, the capability checks before
//! opening one, what a session learns from the agent's handshake, how failed
//! recoveries are reported, and how sessions are listed.

use vstd::prelude::*;
use crate::agent_events::InitializeSummary;
use crate::kinds::{agent_kind_name, AgentDescriptor, AgentKind};
use crate::metadata::{category_name, AcpConfigCategory, AcpConfigKind, AcpConfigOption, WireAgentCapabilities};
use crate::session_types::{
    CreateSessionRequest, SessionError, SessionRecoveryState, SessionStatus, SessionSummary,
};
use crate::paths::{join_path, spec_join};
use crate::text::{concat2, owned, spec_trim, str_equal, take_chars, trim};

verus! {

/// A client's working-directory label without surrounding white space, or
/// `~` (the home directory) when nothing is left.
pub open spec fn spec_normalized_label(label: Seq<char>) -> Seq<char> {
    if spec_trim(label).len() == 0 { "~"@ } else { spec_trim(label) }
}

pub fn normalized_working_directory_label(label: &str) -> (res: String)
    ensures
        res@ == spec_normalized_label(label@),
{
    let trimmed = trim(label);
    if trimmed.unicode_len() == 0 {
        owned("~")
    } else {
        owned(trimmed)
    }
}

/// The directory a working-directory label names: `~` is the home
/// directory, `~/…` lies under it, and anything else is used as it is.
pub open spec fn spec_resolved_directory(label: Seq<char>, home: Seq<char>) -> Seq<char> {
    if label == "~"@ {
        home
    } else if label.len() >= 2 && label[0] == '~' && label[1] == '/' {
        spec_join(home, label.skip(2))
    } else {
        label
    }
}

/// Resolves a client's working-directory label against the home directory
/// `home` (the caller reads it from `HOME`, else the current directory,
/// else `.`).
pub fn resolve_working_directory(label: &str, home: &str) -> (res: String)
    ensures
        res@ == spec_resolved_directory(label@, home@),
{
    proof {
        reveal_strlit("~");
    }
    if str_equal(label, "~") {
        return owned(home);
    }
    let n = label.unicode_len();
    if n >= 2 && label.get_char(0) == '~' && label.get_char(1) == '/' {
        let rest = label.substring_char(2, n);
        assert(rest@ =~= label@.skip(2));
        return join_path(home, rest);
    }
    owned(label)
}

/// The title of a session opened without one: `<agent> session`.
pub open spec fn spec_agent_session_title(agent: AgentKind) -> Seq<char> {
    agent_kind_name(agent) + " session"@
}

/// The title of a new session: the first forty characters of its initial
/// prompt without surrounding white space, or `<agent> session` when there is
/// no prompt or it is blank.
pub open spec fn spec_default_title(request: CreateSessionRequest) -> Seq<char> {
    match request.initial_prompt {
        Some(p) if spec_trim(p@).len() > 0 =>
            spec_trim(p@).take(if spec_trim(p@).len() > 40 { 40 } else { spec_trim(p@).len() as int }),
        _ => spec_agent_session_title(request.agent),
    }
}

pub fn default_title(request: &CreateSessionRequest) -> (res: String)
    ensures
        res@ == spec_default_title(*request),
{
    if let Some(prompt) = &request.initial_prompt {
        let trimmed = trim(prompt.as_str());
        if trimmed.unicode_len() > 0 {
            return take_chars(trimmed, 40);
        }
    }
    concat2(request.agent.as_str(), " session")
}

/// The title of an imported session: the requested title unless it is
/// blank, otherwise `<agent> session`.
pub fn import_title(title: Option<String>, agent: &AgentKind) -> (res: String)
    ensures
        res@ == (match title {
            Some(t) if spec_trim(t@).len() > 0 => t@,
            _ => spec_agent_session_title(*agent),
        }),
{
    match title {
        Some(t) => {
            if trim(t.as_str()).unicode_len() > 0 {
                t
            } else {
                concat2(agent.as_str(), " session")
            }
        },
        None => concat2(agent.as_str(), " session"),
    }
}

/// Whether option `o` is in `category` and is a selector (the options that
/// can name a current value for a category).
pub open spec fn selects_in(o: AcpConfigOption, category: AcpConfigCategory) -> bool {
    o.category matches Some(c) && category_name(c) == category_name(category)
        && (c is Other <==> category is Other) && o.kind is Select
}

/// The current value of the first selector option in `category`.
pub open spec fn spec_current_config_value(options: Seq<AcpConfigOption>, category: AcpConfigCategory) -> Option<String>
    decreases options.len(),
{
    if options.len() == 0 {
        None
    } else if selects_in(options[0], category) {
        Some(options[0].kind->Select_current_value_id)
    } else {
        spec_current_config_value(options.drop_first(), category)
    }
}

pub fn current_config_value(options: &Vec<AcpConfigOption>, category: &AcpConfigCategory) -> (res: Option<String>)
    ensures
        res == spec_current_config_value(options@, *category),
{
    let mut i: usize = 0;
    proof { assert(options@.skip(0) =~= options@); }
    while i < options.len()
        invariant
            i <= options.len(),
            spec_current_config_value(options@, *category) == spec_current_config_value(options@.skip(i as int), *category),
        decreases options.len() - i,
    {
        proof {
            assert(options@.skip(i as int).drop_first() =~= options@.skip(i + 1));
            assert(options@.skip(i as int)[0] == options@[i as int]);
        }
        let option = &options[i];
        if let Some(c) = &option.category {
            if c.same_as(category) {
                if let AcpConfigKind::Select { current_value_id, .. } = &option.kind {
                    return Some(current_value_id.clone());
                }
            }
        }
        i = i + 1;
    }
    None
}

/// The descriptor a session reports: the adapter's, with the display name
/// and version the agent announced during `initialize` when it announced
/// them.
pub fn negotiated_descriptor(descriptor: AgentDescriptor, initialize: &InitializeSummary) -> (res: AgentDescriptor)
    ensures
        res.kind == descriptor.kind,
        res.display_name == (match initialize.agent_name { Some(n) => n, None => descriptor.display_name }),
        res.version == (match initialize.agent_version { Some(v) => Some(v), None => descriptor.version }),
{
    let mut descriptor = descriptor;
    if let Some(name) = &initialize.agent_name {
        descriptor.display_name = name.clone();
    }
    if let Some(version) = &initialize.agent_version {
        descriptor.version = Some(version.clone());
    }
    descriptor
}

/// How a product session is bound to its native agent session.
#[derive(Debug, Clone, Copy, PartialEq, Eq, Structural, Default)]
pub enum SessionOrigin {
    #[default]
    New,
    Load,
    Resume,
}

/// The word used for an origin in recovery messages.
pub open spec fn origin_word(o: SessionOrigin) -> Seq<char> {
    match o {
        SessionOrigin::New => "new"@,
        SessionOrigin::Load => "loaded"@,
        SessionOrigin::Resume => "resumed"@,
    }
}

impl SessionOrigin {
    pub fn as_str(self) -> (res: &'static str)
        ensures
            res@ == origin_word(self),
    {
        match self {
            SessionOrigin::New => "new",
            SessionOrigin::Load => "loaded",
            SessionOrigin::Resume => "resumed",
        }
    }
}

/// How a new session binds its native agent session.
#[derive(Debug, Clone, PartialEq, Eq)]
pub enum OpenKind {
    /// Brand-new `session/new`.
    New,
    /// `session/load` of a native session, replaying its history.
    Load(String),
    /// `session/resume` of a native session, without replay.
    Resume(String),
}

/// The capability an open kind needs from the agent, checked after the
/// handshake: loading needs `loadSession`, resuming the resume capability.
pub fn check_open_capability(kind: &OpenKind, capabilities: &WireAgentCapabilities) -> (res: Result<(), SessionError>)
    ensures
        match *kind {
            OpenKind::New => res is Ok,
            OpenKind::Load(_) => if capabilities.load_session { res is Ok } else {
                res matches Err(SessionError::UnsupportedCapability(c)) && c@ == "session/load"@ },
            OpenKind::Resume(_) => if capabilities.session_resume { res is Ok } else {
                res matches Err(SessionError::UnsupportedCapability(c)) && c@ == "session/resume"@ },
        },
{
    match kind {
        OpenKind::New => Ok(()),
        OpenKind::Load(_) => if capabilities.load_session {
            Ok(())
        } else {
            Err(SessionError::UnsupportedCapability(owned("session/load")))
        },
        OpenKind::Resume(_) => if capabilities.session_resume {
            Ok(())
        } else {
            Err(SessionError::UnsupportedCapability(owned("session/resume")))
        },
    }
}

/// Listing native sessions needs the agent's `session/list` capability.
pub fn check_list_capability(capabilities: &WireAgentCapabilities) -> (res: Result<(), SessionError>)
    ensures
        capabilities.session_list ==> res is Ok,
        !capabilities.session_list ==> (res matches Err(SessionError::UnsupportedCapability(c)) && c@ == "session/list"@),
{
    if capabilities.session_list {
        Ok(())
    } else {
        Err(SessionError::UnsupportedCapability(owned("session/list")))
    }
}

/// The summary of a freshly opened session: idle, live, not archived, with
/// no events yet, created and last active `now`. Without a requested model
/// it takes the current value of the agent's model selector.
pub fn new_session_summary(
    id: String,
    title: String,
    agent: &AgentKind,
    model: Option<String>,
    effort: Option<String>,
    working_directory_label: String,
    git_branch: Option<String>,
    config_options: &Vec<AcpConfigOption>,
    now: i64,
) -> (res: SessionSummary)
    ensures
        res.id == id,
        res.title == title,
        res.agent@ == agent_kind_name(*agent),
        res.model == (match model { Some(m) => Some(m), None => spec_current_config_value(config_options@, AcpConfigCategory::Model) }),
        res.effort == effort,
        res.working_directory_label == working_directory_label,
        res.git_branch == git_branch,
        res.status == SessionStatus::Idle,
        res.created_at_ms == now,
        res.last_activity_at_ms == now,
        res.last_sequence == 0,
        res.recovery == SessionRecoveryState::Live,
        !res.archived,
{
    let model = match model {
        Some(m) => Some(m),
        None => current_config_value(config_options, &AcpConfigCategory::Model),
    };
    SessionSummary {
        id,
        title,
        agent: owned(agent.as_str()),
        model,
        effort,
        working_directory_label,
        git_branch,
        status: SessionStatus::Idle,
        created_at_ms: now,
        last_activity_at_ms: now,
        last_sequence: 0,
        recovery: SessionRecoveryState::Live,
        archived: false,
    }
}

/// Why a persisted session could not be rehydrated.
#[derive(Debug, Clone, PartialEq, Eq)]
pub enum RecoveryFailure {
    /// No adapter for the session's agent is registered.
    AgentNotRegistered,
    /// The session never learned its native agent session id.
    NoNativeSession,
    /// The agent could not be launched; carries the launch error.
    LaunchFailed(String),
    /// The `initialize` handshake failed; carries the error.
    HandshakeFailed(String),
    /// The agent does not advertise `session/resume`.
    ResumeUnsupported,
    /// The agent rejected the resume; carries the error.
    ResumeRejected(String),
}

/// The recovery state reported for a failure: a rejected resume means the
/// native session is stale, every other failure that the agent is
/// unavailable; the reason names the agent, the origin and native session.
pub open spec fn spec_recovery_failure_state(agent: Seq<char>, origin: SessionOrigin, native_id: Seq<char>, failure: RecoveryFailure, state: SessionRecoveryState) -> bool {
    match failure {
        RecoveryFailure::AgentNotRegistered => state matches SessionRecoveryState::Unavailable { reason }
            && reason@ == "agent "@ + agent + " is not registered on this host"@,
        RecoveryFailure::NoNativeSession => state matches SessionRecoveryState::Unavailable { reason }
            && reason@ == "session has no native agent session id to resume"@,
        RecoveryFailure::LaunchFailed(e) => state matches SessionRecoveryState::Unavailable { reason }
            && reason@ == "could not launch agent: "@ + e@,
        RecoveryFailure::HandshakeFailed(e) => state matches SessionRecoveryState::Unavailable { reason }
            && reason@ == "agent handshake failed: "@ + e@,
        RecoveryFailure::ResumeUnsupported => state matches SessionRecoveryState::Unavailable { reason }
            && reason@ == "agent "@ + agent + " does not support session/resume"@,
        RecoveryFailure::ResumeRejected(e) => state matches SessionRecoveryState::Stale { reason }
            && reason@ == origin_word(origin) + " session "@ + native_id + " is no longer available: "@ + e@,
    }
}

fn concat3(a: &str, b: &str, c: &str) -> (res: String)
    ensures
        res@ == a@ + b@ + c@,
{
    let mut s = concat2(a, b);
    s.append(c);
    s
}

pub fn recovery_failure_state(agent: &str, origin: SessionOrigin, native_id: &str, failure: &RecoveryFailure) -> (res: SessionRecoveryState)
    ensures
        spec_recovery_failure_state(agent@, origin, native_id@, *failure, res),
{
    match failure {
        RecoveryFailure::AgentNotRegistered => SessionRecoveryState::Unavailable {
            reason: concat3("agent ", agent, " is not registered on this host"),
        },
        RecoveryFailure::NoNativeSession => SessionRecoveryState::Unavailable {
            reason: owned("session has no native agent session id to resume"),
        },
        RecoveryFailure::LaunchFailed(e) => SessionRecoveryState::Unavailable {
            reason: concat2("could not launch agent: ", e.as_str()),
        },
        RecoveryFailure::HandshakeFailed(e) => SessionRecoveryState::Unavailable {
            reason: concat2("agent handshake failed: ", e.as_str()),
        },
        RecoveryFailure::ResumeUnsupported => SessionRecoveryState::Unavailable {
            reason: concat3("agent ", agent, " does not support session/resume"),
        },
        RecoveryFailure::ResumeRejected(e) => {
            let mut reason = concat3(origin.as_str(), " session ", native_id);
            reason.append(" is no longer available: ");
            reason.append(e.as_str());
            SessionRecoveryState::Stale { reason }
        },
    }
}

/// The summary kept for a session that could not be recovered: exited, with
/// the failure as its recovery state; nothing else changes.
pub fn failed_recovery_summary(summary: SessionSummary, state: SessionRecoveryState) -> (res: SessionSummary)
    ensures
        res == (SessionSummary { status: SessionStatus::Exited, recovery: state, ..summary }),
{
    let mut summary = summary;
    summary.status = SessionStatus::Exited;
    summary.recovery = state;
    summary
}

/// The summary of a rehydrated session: idle, recovered, active `now`.
pub fn rehydrated_summary(summary: SessionSummary, now: i64) -> (res: SessionSummary)
    ensures
        res == (SessionSummary { status: SessionStatus::Idle, recovery: SessionRecoveryState::Recovered, last_activity_at_ms: now, ..summary }),
{
    let mut summary = summary;
    summary.status = SessionStatus::Idle;
    summary.recovery = SessionRecoveryState::Recovered;
    summary.last_activity_at_ms = now;
    summary
}

/// The summary shown for a persisted session whose metadata cannot be read.
pub fn unreadable_summary(
    session_id: &str,
    created_at_ms: i64,
    updated_at_ms: i64,
    last_sequence: u64,
    reason: &str,
) -> (res: SessionSummary)
    ensures
        res.id@ == session_id@,
        res.title@ == "Unreadable session"@,
        res.agent@ == "unknown"@,
        res.model is None && res.effort is None && res.git_branch is None,
        res.working_directory_label@ == "~"@,
        res.status == SessionStatus::Exited,
        res.created_at_ms == created_at_ms,
        res.last_activity_at_ms == updated_at_ms,
        res.last_sequence == last_sequence,
        res.recovery matches SessionRecoveryState::Unavailable { reason: r }
            && r@ == "session metadata could not be read: "@ + reason@,
        !res.archived,
{
    SessionSummary {
        id: owned(session_id),
        title: owned("Unreadable session"),
        agent: owned("unknown"),
        model: None,
        effort: None,
        working_directory_label: owned("~"),
        git_branch: None,
        status: SessionStatus::Exited,
        created_at_ms,
        last_activity_at_ms: updated_at_ms,
        last_sequence,
        recovery: SessionRecoveryState::Unavailable {
            reason: concat2("session metadata could not be read: ", reason),
        },
        archived: false,
    }
}

/// Whether a session in `status` counts as active.
pub open spec fn spec_is_active(status: SessionStatus) -> bool {
    status == SessionStatus::Idle || status == SessionStatus::Working || status == SessionStatus::WaitingPermission
}

pub fn is_active(status: SessionStatus) -> (res: bool)
    ensures
        res == spec_is_active(status),
{
    matches!(status, SessionStatus::Idle | SessionStatus::Working | SessionStatus::WaitingPermission)
}

} // verus!
