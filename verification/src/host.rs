//! The host's own state: the recent log it keeps, where it is in its
//! lifecycle, and what it answers to lifecycle requests.

use vstd::prelude::*;
use std::collections::VecDeque;
use crate::admin::{HostLifecycleResult, HostRunState, LogEntryDto, SessionDiagnosticsDto};
use crate::cli::{status_name, status_str};
use crate::journal::{keep_last, push_bounded};
use crate::session_types::SessionSummary;
use crate::text::owned;
use crate::time::{rfc3339_from_ms, timestamp_text};

verus! {

/// How many log entries the host keeps for diagnostics.
pub const LOG_LIMIT: usize = 200;

/// The log entry of `message` at `level`, written at time `now_ms`.
pub fn log_entry(level: &str, message: &str, now_ms: i64) -> (res: LogEntryDto)
    ensures
        res.timestamp@ == timestamp_text(now_ms as int),
        res.level@ == level@,
        res.message@ == message@,
{
    LogEntryDto { timestamp: rfc3339_from_ms(now_ms), level: owned(level), message: owned(message) }
}

/// Records `entry`, keeping only the newest [`LOG_LIMIT`] entries.
pub fn record_log(logs: &mut VecDeque<LogEntryDto>, entry: LogEntryDto)
    ensures
        final(logs)@ == keep_last(old(logs)@.push(entry), LOG_LIMIT as nat),
        final(logs)@.len() <= LOG_LIMIT,
        final(logs)@.last() == entry,
{
    push_bounded(logs, entry, LOG_LIMIT);
}

/// Where the host is: stopping once a shutdown was requested, else running
/// while it serves, else stopped.
pub fn run_state(shutdown_requested: bool, serving: bool) -> (res: HostRunState)
    ensures
        res == if shutdown_requested {
            HostRunState::Stopping
        } else if serving {
            HostRunState::Running
        } else {
            HostRunState::Stopped
        },
{
    if shutdown_requested {
        HostRunState::Stopping
    } else if serving {
        HostRunState::Running
    } else {
        HostRunState::Stopped
    }
}

/// The answer to a start request: a host that is shutting down cannot
/// start again in place; a running host already runs.
pub fn start_answer(shutdown_requested: bool) -> (res: HostLifecycleResult)
    ensures
        shutdown_requested ==> res.state == HostRunState::Failed && (res.message matches Some(m)
            && m@ == "host is shutting down; restart the process or supervisor"@),
        !shutdown_requested ==> res.state == HostRunState::Running && (res.message matches Some(m)
            && m@ == "host already running"@),
{
    if shutdown_requested {
        HostLifecycleResult {
            state: HostRunState::Failed,
            message: Some(owned("host is shutting down; restart the process or supervisor")),
        }
    } else {
        HostLifecycleResult { state: HostRunState::Running, message: Some(owned("host already running")) }
    }
}

/// The answer to a stop request, which the host honours by stopping.
pub fn stop_answer() -> (res: HostLifecycleResult)
    ensures
        res.state == HostRunState::Stopping,
        res.message matches Some(m) && m@ == "shutdown requested"@,
{
    HostLifecycleResult { state: HostRunState::Stopping, message: Some(owned("shutdown requested")) }
}

/// The answer to a restart request: the host stops, and only a supervisor
/// outside it can start it again.
pub fn restart_answer() -> (res: HostLifecycleResult)
    ensures
        res.state == HostRunState::Stopping,
        res.message matches Some(m) && m@ == "restart requires an external supervisor"@,
{
    HostLifecycleResult {
        state: HostRunState::Stopping,
        message: Some(owned("restart requires an external supervisor")),
    }
}

/// The diagnostics of session `summary`, given how many recent events its
/// detail holds and whether it runs; a session that cannot be inspected
/// shows no events and does not run.
pub fn session_diagnostics(summary: &SessionSummary, detail: Option<(usize, bool)>) -> (res: SessionDiagnosticsDto)
    ensures
        res.session_id@ == summary.id@,
        res.status@ == status_name(summary.status),
        res.agent@ == summary.agent@,
        res.last_sequence == summary.last_sequence,
        res.event_count == match detail {
            Some(d) => d.0,
            None => 0,
        },
        res.running == match detail {
            Some(d) => d.1,
            None => false,
        },
{
    let (event_count, running) = match detail {
        Some(d) => d,
        None => (0, false),
    };
    SessionDiagnosticsDto {
        session_id: summary.id.clone(),
        status: owned(status_str(summary.status)),
        agent: summary.agent.clone(),
        last_sequence: summary.last_sequence,
        event_count,
        running,
    }
}

} // verus!
