//! The decisions of an agent session's worker: which agent session its
//! requests target, and what each prompt turn's outcome reports. The worker
//! loop that talks to the agent performs them.

use vstd::prelude::*;
use crate::agent_events::{AgentEvent, StopReason};
use crate::kinds::AcpError;
use crate::metadata::SessionMetadata;
use crate::text::owned;
use crate::acp_client::ClientError;
use crate::normalize::{parse_stop_reason, stop_reason_of};

verus! {

/// The agent session a worker has opened, if any.
pub struct WorkerState {
    pub agent_session_id: Option<String>,
}

/// How a prompt turn ended on the wire.
pub enum PromptOutcome {
    /// The agent answered the prompt with a stop reason.
    Completed(StopReason),
    /// The connection to the agent closed.
    Closed,
    /// The request failed with this message.
    Failed(String),
}

/// The worker's failure when a prompt arrives before any session is open.
pub open spec fn prompt_before_open() -> Seq<char> {
    "prompt sent before session/new completed"@
}

impl WorkerState {
    /// A worker with no session open.
    pub fn new() -> (res: Self)
        ensures
            res.agent_session_id is None,
    {
        WorkerState { agent_session_id: None }
    }

    /// Records the agent session that a new, loaded or resumed session
    /// opened: later requests target it.
    pub fn opened(&mut self, metadata: &SessionMetadata)
        ensures
            final(self).agent_session_id matches Some(id) && id@ == metadata.agent_session_id@,
    {
        self.agent_session_id = Some(metadata.agent_session_id.clone());
    }

    /// The agent session a request targets; refused with `session is not
    /// open` while none is.
    pub fn open_session(&self) -> (res: Result<String, AcpError>)
        ensures
            match self.agent_session_id {
                Some(id) => res matches Ok(s) && s@ == id@,
                None => res matches Err(e) && e.0@ == "session is not open"@,
            },
    {
        match &self.agent_session_id {
            Some(id) => Ok(id.clone()),
            None => Err(AcpError::new("session is not open")),
        }
    }

    /// The agent session a prompt goes to; while none is open, the failure
    /// the worker reports instead.
    pub fn prompt_target(&self) -> (res: Result<String, AgentEvent>)
        ensures
            match self.agent_session_id {
                Some(id) => res matches Ok(s) && s@ == id@,
                None => res matches Err(AgentEvent::Failed { message }) && message@ == prompt_before_open(),
            },
    {
        match &self.agent_session_id {
            Some(id) => Ok(id.clone()),
            None => Err(AgentEvent::Failed { message: owned("prompt sent before session/new completed") }),
        }
    }
}

/// The event a prompt turn's outcome reports, and whether the worker goes
/// on serving: a completed turn ends with its stop reason, a closed
/// connection ends the worker, and a failure is reported with its message.
pub fn prompt_event(outcome: PromptOutcome) -> (res: (AgentEvent, bool))
    ensures
        match outcome {
            PromptOutcome::Completed(reason) => res.0 == (AgentEvent::TurnEnded { stop_reason: reason }) && res.1,
            PromptOutcome::Closed => (res.0 matches AgentEvent::Exited { code, reason } && code is None
                && reason@ == "agent connection closed"@) && !res.1,
            PromptOutcome::Failed(message) => (res.0 matches AgentEvent::Failed { message: m } && m@ == message@)
                && res.1,
        },
{
    match outcome {
        PromptOutcome::Completed(reason) => (AgentEvent::TurnEnded { stop_reason: reason }, true),
        PromptOutcome::Closed => (AgentEvent::Exited { code: None, reason: owned("agent connection closed") }, false),
        PromptOutcome::Failed(message) => (AgentEvent::Failed { message }, true),
    }
}

/// How a prompt turn ended, from the agent's reply to `session/prompt`:
/// the stop reason it answered with, the closed connection, or the failed
/// request with its message.
pub fn prompt_outcome(reply: Result<String, ClientError>) -> (res: PromptOutcome)
    ensures
        match reply {
            Ok(stop) => res == PromptOutcome::Completed(stop_reason_of(stop@)),
            Err(ClientError::Closed) => res is Closed,
            Err(e) => res matches PromptOutcome::Failed(m) && m@ == e.spec_message(),
        },
{
    match reply {
        Ok(stop) => PromptOutcome::Completed(parse_stop_reason(stop.as_str())),
        Err(ClientError::Closed) => PromptOutcome::Closed,
        Err(error) => PromptOutcome::Failed(error.message()),
    }
}

/// The error a session reports when its worker has stopped.
pub fn worker_stopped() -> (res: AcpError)
    ensures
        res.0@ == "agent session worker stopped"@,
{
    AcpError::new("agent session worker stopped")
}

} // verus!
