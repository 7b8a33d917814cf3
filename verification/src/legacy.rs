//! The legacy command/event surface of agent connections, the fake agent's
//! connection on it, and how its events read as normalized session events.

use vstd::prelude::*;
use crate::agent_events::AgentEvent;
use crate::content::NormalizedContent;
use crate::fake::{edit_permission, FakeAgentConfig};
use crate::kinds::{AcpCommand, AcpError, DiagnosticLevel, MessageRole, PermissionRequest, ToolCallStatus};
use crate::normalize::{parse_stop_reason, stop_reason_of};
use crate::session_types::ToolCallUpdate;
use crate::text::{decimal_u64, owned, spec_decimal};

verus! {

/// The legacy normalized event model.
#[derive(Debug)]
pub enum AcpEvent {
    Message { role: MessageRole, text: String },
    ToolCall(ToolCallUpdate),
    PermissionRequest(PermissionRequest),
    Diagnostics { level: DiagnosticLevel, message: String },
    /// A finished prompt turn with its ACP stop reason.
    TurnEnded { stop_reason: String },
    Exited { code: Option<i32>, reason: String },
}

/// `e` is a legacy text message from `role`.
pub open spec fn legacy_message(e: AcpEvent, role: MessageRole, text: Seq<char>) -> bool {
    e matches AcpEvent::Message { role: r, text: t } && r == role && t@ == text
}

/// The legacy event `e` carries the tool call of the normalized event `n`.
pub open spec fn legacy_tool_call(e: AcpEvent, n: AgentEvent) -> bool {
    e matches AcpEvent::ToolCall(u) && n matches AgentEvent::ToolCall(v) && u == v
}

/// `n` is the normalized reading of the legacy event `e`: messages become
/// text content, a stop reason is read from its wire name, everything else
/// carries over.
pub open spec fn legacy_event_of(e: AcpEvent, n: AgentEvent) -> bool {
    match e {
        AcpEvent::Message { role, text } => n == (AgentEvent::Message { role, content: NormalizedContent::Text { text } }),
        AcpEvent::ToolCall(u) => n == AgentEvent::ToolCall(u),
        AcpEvent::PermissionRequest(r) => n == AgentEvent::PermissionRequest(r),
        AcpEvent::Diagnostics { level, message } => n == (AgentEvent::Diagnostics { level, message }),
        AcpEvent::TurnEnded { stop_reason } => n == (AgentEvent::TurnEnded { stop_reason: stop_reason_of(stop_reason@) }),
        AcpEvent::Exited { code, reason } => n == (AgentEvent::Exited { code, reason }),
    }
}

/// Reads a legacy event as a normalized one; a permission request becomes
/// the pending one.
pub fn normalize_legacy_event(pending_permission_id: &mut Option<String>, event: AcpEvent) -> (res: AgentEvent)
    ensures
        legacy_event_of(event, res),
        event matches AcpEvent::PermissionRequest(r) ==> *final(pending_permission_id) == Some(r.permission_id),
        !(event is PermissionRequest) ==> *final(pending_permission_id) == *old(pending_permission_id),
{
    match event {
        AcpEvent::Message { role, text } => AgentEvent::Message { role, content: NormalizedContent::Text { text } },
        AcpEvent::ToolCall(update) => AgentEvent::ToolCall(update),
        AcpEvent::PermissionRequest(request) => {
            *pending_permission_id = Some(request.permission_id.clone());
            AgentEvent::PermissionRequest(request)
        },
        AcpEvent::Diagnostics { level, message } => AgentEvent::Diagnostics { level, message },
        AcpEvent::TurnEnded { stop_reason } => AgentEvent::TurnEnded { stop_reason: parse_stop_reason(stop_reason.as_str()) },
        AcpEvent::Exited { code, reason } => AgentEvent::Exited { code, reason },
    }
}

/// The fake agent on the legacy surface.
#[derive(Debug)]
pub struct FakeAgentConnection {
    pub config: FakeAgentConfig,
    /// Events not yet received, oldest first.
    pub queue: Vec<AcpEvent>,
    pub running: bool,
    pub prompt_count: u64,
}

fn numbered(prefix: &str, n: u64) -> (res: String)
    ensures
        res@ == prefix@ + spec_decimal(n as nat),
{
    let mut s = owned(prefix);
    let digits = decimal_u64(n);
    s.append(digits.as_str());
    s
}

/// `u` is update `status` of the editing tool call of prompt `n`: titled
/// `edit_file`, of kind `edit`, with no content, locations or raw values.
pub open spec fn legacy_edit_call(u: ToolCallUpdate, n: nat, status: ToolCallStatus) -> bool {
    &&& u.tool_call_id@ == crate::fake::tool_id(n)
    &&& u.title@ == "edit_file"@
    &&& u.kind matches Some(k) && k@ == "edit"@
    &&& u.status == status
    &&& u.content@.len() == 0
    &&& u.locations@.len() == 0
    &&& u.raw_input is None
    &&& u.raw_output is None
}

fn edit_call(n: u64, status: ToolCallStatus, detail: Option<String>) -> (res: ToolCallUpdate)
    ensures
        legacy_edit_call(res, n as nat, status),
        res.detail == detail,
{
    ToolCallUpdate {
        tool_call_id: numbered("tool-", n),
        title: owned("edit_file"),
        kind: Some(owned("edit")),
        status,
        detail,
        content: Vec::new(),
        locations: Vec::new(),
        raw_input: None,
        raw_output: None,
    }
}

impl FakeAgentConnection {
    pub fn new(config: FakeAgentConfig) -> (res: Self)
        ensures
            res.config == config,
            res.queue@.len() == 0,
            res.running,
            res.prompt_count == 0,
    {
        FakeAgentConnection { config, queue: Vec::new(), running: true, prompt_count: 0 }
    }

    /// Handles a command. A prompt fails and exits on a failing agent, or is
    /// echoed and starts an editing tool call that asks for permission or
    /// completes; a cancel is acknowledged (and exits when configured); a
    /// permission answer completes the tool call with the permission and
    /// option as its detail.
    pub fn send(&mut self, command: AcpCommand) -> (res: Result<(), AcpError>)
        requires
            old(self).prompt_count < u64::MAX,
        ensures
            res is Ok,
            final(self).config == old(self).config,
            final(self).queue@.take(old(self).queue@.len() as int) == old(self).queue@,
            match command {
                AcpCommand::Prompt { text } => {
                    let q = final(self).queue@;
                    let o = old(self).queue@.len() as int;
                    let n = final(self).prompt_count as nat;
                    &&& final(self).prompt_count == old(self).prompt_count + 1
                    &&& old(self).config.fail_on_prompt ==> {
                        &&& q.len() == o + 2
                        &&& q[o] matches AcpEvent::Diagnostics { level, message } && level == DiagnosticLevel::Error
                            && message@ == "fake agent failed to handle prompt"@
                        &&& q[o + 1] matches AcpEvent::Exited { code, reason } && code == Some(1i32)
                            && reason@ == "prompt_failure"@
                        &&& !final(self).running
                    }
                    &&& !old(self).config.fail_on_prompt ==> {
                        &&& q.len() == o + 3
                        &&& legacy_message(q[o], MessageRole::Assistant, "echo: "@ + text@)
                        &&& q[o + 1] matches AcpEvent::ToolCall(u) && legacy_edit_call(u, n, ToolCallStatus::InProgress)
                            && (u.detail matches Some(d) && d@ == "src/main.rs"@)
                        &&& old(self).config.request_permission ==> (q[o + 2] matches AcpEvent::PermissionRequest(r)
                            && edit_permission(r, n))
                        &&& !old(self).config.request_permission ==> (q[o + 2] matches AcpEvent::ToolCall(u)
                            && legacy_edit_call(u, n, ToolCallStatus::Completed) && u.detail is None)
                        &&& final(self).running == old(self).running
                    }
                },
                AcpCommand::Cancel => {
                    &&& final(self).prompt_count == old(self).prompt_count
                    &&& legacy_message(final(self).queue@[old(self).queue@.len() as int], MessageRole::System, "cancelled"@)
                    &&& old(self).config.exit_on_cancel ==> final(self).queue@.len() == old(self).queue@.len() + 2
                        && (final(self).queue@[old(self).queue@.len() + 1int] matches AcpEvent::Exited { code, reason }
                            && code is None && reason@ == "cancelled"@)
                        && !final(self).running
                    &&& !old(self).config.exit_on_cancel ==> final(self).queue@.len() == old(self).queue@.len() + 1
                        && final(self).running == old(self).running
                },
                AcpCommand::RespondPermission { permission_id, option_id } => {
                    let q = final(self).queue@;
                    let o = old(self).queue@.len() as int;
                    &&& final(self).prompt_count == old(self).prompt_count
                    &&& q.len() == o + 2
                    &&& q[o] matches AcpEvent::ToolCall(u)
                        && legacy_edit_call(u, old(self).prompt_count as nat, ToolCallStatus::Completed)
                        && (u.detail matches Some(d) && d@ == permission_id@ + ":"@ + option_id@)
                    &&& legacy_message(q[o + 1], MessageRole::Assistant, "done"@)
                    &&& final(self).running == old(self).running
                },
            },
    {
        let ghost before = self.queue@;
        match command {
            AcpCommand::Prompt { text } => {
                self.prompt_count = self.prompt_count + 1;
                let n = self.prompt_count;
                if self.config.fail_on_prompt {
                    self.queue.push(AcpEvent::Diagnostics {
                        level: DiagnosticLevel::Error,
                        message: owned("fake agent failed to handle prompt"),
                    });
                    self.queue.push(AcpEvent::Exited { code: Some(1), reason: owned("prompt_failure") });
                    self.running = false;
                } else {
                    self.queue.push(AcpEvent::Message {
                        role: MessageRole::Assistant,
                        text: crate::text::concat2("echo: ", text.as_str()),
                    });
                    self.queue.push(AcpEvent::ToolCall(edit_call(n, ToolCallStatus::InProgress, Some(owned("src/main.rs")))));
                    if self.config.request_permission {
                        self.queue.push(AcpEvent::PermissionRequest(crate::fake::edit_permission_request(n)));
                    } else {
                        self.queue.push(AcpEvent::ToolCall(edit_call(n, ToolCallStatus::Completed, None)));
                    }
                }
            },
            AcpCommand::Cancel => {
                self.queue.push(AcpEvent::Message { role: MessageRole::System, text: owned("cancelled") });
                if self.config.exit_on_cancel {
                    self.queue.push(AcpEvent::Exited { code: None, reason: owned("cancelled") });
                    self.running = false;
                }
            },
            AcpCommand::RespondPermission { permission_id, option_id } => {
                let mut detail = permission_id;
                detail.append(":");
                detail.append(option_id.as_str());
                self.queue.push(AcpEvent::ToolCall(edit_call(self.prompt_count, ToolCallStatus::Completed, Some(detail))));
                self.queue.push(AcpEvent::Message { role: MessageRole::Assistant, text: owned("done") });
            },
        }
        proof {
            assert(self.queue@.take(before.len() as int) =~= before);
        }
        Ok(())
    }

    /// Hands out the pending events, oldest first, and forgets them.
    pub fn try_recv(&mut self) -> (res: Result<Vec<AcpEvent>, AcpError>)
        ensures
            res matches Ok(events) && events@ == old(self).queue@,
            final(self).queue@.len() == 0,
            final(self).running == old(self).running,
            final(self).prompt_count == old(self).prompt_count,
            final(self).config == old(self).config,
    {
        let mut out: Vec<AcpEvent> = Vec::new();
        std::mem::swap(&mut out, &mut self.queue);
        Ok(out)
    }

    pub fn is_running(&self) -> (res: bool)
        ensures
            res == self.running,
    {
        self.running
    }
}

} // verus!
