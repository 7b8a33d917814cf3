//! The state of one session on the host, without its agent connection, and
//! the transitions the host makes on it: journaling events, recording
//! prompts, permissions, cancellation, renames and archiving, and folding the
//! agent's normalized events into the journal.
//!
//! The record carries, as ghost state, every event it has ever journaled; the
//! retained journal is always the newest `journal_limit` of them.

use vstd::prelude::*;
use std::collections::VecDeque;
use std::sync::Arc;
use crate::agent_events::{stop_reason_debug, stop_reason_name, AgentEvent, StopReason};
use crate::content::spec_text_fallback;
use crate::journal::{
    events_after, history_has_more, history_page, increasing, keep_last, oldest, oldest_sequence,
    page, replay_after, resync_needed, resync_required,
};
use crate::kinds::{AgentDescriptor, DiagnosticLevel, MessageRole, PermissionOption};
use crate::metadata::{AcpConfigOption, AcpModeState};
use crate::session_types::{
    block_of, plain_block, CommandsPayload, ConfigOptionsPayload, ContentBlock, ContentKind,
    DiagnosticsPayload, ExitPayload, MessagePayload, ModePayload, PermissionRequestPayload,
    PermissionResolvedPayload, PlanPayload, SequencedEvent, SessionError, SessionEvent,
    SessionInfoPayload, SessionStatus, SessionSummary, SnapshotPayload, StatusPayload,
    ToolCallContentPayload, ToolCallLocationPayload, ToolCallPayload, TurnEndedPayload,
    UsagePayload,
};
use crate::text::{concat2, owned, spec_trim, trim};

verus! {

/// The host-side state of one live session.
pub struct SessionRecord {
    pub summary: SessionSummary,
    pub descriptor: AgentDescriptor,
    /// The agent-side session id this product session is bound to.
    pub agent_session_id: Option<String>,
    pub modes: Option<AcpModeState>,
    pub config_options: Vec<AcpConfigOption>,
    /// The retained events, oldest first.
    pub journal: VecDeque<SequencedEvent>,
    pub journal_limit: usize,
    pub pending_permission: Option<PermissionRequestPayload>,
    pub running: bool,
    pub exit_reported: bool,
    pub reasoning_started_at_ms: Option<i64>,
    pub reasoning_ended_at_ms: Option<i64>,
    /// Every event this record has journaled, oldest first.
    pub history: Ghost<Seq<SequencedEvent>>,
}

/// The permission requests `a` and `b` carry the same fields.
pub open spec fn same_permission(a: PermissionRequestPayload, b: PermissionRequestPayload) -> bool {
    a.id == b.id && a.title == b.title && a.detail == b.detail && a.tool_call_id == b.tool_call_id
        && a.options@ == b.options@
}

/// `e` is a status change to `status`.
pub open spec fn is_status(e: SequencedEvent, status: SessionStatus) -> bool {
    *e.event matches SessionEvent::Status(p) && p.status == status
}

/// `e` is a diagnostic at `level` whose message reads `message`.
pub open spec fn is_diagnostic(e: SequencedEvent, level: DiagnosticLevel, message: Seq<char>) -> bool {
    *e.event matches SessionEvent::Diagnostics(p) && p.level == level && p.message@ == message
}

/// `e` is the user's prompt `text`, as one text block.
pub open spec fn is_user_message(e: SequencedEvent, text: Seq<char>) -> bool {
    *e.event matches SessionEvent::Message(p) && p.role == MessageRole::User && p.text@ == text
        && p.blocks.len() == 1 && plain_block(p.blocks[0], ContentKind::Text, text)
}

/// `e` reports a mode switch to `mode_id`.
pub open spec fn is_mode(e: SequencedEvent, mode_id: Seq<char>) -> bool {
    *e.event matches SessionEvent::Mode(p) && p.current_mode_id@ == mode_id
}

/// `e` resolves permission `id` with option `option_id`.
pub open spec fn is_resolved(e: SequencedEvent, id: String, option_id: Seq<char>) -> bool {
    *e.event matches SessionEvent::PermissionResolved(p) && p.id == id && p.option_id@ == option_id
}

/// `e` reports an exit with `code` and a reason reading `reason`.
pub open spec fn is_exit(e: SequencedEvent, code: Option<i32>, reason: Seq<char>) -> bool {
    *e.event matches SessionEvent::Exit(p) && p.code == code && p.reason@ == reason
}

impl SessionRecord {
    /// The record invariant: the ghost history increases and stays at or
    /// below the latest sequence, and the journal is its newest
    /// `journal_limit` events.
    pub open spec fn wf(self) -> bool {
        &&& increasing(self.history@)
        &&& forall|a: int| 0 <= a < self.history@.len() ==> #[trigger] self.history@[a].sequence <= self.summary.last_sequence
        &&& self.journal@ == keep_last(self.history@, self.journal_limit as nat)
    }

    /// Nothing but the journal, the history and the journal bookkeeping of
    /// the summary differs between `self` and `other`.
    pub open spec fn same_except_journal(self, other: Self) -> bool {
        &&& self.summary.id == other.summary.id
        &&& self.summary.title == other.summary.title
        &&& self.summary.agent == other.summary.agent
        &&& self.summary.model == other.summary.model
        &&& self.summary.effort == other.summary.effort
        &&& self.summary.working_directory_label == other.summary.working_directory_label
        &&& self.summary.git_branch == other.summary.git_branch
        &&& self.summary.created_at_ms == other.summary.created_at_ms
        &&& self.summary.recovery == other.summary.recovery
        &&& self.summary.archived == other.summary.archived
        &&& self.descriptor == other.descriptor
        &&& self.agent_session_id == other.agent_session_id
        &&& self.modes == other.modes
        &&& self.config_options == other.config_options
        &&& self.journal_limit == other.journal_limit
        &&& self.pending_permission == other.pending_permission
        &&& self.running == other.running
        &&& self.exit_reported == other.exit_reported
        &&& self.reasoning_started_at_ms == other.reasoning_started_at_ms
        &&& self.reasoning_ended_at_ms == other.reasoning_ended_at_ms
    }

    /// The session's identity and settings are those of `other`.
    pub open spec fn keeps_identity(self, other: Self) -> bool {
        &&& self.summary.id == other.summary.id
        &&& self.summary.agent == other.summary.agent
        &&& self.summary.model == other.summary.model
        &&& self.summary.effort == other.summary.effort
        &&& self.summary.working_directory_label == other.summary.working_directory_label
        &&& self.summary.git_branch == other.summary.git_branch
        &&& self.summary.created_at_ms == other.summary.created_at_ms
        &&& self.summary.recovery == other.summary.recovery
        &&& self.summary.archived == other.summary.archived
        &&& self.descriptor == other.descriptor
        &&& self.agent_session_id == other.agent_session_id
        &&& self.journal_limit == other.journal_limit
    }

    /// `new` is `old` after journaling `k` events at `now`: the history grew
    /// by `k` consecutively numbered events stamped `now`, and the summary's
    /// latest sequence and last activity follow.
    pub open spec fn journaled(old: Self, new: Self, k: nat, now: i64) -> bool {
        &&& new.history@.len() == old.history@.len() + k
        &&& new.history@.take(old.history@.len() as int) == old.history@
        &&& forall|i: int| 0 <= i < k ==> {
            &&& #[trigger] new.history@[old.history@.len() + i].sequence == old.summary.last_sequence + 1 + i
            &&& new.history@[old.history@.len() + i].timestamp_ms == now
        }
        &&& new.summary.last_sequence == old.summary.last_sequence + k
        &&& (k > 0 ==> new.summary.last_activity_at_ms == now)
        &&& (k == 0 ==> new.summary.last_activity_at_ms == old.summary.last_activity_at_ms)
    }

    /// The `i`-th event journaled by a transition from `old` to `self`.
    pub open spec fn added(self, old: Self, i: int) -> SequencedEvent {
        self.history@[old.history@.len() + i]
    }

    /// A fresh live session with an empty journal.
    pub fn new_live(
        summary: SessionSummary,
        descriptor: AgentDescriptor,
        agent_session_id: Option<String>,
        modes: Option<AcpModeState>,
        config_options: Vec<AcpConfigOption>,
        journal_limit: usize,
    ) -> (res: Self)
        ensures
            res.wf(),
            res.summary == summary,
            res.descriptor == descriptor,
            res.agent_session_id == agent_session_id,
            res.modes == modes,
            res.config_options == config_options,
            res.journal_limit == journal_limit,
            res.journal@.len() == 0,
            res.history@.len() == 0,
            res.pending_permission is None,
            res.running,
            !res.exit_reported,
            res.reasoning_started_at_ms is None,
            res.reasoning_ended_at_ms is None,
    {
        SessionRecord {
            summary,
            descriptor,
            agent_session_id,
            modes,
            config_options,
            journal: VecDeque::new(),
            journal_limit,
            pending_permission: None,
            running: true,
            exit_reported: false,
            reasoning_started_at_ms: None,
            reasoning_ended_at_ms: None,
            history: Ghost(Seq::empty()),
        }
    }

    /// A live session rehydrated with a journal restored from storage.
    pub fn rehydrated(
        summary: SessionSummary,
        descriptor: AgentDescriptor,
        agent_session_id: Option<String>,
        modes: Option<AcpModeState>,
        config_options: Vec<AcpConfigOption>,
        journal: VecDeque<SequencedEvent>,
        journal_limit: usize,
    ) -> (res: Self)
        requires
            increasing(journal@),
            forall|a: int| 0 <= a < journal@.len() ==> #[trigger] journal@[a].sequence <= summary.last_sequence,
            journal@.len() <= journal_limit,
        ensures
            res.wf(),
            res.summary == summary,
            res.journal@ == journal@,
            res.history@ == journal@,
            res.descriptor == descriptor,
            res.agent_session_id == agent_session_id,
            res.modes == modes,
            res.config_options == config_options,
            res.journal_limit == journal_limit,
            res.pending_permission is None,
            res.running,
            !res.exit_reported,
    {
        let ghost h = journal@;
        SessionRecord {
            summary,
            descriptor,
            agent_session_id,
            modes,
            config_options,
            journal,
            journal_limit,
            pending_permission: None,
            running: true,
            exit_reported: false,
            reasoning_started_at_ms: None,
            reasoning_ended_at_ms: None,
            history: Ghost(h),
        }
    }

    /// Journals one event: it takes the next sequence number, stamps the
    /// session's last activity, and a status event sets the session status.
    pub fn append(&mut self, event: SessionEvent, now: i64)
        requires
            old(self).wf(),
            old(self).summary.last_sequence < u64::MAX,
        ensures
            final(self).wf(),
            final(self).same_except_journal(*old(self)),
            Self::journaled(*old(self), *final(self), 1, now),
            *final(self).added(*old(self), 0).event == event,
            final(self).summary.status == (match event {
                SessionEvent::Status(p) => p.status,
                _ => old(self).summary.status,
            }),
    {
        let ghost old_self = *self;
        self.summary.last_sequence = self.summary.last_sequence + 1;
        self.summary.last_activity_at_ms = now;
        if let SessionEvent::Status(payload) = &event {
            self.summary.status = payload.status;
        }
        let sequenced = SequencedEvent {
            sequence: self.summary.last_sequence,
            timestamp_ms: now,
            event: Arc::new(event),
        };
        let ghost e = sequenced;
        crate::journal::push_bounded(&mut self.journal, sequenced, self.journal_limit);
        proof {
            lemma_keep_last_push(old_self.history@, e, self.journal_limit as nat);
            self.history = Ghost(old_self.history@.push(e));
            assert(self.history@.take(old_self.history@.len() as int) =~= old_self.history@);
            assert forall|a: int, b: int| 0 <= a < b < self.history@.len() implies
                #[trigger] self.history@[a].sequence < #[trigger] self.history@[b].sequence by {
                if b < old_self.history@.len() {
                    assert(self.history@[a] == old_self.history@[a]);
                    assert(self.history@[b] == old_self.history@[b]);
                } else {
                    assert(self.history@[a] == old_self.history@[a]);
                }
            }
            assert forall|a: int| 0 <= a < self.history@.len() implies
                #[trigger] self.history@[a].sequence <= self.summary.last_sequence by {
                if a < old_self.history@.len() {
                    assert(self.history@[a] == old_self.history@[a]);
                }
            }
        }
    }

    /// Whether a prompt may be sent: a session whose agent has exited
    /// refuses prompts.
    pub fn prompt_allowed(&self) -> (res: Result<(), SessionError>)
        ensures
            res is Ok <==> self.running,
            res matches Err(e) ==> e matches SessionError::NotRunning(id) && id == self.summary.id,
    {
        if self.running {
            Ok(())
        } else {
            Err(SessionError::NotRunning(self.summary.id.clone()))
        }
    }

    /// Records a prompt the agent accepted: the user message is journaled,
    /// then the session is working. Reasoning timing restarts.
    pub fn record_prompt(&mut self, text: &str, now: i64)
        requires
            old(self).wf(),
            old(self).summary.last_sequence + 2 <= u64::MAX,
        ensures
            final(self).keeps_identity(*old(self)),
            final(self).wf(),
            Self::journaled(*old(self), *final(self), 2, now),
            is_user_message(final(self).added(*old(self), 0), text@),
            is_status(final(self).added(*old(self), 1), SessionStatus::Working),
            final(self).summary.status == SessionStatus::Working,
            final(self).reasoning_started_at_ms is None,
            final(self).reasoning_ended_at_ms is None,
            final(self).pending_permission == old(self).pending_permission,
            final(self).running == old(self).running,
            final(self).summary.title == old(self).summary.title,
    {
        self.reasoning_started_at_ms = None;
        self.reasoning_ended_at_ms = None;
        let ghost s0 = *self;
        let mut blocks: Vec<ContentBlock> = Vec::new();
        blocks.push(ContentBlock::text(text));
        self.append(SessionEvent::Message(MessagePayload { role: MessageRole::User, text: owned(text), blocks }), now);
        let ghost s1 = *self;
        self.append(SessionEvent::Status(StatusPayload { status: SessionStatus::Working }), now);
        proof { lemma_journaled_chain(s0, s1, *self, 1, 1, now); }
    }

    /// Records that the agent switched to `mode_id` (on request or on its own).
    pub fn record_mode(&mut self, mode_id: &str, now: i64)
        requires
            old(self).wf(),
            old(self).summary.last_sequence < u64::MAX,
        ensures
            final(self).keeps_identity(*old(self)),
            final(self).wf(),
            Self::journaled(*old(self), *final(self), 1, now),
            is_mode(final(self).added(*old(self), 0), mode_id@),
            match (old(self).modes, final(self).modes) {
                (Some(o), Some(n)) => n.current_mode_id@ == mode_id@ && n.available_modes == o.available_modes,
                (None, None) => true,
                _ => false,
            },
            final(self).summary.status == old(self).summary.status,
            final(self).pending_permission == old(self).pending_permission,
    {
        if let Some(modes) = &mut self.modes {
            modes.current_mode_id = owned(mode_id);
        }
        self.append(SessionEvent::Mode(ModePayload { current_mode_id: owned(mode_id) }), now);
    }

    /// Records the agent's replacement set of configuration options.
    pub fn record_config_options(&mut self, options: Vec<AcpConfigOption>, now: i64)
        requires
            old(self).wf(),
            old(self).summary.last_sequence < u64::MAX,
        ensures
            final(self).keeps_identity(*old(self)),
            final(self).wf(),
            Self::journaled(*old(self), *final(self), 1, now),
            final(self).config_options == options,
            *final(self).added(*old(self), 0).event matches SessionEvent::ConfigOptions(p)
                && p.options.len() == options.len(),
            final(self).summary.status == old(self).summary.status,
    {
        let copy = options.clone();
        self.config_options = options;
        self.append(SessionEvent::ConfigOptions(ConfigOptionsPayload { options: copy }), now);
    }

    /// Records a cancellation the agent accepted: any pending permission is
    /// dropped, a diagnostic says so, and the session is idle.
    pub fn record_cancel(&mut self, now: i64)
        requires
            old(self).wf(),
            old(self).summary.last_sequence + 2 <= u64::MAX,
        ensures
            final(self).keeps_identity(*old(self)),
            final(self).wf(),
            Self::journaled(*old(self), *final(self), 2, now),
            is_diagnostic(final(self).added(*old(self), 0), DiagnosticLevel::Info, "cancellation requested"@),
            is_status(final(self).added(*old(self), 1), SessionStatus::Idle),
            final(self).pending_permission is None,
            final(self).summary.status == SessionStatus::Idle,
            final(self).running == old(self).running,
    {
        self.pending_permission = None;
        let ghost s0 = *self;
        self.append(SessionEvent::Diagnostics(DiagnosticsPayload {
            level: DiagnosticLevel::Info,
            message: owned("cancellation requested"),
        }), now);
        let ghost s1 = *self;
        self.append(SessionEvent::Status(StatusPayload { status: SessionStatus::Idle }), now);
        proof { lemma_journaled_chain(s0, s1, *self, 1, 1, now); }
    }

    /// Checks an answer to the pending permission request before it is sent
    /// to the agent.
    pub fn check_permission(&self, permission_id: &str) -> (res: Result<(), SessionError>)
        ensures
            res is Ok <==> (self.pending_permission matches Some(p) && p.id@ == permission_id@),
            self.pending_permission is None ==> res == Err::<(), SessionError>(SessionError::NoPendingPermission(self.summary.id)),
            self.pending_permission is Some && self.pending_permission.unwrap().id@ != permission_id@ ==>
                (res matches Err(SessionError::PermissionMismatch { session_id, expected, actual })
                && session_id == self.summary.id && expected == self.pending_permission.unwrap().id
                && actual@ == permission_id@),
    {
        match &self.pending_permission {
            None => Err(SessionError::NoPendingPermission(self.summary.id.clone())),
            Some(pending) => {
                if crate::text::str_equal(pending.id.as_str(), permission_id) {
                    Ok(())
                } else {
                    Err(SessionError::PermissionMismatch {
                        session_id: self.summary.id.clone(),
                        expected: pending.id.clone(),
                        actual: owned(permission_id),
                    })
                }
            },
        }
    }

    /// Records an answer the agent accepted: the pending request is resolved
    /// with `option_id` and the session is working again.
    pub fn record_permission_resolved(&mut self, option_id: &str, now: i64)
        requires
            old(self).wf(),
            old(self).summary.last_sequence + 2 <= u64::MAX,
            old(self).pending_permission is Some,
        ensures
            final(self).keeps_identity(*old(self)),
            final(self).wf(),
            Self::journaled(*old(self), *final(self), 2, now),
            is_resolved(final(self).added(*old(self), 0), old(self).pending_permission.unwrap().id, option_id@),
            is_status(final(self).added(*old(self), 1), SessionStatus::Working),
            final(self).pending_permission is None,
            final(self).summary.status == SessionStatus::Working,
    {
        let pending = self.pending_permission.take();
        let pending_id = match pending {
            Some(p) => p.id,
            None => String::new(),
        };
        let ghost s0 = *self;
        self.append(SessionEvent::PermissionResolved(PermissionResolvedPayload {
            id: pending_id,
            option_id: owned(option_id),
        }), now);
        let ghost s1 = *self;
        self.append(SessionEvent::Status(StatusPayload { status: SessionStatus::Working }), now);
        proof { lemma_journaled_chain(s0, s1, *self, 1, 1, now); }
    }

    /// Renames the session to `title` without surrounding white space; an
    /// empty title is refused. The rename is journaled as a snapshot of the
    /// renamed summary and the pending permission.
    pub fn rename(&mut self, title: &str, now: i64) -> (res: Result<SessionSummary, SessionError>)
        requires
            old(self).wf(),
            old(self).summary.last_sequence < u64::MAX,
        ensures
            final(self).wf(),
            spec_trim(title@).len() == 0 ==> res == Err::<SessionSummary, SessionError>(SessionError::EmptyTitle) && *final(self) == *old(self),
            spec_trim(title@).len() > 0 ==> {
                &&& res == Ok::<SessionSummary, SessionError>(final(self).summary)
                &&& final(self).summary.title@ == spec_trim(title@)
                &&& Self::journaled(*old(self), *final(self), 1, now)
                &&& *final(self).added(*old(self), 0).event matches SessionEvent::Snapshot(p) && {
                    &&& p.summary.title@ == spec_trim(title@)
                    &&& p.summary.last_sequence == old(self).summary.last_sequence
                    &&& p.summary.id == old(self).summary.id
                    &&& p.summary.status == old(self).summary.status
                    &&& match (p.pending_permission, old(self).pending_permission) {
                        (Some(a), Some(b)) => same_permission(a, b),
                        (None, None) => true,
                        _ => false,
                    }
                }
                &&& final(self).summary.status == old(self).summary.status
                &&& final(self).pending_permission == old(self).pending_permission
                &&& final(self).summary.archived == old(self).summary.archived
            },
    {
        let trimmed = trim(title);
        if trimmed.unicode_len() == 0 {
            return Err(SessionError::EmptyTitle);
        }
        self.summary.title = owned(trimmed);
        let snapshot = SnapshotPayload {
            summary: self.summary.duplicate(),
            pending_permission: match &self.pending_permission {
                Some(p) => Some(duplicate_permission(p)),
                None => None,
            },
        };
        self.append(SessionEvent::Snapshot(snapshot), now);
        Ok(self.summary.duplicate())
    }

    /// Marks the session archived (or not) and returns its summary.
    pub fn archive(&mut self, archived: bool) -> (res: SessionSummary)
        ensures
            final(self).summary.archived == archived,
            final(self).summary == (SessionSummary { archived, ..old(self).summary }),
            res == final(self).summary,
            final(self).journal@ == old(self).journal@,
            final(self).history == old(self).history,
            final(self).pending_permission == old(self).pending_permission,
    {
        self.summary.archived = archived;
        self.summary.duplicate()
    }

    /// Everything a client attaching after `after_sequence` needs: the
    /// retained events after its cursor (after 0 when absent), the latest
    /// sequence, the oldest retained sequence, and whether the client missed
    /// events that are no longer retained.
    pub fn attach(&self, after_sequence: Option<u64>) -> (res: AttachResult)
        ensures
            res.summary == self.summary,
            res.replayed@ == events_after(self.journal@, match after_sequence { Some(a) => a as int, None => 0 }),
            res.latest_sequence == self.summary.last_sequence,
            res.oldest_available_sequence == oldest_sequence(self.journal@),
            res.resync_required == resync_needed(after_sequence, oldest_sequence(self.journal@)),
    {
        attach_journal(&self.summary, &self.journal, after_sequence)
    }

    /// One page of history before `before_sequence`, newest events last, of
    /// at most `limit` (clamped to 1..=200) events.
    pub fn history(&self, before_sequence: Option<u64>, limit: usize) -> (res: HistoryResult)
        ensures
            res.summary == self.summary,
            res.events@ == history_page(self.journal@, before_sequence, limit, 200),
            res.latest_sequence == self.summary.last_sequence,
            res.oldest_available_sequence == oldest_sequence(self.journal@),
            res.has_more == history_has_more(self.journal@, before_sequence, limit, 200),
    {
        history_journal(&self.summary, &self.journal, before_sequence, limit, 200)
    }

    /// Reports an agent exit that was not reported yet: the session stops
    /// running and journals the exit and its `exited` status. An exit already
    /// reported is left as it is.
    pub fn ensure_exited(&mut self, now: i64)
        requires
            old(self).wf(),
            old(self).summary.last_sequence + 2 <= u64::MAX,
        ensures
            final(self).keeps_identity(*old(self)),
            final(self).wf(),
            old(self).exit_reported ==> *final(self) == *old(self),
            !old(self).exit_reported ==> {
                &&& Self::journaled(*old(self), *final(self), 2, now)
                &&& is_exit(final(self).added(*old(self), 0), None, "agent_exited"@)
                &&& is_status(final(self).added(*old(self), 1), SessionStatus::Exited)
                &&& !final(self).running
                &&& final(self).exit_reported
                &&& final(self).summary.status == SessionStatus::Exited
            },
    {
        if self.exit_reported {
            return;
        }
        self.running = false;
        self.exit_reported = true;
        let ghost s0 = *self;
        self.append(SessionEvent::Exit(ExitPayload { code: None, reason: owned("agent_exited") }), now);
        let ghost s1 = *self;
        self.append(SessionEvent::Status(StatusPayload { status: SessionStatus::Exited }), now);
        proof { lemma_journaled_chain(s0, s1, *self, 1, 1, now); }
    }
}

/// The block journaled for a thought: text becomes reasoning, any other
/// content is flattened as usual.
pub open spec fn thought_block_of(c: crate::content::NormalizedContent, b: ContentBlock) -> bool {
    match c {
        crate::content::NormalizedContent::Text { text } => plain_block(b, ContentKind::Reasoning, text@),
        _ => block_of(c, b),
    }
}

/// `p` is the payload of the permission request `r`.
pub open spec fn permission_payload_of(r: crate::kinds::PermissionRequest, p: PermissionRequestPayload) -> bool {
    p.id == r.permission_id && p.title == r.title && p.detail == r.detail
        && p.tool_call_id == r.tool_call_id && p.options@ == r.options@
}

/// The first element of an optional optional value, flattened.
pub open spec fn flatten(o: Option<Option<String>>) -> Option<String> {
    match o {
        Some(Some(v)) => Some(v),
        _ => None,
    }
}

/// What folding the agent event `event` into the session at `now` does.
pub open spec fn agent_event_applied(old: SessionRecord, new: SessionRecord, event: AgentEvent, now: i64) -> bool {
    &&& new.wf()
    &&& new.keeps_identity(old)
    &&& match event {
        AgentEvent::Message { role, content } => {
            &&& SessionRecord::journaled(old, new, 1, now)
            &&& *new.added(old, 0).event matches SessionEvent::Message(p) && p.role == role
                && p.text@ == spec_text_fallback(content) && p.blocks.len() == 1 && block_of(content, p.blocks[0])
            &&& new.summary.status == old.summary.status
            &&& new.pending_permission == old.pending_permission
            &&& new.running == old.running
        },
        AgentEvent::Thought { content } => {
            &&& SessionRecord::journaled(old, new, 1, now)
            &&& *new.added(old, 0).event matches SessionEvent::Message(p) && p.role == MessageRole::Assistant
                && p.text@ == spec_text_fallback(content) && p.blocks.len() == 1 && thought_block_of(content, p.blocks[0])
            &&& new.reasoning_started_at_ms == (match old.reasoning_started_at_ms { Some(t) => Some(t), None => Some(now) })
            &&& new.reasoning_ended_at_ms == Some(now)
            &&& new.summary.status == old.summary.status
            &&& new.pending_permission == old.pending_permission
        },
        AgentEvent::ToolCall(u) => {
            &&& SessionRecord::journaled(old, new, 1, now)
            &&& *new.added(old, 0).event matches SessionEvent::ToolCall(p) && {
                &&& p.id == u.tool_call_id && p.title == u.title && p.kind == u.kind
                &&& p.status == u.status && p.detail == u.detail
                &&& p.raw_input == u.raw_input && p.raw_output == u.raw_output
                &&& p.content.len() == u.content.len()
                &&& (forall|i: int| 0 <= i < p.content.len() ==>
                    crate::session_types::tool_payload_of(#[trigger] u.content[i], p.content[i]))
                &&& p.locations.len() == u.locations.len()
                &&& (forall|i: int| 0 <= i < p.locations.len() ==>
                    (#[trigger] p.locations[i]).path == u.locations[i].path && p.locations[i].line == u.locations[i].line)
            }
            &&& new.summary.status == old.summary.status
            &&& new.pending_permission == old.pending_permission
        },
        AgentEvent::Plan(plan) => {
            &&& SessionRecord::journaled(old, new, 1, now)
            &&& *new.added(old, 0).event == SessionEvent::Plan(PlanPayload { entries: plan.entries })
            &&& new.summary.status == old.summary.status
        },
        AgentEvent::AvailableCommands(commands) => {
            &&& SessionRecord::journaled(old, new, 1, now)
            &&& *new.added(old, 0).event == SessionEvent::Commands(CommandsPayload { commands })
            &&& new.summary.status == old.summary.status
        },
        AgentEvent::ConfigOptions(options) => {
            &&& SessionRecord::journaled(old, new, 1, now)
            &&& new.config_options == options
            &&& *new.added(old, 0).event matches SessionEvent::ConfigOptions(p) && p.options.len() == options.len()
            &&& new.summary.status == old.summary.status
        },
        AgentEvent::SessionInfo(update) => {
            &&& SessionRecord::journaled(old, new, 1, now)
            &&& *new.added(old, 0).event == SessionEvent::SessionInfo(SessionInfoPayload {
                title: flatten(update.title),
                updated_at: flatten(update.updated_at),
            })
            &&& new.summary.title == (match flatten(update.title) {
                Some(t) => if spec_trim(t@).len() > 0 { t } else { old.summary.title },
                None => old.summary.title,
            })
            &&& new.summary.status == old.summary.status
        },
        AgentEvent::Usage(usage) => {
            &&& SessionRecord::journaled(old, new, 1, now)
            &&& *new.added(old, 0).event == SessionEvent::Usage(UsagePayload { used: usage.used, size: usage.size, cost: usage.cost })
            &&& new.summary.status == old.summary.status
        },
        AgentEvent::Mode { current_mode_id } => {
            &&& SessionRecord::journaled(old, new, 1, now)
            &&& is_mode(new.added(old, 0), current_mode_id@)
            &&& match (old.modes, new.modes) {
                (Some(o), Some(n)) => n.current_mode_id == current_mode_id && n.available_modes == o.available_modes,
                (None, None) => true,
                _ => false,
            }
            &&& new.summary.status == old.summary.status
        },
        AgentEvent::PermissionRequest(request) => {
            &&& SessionRecord::journaled(old, new, 2, now)
            &&& *new.added(old, 0).event matches SessionEvent::PermissionRequest(p) && permission_payload_of(request, p)
            &&& is_status(new.added(old, 1), SessionStatus::WaitingPermission)
            &&& new.pending_permission matches Some(p) && permission_payload_of(request, p)
            &&& new.summary.status == SessionStatus::WaitingPermission
        },
        AgentEvent::Diagnostics { level, message } => {
            &&& SessionRecord::journaled(old, new, 1, now)
            &&& *new.added(old, 0).event == SessionEvent::Diagnostics(DiagnosticsPayload { level, message })
            &&& new.summary.status == old.summary.status
        },
        AgentEvent::TurnEnded { stop_reason } => {
            &&& SessionRecord::journaled(old, new, if stop_reason == StopReason::EndTurn { 2 } else { 3 }, now)
            &&& is_status(new.added(old, 0), SessionStatus::Idle)
            &&& *new.added(old, 1).event matches SessionEvent::TurnEnded(p)
                && p.stop_reason@ == stop_reason_name(stop_reason)
                && p.reasoning_started_at_ms == old.reasoning_started_at_ms
                && p.reasoning_ended_at_ms == old.reasoning_ended_at_ms
            &&& stop_reason != StopReason::EndTurn ==> is_diagnostic(new.added(old, 2), DiagnosticLevel::Info,
                "turn ended: "@ + stop_reason_debug(stop_reason))
            &&& new.reasoning_started_at_ms is None
            &&& new.reasoning_ended_at_ms is None
            &&& new.summary.status == SessionStatus::Idle
            &&& new.pending_permission == old.pending_permission
        },
        AgentEvent::Exited { code, reason } => {
            &&& SessionRecord::journaled(old, new, 2, now)
            &&& *new.added(old, 0).event == SessionEvent::Exit(ExitPayload { code, reason })
            &&& is_status(new.added(old, 1), SessionStatus::Exited)
            &&& !new.running
            &&& new.exit_reported
            &&& new.summary.status == SessionStatus::Exited
        },
        AgentEvent::Failed { message } => {
            &&& SessionRecord::journaled(old, new, 2, now)
            &&& *new.added(old, 0).event == SessionEvent::Diagnostics(DiagnosticsPayload { level: DiagnosticLevel::Error, message })
            &&& is_status(new.added(old, 1), SessionStatus::Failed)
            &&& new.summary.status == SessionStatus::Failed
            &&& new.running == old.running
        },
    }
}

impl SessionRecord {
    /// Folds one normalized agent event into the session's state and journal.
    #[verifier::spinoff_prover]
    #[verifier::rlimit(40)]
    pub fn apply_agent_event(&mut self, event: AgentEvent, now: i64)
        requires
            old(self).wf(),
            old(self).summary.last_sequence + 3 <= u64::MAX,
        ensures
            agent_event_applied(*old(self), *final(self), event, now),
    {
        let ghost s0 = *self;
        let ghost ev = event;
        match event {
            AgentEvent::Message { role, content } => {
                let payload = MessagePayload {
                    role,
                    text: content.text_fallback(),
                    blocks: one_block(ContentBlock::from_normalized(&content)),
                };
                self.append(SessionEvent::Message(payload), now);
                proof { assert(agent_event_applied(s0, *self, ev, now)); }
            },
            AgentEvent::Thought { content } => {
                if self.reasoning_started_at_ms.is_none() {
                    self.reasoning_started_at_ms = Some(now);
                }
                self.reasoning_ended_at_ms = Some(now);
                let mut block = ContentBlock::from_normalized(&content);
                if block.kind == ContentKind::Text {
                    block.kind = ContentKind::Reasoning;
                }
                let payload = MessagePayload {
                    role: MessageRole::Assistant,
                    text: content.text_fallback(),
                    blocks: one_block(block),
                };
                let ghost s1 = *self;
                let ghost pl = payload;
                self.append(SessionEvent::Message(payload), now);
                proof {
                    assert(SessionRecord::journaled(s0, *self, 1, now));
                    assert(thought_block_of(content, pl.blocks[0]));
                    assert(self.keeps_identity(s0));
                    assert(self.reasoning_started_at_ms == (match s0.reasoning_started_at_ms { Some(t) => Some(t), None => Some(now) }));
                    assert(agent_event_applied(s0, *self, ev, now));
                }
            },
            AgentEvent::ToolCall(update) => {
                let payload = tool_call_payload(update);
                self.append(SessionEvent::ToolCall(payload), now);
                proof { assert(agent_event_applied(s0, *self, ev, now)); }
            },
            AgentEvent::Plan(plan) => {
                self.append(SessionEvent::Plan(PlanPayload { entries: plan.entries }), now);
                proof { assert(agent_event_applied(s0, *self, ev, now)); }
            },
            AgentEvent::AvailableCommands(commands) => {
                self.append(SessionEvent::Commands(CommandsPayload { commands }), now);
                proof { assert(agent_event_applied(s0, *self, ev, now)); }
            },
            AgentEvent::ConfigOptions(options) => {
                self.record_config_options(options, now);
                proof { assert(agent_event_applied(s0, *self, ev, now)); }
            },
            AgentEvent::SessionInfo(update) => {
                let title = match update.title { Some(Some(t)) => Some(t), _ => None };
                let updated_at = match update.updated_at { Some(Some(t)) => Some(t), _ => None };
                if let Some(t) = &title {
                    if trim(t.as_str()).unicode_len() > 0 {
                        self.summary.title = t.clone();
                    }
                }
                self.append(SessionEvent::SessionInfo(SessionInfoPayload { title, updated_at }), now);
                proof { assert(agent_event_applied(s0, *self, ev, now)); }
            },
            AgentEvent::Usage(usage) => {
                self.append(SessionEvent::Usage(UsagePayload { used: usage.used, size: usage.size, cost: usage.cost }), now);
                proof { assert(agent_event_applied(s0, *self, ev, now)); }
            },
            AgentEvent::Mode { current_mode_id } => {
                if let Some(modes) = &mut self.modes {
                    modes.current_mode_id = current_mode_id.clone();
                }
                self.append(SessionEvent::Mode(ModePayload { current_mode_id }), now);
                proof { assert(agent_event_applied(s0, *self, ev, now)); }
            },
            AgentEvent::PermissionRequest(request) => {
                let payload = PermissionRequestPayload {
                    id: request.permission_id,
                    title: request.title,
                    detail: request.detail,
                    tool_call_id: request.tool_call_id,
                    options: request.options,
                };
                self.pending_permission = Some(duplicate_permission(&payload));
                let ghost s1 = *self;
                self.append(SessionEvent::PermissionRequest(payload), now);
                let ghost s2 = *self;
                self.append(SessionEvent::Status(StatusPayload { status: SessionStatus::WaitingPermission }), now);
                proof { lemma_journaled_chain(s1, s2, *self, 1, 1, now); }
                proof { assert(agent_event_applied(s0, *self, ev, now)); }
            },
            AgentEvent::Diagnostics { level, message } => {
                self.append(SessionEvent::Diagnostics(DiagnosticsPayload { level, message }), now);
                proof { assert(agent_event_applied(s0, *self, ev, now)); }
            },
            AgentEvent::TurnEnded { stop_reason } => {
                let started = self.reasoning_started_at_ms;
                let ended = self.reasoning_ended_at_ms;
                self.reasoning_started_at_ms = None;
                self.reasoning_ended_at_ms = None;
                let ghost s1 = *self;
                self.append(SessionEvent::Status(StatusPayload { status: SessionStatus::Idle }), now);
                let ghost s2 = *self;
                self.append(SessionEvent::TurnEnded(TurnEndedPayload {
                    stop_reason: owned(stop_reason.wire_name()),
                    reasoning_started_at_ms: started,
                    reasoning_ended_at_ms: ended,
                }), now);
                let ghost s3 = *self;
                proof { lemma_journaled_chain(s1, s2, s3, 1, 1, now); }
                if stop_reason != StopReason::EndTurn {
                    let message = concat2("turn ended: ", stop_reason.debug_name());
                    self.append(SessionEvent::Diagnostics(DiagnosticsPayload { level: DiagnosticLevel::Info, message }), now);
                    proof { lemma_journaled_chain(s1, s3, *self, 2, 1, now); }
                }
                proof { assert(agent_event_applied(s0, *self, ev, now)); }
            },
            AgentEvent::Exited { code, reason } => {
                self.running = false;
                self.exit_reported = true;
                let ghost s1 = *self;
                self.append(SessionEvent::Exit(ExitPayload { code, reason }), now);
                let ghost s2 = *self;
                self.append(SessionEvent::Status(StatusPayload { status: SessionStatus::Exited }), now);
                proof { lemma_journaled_chain(s1, s2, *self, 1, 1, now); }
                proof { assert(agent_event_applied(s0, *self, ev, now)); }
            },
            AgentEvent::Failed { message } => {
                let ghost s1 = *self;
                self.append(SessionEvent::Diagnostics(DiagnosticsPayload { level: DiagnosticLevel::Error, message }), now);
                let ghost s2 = *self;
                self.append(SessionEvent::Status(StatusPayload { status: SessionStatus::Failed }), now);
                proof { lemma_journaled_chain(s1, s2, *self, 1, 1, now); }
                proof { assert(agent_event_applied(s0, *self, ev, now)); }
            },
        }
    }
}

fn one_block(b: ContentBlock) -> (res: Vec<ContentBlock>)
    ensures
        res.len() == 1,
        res[0] == b,
{
    let mut v: Vec<ContentBlock> = Vec::new();
    v.push(b);
    v
}

/// The journal payload of a tool-call update: every field carried over, the
/// content and locations flattened one for one.
pub fn tool_call_payload(update: crate::session_types::ToolCallUpdate) -> (res: ToolCallPayload)
    ensures
        res.id == update.tool_call_id && res.title == update.title && res.kind == update.kind,
        res.status == update.status && res.detail == update.detail,
        res.raw_input == update.raw_input && res.raw_output == update.raw_output,
        res.content.len() == update.content.len(),
        forall|i: int| 0 <= i < res.content.len() ==>
            crate::session_types::tool_payload_of(#[trigger] update.content[i], res.content[i]),
        res.locations.len() == update.locations.len(),
        forall|i: int| 0 <= i < res.locations.len() ==>
            (#[trigger] res.locations[i]).path == update.locations[i].path && res.locations[i].line == update.locations[i].line,
{
    let mut content: Vec<ToolCallContentPayload> = Vec::new();
    let mut i: usize = 0;
    while i < update.content.len()
        invariant
            i <= update.content.len(),
            content.len() == i,
            forall|j: int| 0 <= j < i ==> crate::session_types::tool_payload_of(#[trigger] update.content[j], content[j]),
        decreases update.content.len() - i,
    {
        content.push(ToolCallContentPayload::from_normalized(&update.content[i]));
        i = i + 1;
    }
    let mut locations: Vec<ToolCallLocationPayload> = Vec::new();
    let mut k: usize = 0;
    while k < update.locations.len()
        invariant
            k <= update.locations.len(),
            locations.len() == k,
            content.len() == update.content.len(),
            forall|j: int| 0 <= j < content.len() ==> crate::session_types::tool_payload_of(#[trigger] update.content[j], content[j]),
            forall|j: int| 0 <= j < k ==> (#[trigger] locations[j]).path == update.locations[j].path && locations[j].line == update.locations[j].line,
        decreases update.locations.len() - k,
    {
        locations.push(ToolCallLocationPayload::from_location(&update.locations[k]));
        k = k + 1;
    }
    ToolCallPayload {
        id: update.tool_call_id,
        title: update.title,
        kind: update.kind,
        status: update.status,
        detail: update.detail,
        content,
        locations,
        raw_input: update.raw_input,
        raw_output: update.raw_output,
    }
}

/// A copy of a permission request with the same fields.
pub fn duplicate_permission(p: &PermissionRequestPayload) -> (res: PermissionRequestPayload)
    ensures
        same_permission(res, *p),
{
    let mut options: Vec<PermissionOption> = Vec::new();
    let mut i: usize = 0;
    while i < p.options.len()
        invariant
            i <= p.options.len(),
            options@ == p.options@.take(i as int),
        decreases p.options.len() - i,
    {
        let o = &p.options[i];
        options.push(PermissionOption { option_id: o.option_id.clone(), label: o.label.clone(), kind: o.kind });
        i = i + 1;
        proof { assert(options@ =~= p.options@.take(i as int)); }
    }
    proof { assert(p.options@.take(p.options@.len() as int) =~= p.options@); }
    PermissionRequestPayload {
        id: p.id.clone(),
        title: p.title.clone(),
        detail: match &p.detail { Some(d) => Some(d.clone()), None => None },
        tool_call_id: match &p.tool_call_id { Some(d) => Some(d.clone()), None => None },
        options,
    }
}

/// What a client attaching to a session receives.
#[derive(Debug)]
pub struct AttachResult {
    pub summary: SessionSummary,
    pub replayed: Vec<SequencedEvent>,
    pub latest_sequence: u64,
    pub oldest_available_sequence: Option<u64>,
    pub resync_required: bool,
}

/// One page of a session's history.
#[derive(Debug)]
pub struct HistoryResult {
    pub summary: SessionSummary,
    pub events: Vec<SequencedEvent>,
    pub latest_sequence: u64,
    pub oldest_available_sequence: Option<u64>,
    pub has_more: bool,
}

/// Attach over any session's summary and journal.
pub fn attach_journal(summary: &SessionSummary, journal: &VecDeque<SequencedEvent>, after_sequence: Option<u64>) -> (res: AttachResult)
    ensures
        res.summary == *summary,
        res.replayed@ == events_after(journal@, match after_sequence { Some(a) => a as int, None => 0 }),
        res.latest_sequence == summary.last_sequence,
        res.oldest_available_sequence == oldest_sequence(journal@),
        res.resync_required == resync_needed(after_sequence, oldest_sequence(journal@)),
{
    let first = oldest(journal);
    let from = match after_sequence { Some(a) => a, None => 0 };
    AttachResult {
        summary: summary.duplicate(),
        replayed: replay_after(journal, from),
        latest_sequence: summary.last_sequence,
        oldest_available_sequence: first,
        resync_required: resync_required(after_sequence, first),
    }
}

/// History over any session's summary and journal, with pages capped at `cap`.
pub fn history_journal(summary: &SessionSummary, journal: &VecDeque<SequencedEvent>, before_sequence: Option<u64>, limit: usize, cap: usize) -> (res: HistoryResult)
    requires
        cap >= 1,
    ensures
        res.summary == *summary,
        res.events@ == history_page(journal@, before_sequence, limit, cap),
        res.latest_sequence == summary.last_sequence,
        res.oldest_available_sequence == oldest_sequence(journal@),
        res.has_more == history_has_more(journal@, before_sequence, limit, cap),
{
    let (events, has_more) = page(journal, before_sequence, limit, cap);
    HistoryResult {
        summary: summary.duplicate(),
        events,
        latest_sequence: summary.last_sequence,
        oldest_available_sequence: oldest(journal),
        has_more,
    }
}

/// Keeping the newest events before or after one more push is the same.
pub proof fn lemma_keep_last_push(s: Seq<SequencedEvent>, e: SequencedEvent, limit: nat)
    ensures
        keep_last(keep_last(s, limit).push(e), limit) == keep_last(s.push(e), limit),
{
    let k = keep_last(s, limit);
    if s.len() > limit {
        assert(k.push(e) =~= s.push(e).subrange(s.len() - limit, s.len() + 1int));
        if limit > 0 {
            assert(keep_last(k.push(e), limit) =~= s.push(e).subrange(s.len() + 1 - limit, s.len() + 1int));
        } else {
            assert(keep_last(k.push(e), limit) =~= Seq::<SequencedEvent>::empty());
        }
        assert(keep_last(s.push(e), limit) =~= s.push(e).subrange(s.len() + 1 - limit, s.len() + 1int));
    } else {
        assert(k == s);
    }
}

/// Two journaling steps compose into one.
pub proof fn lemma_journaled_chain(a: SessionRecord, b: SessionRecord, c: SessionRecord, k1: nat, k2: nat, now: i64)
    requires
        SessionRecord::journaled(a, b, k1, now),
        SessionRecord::journaled(b, c, k2, now),
    ensures
        SessionRecord::journaled(a, c, k1 + k2, now),
        forall|i: int| 0 <= i < k1 ==> #[trigger] c.added(a, i) == b.added(a, i),
        forall|i: int| 0 <= i < k2 ==> #[trigger] c.added(a, k1 + i) == c.added(b, i),
{
    assert(c.history@.take(a.history@.len() as int) =~= a.history@) by {
        assert forall|i: int| 0 <= i < a.history@.len() implies c.history@[i] == a.history@[i] by {
            assert(c.history@[i] == c.history@.take(b.history@.len() as int)[i]);
            assert(b.history@[i] == b.history@.take(a.history@.len() as int)[i]);
        }
    }
    assert forall|i: int| 0 <= i < k1 implies #[trigger] c.added(a, i) == b.added(a, i) by {
        assert(c.history@[a.history@.len() + i] == c.history@.take(b.history@.len() as int)[a.history@.len() + i]);
    }
    assert forall|i: int| 0 <= i < k1 + k2 implies {
        &&& #[trigger] c.history@[a.history@.len() + i].sequence == a.summary.last_sequence + 1 + i
        &&& c.history@[a.history@.len() + i].timestamp_ms == now
    } by {
        if i < k1 {
            assert(c.history@[a.history@.len() + i] == c.history@.take(b.history@.len() as int)[a.history@.len() + i]);
            assert(b.history@[a.history@.len() + i].sequence == a.summary.last_sequence + 1 + i);
        } else {
            let j = i - k1;
            assert(c.history@[b.history@.len() + j].sequence == b.summary.last_sequence + 1 + j);
        }
    }
}


/// Every event above `from` is kept by the filter.
pub proof fn lemma_all_after(s: Seq<SequencedEvent>, from: int)
    requires
        forall|a: int| 0 <= a < s.len() ==> #[trigger] s[a].sequence > from,
    ensures
        events_after(s, from) == s,
    decreases s.len(),
{
    if s.len() > 0 {
        assert forall|a: int| 0 <= a < s.drop_last().len() implies #[trigger] s.drop_last()[a].sequence > from by {
            assert(s.drop_last()[a] == s[a]);
        }
        lemma_all_after(s.drop_last(), from);
        assert(s.drop_last().push(s.last()) =~= s);
    }
}

/// A client that attached before a transition and attaches again after it,
/// passing the latest sequence it saw, is replayed exactly the events the
/// transition journaled, in order, provided the journal keeps at least that
/// many events.
pub proof fn law_reattach_replays_new_events(old: SessionRecord, new: SessionRecord, k: nat, now: i64)
    requires
        old.wf(),
        new.wf(),
        SessionRecord::journaled(old, new, k, now),
        new.journal_limit >= k,
    ensures
        events_after(new.journal@, old.summary.last_sequence as int)
            == new.history@.subrange(old.history@.len() as int, new.history@.len() as int),
{
    let h = new.history@;
    let n0 = old.history@.len() as int;
    let limit = new.journal_limit as nat;
    let kept = keep_last(h, limit);
    let start = h.len() - kept.len();
    assert(kept =~= h.subrange(start, h.len() as int));
    assert(start <= n0);
    let front = h.subrange(start, n0);
    let added = h.subrange(n0, h.len() as int);
    assert(kept =~= front + added);
    assert forall|a: int| 0 <= a < front.len() implies #[trigger] front[a].sequence <= old.summary.last_sequence by {
        assert(front[a] == h[start + a]);
        assert(h[start + a] == h.take(n0)[start + a]);
        assert(old.history@[start + a].sequence <= old.summary.last_sequence);
    }
    crate::journal::lemma_none_after_last(front, old.summary.last_sequence);
    assert forall|a: int| 0 <= a < added.len() implies #[trigger] added[a].sequence > old.summary.last_sequence by {
        assert(added[a] == h[n0 + a]);
    }
    lemma_all_after(added, old.summary.last_sequence as int);
    crate::journal::lemma_events_after_concat(front, added, old.summary.last_sequence as int);
    assert(Seq::<SequencedEvent>::empty() + added =~= added);
}

/// The retained journal never holds more events than its limit.
pub proof fn law_journal_bounded(r: SessionRecord)
    requires
        r.wf(),
    ensures
        r.journal@.len() <= r.journal_limit,
{
}

/// A permission the agent requested can be answered by its id, and only by
/// it, until it is resolved.
pub proof fn law_requested_permission_is_answerable(old: SessionRecord, new: SessionRecord, request: crate::kinds::PermissionRequest, now: i64)
    requires
        agent_event_applied(old, new, AgentEvent::PermissionRequest(request), now),
    ensures
        new.pending_permission matches Some(p) && p.id == request.permission_id,
        new.summary.status == SessionStatus::WaitingPermission,
{
}

/// Once an exit has been reported, the session no longer runs and reporting
/// the exit again journals nothing.
pub proof fn law_exit_reported_once(old: SessionRecord, new: SessionRecord, code: Option<i32>, reason: String, now: i64)
    requires
        agent_event_applied(old, new, AgentEvent::Exited { code, reason }, now),
    ensures
        new.exit_reported,
        !new.running,
        new.summary.status == SessionStatus::Exited,
{
}

} // verus!
