//! Session persistence: what a store keeps of a session and of its events,
//! and a store held in memory. Metadata and event payloads are JSON the
//! store carries without looking inside.

use vstd::prelude::*;
use crate::store_error::StoreError;
use crate::text::{owned, str_equal};

verus! {

/// A session as the store keeps it.
pub struct StoredSession {
    pub session_id: String,
    pub metadata: serde_json::Value,
    pub last_sequence: u64,
    pub created_at_ms: i64,
    pub updated_at_ms: i64,
}

/// An event of a session as the store keeps it.
pub struct StoredEvent {
    pub sequence: u64,
    pub event: serde_json::Value,
}

/// Where sessions and their events are kept.
pub trait SessionStore {
    fn upsert_session(&mut self, session: StoredSession) -> Result<(), StoreError>;
    fn get_session(&self, session_id: &str) -> Result<Option<StoredSession>, StoreError>;
    fn list_sessions(&self) -> Result<Vec<StoredSession>, StoreError>;
    fn append_event(&mut self, session_id: &str, event: StoredEvent) -> Result<(), StoreError>;
    fn events_after(&self, session_id: &str, after: Option<u64>, limit: usize) -> Result<
        Vec<StoredEvent>,
        StoreError,
    >;
    fn latest_sequence(&self, session_id: &str) -> Result<u64, StoreError>;
}

/// A copy of a JSON value.
///
/// Calls `serde_json::Value::clone`; the contract claims the copy is the
/// same value.
#[verifier::external_body]
fn json_clone(value: &serde_json::Value) -> (res: serde_json::Value)
    ensures
        res == *value,
{
    value.clone()
}

/// A copy of a stored session.
pub fn copy_session(session: &StoredSession) -> (res: StoredSession)
    ensures
        res.session_id@ == session.session_id@,
        res.metadata == session.metadata,
        res.last_sequence == session.last_sequence,
        res.created_at_ms == session.created_at_ms,
        res.updated_at_ms == session.updated_at_ms,
{
    StoredSession {
        session_id: session.session_id.clone(),
        metadata: json_clone(&session.metadata),
        last_sequence: session.last_sequence,
        created_at_ms: session.created_at_ms,
        updated_at_ms: session.updated_at_ms,
    }
}

/// A copy of a stored event.
pub fn copy_event(event: &StoredEvent) -> (res: StoredEvent)
    ensures
        res == *event,
{
    StoredEvent { sequence: event.sequence, event: json_clone(&event.event) }
}

/// Two stored sessions hold the same values.
pub open spec fn same_session(a: StoredSession, b: StoredSession) -> bool {
    &&& a.session_id@ == b.session_id@
    &&& a.metadata == b.metadata
    &&& a.last_sequence == b.last_sequence
    &&& a.created_at_ms == b.created_at_ms
    &&& a.updated_at_ms == b.updated_at_ms
}

/// Each of `list` holds the values of one of `sessions`.
pub open spec fn copies_of(list: Seq<StoredSession>, sessions: Seq<StoredSession>) -> bool {
    forall|i: int| 0 <= i < list.len() ==> exists|j: int| 0 <= j < sessions.len() && same_session(#[trigger] list[i], sessions[j])
}

/// The index of the session `id` in `sessions`, or -1.
pub open spec fn session_index(sessions: Seq<StoredSession>, id: Seq<char>) -> int
    decreases sessions.len(),
{
    if sessions.len() == 0 {
        -1
    } else if sessions.last().session_id@ == id {
        sessions.len() - 1
    } else {
        session_index(sessions.drop_last(), id)
    }
}

/// The index of the event log of session `id` in `logs`, or -1.
pub open spec fn log_index(logs: Seq<(String, Vec<StoredEvent>)>, id: Seq<char>) -> int
    decreases logs.len(),
{
    if logs.len() == 0 {
        -1
    } else if logs.last().0@ == id {
        logs.len() - 1
    } else {
        log_index(logs.drop_last(), id)
    }
}

/// The events recorded for session `id`, oldest first.
pub open spec fn event_log(logs: Seq<(String, Vec<StoredEvent>)>, id: Seq<char>) -> Seq<StoredEvent> {
    let i = log_index(logs, id);
    if i < 0 { Seq::empty() } else { logs[i].1@ }
}

/// The events of `log` after sequence `after`, in order.
pub open spec fn events_above(log: Seq<StoredEvent>, after: u64) -> Seq<StoredEvent>
    decreases log.len(),
{
    if log.len() == 0 {
        Seq::empty()
    } else if log.last().sequence > after {
        events_above(log.drop_last(), after).push(log.last())
    } else {
        events_above(log.drop_last(), after)
    }
}

/// Whether `s` runs from earliest to latest creation.
pub open spec fn oldest_first(s: Seq<StoredSession>) -> bool {
    forall|i: int, j: int| 0 <= i < j < s.len() ==> #[trigger] s[i].created_at_ms <= #[trigger] s[j].created_at_ms
}

proof fn lemma_session_index(sessions: Seq<StoredSession>, id: Seq<char>)
    ensures
        -1 <= session_index(sessions, id) < sessions.len(),
        session_index(sessions, id) >= 0 ==> sessions[session_index(sessions, id)].session_id@ == id,
        session_index(sessions, id) < 0 ==> forall|j: int| 0 <= j < sessions.len() ==> #[trigger] sessions[j].session_id@
            != id,
        session_index(sessions, id) >= 0 ==> forall|j: int| session_index(sessions, id) < j < sessions.len()
            ==> #[trigger] sessions[j].session_id@ != id,
    decreases sessions.len(),
{
    if sessions.len() > 0 {
        let init = sessions.drop_last();
        lemma_session_index(init, id);
        if sessions.last().session_id@ != id {
            let k = session_index(init, id);
            if k >= 0 {
                assert(sessions[k] == init[k]);
            }
            assert forall|j: int| k < j < sessions.len() implies #[trigger] sessions[j].session_id@ != id by {
                if j < init.len() {
                    assert(init[j] == sessions[j]);
                }
            }
        }
    }
}

proof fn lemma_session_index_of(sessions: Seq<StoredSession>, id: Seq<char>, i: int)
    requires
        0 <= i < sessions.len(),
        sessions[i].session_id@ == id,
        forall|j: int| i < j < sessions.len() ==> #[trigger] sessions[j].session_id@ != id,
    ensures
        session_index(sessions, id) == i,
    decreases sessions.len(),
{
    if i < sessions.len() - 1 {
        assert forall|j: int| i < j < sessions.len() - 1 implies #[trigger] sessions.drop_last()[j].session_id@ != id by {
            assert(sessions.drop_last()[j] == sessions[j]);
        }
        lemma_session_index_of(sessions.drop_last(), id, i);
    }
}

proof fn lemma_log_index(logs: Seq<(String, Vec<StoredEvent>)>, id: Seq<char>)
    ensures
        -1 <= log_index(logs, id) < logs.len(),
        log_index(logs, id) >= 0 ==> logs[log_index(logs, id)].0@ == id,
        log_index(logs, id) < 0 ==> forall|j: int| 0 <= j < logs.len() ==> #[trigger] logs[j].0@ != id,
        log_index(logs, id) >= 0 ==> forall|j: int| log_index(logs, id) < j < logs.len() ==> #[trigger] logs[j].0@ != id,
    decreases logs.len(),
{
    if logs.len() > 0 {
        let init = logs.drop_last();
        lemma_log_index(init, id);
        if logs.last().0@ != id {
            let k = log_index(init, id);
            if k >= 0 {
                assert(logs[k] == init[k]);
            }
            assert forall|j: int| k < j < logs.len() implies #[trigger] logs[j].0@ != id by {
                if j < init.len() {
                    assert(init[j] == logs[j]);
                }
            }
        }
    }
}

proof fn lemma_log_index_of(logs: Seq<(String, Vec<StoredEvent>)>, id: Seq<char>, i: int)
    requires
        0 <= i < logs.len(),
        logs[i].0@ == id,
        forall|j: int| i < j < logs.len() ==> #[trigger] logs[j].0@ != id,
    ensures
        log_index(logs, id) == i,
    decreases logs.len(),
{
    if i < logs.len() - 1 {
        assert forall|j: int| i < j < logs.len() - 1 implies #[trigger] logs.drop_last()[j].0@ != id by {
            assert(logs.drop_last()[j] == logs[j]);
        }
        lemma_log_index_of(logs.drop_last(), id, i);
    }
}

/// The tables of a store held in memory: each session at most once, and
/// each session's events in the order they were appended.
pub struct StoreTables {
    pub sessions: Vec<StoredSession>,
    pub events: Vec<(String, Vec<StoredEvent>)>,
}

impl StoreTables {
    /// No session is kept twice, and no session has two event logs.
    pub open spec fn wf(self) -> bool {
        &&& forall|a: int, b: int| 0 <= a < b < self.sessions@.len() ==> #[trigger] self.sessions@[a].session_id@
            != #[trigger] self.sessions@[b].session_id@
        &&& forall|a: int, b: int| 0 <= a < b < self.events@.len() ==> #[trigger] self.events@[a].0@
            != #[trigger] self.events@[b].0@
    }

    /// The stored session `id`, if any.
    pub open spec fn session(self, id: Seq<char>) -> Option<StoredSession> {
        let i = session_index(self.sessions@, id);
        if i < 0 { None } else { Some(self.sessions@[i]) }
    }

    /// An empty store.
    pub fn new() -> (res: Self)
        ensures
            res.wf(),
            forall|id: Seq<char>| res.session(id) is None,
            forall|id: Seq<char>| event_log(res.events@, id).len() == 0,
    {
        StoreTables { sessions: Vec::new(), events: Vec::new() }
    }

    fn find_session(&self, id: &str) -> (res: Option<usize>)
        ensures
            match res {
                Some(i) => i as int == session_index(self.sessions@, id@) && i < self.sessions@.len(),
                None => session_index(self.sessions@, id@) == -1,
            },
    {
        let mut i: usize = self.sessions.len();
        while i > 0
            invariant
                i <= self.sessions@.len(),
                forall|j: int| i <= j < self.sessions@.len() ==> #[trigger] self.sessions@[j].session_id@ != id@,
            decreases i,
        {
            if str_equal(self.sessions[i - 1].session_id.as_str(), id) {
                proof {
                    lemma_session_index_of(self.sessions@, id@, i - 1);
                }
                return Some(i - 1);
            }
            i = i - 1;
        }
        proof {
            lemma_session_index(self.sessions@, id@);
            if session_index(self.sessions@, id@) >= 0 {
                assert(self.sessions@[session_index(self.sessions@, id@)].session_id@ != id@);
            }
        }
        None
    }

    fn find_log(&self, id: &str) -> (res: Option<usize>)
        ensures
            match res {
                Some(i) => i as int == log_index(self.events@, id@) && i < self.events@.len(),
                None => log_index(self.events@, id@) == -1,
            },
    {
        let mut i: usize = self.events.len();
        while i > 0
            invariant
                i <= self.events@.len(),
                forall|j: int| i <= j < self.events@.len() ==> #[trigger] self.events@[j].0@ != id@,
            decreases i,
        {
            if str_equal(self.events[i - 1].0.as_str(), id) {
                proof {
                    lemma_log_index_of(self.events@, id@, i - 1);
                }
                return Some(i - 1);
            }
            i = i - 1;
        }
        proof {
            lemma_log_index(self.events@, id@);
            if log_index(self.events@, id@) >= 0 {
                assert(self.events@[log_index(self.events@, id@)].0@ != id@);
            }
        }
        None
    }

    /// Keeps `session`, replacing the one with its id.
    pub fn upsert_session(&mut self, session: StoredSession) -> (res: Result<(), StoreError>)
        requires
            old(self).wf(),
        ensures
            res is Ok,
            final(self).wf(),
            final(self).session(session.session_id@) == Some(session),
            forall|id: Seq<char>| id != session.session_id@ ==> final(self).session(id) == old(self).session(id),
            final(self).events@ == old(self).events@,
    {
        let ghost id = session.session_id@;
        let ghost before = self.sessions@;
        proof {
            lemma_session_index(before, id);
        }
        match self.find_session(session.session_id.as_str()) {
            Some(i) => {
                self.sessions.set(i, session);
                proof {
                    assert forall|a: int, b: int| 0 <= a < b < self.sessions@.len() implies #[trigger] self.sessions@[a].session_id@
                        != #[trigger] self.sessions@[b].session_id@ by {
                        if a != i && b != i {
                            assert(self.sessions@[a] == before[a] && self.sessions@[b] == before[b]);
                        } else if a == i {
                            assert(self.sessions@[b] == before[b]);
                            assert(before[i as int].session_id@ == id);
                        } else {
                            assert(self.sessions@[a] == before[a]);
                            assert(before[i as int].session_id@ == id);
                        }
                    }
                    assert forall|j: int| i < j < self.sessions@.len() implies #[trigger] self.sessions@[j].session_id@ != id by {
                        assert(self.sessions@[j] == before[j]);
                        assert(before[i as int].session_id@ == id);
                    }
                    lemma_session_index_of(self.sessions@, id, i as int);
                    assert forall|other: Seq<char>| other != id implies #[trigger] session_index(self.sessions@, other)
                        == session_index(before, other) by {
                        lemma_session_index(before, other);
                        let k = session_index(before, other);
                        if k >= 0 {
                            assert forall|j: int| k < j < self.sessions@.len() implies #[trigger] self.sessions@[j].session_id@
                                != other by {
                                if j == i {
                                } else {
                                    assert(self.sessions@[j] == before[j]);
                                }
                            }
                            assert(k != i);
                            assert(self.sessions@[k] == before[k]);
                            lemma_session_index_of(self.sessions@, other, k);
                        } else {
                            assert forall|j: int| 0 <= j < self.sessions@.len() implies #[trigger] self.sessions@[j].session_id@
                                != other by {
                                if j != i {
                                    assert(self.sessions@[j] == before[j]);
                                }
                            }
                            lemma_session_index(self.sessions@, other);
                            if session_index(self.sessions@, other) >= 0 {
                                assert(self.sessions@[session_index(self.sessions@, other)].session_id@ != other);
                            }
                        }
                    }
                }
            },
            None => {
                self.sessions.push(session);
                proof {
                    assert forall|a: int, b: int| 0 <= a < b < self.sessions@.len() implies #[trigger] self.sessions@[a].session_id@
                        != #[trigger] self.sessions@[b].session_id@ by {
                        assert(self.sessions@[a] == before[a]);
                        if b < before.len() {
                            assert(self.sessions@[b] == before[b]);
                        }
                    }
                    assert(self.sessions@.drop_last() == before);
                    assert forall|other: Seq<char>| other != id implies #[trigger] session_index(self.sessions@, other)
                        == session_index(before, other) by {}
                    lemma_session_index_of(self.sessions@, id, before.len() as int);
                }
            },
        }
        proof {
            assert forall|other: Seq<char>| other != id implies #[trigger] self.session(other) == old(self).session(other) by {
                lemma_session_index(before, other);
                let k = session_index(before, other);
                if k >= 0 {
                    assert(self.sessions@[k] == before[k]);
                }
            }
        }
        Ok(())
    }

    /// A copy of the session `session_id`, if the store keeps it.
    pub fn get_session(&self, session_id: &str) -> (res: Result<Option<StoredSession>, StoreError>)
        ensures
            res matches Ok(found) && match self.session(session_id@) {
                Some(s) => found matches Some(f) && same_session(f, s),
                None => found is None,
            },
    {
        match self.find_session(session_id) {
            Some(i) => Ok(Some(copy_session(&self.sessions[i]))),
            None => Ok(None),
        }
    }

    /// Copies of every session, the earliest created first.
    pub fn list_sessions(&self) -> (res: Result<Vec<StoredSession>, StoreError>)
        ensures
            res matches Ok(list) && list@.len() == self.sessions@.len() && oldest_first(list@) && copies_of(
                list@,
                self.sessions@,
            ) && copies_of(self.sessions@, list@),
    {
        let mut sorted: Vec<StoredSession> = Vec::new();
        let mut n: usize = 0;
        while n < self.sessions.len()
            invariant
                n <= self.sessions@.len(),
                sorted@.len() == n,
                oldest_first(sorted@),
                copies_of(sorted@, self.sessions@),
                copies_of(self.sessions@.take(n as int), sorted@),
            decreases self.sessions.len() - n,
        {
            let item = copy_session(&self.sessions[n]);
            let key = item.created_at_ms;
            let mut k: usize = sorted.len();
            while k > 0 && sorted[k - 1].created_at_ms > key
                invariant
                    k <= sorted@.len(),
                    forall|i: int| k <= i < sorted@.len() ==> #[trigger] sorted@[i].created_at_ms > key,
                decreases k,
            {
                k = k - 1;
            }
            let ghost before = sorted@;
            sorted.insert(k, item);
            proof {
                assert(sorted@ == before.insert(k as int, item));
                assert forall|i: int, j: int| 0 <= i < j < sorted@.len() implies #[trigger] sorted@[i].created_at_ms
                    <= #[trigger] sorted@[j].created_at_ms by {
                    if j < k {
                        assert(sorted@[i] == before[i] && sorted@[j] == before[j]);
                    } else if j == k {
                        assert(sorted@[i] == before[i]);
                        if k > 0 {
                            assert(before[k - 1].created_at_ms <= key);
                            assert(before[i].created_at_ms <= before[k - 1].created_at_ms || i == k - 1);
                        }
                    } else if i == k {
                        assert(sorted@[j] == before[j - 1]);
                    } else if i < k {
                        assert(sorted@[i] == before[i] && sorted@[j] == before[j - 1]);
                    } else {
                        assert(sorted@[i] == before[i - 1] && sorted@[j] == before[j - 1]);
                    }
                }
                assert forall|i: int| 0 <= i < sorted@.len() implies exists|j: int| 0 <= j < self.sessions@.len()
                    && same_session(#[trigger] sorted@[i], self.sessions@[j]) by {
                    if i < k {
                        assert(sorted@[i] == before[i]);
                    } else if i == k {
                        assert(same_session(sorted@[i], self.sessions@[n as int]));
                    } else {
                        assert(sorted@[i] == before[i - 1]);
                    }
                }
                assert forall|j: int| 0 <= j < n + 1 implies exists|i: int| 0 <= i < sorted@.len() && same_session(
                    #[trigger] self.sessions@.take(n + 1)[j],
                    sorted@[i],
                ) by {
                    assert(self.sessions@.take(n + 1)[j] == self.sessions@[j]);
                    if j < n {
                        assert(self.sessions@.take(n as int)[j] == self.sessions@[j]);
                        let i = choose|i: int| 0 <= i < before.len() && same_session(
                            self.sessions@.take(n as int)[j],
                            before[i],
                        );
                        if i < k {
                            assert(sorted@[i] == before[i]);
                        } else {
                            assert(sorted@[i + 1] == before[i]);
                        }
                    } else {
                        assert(sorted@[k as int] == item);
                    }
                }
                assert(self.sessions@.take(n + 1).len() == n + 1);
                assert(copies_of(self.sessions@.take(n + 1), sorted@));
            }
            n = n + 1;
        }
        assert(self.sessions@.take(n as int) =~= self.sessions@);
        Ok(sorted)
    }

    /// Records `event` as the latest event of session `session_id`.
    pub fn append_event(&mut self, session_id: &str, event: StoredEvent) -> (res: Result<(), StoreError>)
        requires
            old(self).wf(),
        ensures
            res is Ok,
            final(self).wf(),
            event_log(final(self).events@, session_id@) == event_log(old(self).events@, session_id@).push(event),
            forall|id: Seq<char>| id != session_id@ ==> event_log(final(self).events@, id) == event_log(
                old(self).events@,
                id,
            ),
            final(self).sessions@ == old(self).sessions@,
    {
        let ghost id = session_id@;
        let ghost before = self.events@;
        let ghost ev = event;
        proof {
            lemma_log_index(before, id);
        }
        match self.find_log(session_id) {
            Some(i) => {
                let mut entry = self.events.remove(i);
                entry.1.push(event);
                self.events.insert(i, entry);
                proof {
                    assert(self.events@ =~= before.update(i as int, self.events@[i as int]));
                    assert(self.events@[i as int].0 == before[i as int].0);
                    assert(self.events@[i as int].1@ == before[i as int].1@.push(ev));
                    assert forall|a: int, b: int| 0 <= a < b < self.events@.len() implies #[trigger] self.events@[a].0@
                        != #[trigger] self.events@[b].0@ by {
                        assert(self.events@[a].0 == before[a].0);
                        assert(self.events@[b].0 == before[b].0);
                    }
                    assert forall|j: int| i < j < self.events@.len() implies #[trigger] self.events@[j].0@ != id by {
                        assert(self.events@[j].0 == before[j].0);
                    }
                    lemma_log_index_of(self.events@, id, i as int);
                    assert forall|other: Seq<char>| other != id implies #[trigger] event_log(self.events@, other)
                        == event_log(before, other) by {
                        lemma_log_index(before, other);
                        let k = log_index(before, other);
                        if k >= 0 {
                            assert forall|j: int| k < j < self.events@.len() implies #[trigger] self.events@[j].0@ != other by {
                                assert(self.events@[j].0 == before[j].0);
                            }
                            assert(self.events@[k].0 == before[k].0);
                            lemma_log_index_of(self.events@, other, k);
                            assert(k != i);
                            assert(self.events@[k] == before[k]);
                        } else {
                            assert forall|j: int| 0 <= j < self.events@.len() implies #[trigger] self.events@[j].0@ != other by {
                                assert(self.events@[j].0 == before[j].0);
                            }
                            lemma_log_index(self.events@, other);
                            if log_index(self.events@, other) >= 0 {
                                assert(self.events@[log_index(self.events@, other)].0@ != other);
                            }
                        }
                    }
                }
            },
            None => {
                let mut log: Vec<StoredEvent> = Vec::new();
                log.push(event);
                self.events.push((owned(session_id), log));
                proof {
                    assert(self.events@.drop_last() == before);
                    assert(self.events@.last().1@ =~= Seq::<StoredEvent>::empty().push(ev));
                    assert forall|a: int, b: int| 0 <= a < b < self.events@.len() implies #[trigger] self.events@[a].0@
                        != #[trigger] self.events@[b].0@ by {
                        assert(self.events@[a] == before[a]);
                        if b < before.len() {
                            assert(self.events@[b] == before[b]);
                        }
                    }
                    assert forall|other: Seq<char>| other != id implies #[trigger] event_log(self.events@, other)
                        == event_log(before, other) by {
                        lemma_log_index(before, other);
                        if log_index(before, other) >= 0 {
                            assert(self.events@[log_index(before, other)] == before[log_index(before, other)]);
                        }
                    }
                }
            },
        }
        Ok(())
    }

    /// Copies of the events of session `session_id` after sequence `after`
    /// (after 0 when not given), oldest first, at most `limit` of them.
    pub fn events_after(&self, session_id: &str, after: Option<u64>, limit: usize) -> (res: Result<
        Vec<StoredEvent>,
        StoreError,
    >)
        ensures
            res matches Ok(list) && list@ == ({
                let above = events_above(
                    event_log(self.events@, session_id@),
                    match after {
                        Some(a) => a,
                        None => 0,
                    },
                );
                if above.len() > limit { above.take(limit as int) } else { above }
            }),
    {
        let bound = match after {
            Some(a) => a,
            None => 0,
        };
        match self.find_log(session_id) {
            Some(i) => {
                let log = &self.events[i].1;
                let ghost full = log@;
                let mut res: Vec<StoredEvent> = Vec::new();
                let mut k: usize = 0;
                while k < log.len() && res.len() < limit
                    invariant
                        k <= full.len(),
                        full == log@,
                        res@ == events_above(full.take(k as int), bound),
                        res@.len() <= limit,
                    decreases log.len() - k,
                {
                    proof {
                        assert(full.take(k + 1).drop_last() =~= full.take(k as int));
                        assert(full.take(k + 1).last() == full[k as int]);
                    }
                    if log[k].sequence > bound {
                        res.push(copy_event(&log[k]));
                    }
                    k = k + 1;
                }
                proof {
                    lemma_events_above_prefix(full, bound, k as int, limit as int);
                }
                Ok(res)
            },
            None => {
                proof {
                    assert(event_log(self.events@, session_id@) =~= Seq::<StoredEvent>::empty());
                }
                Ok(Vec::new())
            },
        }
    }

    /// The sequence of the latest event of session `session_id`, or 0.
    pub fn latest_sequence(&self, session_id: &str) -> (res: Result<u64, StoreError>)
        ensures
            res matches Ok(n) && n == ({
                let log = event_log(self.events@, session_id@);
                if log.len() == 0 { 0 } else { log.last().sequence }
            }),
    {
        match self.find_log(session_id) {
            Some(i) => {
                let log = &self.events[i].1;
                if log.len() == 0 { Ok(0) } else { Ok(log[log.len() - 1].sequence) }
            },
            None => Ok(0),
        }
    }
}

/// A store held in memory: each session at most once, and each session's
/// events in the order they were appended.
pub struct InMemoryStore {
    tables: StoreTables,
}

impl InMemoryStore {
    /// The store's tables.
    pub closed spec fn tables(self) -> StoreTables {
        self.tables
    }

    /// The tables of every store are well formed.
    #[verifier::type_invariant]
    spec fn tables_well_formed(self) -> bool {
        self.tables.wf()
    }

    /// An empty store.
    pub fn new() -> (res: Self)
        ensures
            res.tables().wf(),
            forall|id: Seq<char>| res.tables().session(id) is None,
            forall|id: Seq<char>| event_log(res.tables().events@, id).len() == 0,
    {
        InMemoryStore { tables: StoreTables::new() }
    }

    /// Keeps `session`, replacing the one with its id.
    pub fn upsert_session(&mut self, session: StoredSession) -> (res: Result<(), StoreError>)
        ensures
            res is Ok,
            final(self).tables().wf(),
            final(self).tables().session(session.session_id@) == Some(session),
            forall|id: Seq<char>| id != session.session_id@ ==> final(self).tables().session(id) == old(
                self,
            ).tables().session(id),
            final(self).tables().events@ == old(self).tables().events@,
    {
        proof {
            use_type_invariant(&*self);
        }
        let mut tables = StoreTables::new();
        std::mem::swap(&mut self.tables, &mut tables);
        let res = tables.upsert_session(session);
        std::mem::swap(&mut self.tables, &mut tables);
        res
    }

    /// A copy of the session `session_id`, if the store keeps it.
    pub fn get_session(&self, session_id: &str) -> (res: Result<Option<StoredSession>, StoreError>)
        ensures
            res matches Ok(found) && match self.tables().session(session_id@) {
                Some(s) => found matches Some(f) && same_session(f, s),
                None => found is None,
            },
    {
        self.tables.get_session(session_id)
    }

    /// Copies of every session, the earliest created first.
    pub fn list_sessions(&self) -> (res: Result<Vec<StoredSession>, StoreError>)
        ensures
            res matches Ok(list) && list@.len() == self.tables().sessions@.len() && oldest_first(list@) && copies_of(
                list@,
                self.tables().sessions@,
            ) && copies_of(self.tables().sessions@, list@),
    {
        self.tables.list_sessions()
    }

    /// Records `event` as the latest event of session `session_id`.
    pub fn append_event(&mut self, session_id: &str, event: StoredEvent) -> (res: Result<(), StoreError>)
        ensures
            res is Ok,
            final(self).tables().wf(),
            event_log(final(self).tables().events@, session_id@) == event_log(old(self).tables().events@, session_id@).push(
                event,
            ),
            forall|id: Seq<char>| id != session_id@ ==> event_log(final(self).tables().events@, id) == event_log(
                old(self).tables().events@,
                id,
            ),
            final(self).tables().sessions@ == old(self).tables().sessions@,
    {
        proof {
            use_type_invariant(&*self);
        }
        let mut tables = StoreTables::new();
        std::mem::swap(&mut self.tables, &mut tables);
        let res = tables.append_event(session_id, event);
        std::mem::swap(&mut self.tables, &mut tables);
        res
    }

    /// Copies of the events of session `session_id` after sequence `after`
    /// (after 0 when not given), oldest first, at most `limit` of them.
    pub fn events_after(&self, session_id: &str, after: Option<u64>, limit: usize) -> (res: Result<
        Vec<StoredEvent>,
        StoreError,
    >)
        ensures
            res matches Ok(list) && list@ == ({
                let above = events_above(
                    event_log(self.tables().events@, session_id@),
                    match after {
                        Some(a) => a,
                        None => 0,
                    },
                );
                if above.len() > limit { above.take(limit as int) } else { above }
            }),
    {
        self.tables.events_after(session_id, after, limit)
    }

    /// The sequence of the latest event of session `session_id`, or 0.
    pub fn latest_sequence(&self, session_id: &str) -> (res: Result<u64, StoreError>)
        ensures
            res matches Ok(n) && n == ({
                let log = event_log(self.tables().events@, session_id@);
                if log.len() == 0 { 0 } else { log.last().sequence }
            }),
    {
        self.tables.latest_sequence(session_id)
    }
}

impl SessionStore for InMemoryStore {
    fn upsert_session(&mut self, session: StoredSession) -> Result<(), StoreError> {
        InMemoryStore::upsert_session(self, session)
    }

    fn get_session(&self, session_id: &str) -> Result<Option<StoredSession>, StoreError> {
        InMemoryStore::get_session(self, session_id)
    }

    fn list_sessions(&self) -> Result<Vec<StoredSession>, StoreError> {
        InMemoryStore::list_sessions(self)
    }

    fn append_event(&mut self, session_id: &str, event: StoredEvent) -> Result<(), StoreError> {
        InMemoryStore::append_event(self, session_id, event)
    }

    fn events_after(&self, session_id: &str, after: Option<u64>, limit: usize) -> Result<Vec<StoredEvent>, StoreError> {
        InMemoryStore::events_after(self, session_id, after, limit)
    }

    fn latest_sequence(&self, session_id: &str) -> Result<u64, StoreError> {
        InMemoryStore::latest_sequence(self, session_id)
    }
}

/// The first `n` events above `after` of a log are the events above `after`
/// of its prefix that stops where the `n`-th one was found.
proof fn lemma_events_above_prefix(log: Seq<StoredEvent>, after: u64, k: int, limit: int)
    requires
        0 <= k <= log.len(),
        events_above(log.take(k), after).len() <= limit,
        k < log.len() ==> events_above(log.take(k), after).len() == limit,
    ensures
        ({
            let above = events_above(log, after);
            events_above(log.take(k), after) == if above.len() > limit { above.take(limit) } else { above }
        }),
    decreases log.len() - k,
{
    if k == log.len() {
        assert(log.take(k) =~= log);
    } else {
        lemma_events_above_append(log, after, k);
        let a = events_above(log.take(k), after);
        let b = events_above(log.skip(k), after);
        if b.len() == 0 {
            assert(a + b =~= a);
        } else {
            assert((a + b).take(limit) =~= a);
        }
    }
}

proof fn lemma_events_above_append(log: Seq<StoredEvent>, after: u64, k: int)
    requires
        0 <= k <= log.len(),
    ensures
        events_above(log, after) == events_above(log.take(k), after) + events_above(log.skip(k), after),
    decreases log.len(),
{
    if log.len() == 0 {
        assert(log.take(k) =~= log);
        assert(log.skip(k) =~= log);
    } else if k == log.len() {
        assert(log.take(k) =~= log);
        assert(log.skip(k) =~= Seq::<StoredEvent>::empty());
        assert(events_above(log, after) + Seq::<StoredEvent>::empty() =~= events_above(log, after));
    } else {
        lemma_events_above_append(log.drop_last(), after, k);
        assert(log.drop_last().take(k) =~= log.take(k));
        assert(log.skip(k).drop_last() =~= log.drop_last().skip(k));
        assert(log.skip(k).last() == log.last());
        if log.last().sequence > after {
            assert((events_above(log.take(k), after) + events_above(log.drop_last().skip(k), after)).push(log.last())
                =~= events_above(log.take(k), after) + events_above(log.drop_last().skip(k), after).push(log.last()));
        }
    }
}

} // verus!
