//! The bounded event journal of a session: appending, replay after a
//! sequence number, and paging backwards through history.
//!
//! A journal holds events oldest first with strictly increasing sequence
//! numbers, none above the session's latest sequence, and never more events
//! than its limit: appending past the limit evicts the oldest events.

use vstd::prelude::*;
use std::collections::VecDeque;
use crate::session_types::SequencedEvent;

verus! {

/// Sequence numbers strictly increase along the journal.
pub open spec fn increasing(j: Seq<SequencedEvent>) -> bool {
    forall|a: int, b: int| 0 <= a < b < j.len() ==> #[trigger] j[a].sequence < #[trigger] j[b].sequence
}

/// The journal invariant: increasing, no sequence above `last`, at most
/// `limit` events.
pub open spec fn journal_wf(j: Seq<SequencedEvent>, last: u64, limit: nat) -> bool {
    &&& increasing(j)
    &&& forall|a: int| 0 <= a < j.len() ==> #[trigger] j[a].sequence <= last
    &&& j.len() <= limit
}

/// The last `limit` events of `j`.
pub open spec fn keep_last<T>(j: Seq<T>, limit: nat) -> Seq<T> {
    if j.len() > limit { j.subrange(j.len() - limit, j.len() as int) } else { j }
}

/// The events of `j` whose sequence is above `from`, in journal order.
pub open spec fn events_after(j: Seq<SequencedEvent>, from: int) -> Seq<SequencedEvent>
    decreases j.len(),
{
    if j.len() == 0 {
        Seq::empty()
    } else {
        let rest = events_after(j.drop_last(), from);
        if j.last().sequence > from { rest.push(j.last()) } else { rest }
    }
}

/// The events of `j` whose sequence is below `boundary`, in journal order.
pub open spec fn events_before(j: Seq<SequencedEvent>, boundary: int) -> Seq<SequencedEvent>
    decreases j.len(),
{
    if j.len() == 0 {
        Seq::empty()
    } else {
        let rest = events_before(j.drop_last(), boundary);
        if (j.last().sequence as int) < boundary { rest.push(j.last()) } else { rest }
    }
}

/// The sequence number of the oldest retained event.
pub open spec fn oldest_sequence(j: Seq<SequencedEvent>) -> Option<u64> {
    if j.len() == 0 { None } else { Some(j[0].sequence) }
}

/// A client that last saw `after` has missed events the journal no longer
/// holds: the oldest retained event is more than one past its cursor.
pub open spec fn resync_needed(after: Option<u64>, oldest: Option<u64>) -> bool {
    match (after, oldest) {
        (Some(a), Some(o)) => a + 1 < o,
        _ => false,
    }
}

/// The page size a history request gets: the requested limit clamped to
/// `1..=cap`.
pub open spec fn page_size(limit: usize, cap: usize) -> int {
    if limit < 1 { 1 } else if limit > cap { cap as int } else { limit as int }
}

/// The index in the eligible events where a history page starts.
pub open spec fn page_start(eligible_len: int, page: int) -> int {
    if eligible_len > page { eligible_len - page } else { 0 }
}

/// The history page of `j` before `before` (no bound when absent): the
/// newest `page_size(limit, cap)` eligible events, oldest first.
pub open spec fn history_page(j: Seq<SequencedEvent>, before: Option<u64>, limit: usize, cap: usize) -> Seq<SequencedEvent> {
    let eligible = events_before(j, match before { Some(b) => b as int, None => u64::MAX as int });
    eligible.subrange(page_start(eligible.len() as int, page_size(limit, cap)), eligible.len() as int)
}

/// Whether older eligible events remain before a history page.
pub open spec fn history_has_more(j: Seq<SequencedEvent>, before: Option<u64>, limit: usize, cap: usize) -> bool {
    let eligible = events_before(j, match before { Some(b) => b as int, None => u64::MAX as int });
    page_start(eligible.len() as int, page_size(limit, cap)) > 0
}

/// Appends `event` and evicts the oldest events beyond `limit`.
pub fn push_bounded<T>(journal: &mut VecDeque<T>, event: T, limit: usize)
    ensures
        final(journal)@ == keep_last(old(journal)@.push(event), limit as nat),
{
    let ghost pushed = old(journal)@.push(event);
    journal.push_back(event);
    while journal.len() > limit
        invariant
            pushed.len() >= journal@.len(),
            journal@ == pushed.subrange(pushed.len() - journal@.len(), pushed.len() as int),
            journal@.len() > limit ==> true,
            pushed.len() > limit ==> journal@.len() >= limit,
            pushed.len() <= limit ==> journal@ == pushed,
        decreases journal.len(),
    {
        journal.pop_front();
    }
    proof {
        assert(journal@ =~= keep_last(pushed, limit as nat));
    }
}

/// Every event of `journal` after `from`, copied in order.
pub fn replay_after(journal: &VecDeque<SequencedEvent>, from: u64) -> (res: Vec<SequencedEvent>)
    ensures
        res@ == events_after(journal@, from as int),
{
    let mut res: Vec<SequencedEvent> = Vec::new();
    let mut i: usize = 0;
    while i < journal.len()
        invariant
            i <= journal@.len(),
            res@ == events_after(journal@.take(i as int), from as int),
        decreases journal.len() - i,
    {
        proof {
            assert(journal@.take(i + 1).drop_last() =~= journal@.take(i as int));
        }
        if journal[i].sequence > from {
            res.push(journal[i].clone());
        }
        i = i + 1;
    }
    proof {
        assert(journal@.take(journal@.len() as int) =~= journal@);
    }
    res
}

/// Every event of `journal` before `boundary`, copied in order.
pub fn replay_before(journal: &VecDeque<SequencedEvent>, boundary: u64) -> (res: Vec<SequencedEvent>)
    ensures
        res@ == events_before(journal@, boundary as int),
{
    let mut res: Vec<SequencedEvent> = Vec::new();
    let mut i: usize = 0;
    while i < journal.len()
        invariant
            i <= journal@.len(),
            res@ == events_before(journal@.take(i as int), boundary as int),
        decreases journal.len() - i,
    {
        proof {
            assert(journal@.take(i + 1).drop_last() =~= journal@.take(i as int));
        }
        if journal[i].sequence < boundary {
            res.push(journal[i].clone());
        }
        i = i + 1;
    }
    proof {
        assert(journal@.take(journal@.len() as int) =~= journal@);
    }
    res
}

/// The sequence number of the oldest retained event, if any.
pub fn oldest(journal: &VecDeque<SequencedEvent>) -> (res: Option<u64>)
    ensures
        res == oldest_sequence(journal@),
{
    if journal.len() == 0 { None } else { Some(journal[0].sequence) }
}

/// Whether a client at `after` must resync, given the oldest retained event.
pub fn resync_required(after: Option<u64>, oldest: Option<u64>) -> (res: bool)
    ensures
        res == resync_needed(after, oldest),
{
    match (after, oldest) {
        (Some(a), Some(o)) => a.saturating_add(1) < o,
        _ => false,
    }
}

/// The history page and whether older events remain.
pub fn page(journal: &VecDeque<SequencedEvent>, before: Option<u64>, limit: usize, cap: usize) -> (res: (Vec<SequencedEvent>, bool))
    requires
        cap >= 1,
    ensures
        res.0@ == history_page(journal@, before, limit, cap),
        res.1 == history_has_more(journal@, before, limit, cap),
{
    let boundary = match before { Some(b) => b, None => u64::MAX };
    let eligible = replay_before(journal, boundary);
    let page_limit = if limit < 1 { 1 } else if limit > cap { cap } else { limit };
    let start = eligible.len().saturating_sub(page_limit);
    let mut events: Vec<SequencedEvent> = Vec::new();
    let mut i: usize = start;
    while i < eligible.len()
        invariant
            start <= i <= eligible@.len(),
            events@ == eligible@.subrange(start as int, i as int),
        decreases eligible.len() - i,
    {
        events.push(eligible[i].clone());
        i = i + 1;
        proof {
            assert(events@ =~= eligible@.subrange(start as int, i as int));
        }
    }
    (events, start > 0)
}

/// The events before a boundary come from the journal, each below the
/// boundary; every journal event below it is among them; and they keep the
/// journal's increasing order.
pub proof fn lemma_events_before_members(j: Seq<SequencedEvent>, boundary: int)
    ensures
        forall|i: int| 0 <= i < events_before(j, boundary).len() ==> (#[trigger] events_before(j, boundary)[i]).sequence
            < boundary && j.contains(events_before(j, boundary)[i]),
        forall|k: int| 0 <= k < j.len() && (#[trigger] j[k]).sequence < boundary ==> events_before(j, boundary).contains(
            j[k],
        ),
        increasing(j) ==> increasing(events_before(j, boundary)),
    decreases j.len(),
{
    if j.len() > 0 {
        let rest = j.drop_last();
        lemma_events_before_members(rest, boundary);
        let e = events_before(j, boundary);
        let r = events_before(rest, boundary);
        assert forall|i: int| 0 <= i < e.len() implies (#[trigger] e[i]).sequence < boundary && j.contains(e[i]) by {
            if i < r.len() {
                assert(e[i] == r[i]);
                let w = choose|w: int| 0 <= w < rest.len() && rest[w] == r[i];
                assert(j[w] == rest[w]);
            } else {
                assert(e[i] == j.last());
                assert(j[j.len() - 1] == j.last());
            }
        }
        assert forall|k: int| 0 <= k < j.len() && (#[trigger] j[k]).sequence < boundary implies e.contains(j[k]) by {
            if k < j.len() - 1 {
                assert(rest[k] == j[k]);
                let w = choose|w: int| 0 <= w < r.len() && r[w] == rest[k];
                assert(e[w] == r[w]);
            } else {
                assert(e[e.len() - 1] == j.last());
            }
        }
        if increasing(j) {
            assert(increasing(rest)) by {
                assert forall|a: int, b: int| 0 <= a < b < rest.len() implies #[trigger] rest[a].sequence
                    < #[trigger] rest[b].sequence by {
                    assert(rest[a] == j[a] && rest[b] == j[b]);
                }
            }
            if (j.last().sequence as int) < boundary {
                assert forall|a: int, b: int| 0 <= a < b < e.len() implies #[trigger] e[a].sequence
                    < #[trigger] e[b].sequence by {
                    if b < r.len() {
                        assert(e[a] == r[a] && e[b] == r[b]);
                    } else {
                        assert(e[a] == r[a]);
                        let w = choose|w: int| 0 <= w < rest.len() && rest[w] == r[a];
                        assert(j[w] == rest[w]);
                        assert(j[j.len() - 1] == j.last());
                    }
                }
            }
        }
    }
}

/// A history page is the newest end of the events before its boundary:
/// as many of them as the clamped limit allows, oldest first; its last
/// event is the newest event below the boundary, every event of the
/// journal below the boundary and not older than the page's first event is
/// on the page, and older events remain exactly when the page does not
/// hold every event below the boundary.
pub proof fn law_history_page_is_the_newest_end(j: Seq<SequencedEvent>, before: Option<u64>, limit: usize, cap: usize)
    requires
        cap >= 1,
        increasing(j),
    ensures
        ({
            let boundary = match before { Some(b) => b as int, None => u64::MAX as int };
            let eligible = events_before(j, boundary);
            let p = history_page(j, before, limit, cap);
            let size = if limit < 1 { 1 } else if limit > cap { cap as int } else { limit as int };
            &&& p.len() == if eligible.len() < size { eligible.len() as int } else { size }
            &&& p == eligible.subrange(eligible.len() - p.len(), eligible.len() as int)
            &&& eligible.len() > 0 ==> p.last() == eligible.last()
            &&& (history_has_more(j, before, limit, cap) <==> p.len() < eligible.len())
            &&& forall|i: int| 0 <= i < p.len() ==> (#[trigger] p[i]).sequence < boundary && j.contains(p[i])
            &&& forall|k: int| 0 <= k < j.len() && (#[trigger] j[k]).sequence < boundary && p.len() > 0 && j[k].sequence
                >= p[0].sequence ==> p.contains(j[k])
        }),
{
    let boundary = match before { Some(b) => b as int, None => u64::MAX as int };
    let eligible = events_before(j, boundary);
    let p = history_page(j, before, limit, cap);
    lemma_events_before_members(j, boundary);
    let start = page_start(eligible.len() as int, page_size(limit, cap));
    assert(p.len() == eligible.len() - start);
    assert forall|i: int| 0 <= i < p.len() implies (#[trigger] p[i]).sequence < boundary && j.contains(p[i]) by {
        assert(p[i] == eligible[start + i]);
    }
    assert forall|k: int| 0 <= k < j.len() && (#[trigger] j[k]).sequence < boundary && p.len() > 0 && j[k].sequence
        >= p[0].sequence implies p.contains(j[k]) by {
        let m = choose|m: int| 0 <= m < eligible.len() && eligible[m] == j[k];
        assert(p[0] == eligible[start]);
        if m < start {
            assert(eligible[m].sequence < eligible[start].sequence);
        }
        assert(p[m - start] == eligible[m]);
    }
}

/// Filtering distributes over concatenation.
pub proof fn lemma_events_after_concat(a: Seq<SequencedEvent>, b: Seq<SequencedEvent>, from: int)
    ensures
        events_after(a + b, from) == events_after(a, from) + events_after(b, from),
    decreases b.len(),
{
    if b.len() == 0 {
        assert(a + b =~= a);
        assert(events_after(a, from) + events_after(b, from) =~= events_after(a, from));
    } else {
        assert((a + b).drop_last() =~= a + b.drop_last());
        lemma_events_after_concat(a, b.drop_last(), from);
        assert((a + b).last() == b.last());
        if b.last().sequence > from {
            assert(events_after(a, from) + events_after(b.drop_last(), from).push(b.last())
                =~= (events_after(a, from) + events_after(b.drop_last(), from)).push(b.last()));
        }
    }
}

/// No event of a journal bounded by `last` is after `last`.
pub proof fn lemma_none_after_last(j: Seq<SequencedEvent>, last: u64)
    requires
        forall|a: int| 0 <= a < j.len() ==> #[trigger] j[a].sequence <= last,
    ensures
        events_after(j, last as int) == Seq::<SequencedEvent>::empty(),
    decreases j.len(),
{
    if j.len() > 0 {
        assert forall|a: int| 0 <= a < j.drop_last().len() implies #[trigger] j.drop_last()[a].sequence <= last by {
            assert(j.drop_last()[a] == j[a]);
        }
        lemma_none_after_last(j.drop_last(), last);
        assert(j.last() == j[j.len() - 1]);
    }
}

/// Appending an event numbered past every journaled one, then replaying after
/// the previous latest sequence, gives back exactly that event (as long as
/// the journal keeps at least one event).
pub proof fn lemma_append_then_replay(j: Seq<SequencedEvent>, last: u64, limit: nat, e: SequencedEvent)
    requires
        journal_wf(j, last, limit),
        limit >= 1,
        e.sequence == last + 1,
    ensures
        events_after(keep_last(j.push(e), limit), last as int) == seq![e],
{
    let pushed = j.push(e);
    let kept = keep_last(pushed, limit);
    let k = pushed.len() - kept.len();
    assert(kept =~= pushed.subrange(k, pushed.len() as int));
    let front = kept.drop_last();
    assert(kept =~= front + seq![e]);
    assert forall|a: int| 0 <= a < front.len() implies #[trigger] front[a].sequence <= last by {
        assert(front[a] == j[k + a]);
    }
    lemma_none_after_last(front, last);
    lemma_events_after_concat(front, seq![e], last as int);
    assert(seq![e].drop_last() =~= Seq::<SequencedEvent>::empty());
    assert(events_after(seq![e], last as int) =~= seq![e]);
}

/// Appending an event numbered past every journaled one keeps the journal
/// invariant.
pub proof fn lemma_append_keeps_wf(j: Seq<SequencedEvent>, last: u64, limit: nat, e: SequencedEvent)
    requires
        journal_wf(j, last, limit),
        e.sequence == last + 1,
    ensures
        journal_wf(keep_last(j.push(e), limit), e.sequence, limit),
{
    let pushed = j.push(e);
    let kept = keep_last(pushed, limit);
    let k = pushed.len() - kept.len();
    assert(kept =~= pushed.subrange(k, pushed.len() as int));
    assert forall|a: int, b: int| 0 <= a < b < kept.len() implies #[trigger] kept[a].sequence < #[trigger] kept[b].sequence by {
        assert(kept[a] == pushed[k + a]);
        assert(kept[b] == pushed[k + b]);
        if k + b < j.len() {
            assert(pushed[k + a] == j[k + a]);
            assert(pushed[k + b] == j[k + b]);
        } else {
            assert(pushed[k + a] == j[k + a]);
        }
    }
    assert forall|a: int| 0 <= a < kept.len() implies #[trigger] kept[a].sequence <= e.sequence by {
        assert(kept[a] == pushed[k + a]);
        if k + a < j.len() {
            assert(pushed[k + a] == j[k + a]);
        }
    }
}

} // verus!
