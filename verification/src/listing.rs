//! How the session manager lists what it holds: sessions, most recently
//! active first; the working directories they and the agents' own sessions
//! use; and the native sessions already imported.

use vstd::prelude::*;
use crate::session_manager::is_active;
use crate::session_types::{SessionStatus, SessionSummary};
use crate::text::{str_equal, string_texts};

verus! {

/// Whether `s` runs from most to least recently active.
pub open spec fn most_recent_first(s: Seq<SessionSummary>) -> bool {
    forall|i: int, j: int| 0 <= i < j < s.len() ==> #[trigger] s[i].last_activity_at_ms >= #[trigger] s[j].last_activity_at_ms
}

/// `sessions`, most recently active first.
pub fn sort_by_recent(sessions: Vec<SessionSummary>) -> (res: Vec<SessionSummary>)
    ensures
        res@.to_multiset() == sessions@.to_multiset(),
        most_recent_first(res@),
{
    let mut sorted: Vec<SessionSummary> = Vec::new();
    let mut rest = sessions;
    let ghost original = rest@;
    proof {
        broadcast use vstd::multiset::group_multiset_axioms;
        assert(sorted@ =~= Seq::<SessionSummary>::empty());
        vstd::seq_lib::to_multiset_len(sorted@);
        vstd::multiset::lemma_multiset_empty_len(sorted@.to_multiset());
        assert(sorted@.to_multiset() =~= vstd::multiset::Multiset::empty());
        assert(sorted@.to_multiset().add(rest@.to_multiset()) =~= original.to_multiset());
    }
    while rest.len() > 0
        invariant
            sorted@.to_multiset().add(rest@.to_multiset()) == original.to_multiset(),
            most_recent_first(sorted@),
        decreases rest.len(),
    {
        let ghost rest_before = rest@;
        let item = rest.pop().unwrap();
        proof {
            assert(rest_before =~= rest@.push(item));
            vstd::seq_lib::to_multiset_build(rest@, item);
        }
        let key = item.last_activity_at_ms;
        let mut k: usize = 0;
        while k < sorted.len() && sorted[k].last_activity_at_ms >= key
            invariant
                k <= sorted@.len(),
                forall|i: int| 0 <= i < k ==> #[trigger] sorted@[i].last_activity_at_ms >= key,
            decreases sorted.len() - k,
        {
            k = k + 1;
        }
        let ghost before = sorted@;
        sorted.insert(k, item);
        proof {
            assert(sorted@ == before.insert(k as int, item));
            vstd::seq_lib::to_multiset_insert(before, k as int, item);
            broadcast use vstd::multiset::group_multiset_axioms;
            assert(sorted@.to_multiset().add(rest@.to_multiset()) =~= before.to_multiset().add(rest_before.to_multiset()));
            assert forall|i: int, j: int| 0 <= i < j < sorted@.len() implies #[trigger] sorted@[i].last_activity_at_ms
                >= #[trigger] sorted@[j].last_activity_at_ms by {
                if j < k {
                    assert(sorted@[i] == before[i] && sorted@[j] == before[j]);
                } else if j == k {
                    assert(sorted@[i] == before[i]);
                } else if i == k {
                    assert(sorted@[j] == before[j - 1]);
                    if k < before.len() {
                        assert(!(before[k as int].last_activity_at_ms >= key));
                        assert(before[k as int].last_activity_at_ms >= before[j - 1].last_activity_at_ms
                            || k == j - 1);
                    }
                } else if i < k {
                    assert(sorted@[i] == before[i] && sorted@[j] == before[j - 1]);
                } else {
                    assert(sorted@[i] == before[i - 1] && sorted@[j] == before[j - 1]);
                }
            }
        }
    }
    proof {
        broadcast use vstd::multiset::group_multiset_axioms;
        assert(rest@ =~= Seq::<SessionSummary>::empty());
        vstd::seq_lib::to_multiset_len(rest@);
        vstd::multiset::lemma_multiset_empty_len(rest@.to_multiset());
        assert(rest@.to_multiset() =~= vstd::multiset::Multiset::empty());
        assert(sorted@.to_multiset().add(rest@.to_multiset()) =~= sorted@.to_multiset());
    }
    sorted
}

/// `acc` with the entries of `candidates` it lacks appended in order; the
/// appending stops once an append brings it to `limit` entries. The first
/// of the pair is the list, the second whether it stopped there.
pub open spec fn add_new(acc: Seq<Seq<char>>, candidates: Seq<Seq<char>>, limit: nat) -> (Seq<Seq<char>>, bool)
    decreases candidates.len(),
{
    if candidates.len() == 0 {
        (acc, false)
    } else if acc.contains(candidates[0]) {
        add_new(acc, candidates.drop_first(), limit)
    } else {
        let next = acc.push(candidates[0]);
        if next.len() >= limit { (next, true) } else { add_new(next, candidates.drop_first(), limit) }
    }
}

fn contains_text(items: &Vec<String>, item: &str) -> (res: bool)
    ensures
        res == string_texts(items@).contains(item@),
{
    let mut i: usize = 0;
    while i < items.len()
        invariant
            i <= items@.len(),
            forall|j: int| 0 <= j < i ==> #[trigger] items@[j]@ != item@,
        decreases items.len() - i,
    {
        if str_equal(items[i].as_str(), item) {
            assert(string_texts(items@)[i as int] == item@);
            return true;
        }
        i = i + 1;
    }
    proof {
        if string_texts(items@).contains(item@) {
            let j = choose|j: int| 0 <= j < string_texts(items@).len() && string_texts(items@)[j] == item@;
            assert(items@[j]@ == item@);
        }
    }
    false
}

/// Appends to `paths` the entries of `candidates` it lacks, in order,
/// stopping once an append brings it to `limit` entries; says whether it
/// stopped there.
pub fn add_new_paths(paths: &mut Vec<String>, candidates: &Vec<String>, limit: usize) -> (stopped: bool)
    ensures
        (string_texts(final(paths)@), stopped) == add_new(string_texts(old(paths)@), string_texts(candidates@), limit as nat),
{
    let ghost start = string_texts(paths@);
    let ghost all = string_texts(candidates@);
    let mut i: usize = 0;
    proof {
        assert(all.skip(0) =~= all);
    }
    while i < candidates.len()
        invariant
            i <= candidates@.len(),
            all == string_texts(candidates@),
            start == string_texts(old(paths)@),
            add_new(start, all, limit as nat) == add_new(string_texts(paths@), all.skip(i as int), limit as nat),
        decreases candidates.len() - i,
    {
        proof {
            assert(all.skip(i as int).drop_first() =~= all.skip(i + 1));
            assert(all.skip(i as int)[0] == candidates@[i as int]@);
        }
        if !contains_text(paths, candidates[i].as_str()) {
            let ghost before = string_texts(paths@);
            paths.push(candidates[i].clone());
            assert(string_texts(paths@) =~= before.push(candidates@[i as int]@));
            if paths.len() >= limit {
                proof {
                    assert(!before.contains(all.skip(i as int)[0]));
                    assert(string_texts(paths@).len() >= limit);
                    assert(add_new(before, all.skip(i as int), limit as nat) == (string_texts(paths@), true));
                }
                return true;
            }
        }
        i = i + 1;
    }
    proof {
        assert(all.skip(i as int) =~= Seq::<Seq<char>>::empty());
    }
    false
}

/// The working directories of `sessions` (most recently active first), each
/// once, in order of first use, up to `limit`; as the manager reports them,
/// a limit of zero still gives the first one.
pub fn recent_working_directories(sessions: &Vec<SessionSummary>, limit: usize) -> (res: Vec<String>)
    ensures
        string_texts(res@) == add_new(Seq::empty(), sessions@.map_values(|s: SessionSummary| s.working_directory_label@),
            limit as nat).0,
{
    let mut labels: Vec<String> = Vec::new();
    let mut i: usize = 0;
    while i < sessions.len()
        invariant
            i <= sessions@.len(),
            string_texts(labels@) == sessions@.take(i as int).map_values(|s: SessionSummary| s.working_directory_label@),
        decreases sessions.len() - i,
    {
        let ghost before = string_texts(labels@);
        let label = sessions[i].working_directory_label.clone();
        assert(label@ == sessions@[i as int].working_directory_label@);
        labels.push(label);
        assert(string_texts(labels@) =~= before.push(label@));
        assert(sessions@.take(i + 1) =~= sessions@.take(i as int).push(sessions@[i as int]));
        i = i + 1;
        assert(string_texts(labels@) =~= sessions@.take(i as int).map_values(
            |s: SessionSummary| s.working_directory_label@,
        ));
    }
    assert(sessions@.take(i as int) =~= sessions@);
    let mut paths: Vec<String> = Vec::new();
    assert(string_texts(paths@) =~= Seq::<Seq<char>>::empty());
    add_new_paths(&mut paths, &labels, limit);
    paths
}

/// The number of sessions whose status counts as active.
pub open spec fn active_count(statuses: Seq<SessionStatus>) -> nat
    decreases statuses.len(),
{
    if statuses.len() == 0 {
        0
    } else {
        active_count(statuses.drop_last()) + if statuses.last() is Exited || statuses.last() is Failed {
            0nat
        } else {
            1nat
        }
    }
}

/// The active count is the number of sessions that are idle, working or
/// waiting for a permission answer: exited and failed sessions are the only
/// ones left out.
pub proof fn law_active_count_counts_live_sessions(statuses: Seq<SessionStatus>)
    ensures
        active_count(statuses) == statuses.filter(
            |s: SessionStatus|
                s == SessionStatus::Idle || s == SessionStatus::Working || s == SessionStatus::WaitingPermission,
        ).len(),
    decreases statuses.len(),
{
    reveal(Seq::filter);
    if statuses.len() > 0 {
        law_active_count_counts_live_sessions(statuses.drop_last());
    }
}

/// How many of `sessions` are idle, working or waiting for a permission.
pub fn active_session_count(sessions: &Vec<SessionSummary>) -> (res: usize)
    ensures
        res == active_count(sessions@.map_values(|s: SessionSummary| s.status)),
{
    let ghost statuses = sessions@.map_values(|s: SessionSummary| s.status);
    let mut count: usize = 0;
    let mut i: usize = 0;
    while i < sessions.len()
        invariant
            i <= sessions@.len(),
            statuses == sessions@.map_values(|s: SessionSummary| s.status),
            count == active_count(statuses.take(i as int)),
            count <= i,
        decreases sessions.len() - i,
    {
        proof {
            assert(statuses.take(i + 1).drop_last() =~= statuses.take(i as int));
            assert(statuses.take(i + 1).last() == sessions@[i as int].status);
        }
        if is_active(sessions[i].status) {
            count = count + 1;
        }
        i = i + 1;
    }
    assert(statuses.take(i as int) =~= statuses);
    count
}

/// The native session ids of agent `agent` among `owned`, pairs of an
/// agent name and the native session it opened, if any; each once.
pub fn imported_agent_session_ids(owned: &Vec<(String, Option<String>)>, agent: &str) -> (res: Vec<String>)
    ensures
        forall|id: Seq<char>| string_texts(res@).contains(id) <==> exists|i: int| 0 <= i < owned@.len() && (
            #[trigger] owned@[i]).0@ == agent@ && (owned@[i].1 matches Some(s) && s@ == id),
{
    let mut ids: Vec<String> = Vec::new();
    let mut i: usize = 0;
    while i < owned.len()
        invariant
            i <= owned@.len(),
            forall|id: Seq<char>| string_texts(ids@).contains(id) <==> exists|k: int| 0 <= k < i && (
                #[trigger] owned@[k]).0@ == agent@ && (owned@[k].1 matches Some(s) && s@ == id),
        decreases owned.len() - i,
    {
        let entry = &owned[i];
        let ghost before = string_texts(ids@);
        if str_equal(entry.0.as_str(), agent) {
            match &entry.1 {
                Some(id) => {
                    if !contains_text(&ids, id.as_str()) {
                        ids.push(id.clone());
                        assert(string_texts(ids@) =~= before.push(id@));
                    }
                },
                None => {},
            }
        }
        proof {
            let e = owned@[i as int];
            assert forall|x: Seq<char>| string_texts(ids@).contains(x) <==> exists|k: int| 0 <= k < i + 1 && (
                #[trigger] owned@[k]).0@ == agent@ && (owned@[k].1 matches Some(s) && s@ == x) by {
                let here = e.0@ == agent@ && (e.1 matches Some(s) && s@ == x);
                let earlier = exists|k: int| 0 <= k < i && (#[trigger] owned@[k]).0@ == agent@ && (
                    owned@[k].1 matches Some(s) && s@ == x);
                if here {
                    assert(string_texts(ids@).contains(x)) by {
                        if before.contains(x) {
                            let j = choose|j: int| 0 <= j < before.len() && before[j] == x;
                            assert(string_texts(ids@)[j] == x);
                        } else {
                            assert(string_texts(ids@)[before.len() as int] == x);
                        }
                    }
                }
                if earlier {
                    assert(before.contains(x));
                    let j = choose|j: int| 0 <= j < before.len() && before[j] == x;
                    assert(string_texts(ids@)[j] == x);
                }
                if string_texts(ids@).contains(x) {
                    let j = choose|j: int| 0 <= j < string_texts(ids@).len() && string_texts(ids@)[j] == x;
                    if j < before.len() {
                        assert(before[j] == x);
                        assert(before.contains(x));
                        assert(earlier);
                    } else {
                        assert(here);
                    }
                }
                if exists|k: int| 0 <= k < i + 1 && (#[trigger] owned@[k]).0@ == agent@ && (owned@[k].1 matches Some(s)
                    && s@ == x) {
                    let k = choose|k: int| 0 <= k < i + 1 && (#[trigger] owned@[k]).0@ == agent@ && (owned@[k].1 matches Some(s)
                        && s@ == x);
                    if k < i {
                        assert(earlier);
                    } else {
                        assert(here);
                    }
                }
            }
        }
        i = i + 1;
    }
    ids
}

} // verus!
