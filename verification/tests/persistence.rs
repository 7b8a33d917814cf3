use slight::listing::{active_session_count, add_new_paths, imported_agent_session_ids, recent_working_directories, sort_by_recent};
use slight::session_types::{SessionRecoveryState, SessionStatus, SessionSummary};
use slight::store::{InMemoryStore, StoredEvent, StoredSession};

fn stored(id: &str, created: i64) -> StoredSession {
    StoredSession {
        session_id: id.to_string(),
        metadata: serde_json::from_str(r#"{"status":"idle"}"#).unwrap(),
        last_sequence: 0,
        created_at_ms: created,
        updated_at_ms: created,
    }
}

fn event(sequence: u64) -> StoredEvent {
    StoredEvent { sequence, event: serde_json::from_str(&format!(r#"{{"n":{sequence}}}"#)).unwrap() }
}

#[test]
fn store_reads_back_what_it_wrote() {
    let mut store = InMemoryStore::new();
    assert!(store.get_session("s-1").unwrap().is_none());
    store.upsert_session(stored("s-1", 20)).unwrap();
    store.upsert_session(stored("s-2", 10)).unwrap();
    let mut changed = stored("s-1", 20);
    changed.last_sequence = 7;
    store.upsert_session(changed).unwrap();
    let found = store.get_session("s-1").unwrap().unwrap();
    assert_eq!(found.last_sequence, 7);
    assert_eq!(found.metadata["status"], "idle");
    let listed = store.list_sessions().unwrap();
    assert_eq!(listed.len(), 2);
    assert_eq!(listed[0].session_id, "s-2");
    assert_eq!(listed[1].session_id, "s-1");
}

#[test]
fn store_keeps_events_per_session_in_order() {
    let mut store = InMemoryStore::new();
    assert_eq!(store.latest_sequence("s-1").unwrap(), 0);
    for sequence in 1..=5 {
        store.append_event("s-1", event(sequence)).unwrap();
    }
    store.append_event("s-2", event(9)).unwrap();
    assert_eq!(store.latest_sequence("s-1").unwrap(), 5);
    assert_eq!(store.latest_sequence("s-2").unwrap(), 9);
    let after: Vec<u64> = store.events_after("s-1", Some(2), 2).unwrap().iter().map(|e| e.sequence).collect();
    assert_eq!(after, vec![3, 4]);
    let all: Vec<u64> = store.events_after("s-1", None, 100).unwrap().iter().map(|e| e.sequence).collect();
    assert_eq!(all, vec![1, 2, 3, 4, 5]);
    assert!(store.events_after("missing", None, 10).unwrap().is_empty());
    assert_eq!(store.events_after("s-1", Some(1), 1).unwrap()[0].event["n"], 2);
}

fn summary(id: &str, dir: &str, last_activity: i64, status: SessionStatus) -> SessionSummary {
    SessionSummary {
        id: id.to_string(),
        title: id.to_string(),
        agent: "fake".to_string(),
        model: None,
        effort: None,
        working_directory_label: dir.to_string(),
        git_branch: None,
        status,
        created_at_ms: 0,
        last_activity_at_ms: last_activity,
        last_sequence: 0,
        recovery: SessionRecoveryState::Live,
        archived: false,
    }
}

#[test]
fn sessions_list_most_recent_first() {
    let sorted = sort_by_recent(vec![
        summary("a", "~/a", 10, SessionStatus::Idle),
        summary("b", "~/b", 30, SessionStatus::Exited),
        summary("c", "~/a", 20, SessionStatus::Working),
    ]);
    let ids: Vec<&str> = sorted.iter().map(|s| s.id.as_str()).collect();
    assert_eq!(ids, vec!["b", "c", "a"]);
    assert_eq!(active_session_count(&sorted), 2);
    let dirs = recent_working_directories(&sorted, 20);
    assert_eq!(dirs, vec!["~/b".to_string(), "~/a".to_string()]);
    let dirs = recent_working_directories(&sorted, 0);
    assert_eq!(dirs, vec!["~/b".to_string()]);
}

#[test]
fn workspace_paths_merge_until_the_limit() {
    let mut paths = vec!["/a".to_string()];
    let stopped = add_new_paths(&mut paths, &vec!["/a".to_string(), "/b".to_string(), "/c".to_string()], 2);
    assert!(stopped);
    assert_eq!(paths, vec!["/a".to_string(), "/b".to_string()]);
    let mut paths = vec!["/a".to_string()];
    assert!(!add_new_paths(&mut paths, &vec!["/a".to_string()], 5));
    assert_eq!(paths.len(), 1);
}

#[test]
fn imported_ids_are_those_of_the_agent() {
    let owned = vec![
        ("codex".to_string(), Some("n-1".to_string())),
        ("opencode".to_string(), Some("n-2".to_string())),
        ("codex".to_string(), None),
        ("codex".to_string(), Some("n-1".to_string())),
    ];
    assert_eq!(imported_agent_session_ids(&owned, "codex"), vec!["n-1".to_string()]);
}
