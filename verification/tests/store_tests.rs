use engram_core::store::{Database, IndexingState};

fn files(v: &[&str]) -> Vec<String> {
    v.iter().map(|s| s.to_string()).collect()
}

#[test]
fn test_insert_and_query_cochange() {
    let mut db = Database::in_memory().unwrap();

    db.insert_commit("abc123", &files(&["src/A.ts", "src/B.ts"]), 1000).unwrap();
    db.insert_commit("def456", &files(&["src/A.ts", "src/B.ts"]), 2000).unwrap();
    db.insert_commit("ghi789", &files(&["src/A.ts", "src/C.ts"]), 3000).unwrap();

    assert_eq!(db.co_change_count("src/A.ts", "src/B.ts").unwrap(), 2);
    assert_eq!(db.co_change_count("src/A.ts", "src/C.ts").unwrap(), 1);
    assert_eq!(db.co_change_count("src/B.ts", "src/C.ts").unwrap(), 0);
}

#[test]
fn test_co_change_symmetry() {
    let mut db = Database::in_memory().unwrap();
    db.insert_commit("c1", &files(&["a.ts", "b.ts"]), 100).unwrap();
    db.insert_commit("c2", &files(&["a.ts", "b.ts", "c.ts"]), 200).unwrap();
    db.insert_commit("c3", &files(&["b.ts", "c.ts"]), 300).unwrap();

    assert_eq!(
        db.co_change_count("a.ts", "b.ts").unwrap(),
        db.co_change_count("b.ts", "a.ts").unwrap()
    );
    assert_eq!(
        db.co_change_count("b.ts", "c.ts").unwrap(),
        db.co_change_count("c.ts", "b.ts").unwrap()
    );
}

#[test]
fn test_coupled_files() {
    let mut db = Database::in_memory().unwrap();

    for i in 0..10 {
        db.insert_commit(&format!("commit_{i}"), &files(&["src/A.ts", "src/B.ts"]), 1000 + i)
            .unwrap();
    }
    db.insert_commit("single", &files(&["src/A.ts", "src/C.ts"]), 2000).unwrap();

    let coupled = db.coupled_files("src/A.ts").unwrap();
    assert_eq!(coupled.len(), 2);
    assert_eq!(coupled[0].0, "src/B.ts");
    assert_eq!(coupled[0].1, 10);
    assert_eq!(coupled[1].0, "src/C.ts");
    assert_eq!(coupled[1].1, 1);
}

#[test]
fn test_commit_count() {
    let mut db = Database::in_memory().unwrap();
    db.insert_commit("a", &files(&["x.ts"]), 100).unwrap();
    db.insert_commit("b", &files(&["x.ts"]), 200).unwrap();
    db.insert_commit("c", &files(&["y.ts"]), 300).unwrap();

    assert_eq!(db.commit_count("x.ts").unwrap(), 2);
    assert_eq!(db.commit_count("y.ts").unwrap(), 1);
}

#[test]
fn test_indexing_state_roundtrip() {
    let mut db = Database::in_memory().unwrap();

    assert!(db.get_indexing_state().unwrap().is_none());
    assert!(db.is_first_index_call().unwrap());

    let state = IndexingState {
        head_commit: "abc123".to_string(),
        resume_oid: Some("def456".to_string()),
        commits_indexed: 500,
        strategy: "path_filtered".to_string(),
        is_complete: false,
        last_updated: 1700000000,
        target_path: Some("kernel/sched/core.c".to_string()),
    };
    db.set_indexing_state(&state).unwrap();

    let loaded = db.get_indexing_state().unwrap().unwrap();
    assert_eq!(loaded.head_commit, "abc123");
    assert_eq!(loaded.resume_oid, Some("def456".to_string()));
    assert_eq!(loaded.commits_indexed, 500);
    assert_eq!(loaded.strategy, "path_filtered");
    assert!(!loaded.is_complete);
    assert_eq!(loaded.last_updated, 1700000000);
    assert_eq!(loaded.target_path, Some("kernel/sched/core.c".to_string()));
    assert!(!db.is_first_index_call().unwrap());
}

#[test]
fn test_indexing_state_overwrite() {
    let mut db = Database::in_memory().unwrap();

    let state1 = IndexingState {
        head_commit: "aaa".to_string(),
        resume_oid: None,
        commits_indexed: 100,
        strategy: "global".to_string(),
        is_complete: false,
        last_updated: 1000,
        target_path: None,
    };
    db.set_indexing_state(&state1).unwrap();

    let state2 = IndexingState {
        head_commit: "bbb".to_string(),
        resume_oid: None,
        commits_indexed: 1000,
        strategy: "global".to_string(),
        is_complete: true,
        last_updated: 2000,
        target_path: None,
    };
    db.set_indexing_state(&state2).unwrap();

    let loaded = db.get_indexing_state().unwrap().unwrap();
    assert_eq!(loaded.head_commit, "bbb");
    assert!(loaded.is_complete);
    assert_eq!(loaded.commits_indexed, 1000);
}

#[test]
fn test_stale_lock_detection() {
    let mut db = Database::in_memory().unwrap();

    let state = IndexingState {
        head_commit: "abc".to_string(),
        resume_oid: Some("def".to_string()),
        commits_indexed: 50,
        strategy: "global".to_string(),
        is_complete: false,
        last_updated: 1000,
        target_path: None,
    };
    db.set_indexing_state(&state).unwrap();

    let loaded = db.get_indexing_state().unwrap().unwrap();
    let now = 1020;
    let is_stale = !loaded.is_complete && (now - loaded.last_updated) > 10;
    assert!(is_stale, "Should detect stale incomplete indexing state");
}

#[test]
fn test_duplicate_insert_ignored() {
    let mut db = Database::in_memory().unwrap();

    db.insert_commit("abc", &files(&["a.ts", "b.ts"]), 100).unwrap();
    db.insert_commit("abc", &files(&["a.ts", "b.ts"]), 100).unwrap();

    assert_eq!(db.co_change_count("a.ts", "b.ts").unwrap(), 1);
}

#[test]
fn test_coupled_files_with_stats() {
    let mut db = Database::in_memory().unwrap();

    db.insert_commit("c1", &files(&["A.ts", "B.ts"]), 1000).unwrap();
    db.insert_commit("c2", &files(&["A.ts", "B.ts"]), 2000).unwrap();
    db.insert_commit("c3", &files(&["A.ts", "B.ts", "C.ts"]), 3000).unwrap();
    db.insert_commit("c4", &files(&["B.ts"]), 4000).unwrap();

    let stats = db.coupled_files_with_stats("A.ts").unwrap();
    assert_eq!(stats.len(), 2);

    assert_eq!(stats[0].path, "B.ts");
    assert_eq!(stats[0].co_change_count, 3);
    assert_eq!(stats[0].total_commits, 4);
    assert_eq!(stats[0].last_timestamp, 3000);

    assert_eq!(stats[1].path, "C.ts");
    assert_eq!(stats[1].co_change_count, 1);
    assert_eq!(stats[1].total_commits, 1);
    assert_eq!(stats[1].last_timestamp, 3000);
}

#[test]
fn test_commit_time_range() {
    let mut db = Database::in_memory().unwrap();

    let (oldest, newest) = db.commit_time_range().unwrap();
    assert_eq!(oldest, 0);
    assert_eq!(newest, 0);

    db.insert_commit("c1", &files(&["a.ts"]), 1000).unwrap();
    db.insert_commit("c2", &files(&["b.ts"]), 5000).unwrap();
    db.insert_commit("c3", &files(&["c.ts"]), 3000).unwrap();

    let (oldest, newest) = db.commit_time_range().unwrap();
    assert_eq!(oldest, 1000);
    assert_eq!(newest, 5000);
}

#[test]
fn test_add_and_retrieve_memory() {
    let mut db = Database::in_memory().unwrap();
    let id = db.add_memory("src/Auth.ts", None, "Auth handles JWT tokens").unwrap();
    assert!(id > 0);

    let memories = db.memories_for_file("src/Auth.ts").unwrap();
    assert_eq!(memories.len(), 1);
    assert_eq!(memories[0].content, "Auth handles JWT tokens");
    assert_eq!(memories[0].file_path, "src/Auth.ts");
    assert!(memories[0].symbol_name.is_none());
}

#[test]
fn test_memory_with_symbol_name() {
    let mut db = Database::in_memory().unwrap();
    db.add_memory("src/Auth.ts", Some("validateToken"), "Must check expiry").unwrap();

    let memories = db.memories_for_file("src/Auth.ts").unwrap();
    assert_eq!(memories.len(), 1);
    assert_eq!(memories[0].symbol_name, Some("validateToken".to_string()));
}

#[test]
fn test_search_memories_by_content() {
    let mut db = Database::in_memory().unwrap();
    db.add_memory("src/Auth.ts", None, "Uses JWT for authentication").unwrap();
    db.add_memory("src/Session.ts", None, "Session persistence layer").unwrap();

    let results = db.search_memories("JWT").unwrap();
    assert_eq!(results.len(), 1);
    assert_eq!(results[0].file_path, "src/Auth.ts");
}

#[test]
fn test_search_memories_by_path() {
    let mut db = Database::in_memory().unwrap();
    db.add_memory("src/Auth.ts", None, "Handles login").unwrap();
    db.add_memory("src/Session.ts", None, "Handles sessions").unwrap();

    let results = db.search_memories("Auth").unwrap();
    assert_eq!(results.len(), 1);
    assert_eq!(results[0].file_path, "src/Auth.ts");
}

#[test]
fn test_list_all_memories() {
    let mut db = Database::in_memory().unwrap();
    db.add_memory("src/A.ts", None, "Note A").unwrap();
    db.add_memory("src/B.ts", None, "Note B").unwrap();

    let all = db.list_memories(None).unwrap();
    assert_eq!(all.len(), 2);
}

#[test]
fn test_list_memories_filtered() {
    let mut db = Database::in_memory().unwrap();
    db.add_memory("src/A.ts", None, "Note A").unwrap();
    db.add_memory("src/B.ts", None, "Note B").unwrap();

    let filtered = db.list_memories(Some("src/A.ts")).unwrap();
    assert_eq!(filtered.len(), 1);
    assert_eq!(filtered[0].content, "Note A");
}

#[test]
fn test_batch_transaction_inserts() {
    let mut db = Database::in_memory().unwrap();

    db.begin_transaction().unwrap();
    for i in 0..100 {
        db.insert_commit(&format!("c{i}"), &files(&["batch.ts"]), i as i64 * 100).unwrap();
    }
    db.commit_transaction().unwrap();

    let count = db.commit_count("batch.ts").unwrap();
    assert_eq!(count, 100, "all 100 commits should be present after commit");
}

#[test]
fn test_empty_memory_result() {
    let db = Database::in_memory().unwrap();
    let memories = db.memories_for_file("src/NoExist.ts").unwrap();
    assert!(memories.is_empty());

    let search = db.search_memories("nothing").unwrap();
    assert!(search.is_empty());
}

#[test]
fn test_insert_and_query_metrics() {
    let mut db = Database::in_memory().unwrap();

    db.insert_metrics_event(
        "analysis",
        Some("src/A.ts"),
        5,
        1,
        2,
        1,
        1,
        2,
        5,
        10,
        150,
        None,
        "/repo/root",
    )
    .unwrap();

    db.insert_metrics_event(
        "analysis",
        Some("src/B.ts"),
        3,
        0,
        1,
        1,
        1,
        1,
        3,
        5,
        100,
        None,
        "/repo/root",
    )
    .unwrap();

    db.insert_metrics_event(
        "add_note",
        Some("src/C.ts"),
        0,
        0,
        0,
        0,
        0,
        0,
        0,
        0,
        0,
        Some(1),
        "/repo/root",
    )
    .unwrap();

    let summary = db.get_metrics_summary("/repo/root").unwrap();
    assert_eq!(summary.total_analyses, 2);
    assert_eq!(summary.notes_created, 1);
    assert_eq!(summary.total_coupled_files, 8);
    assert_eq!(summary.critical_risk_count, 1);
    assert_eq!(summary.high_risk_count, 3);
    assert_eq!(summary.medium_risk_count, 2);
    assert_eq!(summary.low_risk_count, 2);
    assert_eq!(summary.test_files_found, 3);
    assert_eq!(summary.test_intents_extracted, 8);
    assert_eq!(summary.avg_analysis_time_ms, 125);
}

#[test]
fn test_metrics_aggregation() {
    let mut db = Database::in_memory().unwrap();

    db.insert_metrics_event(
        "analysis",
        Some("src/A.ts"),
        2,
        1,
        0,
        0,
        1,
        1,
        2,
        5,
        100,
        None,
        "/repo1",
    )
    .unwrap();

    db.insert_metrics_event(
        "analysis",
        Some("src/B.ts"),
        3,
        0,
        1,
        1,
        1,
        1,
        3,
        8,
        200,
        None,
        "/repo2",
    )
    .unwrap();

    let summary1 = db.get_metrics_summary("/repo1").unwrap();
    assert_eq!(summary1.total_analyses, 1);
    assert_eq!(summary1.total_coupled_files, 2);

    let summary2 = db.get_metrics_summary("/repo2").unwrap();
    assert_eq!(summary2.total_analyses, 1);
    assert_eq!(summary2.total_coupled_files, 3);
}

#[test]
fn persistence_test_empty_metrics() {
    let db = Database::in_memory().unwrap();
    let summary = db.get_metrics_summary("/nonexistent").unwrap();
    assert_eq!(summary.total_analyses, 0);
    assert_eq!(summary.notes_created, 0);
    assert_eq!(summary.total_coupled_files, 0);
    assert_eq!(summary.avg_analysis_time_ms, 0);
}

#[test]
fn test_open_store_error() {
    let result = Database::open("/nonexistent-parent-dir/sub/engram.db");
    assert!(matches!(result, Err(engram_core::store::EngramError::Store(_))));
}
