use engram_core::orchestrate::{plan_index, smart_index, IndexPlan};
use engram_core::store::{Database, IndexingState};
use engram_core::strategy::Strategy;
use git2::{Repository, Signature};
use std::time::{SystemTime, UNIX_EPOCH};
use tempfile::TempDir;

fn orch_repo(commits: &[Vec<(&str, &str)>]) -> TempDir {
    let dir = TempDir::new().unwrap();
    let repo = Repository::init(dir.path()).unwrap();
    let sig = Signature::now("Test", "test@test.com").unwrap();

    // Commits are built through the repository index from in-memory
    // buffers; file contents accumulate across commits.
    let mut state: Vec<(String, String)> = Vec::new();
    for (i, files) in commits.iter().enumerate() {
        for (path, content) in files {
            if let Some(slot) = state.iter_mut().find(|(p, _)| p == path) {
                slot.1 = content.to_string();
            } else {
                state.push((path.to_string(), content.to_string()));
            }
        }
        let mut index = repo.index().unwrap();
        index.clear().unwrap();
        for (p, c) in &state {
            let entry = git2::IndexEntry {
                ctime: git2::IndexTime::new(0, 0),
                mtime: git2::IndexTime::new(0, 0),
                dev: 0,
                ino: 0,
                mode: 0o100644,
                uid: 0,
                gid: 0,
                file_size: c.len() as u32,
                id: git2::Oid::zero(),
                flags: 0,
                flags_extended: 0,
                path: p.clone().into_bytes(),
            };
            index.add_frombuffer(&entry, c.as_bytes()).unwrap();
        }
        let tree_id = index.write_tree().unwrap();
        let tree = repo.find_tree(tree_id).unwrap();

        if i == 0 {
            repo.commit(Some("HEAD"), &sig, &sig, &format!("commit {i}"), &tree, &[]).unwrap();
        } else {
            let parent = repo.head().unwrap().peel_to_commit().unwrap();
            repo.commit(Some("HEAD"), &sig, &sig, &format!("commit {i}"), &tree, &[&parent])
                .unwrap();
        }
    }

    dir
}

fn head_of(repo: &Repository) -> String {
    repo.head().unwrap().peel_to_commit().unwrap().id().to_string()
}

fn epoch_now() -> i64 {
    SystemTime::now().duration_since(UNIX_EPOCH).unwrap().as_secs() as i64
}

#[test]
fn test_smart_index_small_repo() {
    let commits = vec![
        vec![("a.rs", "v0"), ("b.rs", "v0")],
        vec![("a.rs", "v1"), ("b.rs", "v1")],
    ];
    let dir = orch_repo(&commits);
    let repo = Repository::open(dir.path()).unwrap();
    let mut db = Database::in_memory().unwrap();
    let head = head_of(&repo);

    let result = smart_index(&repo, &mut db, &head, "a.rs", epoch_now(), 5000, None).unwrap();

    assert_eq!(result.strategy, Strategy::Complete);
    assert!(result.is_complete);
    assert!(!result.needs_background);
    assert_eq!(result.commits_indexed, 2);
}

#[test]
fn test_smart_index_pathfiltered_different_file() {
    let commits = vec![
        vec![("src/a.rs", "v0"), ("src/b.rs", "v0")],
        vec![("src/a.rs", "v1"), ("src/b.rs", "v1")],
    ];
    let dir = orch_repo(&commits);
    let repo = Repository::open(dir.path()).unwrap();
    let mut db = Database::in_memory().unwrap();

    let head = head_of(&repo);
    db.set_indexing_state(&IndexingState {
        head_commit: head.clone(),
        resume_oid: Some("deadbeef".to_string()),
        commits_indexed: 50,
        strategy: "path_filtered".to_string(),
        is_complete: false,
        last_updated: epoch_now(),
        target_path: Some("src/a.rs".to_string()),
    })
    .unwrap();

    let result = smart_index(&repo, &mut db, &head, "src/b.rs", epoch_now(), 5000, None).unwrap();

    // The stored cursor belongs to another file's walk: a fresh walk runs
    // for the new file.  A small repository completes within the budget.
    assert_eq!(result.strategy, Strategy::PathFiltered);
    assert!(result.is_complete);

    let state = db.get_indexing_state().unwrap().unwrap();
    assert_eq!(state.target_path, Some("src/b.rs".to_string()));
    assert_ne!(state.resume_oid, Some("deadbeef".to_string()));
}

#[test]
fn test_smart_index_subsequent_call_fast() {
    let commits = vec![vec![("a.rs", "v0")], vec![("a.rs", "v1")]];
    let dir = orch_repo(&commits);
    let repo = Repository::open(dir.path()).unwrap();
    let mut db = Database::in_memory().unwrap();
    let head = head_of(&repo);

    let r1 = smart_index(&repo, &mut db, &head, "a.rs", epoch_now(), 5000, None).unwrap();
    assert!(r1.is_complete);

    let start = std::time::Instant::now();
    let r2 = smart_index(&repo, &mut db, &head, "a.rs", epoch_now(), 5000, None).unwrap();
    let elapsed = start.elapsed();

    assert!(r2.is_complete);
    assert!(!r2.needs_background);
    assert!(elapsed.as_millis() < 50, "Subsequent call took too long: {:?}", elapsed);
}

#[test]
fn test_head_change_restarts_indexing() {
    // After HEAD changes, a fresh call records the new HEAD and counts
    // only the commits of the new run, while the old rows persist.
    let commits = vec![
        vec![("a.rs", "v0"), ("b.rs", "v0")],
        vec![("a.rs", "v1"), ("b.rs", "v1")],
        vec![("a.rs", "v2"), ("b.rs", "v2")],
    ];
    let dir = orch_repo(&commits);
    let repo = Repository::open(dir.path()).unwrap();
    let mut db = Database::in_memory().unwrap();

    // Pretend a previous run finished at some other HEAD.
    db.insert_commit("oldcommit", &vec!["a.rs".to_string(), "c.rs".to_string()], 10).unwrap();
    db.set_indexing_state(&IndexingState {
        head_commit: "some-older-head".to_string(),
        resume_oid: None,
        commits_indexed: 7,
        strategy: "complete".to_string(),
        is_complete: true,
        last_updated: epoch_now(),
        target_path: None,
    })
    .unwrap();

    let head = head_of(&repo);
    let result = smart_index(&repo, &mut db, &head, "a.rs", epoch_now(), 5000, None).unwrap();

    let state = db.get_indexing_state().unwrap().unwrap();
    assert_eq!(state.head_commit, head, "the new HEAD is recorded");
    assert_eq!(result.commits_indexed, 3, "only the new run's commits are counted");
    assert_eq!(state.commits_indexed, 3);
    // Historical rows are still there: the old commit still counts.
    assert_eq!(db.co_change_count("a.rs", "c.rs").unwrap(), 1);
}

#[test]
fn test_smart_index_huge_repo_skips_probe() {
    // A huge working-copy index short-circuits straight to the
    // path-filtered strategy and records the target file.
    let commits = vec![
        vec![("src/a.rs", "v0"), ("src/b.rs", "v0")],
        vec![("src/a.rs", "v1")],
    ];
    let dir = orch_repo(&commits);
    let repo = Repository::open(dir.path()).unwrap();
    let mut db = Database::in_memory().unwrap();
    let head = head_of(&repo);

    let result = smart_index(&repo, &mut db, &head, "src/a.rs", epoch_now(), 5000, Some(5_000_000)).unwrap();

    assert_eq!(result.strategy, Strategy::PathFiltered);
    let state = db.get_indexing_state().unwrap().unwrap();
    assert_eq!(state.strategy, "path_filtered");
    assert_eq!(state.target_path, Some("src/a.rs".to_string()));
}

#[test]
fn test_plan_decision_table() {
    let fresh = |head: &str, complete: bool, strategy: &str, target: Option<&str>,
                 cursor: Option<&str>, updated: i64| IndexingState {
        head_commit: head.to_string(),
        resume_oid: cursor.map(|s| s.to_string()),
        commits_indexed: 10,
        strategy: strategy.to_string(),
        is_complete: complete,
        last_updated: updated,
        target_path: target.map(|s| s.to_string()),
    };

    // No state, or another HEAD: start from scratch.
    assert_eq!(plan_index(&None, "h1", "a.rs", 100), IndexPlan::FreshStart);
    let other = Some(fresh("h0", false, "budgeted_global", None, None, 100));
    assert_eq!(plan_index(&other, "h1", "a.rs", 100), IndexPlan::FreshStart);

    // Complete at this HEAD: cached.
    let done = Some(fresh("h1", true, "complete", None, None, 100));
    assert_eq!(plan_index(&done, "h1", "a.rs", 100), IndexPlan::CachedComplete);

    // Path-filtered for another file: fresh walk; same file: cached.
    let pf_other = Some(fresh("h1", false, "path_filtered", Some("b.rs"), Some("x"), 100));
    assert_eq!(plan_index(&pf_other, "h1", "a.rs", 100), IndexPlan::FreshPathFiltered);
    let pf_same = Some(fresh("h1", false, "path_filtered", Some("a.rs"), Some("x"), 100));
    assert_eq!(plan_index(&pf_same, "h1", "a.rs", 100), IndexPlan::CachedPathFiltered);

    // Global, stale or holding a cursor: resume; fresh and cursorless: busy.
    let stale = Some(fresh("h1", false, "budgeted_global", None, None, 100));
    assert_eq!(plan_index(&stale, "h1", "a.rs", 200), IndexPlan::ResumeGlobal);
    let cursor = Some(fresh("h1", false, "budgeted_global", None, Some("x"), 200));
    assert_eq!(plan_index(&cursor, "h1", "a.rs", 200), IndexPlan::ResumeGlobal);
    let busy = Some(fresh("h1", false, "budgeted_global", None, None, 195));
    assert_eq!(plan_index(&busy, "h1", "a.rs", 200), IndexPlan::CachedBusy);
}

#[test]
fn test_resume_drops_dead_cursor() {
    // A stale global record whose cursor no longer exists in history: the
    // resume finds nothing, and the rewritten state drops the dead cursor
    // so a later call does not retry it forever.
    let commits = vec![vec![("a.rs", "v0")], vec![("a.rs", "v1")]];
    let dir = orch_repo(&commits);
    let repo = Repository::open(dir.path()).unwrap();
    let mut db = Database::in_memory().unwrap();
    let head = head_of(&repo);

    db.set_indexing_state(&IndexingState {
        head_commit: head.clone(),
        resume_oid: Some("deadbeef".to_string()),
        commits_indexed: 5,
        strategy: "budgeted_global".to_string(),
        is_complete: false,
        last_updated: 0,
        target_path: None,
    })
    .unwrap();

    let result = smart_index(&repo, &mut db, &head, "a.rs", epoch_now(), 5000, None).unwrap();
    assert!(!result.is_complete, "nothing was reached, so indexing is not complete");

    let state = db.get_indexing_state().unwrap().unwrap();
    assert!(state.resume_oid.is_none(), "the dead cursor is dropped");
    assert!(!state.is_complete);
    assert_eq!(state.commits_indexed, 5, "the stored count is kept");
}
