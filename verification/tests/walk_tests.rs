use engram_core::store::Database;
use engram_core::walk::{budgeted_global_index, diff_permitted, file_changed_in_commit, global_walk_should_stop, path_filtered_index};
use git2::{Repository, Signature};
use tempfile::TempDir;

fn walk_repo(commits: &[Vec<(&str, &str)>]) -> TempDir {
    let dir = TempDir::new().unwrap();
    let repo = Repository::init(dir.path()).unwrap();
    let sig = Signature::now("Test", "test@test.com").unwrap();

    // Commits are built through the repository index from in-memory
    // buffers; file contents accumulate across commits.
    let mut state: Vec<(String, String)> = Vec::new();
    for (i, files) in commits.iter().enumerate() {
        for (path, content) in files {
            if let Some(slot) = state.iter_mut().find(|(p, _)| p == path) {
                slot.1 = content.to_string();
            } else {
                state.push((path.to_string(), content.to_string()));
            }
        }
        let mut index = repo.index().unwrap();
        index.clear().unwrap();
        for (p, c) in &state {
            let entry = git2::IndexEntry {
                ctime: git2::IndexTime::new(0, 0),
                mtime: git2::IndexTime::new(0, 0),
                dev: 0,
                ino: 0,
                mode: 0o100644,
                uid: 0,
                gid: 0,
                file_size: c.len() as u32,
                id: git2::Oid::zero(),
                flags: 0,
                flags_extended: 0,
                path: p.clone().into_bytes(),
            };
            index.add_frombuffer(&entry, c.as_bytes()).unwrap();
        }
        let tree_id = index.write_tree().unwrap();
        let tree = repo.find_tree(tree_id).unwrap();

        if i == 0 {
            repo.commit(Some("HEAD"), &sig, &sig, &format!("commit {i}"), &tree, &[]).unwrap();
        } else {
            let parent = repo.head().unwrap().peel_to_commit().unwrap();
            repo.commit(Some("HEAD"), &sig, &sig, &format!("commit {i}"), &tree, &[&parent])
                .unwrap();
        }
    }

    dir
}

#[test]
fn test_file_changed_in_commit() {
    let commits = vec![
        vec![("src/a.rs", "v0"), ("src/b.rs", "v0")],
        vec![("src/a.rs", "v1")],
    ];
    let dir = walk_repo(&commits);
    let repo = Repository::open(dir.path()).unwrap();

    let head = repo.head().unwrap().peel_to_commit().unwrap().id().to_string();
    assert!(file_changed_in_commit(&repo, &head, "src/a.rs"));
    assert!(!file_changed_in_commit(&repo, &head, "src/b.rs"));
    assert!(!file_changed_in_commit(&repo, &head, "nonexistent.rs"));
}

#[test]
fn test_file_changed_in_first_commit() {
    let commits = vec![vec![("src/a.rs", "v0")]];
    let dir = walk_repo(&commits);
    let repo = Repository::open(dir.path()).unwrap();

    let head = repo.head().unwrap().peel_to_commit().unwrap().id().to_string();
    assert!(file_changed_in_commit(&repo, &head, "src/a.rs"));
    assert!(!file_changed_in_commit(&repo, &head, "nonexistent"));
}

#[test]
fn test_budgeted_global_index_basic() {
    let commits = vec![
        vec![("a.rs", "v0"), ("b.rs", "v0")],
        vec![("a.rs", "v1"), ("b.rs", "v1")],
        vec![("a.rs", "v2")],
    ];
    let dir = walk_repo(&commits);
    let repo = Repository::open(dir.path()).unwrap();
    let mut db = Database::in_memory().unwrap();

    let out = budgeted_global_index(&repo, &mut db, 10000, 1000, None, 100).unwrap();

    assert_eq!(out.commits_indexed, 3);
    assert!(out.hit_end);
    assert!(out.last_commit.is_some());

    assert_eq!(db.commit_count("a.rs").unwrap(), 3);
    assert_eq!(db.commit_count("b.rs").unwrap(), 2);
}

#[test]
fn test_budgeted_global_index_with_limit() {
    let mut commits = Vec::new();
    for i in 0..20 {
        commits.push(vec![("a.rs", if i % 2 == 0 { "even" } else { "odd" })]);
    }
    let dir = walk_repo(&commits);
    let repo = Repository::open(dir.path()).unwrap();
    let mut db = Database::in_memory().unwrap();

    let out = budgeted_global_index(&repo, &mut db, 10000, 5, None, 100).unwrap();

    assert_eq!(out.commits_indexed, 5);
    assert!(!out.hit_end);
}

#[test]
fn test_budgeted_global_index_resume() {
    let commits = vec![
        vec![("a.rs", "v0")],
        vec![("a.rs", "v1")],
        vec![("a.rs", "v2")],
        vec![("a.rs", "v3")],
    ];
    let dir = walk_repo(&commits);
    let repo = Repository::open(dir.path()).unwrap();
    let mut db = Database::in_memory().unwrap();

    let first = budgeted_global_index(&repo, &mut db, 10000, 2, None, 100).unwrap();
    assert_eq!(first.commits_indexed, 2);

    let second = budgeted_global_index(
        &repo,
        &mut db,
        10000,
        2,
        first.last_commit.as_deref(),
        100,
    )
    .unwrap();
    assert_eq!(second.commits_indexed, 2);
    assert!(second.hit_end);

    assert_eq!(db.commit_count("a.rs").unwrap(), 4);
}

#[test]
fn test_path_filtered_index() {
    let commits = vec![
        vec![("src/target.rs", "v0"), ("src/other.rs", "v0")],
        vec![("src/other.rs", "v1")],
        vec![("src/target.rs", "v1"), ("src/coupled.rs", "v0")],
        vec![("src/other.rs", "v2")],
    ];
    let dir = walk_repo(&commits);
    let repo = Repository::open(dir.path()).unwrap();
    let mut db = Database::in_memory().unwrap();

    let out = path_filtered_index(&repo, &mut db, "src/target.rs", 10000, None, 100).unwrap();

    assert_eq!(out.commits_indexed, 2);

    let coupled = db.coupled_files("src/target.rs").unwrap();
    let has_coupled = coupled.iter().any(|(p, _)| p == "src/coupled.rs");
    assert!(has_coupled, "coupled.rs should be co-changed with target.rs");
}

#[test]
fn test_path_filtered_index_with_resume() {
    let commits = vec![
        vec![("src/target.rs", "v0"), ("src/a.rs", "v0")],
        vec![("src/a.rs", "v1")],
        vec![("src/target.rs", "v1"), ("src/b.rs", "v0")],
        vec![("src/a.rs", "v2")],
        vec![("src/target.rs", "v2"), ("src/c.rs", "v0")],
    ];
    let dir = walk_repo(&commits);
    let repo = Repository::open(dir.path()).unwrap();
    let mut db = Database::in_memory().unwrap();

    let first = path_filtered_index(&repo, &mut db, "src/target.rs", 10000, None, 100).unwrap();

    assert!(first.hit_end);
    let indexed1 = first.commits_indexed;
    assert!(indexed1 >= 2, "Expected at least 2 indexed, got {indexed1}");

    if let Some(ref resume_oid) = first.last_commit {
        let mut db2 = Database::in_memory().unwrap();
        let second = path_filtered_index(
            &repo,
            &mut db2,
            "src/target.rs",
            10000,
            Some(resume_oid),
            100,
        )
        .unwrap();
        let indexed2 = second.commits_indexed;
        assert!(indexed2 <= 1, "Resume should produce minimal new work, got {indexed2}");
    }
}

#[test]
fn test_path_filtered_safety_margin_prevents_diffs() {
    let commits = vec![
        vec![("src/target.rs", "v0"), ("src/coupled.rs", "v0")],
        vec![("src/target.rs", "v1"), ("src/coupled.rs", "v1")],
        vec![("src/target.rs", "v2"), ("src/coupled.rs", "v2")],
    ];
    let dir = walk_repo(&commits);
    let repo = Repository::open(dir.path()).unwrap();
    let mut db = Database::in_memory().unwrap();

    // A budget of 100 ms is under the 200 ms safety margin: the blob walk
    // runs but no diff may start, so nothing is indexed.
    let out = path_filtered_index(&repo, &mut db, "src/target.rs", 100, None, 100).unwrap();

    assert_eq!(out.commits_indexed, 0, "No diffs should run with budget < safety margin");
    assert!(!out.hit_end, "Should not have completed");
}

#[test]
fn test_resume_split_equals_single_run() {
    // Walking in two runs split at a cursor leaves exactly the rows of one
    // uninterrupted walk.
    let commits = vec![
        vec![("a.rs", "v0"), ("b.rs", "v0")],
        vec![("a.rs", "v1")],
        vec![("b.rs", "v1")],
        vec![("a.rs", "v2"), ("b.rs", "v2")],
    ];
    let dir = walk_repo(&commits);
    let repo = Repository::open(dir.path()).unwrap();

    let mut whole = Database::in_memory().unwrap();
    budgeted_global_index(&repo, &mut whole, 10000, 1000, None, 100).unwrap();

    let mut split = Database::in_memory().unwrap();
    let cursor = budgeted_global_index(&repo, &mut split, 10000, 2, None, 100)
        .unwrap()
        .last_commit;
    budgeted_global_index(&repo, &mut split, 10000, 1000, cursor.as_deref(), 100).unwrap();

    for file in ["a.rs", "b.rs"] {
        assert_eq!(
            whole.commit_count(file).unwrap(),
            split.commit_count(file).unwrap(),
            "split walk should index the same commits for {file}"
        );
    }
    assert_eq!(
        whole.co_change_count("a.rs", "b.rs").unwrap(),
        split.co_change_count("a.rs", "b.rs").unwrap()
    );
}

#[test]
fn test_budget_gates() {
    // The safety margin: a diff may start only with 200 ms or more left.
    assert!(diff_permitted(1000, 0));
    assert!(diff_permitted(1000, 800));
    assert!(!diff_permitted(1000, 801));
    assert!(!diff_permitted(1000, 1000));
    assert!(!diff_permitted(100, 0));

    // The global walk stops on a spent budget or a reached ceiling.
    assert!(!global_walk_should_stop(10, 100, 5, 1000));
    assert!(global_walk_should_stop(100, 100, 5, 1000));
    assert!(global_walk_should_stop(10, 100, 1000, 1000));
    assert!(global_walk_should_stop(0, 1, 0, 0));
}

#[test]
fn test_global_resume_cursor_not_found() {
    // A cursor that no longer exists (history rewritten) reports zero
    // progress and no end, so the caller never marks indexing complete
    // off a stale cursor.
    let commits = vec![vec![("a.rs", "v0")], vec![("a.rs", "v1")]];
    let dir = walk_repo(&commits);
    let repo = Repository::open(dir.path()).unwrap();
    let mut db = Database::in_memory().unwrap();

    let out = budgeted_global_index(&repo, &mut db, 10000, 1000, Some("deadbeef"), 100).unwrap();

    assert_eq!(out.commits_indexed, 0);
    assert!(out.last_commit.is_none());
    assert!(!out.hit_end, "a missing cursor must not read as end of history");
    assert!(out.cursor_lost, "a missing cursor is reported lost");
    assert_eq!(db.commit_count("a.rs").unwrap(), 0);
}

#[test]
fn test_global_walk_zero_budget() {
    let commits = vec![vec![("a.rs", "v0")], vec![("a.rs", "v1")]];
    let dir = walk_repo(&commits);
    let repo = Repository::open(dir.path()).unwrap();
    let mut db = Database::in_memory().unwrap();

    let out = budgeted_global_index(&repo, &mut db, 0, 1000, None, 100).unwrap();

    assert_eq!(out.commits_indexed, 0, "a zero budget completes zero commits");
    assert!(!out.hit_end);
    assert_eq!(db.commit_count("a.rs").unwrap(), 0, "no rows under a zero budget");
}
