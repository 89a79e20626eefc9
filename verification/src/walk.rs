//! The history walker.
//!
//! Both walk modes iterate commits newest-first, collect the indexable
//! files each commit changed, and insert one row per file.  They prove
//! that the store only ever grows by rows whose file passes the filter,
//! and that nothing else in the store is touched.  Time budgets are
//! cooperative: the walk reads the clock at commit boundaries and at the
//! safety-margin gate before each diff, and what those gates decide is
//! stated exactly.

use vstd::prelude::*;

use crate::filter::{should_index_file, spec_should_index};
use crate::gitio::{blob_at, clock_now, commit_parent_count, commit_time, diff_new_files,
    elapsed_ms, revwalk_next, revwalk_start, vcs_err};
use crate::rows::{CommitRows, RowMap, rows_apply_all, rows_insert};
use crate::store::{Database, EngramError, db_events, db_memories, db_rows, db_state,
    db_watermark, rows_partial_insert};
use crate::text::{clone_string, str_eq};

verus! {

/// Minimum remaining budget before a diff may start: a large first-parent
/// diff can take hundreds of milliseconds, so starting one with less than
/// this margin left risks a long overrun.
pub const DIFF_SAFETY_MARGIN_MS: u64 = 200;

/// What one walk segment reports back: how many commits it processed, the
/// last commit it walked (the next cursor when unfinished), whether it
/// exhausted the history, and whether a resume cursor turned out not to
/// exist in the history any more (rewritten), in which case the caller
/// must drop that cursor instead of retrying it.
pub struct WalkOutcome {
    pub commits_indexed: u32,
    pub last_commit: Option<String>,
    pub hit_end: bool,
    pub cursor_lost: bool,
}

/// The table has only grown, and every added row's file is indexable.
pub open spec fn rows_grown_indexable(old_m: RowMap, new_m: RowMap) -> bool {
    &&& forall|k: (Seq<char>, Seq<char>)| #[trigger]
        old_m.contains_key(k) ==> new_m.contains_key(k) && new_m[k] == old_m[k]
    &&& forall|k: (Seq<char>, Seq<char>)| #[trigger]
        new_m.contains_key(k) && !old_m.contains_key(k) ==> spec_should_index(k.1)
}

/// Inserting a commit whose files are all indexable preserves the growth
/// invariant.
pub proof fn lemma_grown_insert(
    orig: RowMap,
    cur: RowMap,
    commit: Seq<char>,
    files: Seq<Seq<char>>,
    ts: int,
)
    requires
        rows_grown_indexable(orig, cur),
        forall|i: int| 0 <= i < files.len() ==> spec_should_index(#[trigger] files[i]),
    ensures
        rows_grown_indexable(orig, rows_insert(cur, commit, files, ts)),
{
    let nxt = rows_insert(cur, commit, files, ts);
    assert forall|k: (Seq<char>, Seq<char>)| #[trigger]
        nxt.contains_key(k) && !orig.contains_key(k) implies spec_should_index(k.1) by {
        if !cur.contains_key(k) {
            let i = choose|i: int| 0 <= i < files.len() && files[i] == k.1;
        }
    }
}

/// A partial insert (one interrupted by an error) preserves the growth
/// invariant just the same.
pub proof fn lemma_grown_partial(
    orig: RowMap,
    cur: RowMap,
    nxt: RowMap,
    commit: Seq<char>,
    files: Seq<Seq<char>>,
    ts: int,
)
    requires
        rows_grown_indexable(orig, cur),
        rows_partial_insert(cur, nxt, commit, files, ts),
        forall|i: int| 0 <= i < files.len() ==> spec_should_index(#[trigger] files[i]),
    ensures
        rows_grown_indexable(orig, nxt),
{
    assert forall|k: (Seq<char>, Seq<char>)| #[trigger]
        nxt.contains_key(k) && !orig.contains_key(k) implies spec_should_index(k.1) by {
        if !cur.contains_key(k) {
            let i = choose|i: int| 0 <= i < files.len() && files[i] == k.1;
        }
    }
}

/// Growth by indexable rows composes.
pub proof fn lemma_grown_trans(a: RowMap, b: RowMap, c: RowMap)
    requires
        rows_grown_indexable(a, b),
        rows_grown_indexable(b, c),
    ensures
        rows_grown_indexable(a, c),
{
    assert forall|k: (Seq<char>, Seq<char>)| #[trigger]
        c.contains_key(k) && !a.contains_key(k) implies spec_should_index(k.1) by {
        if b.contains_key(k) {
        }
    }
}

/// The indexable subsequence of a path list.
pub open spec fn spec_indexable_of(ps: Seq<Seq<char>>) -> Seq<Seq<char>>
    decreases ps.len(),
{
    if ps.len() == 0 {
        Seq::empty()
    } else {
        let rest = spec_indexable_of(ps.drop_last());
        if spec_should_index(ps.last()) {
            rest.push(ps.last())
        } else {
            rest
        }
    }
}

/// Keeps exactly the indexable paths, in order.
pub fn filter_indexable(paths: &Vec<String>) -> (r: Vec<String>)
    ensures
        r@.map_values(|s: String| s@) == spec_indexable_of(
            paths@.map_values(|s: String| s@),
        ),
        forall|i: int| 0 <= i < r@.len() ==> spec_should_index(#[trigger] r@[i]@),
{
    let n: usize = paths.len();
    let mut out: Vec<String> = Vec::new();
    let mut i: usize = 0;
    proof {
        assert(out@.map_values(|s: String| s@) =~= Seq::<Seq<char>>::empty());
        assert(paths@.map_values(|s: String| s@).take(0) =~= Seq::<Seq<char>>::empty());
    }
    while i < n
        invariant
            0 <= i <= n,
            n == paths@.len(),
            out@.map_values(|s: String| s@) == spec_indexable_of(
                paths@.map_values(|s: String| s@).take(i as int),
            ),
            forall|j: int| 0 <= j < out@.len() ==> spec_should_index(#[trigger] out@[j]@),
        decreases n - i,
    {
        let ghost pv = paths@.map_values(|s: String| s@);
        assert(pv.take(i + 1).drop_last() =~= pv.take(i as int));
        assert(pv.take(i + 1).last() == pv[i as int]);
        assert(pv[i as int] == paths@[i as int]@);
        let ghost out_before = out@;
        if should_index_file(paths[i].as_str()) {
            out.push(clone_string(&paths[i]));
            assert(out@ =~= out_before.push(out@.last()));
            assert(out@.map_values(|s: String| s@) =~= out_before.map_values(
                |s: String| s@,
            ).push(paths@[i as int]@));
        }
        i = i + 1;
    }
    assert(paths@.map_values(|s: String| s@).take(n as int) =~= paths@.map_values(
        |s: String| s@,
    ));
    out
}

/// Equality of two optional strings by their characters.
pub fn opt_str_eq(a: &Option<String>, b: &Option<String>) -> (r: bool)
    ensures
        r == (crate::store::opt_view(*a) == crate::store::opt_view(*b)),
{
    match (a, b) {
        (None, None) => true,
        (Some(x), Some(y)) => str_eq(x.as_str(), y.as_str()),
        _ => false,
    }
}

/// The safety-margin gate: a diff may start only while the elapsed time is
/// inside the budget with at least the margin to spare.
pub fn diff_permitted(budget_ms: u64, elapsed_ms_now: u64) -> (r: bool)
    ensures
        r == (elapsed_ms_now < budget_ms && budget_ms - elapsed_ms_now
            >= DIFF_SAFETY_MARGIN_MS),
{
    elapsed_ms_now < budget_ms && budget_ms - elapsed_ms_now >= DIFF_SAFETY_MARGIN_MS
}

/// The global walk's stop gate: stop when the budget is spent, the commit
/// ceiling is reached, or the commit counter is at its machine ceiling.
pub fn global_walk_should_stop(
    elapsed_ms_now: u64,
    budget_ms: u64,
    indexed: u32,
    commit_limit: usize,
) -> (r: bool)
    ensures
        r == (elapsed_ms_now >= budget_ms || indexed as int >= commit_limit as int || indexed
            == u32::MAX),
{
    elapsed_ms_now >= budget_ms || indexed as usize >= commit_limit || indexed == u32::MAX
}

/// Cheap check: did `file_path` change in this commit against its first
/// parent?  Compares blob ids; any object error reads as "no change".
pub fn file_changed_in_commit(repo: &git2::Repository, commit_oid: &str, file_path: &str)
    -> bool {
    let commit_blob = match blob_at(repo, commit_oid, file_path) {
        Ok(b) => b,
        Err(_) => {
            return false;
        },
    };
    let parent = match first_parent_or_none(repo, commit_oid) {
        Some(p) => p,
        None => {
            return commit_blob.is_some();
        },
    };
    let parent_blob = match blob_at(repo, parent.as_str(), file_path) {
        Ok(b) => b,
        Err(_) => None,
    };
    !opt_str_eq(&commit_blob, &parent_blob)
}

/// First parent id, with every failure reading as "no parent".
fn first_parent_or_none(repo: &git2::Repository, oid: &str) -> Option<String> {
    match crate::gitio::first_parent_id(repo, oid) {
        Ok(p) => p,
        Err(_) => None,
    }
}

/// Time-bounded global indexing.  Processes commits newest-first from HEAD
/// (or from just past `resume_from`), inserting each commit's indexable
/// files, committing the transaction every `batch_size` commits.  The
/// store's commit-row table only grows, every added row passes the file
/// filter, and nothing else in the store changes.  Returns
/// `(commits_indexed, last_commit_processed, hit_end_of_history)`.
pub fn budgeted_global_index(
    repo: &git2::Repository,
    db: &mut Database,
    budget_ms: u64,
    commit_limit: usize,
    resume_from: Option<&str>,
    batch_size: usize,
) -> (r: Result<WalkOutcome, EngramError>)
    ensures
        rows_grown_indexable(db_rows(*old(db)), db_rows(*final(db))),
        db_state(*final(db)) == db_state(*old(db)),
        db_watermark(*final(db)) == db_watermark(*old(db)),
        db_memories(*final(db)) == db_memories(*old(db)),
        db_events(*final(db)) == db_events(*old(db)),
        r matches Ok(o) ==> o.commits_indexed as int <= commit_limit as int,
        r matches Ok(o) ==> (o.commits_indexed == 0 ==> db_rows(*final(db)) == db_rows(
            *old(db),
        )),
        r matches Ok(o) ==> (o.cursor_lost ==> resume_from is Some && o.commits_indexed == 0
            && o.last_commit is None && !o.hit_end),
        r is Ok ==> exists|cs: Seq<CommitRows>|
            db_rows(*final(db)) == #[trigger] rows_apply_all(db_rows(*old(db)), cs),
        budget_ms == 0 ==> db_rows(*final(db)) == db_rows(*old(db)) && (r matches Ok(o)
            ==> o.commits_indexed == 0),
{
    let ghost rows0 = db_rows(*db);
    let ghost state0 = db_state(*db);
    let ghost wm0 = db_watermark(*db);
    let ghost mem0 = db_memories(*db);
    let ghost ev0 = db_events(*db);

    let start = clock_now();
    let mut walk = match revwalk_start(repo, false) {
        Ok(w) => w,
        Err(e) => {
            return Err(vcs_err(e));
        },
    };

    if let Some(oid_str) = resume_from {
        let mut fuel: u64 = u64::MAX;
        loop
            invariant
                resume_from is Some,
                rows0 == db_rows(*old(db)),
                state0 == db_state(*old(db)),
                wm0 == db_watermark(*old(db)),
                mem0 == db_memories(*old(db)),
                ev0 == db_events(*old(db)),
                db_rows(*db) == rows0,
                db_state(*db) == state0,
                db_watermark(*db) == wm0,
                db_memories(*db) == mem0,
                db_events(*db) == ev0,
            decreases fuel,
        {
            if fuel == 0 {
                proof {
                    assert(db_rows(*db) == rows_apply_all(rows0, Seq::<CommitRows>::empty()));
                }
                return Ok(lost_cursor_outcome());
            }
            fuel = fuel - 1;
            match revwalk_next(&mut walk) {
                Some(rr) => match rr {
                    Ok(oid) => {
                        if str_eq(oid.as_str(), oid_str) {
                            break;
                        }
                    },
                    Err(_) => {
                        proof {
                            assert(db_rows(*db) == rows_apply_all(
                                rows0,
                                Seq::<CommitRows>::empty(),
                            ));
                        }
                        return Ok(lost_cursor_outcome());
                    },
                },
                None => {
                    // The cursor is not in history (rewritten?): report it
                    // lost, so the caller drops it and a later call starts
                    // fresh instead of retrying a dead cursor.
                    proof {
                        assert(db_rows(*db) == rows_apply_all(
                            rows0,
                            Seq::<CommitRows>::empty(),
                        ));
                    }
                    return Ok(lost_cursor_outcome());
                },
            }
        }
    }

    let mut indexed: u32 = 0;
    let mut last_oid: Option<String> = None;
    let mut hit_end = true;
    let mut batch_count: usize = 0;

    match db.begin_transaction() {
        Ok(()) => {},
        Err(e) => {
            return Err(e);
        },
    }

    let ghost mut walked: Seq<CommitRows> = Seq::empty();
    let mut fuel: u64 = u64::MAX;
    loop
        invariant
            rows0 == db_rows(*old(db)),
            state0 == db_state(*old(db)),
            wm0 == db_watermark(*old(db)),
            mem0 == db_memories(*old(db)),
            ev0 == db_events(*old(db)),
            rows_grown_indexable(rows0, db_rows(*db)),
            db_rows(*db) == rows_apply_all(rows0, walked),
            db_state(*db) == state0,
            db_watermark(*db) == wm0,
            db_memories(*db) == mem0,
            db_events(*db) == ev0,
            indexed as int <= commit_limit as int,
            batch_count == 0 || batch_count < batch_size,
            indexed == 0 ==> db_rows(*db) == rows0,
            budget_ms == 0 ==> indexed == 0,
        decreases fuel,
    {
        if fuel == 0 {
            hit_end = false;
            break;
        }
        fuel = fuel - 1;
        let oid = match revwalk_next(&mut walk) {
            None => {
                break;
            },
            Some(rr) => match rr {
                Ok(o) => o,
                Err(e) => {
                    return Err(vcs_err(e));
                },
            },
        };
        let elapsed = elapsed_ms(&start);
        if global_walk_should_stop(elapsed, budget_ms, indexed, commit_limit) {
            hit_end = false;
            break;
        }
        let ts = match commit_time(repo, oid.as_str()) {
            Ok(t) => t,
            Err(e) => {
                return Err(vcs_err(e));
            },
        };
        let parent = first_parent_or_none(repo, oid.as_str());
        let parent_ref: Option<&str> = match &parent {
            Some(p) => Some(p.as_str()),
            None => None,
        };
        let all_paths = match diff_new_files(repo, oid.as_str(), parent_ref, false) {
            Ok(v) => v,
            Err(e) => {
                return Err(vcs_err(e));
            },
        };
        let files = filter_indexable(&all_paths);
        if files.len() > 0 {
            let ghost cur = db_rows(*db);
            let ghost fseq = files@.map_values(|s: String| s@);
            match db.insert_commit(oid.as_str(), &files, ts) {
                Ok(()) => {
                    proof {
                        lemma_grown_insert(rows0, cur, oid@, fseq, ts as int);
                        let step = CommitRows { commit: oid@, files: fseq, ts: ts as int };
                        assert(walked.push(step).drop_last() =~= walked);
                        assert(walked.push(step).last() == step);
                        walked = walked.push(step);
                        assert(db_rows(*db) == rows_apply_all(rows0, walked));
                    }
                },
                Err(e) => {
                    proof {
                        lemma_grown_partial(rows0, cur, db_rows(*db), oid@, fseq, ts as int);
                    }
                    return Err(e);
                },
            }
        }
        last_oid = Some(oid);
        indexed = indexed + 1;
        batch_count = batch_count + 1;
        if batch_count >= batch_size {
            match db.commit_transaction() {
                Ok(()) => {},
                Err(e) => {
                    return Err(e);
                },
            }
            match db.begin_transaction() {
                Ok(()) => {},
                Err(e) => {
                    return Err(e);
                },
            }
            batch_count = 0;
        }
    }

    match db.commit_transaction() {
        Ok(()) => {},
        Err(e) => {
            return Err(e);
        },
    }
    Ok(WalkOutcome { commits_indexed: indexed, last_commit: last_oid, hit_end, cursor_lost: false })
}

/// The outcome of a resume whose cursor is no longer in history: zero
/// progress, no cursor, not at the end, and the cursor reported lost.
fn lost_cursor_outcome() -> (r: WalkOutcome)
    ensures
        r.commits_indexed == 0,
        r.last_commit is None,
        !r.hit_end,
        r.cursor_lost,
{
    WalkOutcome { commits_indexed: 0, last_commit: None, hit_end: false, cursor_lost: true }
}

/// Path-filtered indexing for huge repositories.  Walks the first-parent
/// chain comparing the target file's blob id between consecutive commits;
/// only a commit that changed the target is diffed in full, and only
/// behind the safety-margin gate.  The store's commit-row table only grows
/// by rows that pass the file filter, and nothing else in the store
/// changes.  Returns `(commits_indexed, last_commit_walked,
/// hit_end_of_history)`.
pub fn path_filtered_index(
    repo: &git2::Repository,
    db: &mut Database,
    file_path: &str,
    budget_ms: u64,
    resume_from: Option<&str>,
    batch_size: usize,
) -> (r: Result<WalkOutcome, EngramError>)
    ensures
        rows_grown_indexable(db_rows(*old(db)), db_rows(*final(db))),
        db_state(*final(db)) == db_state(*old(db)),
        db_watermark(*final(db)) == db_watermark(*old(db)),
        db_memories(*final(db)) == db_memories(*old(db)),
        db_events(*final(db)) == db_events(*old(db)),
        r matches Ok(o) ==> (o.commits_indexed == 0 ==> db_rows(*final(db)) == db_rows(
            *old(db),
        )),
        r matches Ok(o) ==> (o.cursor_lost ==> resume_from is Some && o.commits_indexed == 0
            && o.last_commit is None && !o.hit_end),
        r is Ok ==> exists|cs: Seq<CommitRows>|
            db_rows(*final(db)) == #[trigger] rows_apply_all(db_rows(*old(db)), cs),
        budget_ms < DIFF_SAFETY_MARGIN_MS ==> db_rows(*final(db)) == db_rows(*old(db)) && (
        r matches Ok(o) ==> o.commits_indexed == 0),
{
    let ghost rows0 = db_rows(*db);
    let ghost state0 = db_state(*db);
    let ghost wm0 = db_watermark(*db);
    let ghost mem0 = db_memories(*db);
    let ghost ev0 = db_events(*db);
    let ghost mut walked: Seq<CommitRows> = Seq::empty();
    proof {
        assert(db_rows(*db) == rows_apply_all(rows0, walked));
    }

    let start = clock_now();
    let mut walk = match revwalk_start(repo, true) {
        Ok(w) => w,
        Err(e) => {
            return Err(vcs_err(e));
        },
    };

    let mut indexed: u32 = 0;
    let mut last_oid: Option<String> = None;
    let mut hit_end = true;
    let mut batch_count: usize = 0;
    // The newer neighbour of the commit under inspection: its id and its
    // blob id for the target file.
    let mut prev: Option<(String, Option<String>)> = None;

    if let Some(oid_str) = resume_from {
        let mut found = false;
        let mut skip_count: u64 = 0;
        loop
            invariant
                rows0 == db_rows(*old(db)),
                state0 == db_state(*old(db)),
                wm0 == db_watermark(*old(db)),
                mem0 == db_memories(*old(db)),
                ev0 == db_events(*old(db)),
                db_rows(*db) == rows0,
                db_state(*db) == state0,
                db_watermark(*db) == wm0,
                db_memories(*db) == mem0,
                db_events(*db) == ev0,
                skip_count <= u64::MAX,
            decreases u64::MAX - skip_count,
        {
            if skip_count == u64::MAX {
                break;
            }
            skip_count = skip_count + 1;
            if skip_count % 1000 == 0 {
                let e = elapsed_ms(&start);
                if e >= budget_ms {
                    // Budget exhausted during the skip: no progress; the
                    // caller keeps its old cursor and tries again later.
                    proof {
                        assert(db_rows(*db) == rows_apply_all(
                            rows0,
                            Seq::<CommitRows>::empty(),
                        ));
                    }
                    return Ok(WalkOutcome {
                        commits_indexed: 0,
                        last_commit: None,
                        hit_end: false,
                        cursor_lost: false,
                    });
                }
            }
            match revwalk_next(&mut walk) {
                Some(rr) => match rr {
                    Ok(oid) => {
                        if str_eq(oid.as_str(), oid_str) {
                            let blob = match blob_at(repo, oid.as_str(), file_path) {
                                Ok(b) => b,
                                Err(e) => {
                                    return Err(vcs_err(e));
                                },
                            };
                            last_oid = Some(clone_string(&oid));
                            prev = Some((oid, blob));
                            found = true;
                            break;
                        }
                    },
                    Err(_) => {
                        break;
                    },
                },
                None => {
                    break;
                },
            }
        }
        if !found {
            // The cursor is not in history (rewritten?): report it lost,
            // so the caller drops it and a later call starts fresh.
            proof {
                assert(db_rows(*db) == rows_apply_all(rows0, Seq::<CommitRows>::empty()));
            }
            return Ok(lost_cursor_outcome());
        }
    }

    match db.begin_transaction() {
        Ok(()) => {},
        Err(e) => {
            return Err(e);
        },
    }

    let mut fuel: u64 = u64::MAX;
    loop
        invariant
            rows0 == db_rows(*old(db)),
            state0 == db_state(*old(db)),
            wm0 == db_watermark(*old(db)),
            mem0 == db_memories(*old(db)),
            ev0 == db_events(*old(db)),
            rows_grown_indexable(rows0, db_rows(*db)),
            db_rows(*db) == rows_apply_all(rows0, walked),
            db_state(*db) == state0,
            db_watermark(*db) == wm0,
            db_memories(*db) == mem0,
            db_events(*db) == ev0,
            batch_count == 0 || batch_count < batch_size,
            indexed == 0 ==> db_rows(*db) == rows0,
            budget_ms < DIFF_SAFETY_MARGIN_MS ==> indexed == 0,
        decreases fuel,
    {
        if fuel == 0 {
            hit_end = false;
            break;
        }
        fuel = fuel - 1;
        let oid = match revwalk_next(&mut walk) {
            None => {
                break;
            },
            Some(rr) => match rr {
                Ok(o) => o,
                Err(e) => {
                    return Err(vcs_err(e));
                },
            },
        };
        let elapsed = elapsed_ms(&start);
        if elapsed >= budget_ms || indexed == u32::MAX {
            hit_end = false;
            break;
        }
        let blob = match blob_at(repo, oid.as_str(), file_path) {
            Ok(b) => b,
            Err(e) => {
                return Err(vcs_err(e));
            },
        };

        // The previous (newer) commit changed the target iff its blob id
        // differs from this commit's.
        let changed = match &prev {
            Some(pair) => !opt_str_eq(&pair.1, &blob),
            None => false,
        };
        let mut stop = false;
        if changed {
            let prev_oid: String = match &prev {
                Some(pair) => clone_string(&pair.0),
                None => String::new(),
            };
            {
                let elapsed_now = elapsed_ms(&start);
                if !diff_permitted(budget_ms, elapsed_now) {
                    hit_end = false;
                    stop = true;
                } else {
                    let all_paths = match diff_new_files(
                        repo,
                        prev_oid.as_str(),
                        Some(oid.as_str()),
                        false,
                    ) {
                        Ok(v) => v,
                        Err(e) => {
                            return Err(vcs_err(e));
                        },
                    };
                    let ts = match commit_time(repo, prev_oid.as_str()) {
                        Ok(t) => t,
                        Err(e) => {
                            return Err(vcs_err(e));
                        },
                    };
                    let files = filter_indexable(&all_paths);
                    if files.len() > 0 {
                        let ghost cur = db_rows(*db);
                        let ghost fseq = files@.map_values(|s: String| s@);
                        match db.insert_commit(prev_oid.as_str(), &files, ts) {
                            Ok(()) => {
                                proof {
                                    lemma_grown_insert(
                                        rows0,
                                        cur,
                                        prev_oid@,
                                        fseq,
                                        ts as int,
                                    );
                                    let step = CommitRows {
                                        commit: prev_oid@,
                                        files: fseq,
                                        ts: ts as int,
                                    };
                                    assert(walked.push(step).drop_last() =~= walked);
                                    assert(walked.push(step).last() == step);
                                    walked = walked.push(step);
                                    assert(db_rows(*db) == rows_apply_all(rows0, walked));
                                }
                            },
                            Err(e) => {
                                proof {
                                    lemma_grown_partial(
                                        rows0,
                                        cur,
                                        db_rows(*db),
                                        prev_oid@,
                                        fseq,
                                        ts as int,
                                    );
                                }
                                return Err(e);
                            },
                        }
                    }
                    indexed = indexed + 1;
                    batch_count = batch_count + 1;
                    if batch_count >= batch_size {
                        match db.commit_transaction() {
                            Ok(()) => {},
                            Err(e) => {
                                return Err(e);
                            },
                        }
                        match db.begin_transaction() {
                            Ok(()) => {},
                            Err(e) => {
                                return Err(e);
                            },
                        }
                        batch_count = 0;
                    }
                }
            }
        }
        if stop {
            break;
        }
        last_oid = Some(clone_string(&oid));
        prev = Some((oid, blob));
    }

    // A root commit that still holds the target is the file's initial add.
    if hit_end {
        if let Some((prev_oid, prev_blob)) = prev {
            if prev_blob.is_some() {
                let pc = match commit_parent_count(repo, prev_oid.as_str()) {
                    Ok(c) => c,
                    Err(e) => {
                        return Err(vcs_err(e));
                    },
                };
                let elapsed_now = elapsed_ms(&start);
                if pc == 0 && diff_permitted(budget_ms, elapsed_now) && indexed < u32::MAX {
                    let all_paths = match diff_new_files(repo, prev_oid.as_str(), None, false) {
                        Ok(v) => v,
                        Err(e) => {
                            return Err(vcs_err(e));
                        },
                    };
                    let ts = match commit_time(repo, prev_oid.as_str()) {
                        Ok(t) => t,
                        Err(e) => {
                            return Err(vcs_err(e));
                        },
                    };
                    let files = filter_indexable(&all_paths);
                    if files.len() > 0 {
                        let ghost cur = db_rows(*db);
                        let ghost fseq = files@.map_values(|s: String| s@);
                        match db.insert_commit(prev_oid.as_str(), &files, ts) {
                            Ok(()) => {
                                proof {
                                    lemma_grown_insert(
                                        rows0,
                                        cur,
                                        prev_oid@,
                                        fseq,
                                        ts as int,
                                    );
                                    let step = CommitRows {
                                        commit: prev_oid@,
                                        files: fseq,
                                        ts: ts as int,
                                    };
                                    assert(walked.push(step).drop_last() =~= walked);
                                    assert(walked.push(step).last() == step);
                                    walked = walked.push(step);
                                    assert(db_rows(*db) == rows_apply_all(rows0, walked));
                                }
                            },
                            Err(e) => {
                                proof {
                                    lemma_grown_partial(
                                        rows0,
                                        cur,
                                        db_rows(*db),
                                        prev_oid@,
                                        fseq,
                                        ts as int,
                                    );
                                }
                                return Err(e);
                            },
                        }
                    }
                    indexed = indexed + 1;
                }
            }
        }
    }

    match db.commit_transaction() {
        Ok(()) => {},
        Err(e) => {
            return Err(e);
        },
    }
    Ok(WalkOutcome { commits_indexed: indexed, last_commit: last_oid, hit_end, cursor_lost: false })
}

} // verus!
