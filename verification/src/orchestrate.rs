//! The resumable orchestrator.
//!
//! One indexing call reads the persisted state, decides what to do — the
//! decision table is the pure function [`spec_plan`] — runs the chosen
//! walk under its budget, and writes the state back.  Whatever path is
//! taken, the commit-row table only grows by filtered rows, the other
//! store contents are untouched, and the written state agrees with the
//! returned result.

use vstd::prelude::*;
use vstd::string::StringExecFns;

use crate::gitio::unix_now;
use crate::store::{Database, EngramError, IndexingState, StateModel, db_events, db_memories,
    db_rows, db_state, db_unchanged, db_watermark};
use crate::strategy::{Strategy, SmartIndexResult, decide_strategy, lemma_strategy_name_round_trip,
    spec_strategy_parse};
use crate::text::str_eq;
use crate::walk::{WalkOutcome, budgeted_global_index, lemma_grown_trans, path_filtered_index,
    rows_grown_indexable};

verus! {

/// Ceiling on commits walked globally before deferring to the background.
pub const DEFAULT_COMMIT_LIMIT: usize = 1000;

/// Budget of the first-call probe.
pub const SCOPE_BUDGET_MS: u64 = 500;

/// Budget of a foreground resume step.
pub const RESUME_BUDGET_MS: u64 = 150;

/// Commits per transaction in the foreground.
pub const FOREGROUND_BATCH_SIZE: usize = 100;

/// Commits per transaction in the background.
pub const BACKGROUND_BATCH_SIZE: usize = 50;

/// An incomplete state older than this is considered abandoned.
pub const STALE_AFTER_SECS: i64 = 10;

/// A working-copy index file larger than this marks a huge repository.
pub const HUGE_INDEX_BYTES: u64 = 1000000;

/// What one orchestrated call decides to do, given the persisted state,
/// the current HEAD, the target file and the clock.
#[derive(Debug, Clone, Copy, PartialEq, Eq, Structural)]
pub enum IndexPlan {
    /// No state, or HEAD moved: probe and execute from scratch.
    FreshStart,
    /// Path-filtered state for another file: walk afresh for this file.
    FreshPathFiltered,
    /// Incomplete global state, stale or holding a cursor: resume briefly.
    ResumeGlobal,
    /// Complete at this HEAD: answer from the store.
    CachedComplete,
    /// Incomplete path-filtered state for this same file: answer from the
    /// store and leave the deep cursor to the background.
    CachedPathFiltered,
    /// Incomplete global state that another process is still feeding:
    /// answer from the store without touching it.
    CachedBusy,
}

/// The view of an optional indexing state.
pub open spec fn opt_state_view(o: Option<IndexingState>) -> Option<StateModel> {
    match o {
        Some(st) => Some(st@),
        None => None,
    }
}

/// The decision table of the orchestrator (spec side).
pub open spec fn spec_plan(
    state: Option<StateModel>,
    head: Seq<char>,
    file: Seq<char>,
    now: int,
) -> IndexPlan {
    match state {
        None => IndexPlan::FreshStart,
        Some(st) => {
            if st.head_commit != head {
                IndexPlan::FreshStart
            } else if st.is_complete {
                IndexPlan::CachedComplete
            } else if spec_strategy_parse(st.strategy) == Strategy::PathFiltered {
                if st.target_path matches Some(t) && t != file {
                    IndexPlan::FreshPathFiltered
                } else {
                    IndexPlan::CachedPathFiltered
                }
            } else if now - st.last_updated > STALE_AFTER_SECS || st.resume_oid is Some {
                IndexPlan::ResumeGlobal
            } else {
                IndexPlan::CachedBusy
            }
        },
    }
}

/// The decision table of the orchestrator: after a HEAD change indexing
/// restarts from scratch; a finished index is answered from the store; a
/// path-filtered cursor is never reused for a different file; a global
/// walk is resumed when stale or holding a cursor, and otherwise left to
/// the process that owns it.
pub fn plan_index(state: &Option<IndexingState>, head: &str, file_path: &str, now: i64) -> (r:
    IndexPlan)
    ensures
        r == spec_plan(opt_state_view(*state), head@, file_path@, now as int),
{
    match state {
        None => IndexPlan::FreshStart,
        Some(st) => {
            if !str_eq(st.head_commit.as_str(), head) {
                IndexPlan::FreshStart
            } else if st.is_complete {
                IndexPlan::CachedComplete
            } else if Strategy::from_str(st.strategy.as_str()) == Strategy::PathFiltered {
                let other_target = match &st.target_path {
                    Some(t) => !str_eq(t.as_str(), file_path),
                    None => false,
                };
                if other_target {
                    IndexPlan::FreshPathFiltered
                } else {
                    IndexPlan::CachedPathFiltered
                }
            } else {
                let age: i128 = (now as i128) - (st.last_updated as i128);
                if age > STALE_AFTER_SECS as i128 || st.resume_oid.is_some() {
                    IndexPlan::ResumeGlobal
                } else {
                    IndexPlan::CachedBusy
                }
            }
        },
    }
}

/// The invariants of a persisted indexing state: a finished index holds no
/// cursor, and a path-filtered state names its target file.
pub open spec fn spec_state_wf(st: StateModel) -> bool {
    &&& st.is_complete ==> st.resume_oid is None
    &&& spec_strategy_parse(st.strategy) == Strategy::PathFiltered ==> st.target_path is Some
}

/// The well-formedness hypothesis on whatever state the store held.
pub open spec fn spec_old_state_wf(o: Option<StateModel>) -> bool {
    match o {
        Some(st) => spec_state_wf(st),
        None => true,
    }
}

/// The stored record is finished at the observed HEAD (case: answer from
/// the store, touch nothing).
pub open spec fn spec_cached_complete(state: Option<StateModel>, head: Seq<char>) -> bool {
    state matches Some(os) && os.head_commit == head && os.is_complete
}

/// The stored record is an unfinished path-filtered walk at the observed
/// HEAD whose target is this same file (or unrecorded): the deep cursor is
/// left to the background, nothing is touched.
pub open spec fn spec_cached_pf_same(
    state: Option<StateModel>,
    head: Seq<char>,
    file: Seq<char>,
) -> bool {
    &&& state matches Some(os)
    &&& os.head_commit == head
    &&& !os.is_complete
    &&& spec_strategy_parse(os.strategy) == Strategy::PathFiltered
    &&& !(os.target_path matches Some(t) && t != file)
}

/// No usable record: first call ever, or HEAD moved.
pub open spec fn spec_fresh_start(state: Option<StateModel>, head: Seq<char>) -> bool {
    match state {
        None => true,
        Some(os) => os.head_commit != head,
    }
}

/// The stored record is an unfinished path-filtered walk at the observed
/// HEAD for a *different* file: its cursor must not be resumed; a fresh
/// path-filtered walk runs for this file.
pub open spec fn spec_pf_switch(
    state: Option<StateModel>,
    head: Seq<char>,
    file: Seq<char>,
) -> bool {
    &&& state matches Some(os)
    &&& os.head_commit == head
    &&& !os.is_complete
    &&& spec_strategy_parse(os.strategy) == Strategy::PathFiltered
    &&& os.target_path matches Some(t) && t != file
}

/// What every orchestrated call guarantees about the store and the result:
/// the commit-row table only grows by filtered rows, nothing else in the
/// store is touched, and on success a state stands that records the
/// observed HEAD and agrees with the returned result — in particular,
/// after a HEAD change the freshly written state carries the new HEAD.
/// The cached cases leave the store untouched and mirror the record; a
/// path-filtered outcome outside the cached cases records this file as
/// the target; the circuit breaker forces the path-filtered strategy on a
/// fresh start over a huge working-copy index; and resuming an unfinished
/// global walk never loses counted commits.
pub open spec fn spec_smart_index_post(
    pre: Database,
    post: Database,
    head: Seq<char>,
    file: Seq<char>,
    index_file_size: Option<u64>,
    r: Result<SmartIndexResult, EngramError>,
) -> bool {
    &&& rows_grown_indexable(db_rows(pre), db_rows(post))
    &&& db_watermark(post) == db_watermark(pre)
    &&& db_memories(post) == db_memories(pre)
    &&& db_events(post) == db_events(pre)
    &&& r matches Ok(res) ==> ({
        &&& db_state(post) matches Some(ns)
        &&& ns.head_commit == head
        &&& ns.commits_indexed == res.commits_indexed as int
        &&& ns.is_complete == res.is_complete
        &&& spec_strategy_parse(ns.strategy) == res.strategy
        &&& res.needs_background ==> !res.is_complete
        &&& spec_old_state_wf(db_state(pre)) ==> spec_state_wf(ns)
    })
    &&& spec_cached_complete(db_state(pre), head) ==> db_unchanged(pre, post)
    &&& db_state(pre) matches Some(os) ==> (spec_cached_complete(db_state(pre), head) ==> (
    r matches Ok(res) ==> (res.strategy == spec_strategy_parse(os.strategy)
        && res.commits_indexed as int == os.commits_indexed && res.is_complete
        && !res.needs_background)))
    &&& spec_cached_pf_same(db_state(pre), head, file) ==> db_unchanged(pre, post)
    &&& db_state(pre) matches Some(os) ==> (spec_cached_pf_same(db_state(pre), head, file)
        ==> (r matches Ok(res) ==> (res.strategy == Strategy::PathFiltered
        && res.commits_indexed as int == os.commits_indexed && !res.is_complete
        && res.needs_background)))
    &&& r matches Ok(res) ==> ((res.strategy == Strategy::PathFiltered
        && !spec_cached_complete(db_state(pre), head) && !spec_cached_pf_same(
        db_state(pre),
        head,
        file,
    )) ==> (db_state(post) matches Some(ns) && ns.target_path == Some(file)))
    &&& index_file_size matches Some(sz) ==> ((spec_fresh_start(db_state(pre), head) && sz
        > HUGE_INDEX_BYTES) ==> (r matches Ok(res) ==> res.strategy == Strategy::PathFiltered))
    &&& spec_pf_switch(db_state(pre), head, file) ==> (r matches Ok(res) ==> (res.strategy
        == Strategy::PathFiltered && res.needs_background == !res.is_complete))
    &&& db_state(pre) matches Some(os) ==> ((os.head_commit == head && !os.is_complete
        && spec_strategy_parse(os.strategy) != Strategy::PathFiltered) ==> (r matches Ok(res)
        ==> (db_state(post) matches Some(ns2) && ns2.commits_indexed >= os.commits_indexed)))
}

/// The state persisted after one walk segment: the head and strategy
/// carry over, the count accumulates (saturating at the counter's
/// ceiling), and a finished walk clears the cursor while an unfinished
/// one keeps the newest cursor — the segment's last commit, or failing
/// that the cursor it started from; a cursor the walk reported lost
/// (history rewritten) is dropped instead, so the next run starts fresh.
fn state_after_walk(
    head: String,
    strategy_name: String,
    base_count: u32,
    kept_cursor: Option<String>,
    target: Option<String>,
    outcome: WalkOutcome,
    now: i64,
) -> (r: IndexingState)
    ensures
        r.head_commit == head,
        r.strategy == strategy_name,
        r.is_complete == outcome.hit_end,
        r.last_updated == now,
        r.commits_indexed as int == (if base_count as int + outcome.commits_indexed as int
            <= u32::MAX as int {
            base_count as int + outcome.commits_indexed as int
        } else {
            u32::MAX as int
        }),
        outcome.hit_end ==> r.resume_oid is None,
        !outcome.hit_end ==> crate::store::opt_view(r.resume_oid) == (match outcome
            .last_commit {
            Some(x) => Some(x@),
            None => if outcome.cursor_lost {
                None
            } else {
                crate::store::opt_view(kept_cursor)
            },
        }),
        crate::store::opt_view(r.target_path) == crate::store::opt_view(target),
{
    let total: u32 = if base_count <= u32::MAX - outcome.commits_indexed {
        base_count + outcome.commits_indexed
    } else {
        u32::MAX
    };
    let cursor: Option<String> = if outcome.hit_end {
        None
    } else {
        match outcome.last_commit {
            Some(x) => Some(x),
            None => {
                if outcome.cursor_lost {
                    None
                } else {
                    kept_cursor
                }
            },
        }
    };
    IndexingState {
        head_commit: head,
        resume_oid: cursor,
        commits_indexed: total,
        strategy: strategy_name,
        is_complete: outcome.hit_end,
        last_updated: now,
        target_path: target,
    }
}

/// Orchestrated indexing: consult the persisted state, pick a plan per the
/// decision table, execute it within the foreground budget, and persist
/// the outcome.  `head` is the current HEAD commit id; `now` is the Unix
/// time the staleness check reads; `index_file_size` is the size of the
/// working-copy index file, when it could be read — a huge one
/// short-circuits the probe into the path-filtered strategy.  Besides the
/// shared guarantees, a call whose plan is the busy cached case (same
/// HEAD, unfinished global record, no cursor, not stale) leaves the store
/// untouched and mirrors the record with no background ask.
pub fn smart_index(
    repo: &git2::Repository,
    db: &mut Database,
    head: &str,
    file_path: &str,
    now: i64,
    foreground_budget_ms: u64,
    index_file_size: Option<u64>,
) -> (r: Result<SmartIndexResult, EngramError>)
    ensures
        spec_smart_index_post(*old(db), *final(db), head@, file_path@, index_file_size, r),
        spec_plan(db_state(*old(db)), head@, file_path@, now as int) == IndexPlan::CachedBusy
            ==> db_unchanged(*old(db), *final(db)),
        db_state(*old(db)) matches Some(os) ==> (spec_plan(
            db_state(*old(db)),
            head@,
            file_path@,
            now as int,
        ) == IndexPlan::CachedBusy ==> (r matches Ok(res) ==> (res.strategy
            == spec_strategy_parse(os.strategy) && res.commits_indexed as int
            == os.commits_indexed && !res.is_complete && !res.needs_background))),
{
    let existing = match db.get_indexing_state() {
        Ok(s) => s,
        Err(e) => {
            return Err(e);
        },
    };
    let plan = plan_index(&existing, head, file_path, now);
    proof {
        assert(opt_state_view(existing) == db_state(*old(db)));
    }

    if let Some(st) = existing {
        match plan {
            IndexPlan::CachedComplete => {
                return Ok(SmartIndexResult {
                    strategy: Strategy::from_str(st.strategy.as_str()),
                    commits_indexed: st.commits_indexed,
                    is_complete: true,
                    needs_background: false,
                });
            },
            IndexPlan::CachedPathFiltered => {
                return Ok(SmartIndexResult {
                    strategy: Strategy::PathFiltered,
                    commits_indexed: st.commits_indexed,
                    is_complete: false,
                    needs_background: true,
                });
            },
            IndexPlan::CachedBusy => {
                return Ok(SmartIndexResult {
                    strategy: Strategy::from_str(st.strategy.as_str()),
                    commits_indexed: st.commits_indexed,
                    is_complete: false,
                    needs_background: false,
                });
            },
            IndexPlan::FreshPathFiltered => {
                // The stored cursor belongs to another file's walk; start
                // afresh for this file with the full foreground budget.
                // The old rows stay: they are real co-change facts.
                let out = match path_filtered_index(
                    repo,
                    db,
                    file_path,
                    foreground_budget_ms,
                    None,
                    FOREGROUND_BATCH_SIZE,
                ) {
                    Ok(t) => t,
                    Err(e) => {
                        return Err(e);
                    },
                };
                let hit_end = out.hit_end;
                let new_state = state_after_walk(
                    st.head_commit,
                    Strategy::PathFiltered.as_str().to_owned(),
                    0,
                    None,
                    Some(file_path.to_owned()),
                    out,
                    unix_now(),
                );
                match db.set_indexing_state(&new_state) {
                    Ok(()) => {},
                    Err(e) => {
                        return Err(e);
                    },
                }
                proof {
                    lemma_strategy_name_round_trip(Strategy::PathFiltered);
                }
                return Ok(SmartIndexResult {
                    strategy: Strategy::PathFiltered,
                    commits_indexed: new_state.commits_indexed,
                    is_complete: hit_end,
                    needs_background: !hit_end,
                });
            },
            IndexPlan::ResumeGlobal => {
                let resume_ref: Option<&str> = match &st.resume_oid {
                    Some(s) => Some(s.as_str()),
                    None => None,
                };
                let base: usize = st.commits_indexed as usize;
                let remaining_limit: usize = if base >= DEFAULT_COMMIT_LIMIT {
                    0
                } else {
                    DEFAULT_COMMIT_LIMIT - base
                };
                let out = match budgeted_global_index(
                    repo,
                    db,
                    RESUME_BUDGET_MS,
                    remaining_limit,
                    resume_ref,
                    FOREGROUND_BATCH_SIZE,
                ) {
                    Ok(t) => t,
                    Err(e) => {
                        return Err(e);
                    },
                };
                let hit_end = out.hit_end;
                let new_state = state_after_walk(
                    st.head_commit,
                    st.strategy,
                    st.commits_indexed,
                    st.resume_oid,
                    st.target_path,
                    out,
                    unix_now(),
                );
                match db.set_indexing_state(&new_state) {
                    Ok(()) => {},
                    Err(e) => {
                        return Err(e);
                    },
                }
                return Ok(SmartIndexResult {
                    strategy: Strategy::from_str(new_state.strategy.as_str()),
                    commits_indexed: new_state.commits_indexed,
                    is_complete: hit_end,
                    needs_background: !hit_end,
                });
            },
            IndexPlan::FreshStart => {},
        }
    }

    proof {
        assert(spec_fresh_start(db_state(*db), head@));
    }
    fresh_index(repo, db, head, file_path, foreground_budget_ms, index_file_size)
}

/// First call, or HEAD moved: probe the repository (unless the circuit
/// breaker marks it huge), decide the strategy, execute it for the rest of
/// the budget, and persist a brand-new state for this HEAD.
fn fresh_index(
    repo: &git2::Repository,
    db: &mut Database,
    head: &str,
    file_path: &str,
    foreground_budget_ms: u64,
    index_file_size: Option<u64>,
) -> (r: Result<SmartIndexResult, EngramError>)
    requires
        spec_fresh_start(db_state(*old(db)), head@),
    ensures
        spec_smart_index_post(*old(db), *final(db), head@, file_path@, index_file_size, r),
{
    let ghost pre = *db;
    let is_huge = match index_file_size {
        Some(sz) => sz > HUGE_INDEX_BYTES,
        None => false,
    };

    let mut strategy = Strategy::PathFiltered;
    let mut scope_indexed: u32 = 0;
    let mut scope_last: Option<String> = None;
    if !is_huge {
        let out = match budgeted_global_index(
            repo,
            db,
            SCOPE_BUDGET_MS,
            DEFAULT_COMMIT_LIMIT,
            None,
            FOREGROUND_BATCH_SIZE,
        ) {
            Ok(t) => t,
            Err(e) => {
                return Err(e);
            },
        };
        strategy = decide_strategy(out.commits_indexed, out.hit_end, DEFAULT_COMMIT_LIMIT);
        scope_indexed = out.commits_indexed;
        scope_last = out.last_commit;
    }
    let ghost mid = *db;

    if strategy == Strategy::Complete {
        let new_state = state_after_walk(
            head.to_owned(),
            Strategy::Complete.as_str().to_owned(),
            0,
            None,
            None,
            (WalkOutcome {
                commits_indexed: scope_indexed,
                last_commit: None,
                hit_end: true,
                cursor_lost: false,
            }),
            unix_now(),
        );
        match db.set_indexing_state(&new_state) {
            Ok(()) => {},
            Err(e) => {
                return Err(e);
            },
        }
        proof {
            lemma_strategy_name_round_trip(Strategy::Complete);
        }
        return Ok(SmartIndexResult {
            strategy: Strategy::Complete,
            commits_indexed: new_state.commits_indexed,
            is_complete: true,
            needs_background: false,
        });
    }

    // Execute with what is left of the foreground budget (all of it when
    // the probe was skipped).
    let remaining: u64 = if is_huge {
        foreground_budget_ms
    } else if foreground_budget_ms >= SCOPE_BUDGET_MS {
        foreground_budget_ms - SCOPE_BUDGET_MS
    } else {
        0
    };

    let exec_out: WalkOutcome = if strategy == Strategy::PathFiltered {
        match path_filtered_index(repo, db, file_path, remaining, None, FOREGROUND_BATCH_SIZE) {
            Ok(t) => t,
            Err(e) => {
                proof {
                    lemma_grown_trans(db_rows(pre), db_rows(mid), db_rows(*db));
                }
                return Err(e);
            },
        }
    } else {
        let resume_ref: Option<&str> = match &scope_last {
            Some(s) => Some(s.as_str()),
            None => None,
        };
        let base: usize = scope_indexed as usize;
        let remaining_limit: usize = if base >= DEFAULT_COMMIT_LIMIT {
            0
        } else {
            DEFAULT_COMMIT_LIMIT - base
        };
        match budgeted_global_index(
            repo,
            db,
            remaining,
            remaining_limit,
            resume_ref,
            FOREGROUND_BATCH_SIZE,
        ) {
            Ok(t) => t,
            Err(e) => {
                proof {
                    lemma_grown_trans(db_rows(pre), db_rows(mid), db_rows(*db));
                }
                return Err(e);
            },
        }
    };
    proof {
        lemma_grown_trans(db_rows(pre), db_rows(mid), db_rows(*db));
    }
    let exec_hit_end = exec_out.hit_end;

    let target: Option<String> = if strategy == Strategy::PathFiltered {
        Some(file_path.to_owned())
    } else {
        None
    };
    let new_state = state_after_walk(
        head.to_owned(),
        strategy.as_str().to_owned(),
        scope_indexed,
        scope_last,
        target,
        exec_out,
        unix_now(),
    );
    match db.set_indexing_state(&new_state) {
        Ok(()) => {},
        Err(e) => {
            return Err(e);
        },
    }
    proof {
        lemma_strategy_name_round_trip(strategy);
    }
    Ok(SmartIndexResult {
        strategy: strategy,
        commits_indexed: new_state.commits_indexed,
        is_complete: exec_hit_end,
        needs_background: !exec_hit_end,
    })
}

/// What one background continuation guarantees about the store it was
/// handed: the commit-row table only grows by filtered rows, nothing else
/// but the indexing state is touched; with no record, a finished record,
/// or a path-filtered record and no file to continue, the store is left
/// exactly as it was; otherwise, on success, the rewritten record keeps
/// its head and strategy, never loses counted commits, clears the cursor
/// exactly when finished, and records the continued file as the target.
pub open spec fn spec_continue_post(
    pre: Database,
    post: Database,
    file: Option<Seq<char>>,
    r: Result<(), EngramError>,
) -> bool {
    &&& rows_grown_indexable(db_rows(pre), db_rows(post))
    &&& db_watermark(post) == db_watermark(pre)
    &&& db_memories(post) == db_memories(pre)
    &&& db_events(post) == db_events(pre)
    &&& db_state(pre) is None ==> db_unchanged(pre, post)
    &&& db_state(pre) matches Some(os) ==> ({
        &&& os.is_complete ==> db_unchanged(pre, post)
        &&& (!os.is_complete && spec_strategy_parse(os.strategy) == Strategy::PathFiltered
            && file is None) ==> db_unchanged(pre, post)
        &&& (!os.is_complete && !(spec_strategy_parse(os.strategy) == Strategy::PathFiltered
            && file is None) && r is Ok) ==> ({
            &&& db_state(post) matches Some(ns)
            &&& ns.head_commit == os.head_commit
            &&& ns.strategy == os.strategy
            &&& ns.commits_indexed >= os.commits_indexed
            &&& ns.is_complete ==> ns.resume_oid is None
            &&& ns.target_path == (match file {
                Some(f) => Some(f),
                None => os.target_path,
            })
        })
    })
}

/// One background continuation over an already-open store: if the record
/// says indexing is unfinished, run one more walk segment for the given
/// budget (path-filtered for `file_path` when that is the strategy, else
/// global under the commit ceiling) and persist the accumulated state.
pub fn continue_indexing(
    db: &mut Database,
    repo_root: &str,
    budget_ms: u64,
    file_path: Option<&str>,
) -> (r: Result<(), EngramError>)
    ensures
        spec_continue_post(
            *old(db),
            *final(db),
            match file_path {
                Some(p) => Some(p@),
                None => None,
            },
            r,
        ),
{
    let st = match db.get_indexing_state() {
        Ok(Some(s)) => s,
        Ok(None) => {
            return Ok(());
        },
        Err(e) => {
            return Err(e);
        },
    };
    if st.is_complete {
        return Ok(());
    }
    let strategy = Strategy::from_str(st.strategy.as_str());
    let repo = match crate::gitio::repo_open(repo_root) {
        Ok(r2) => r2,
        Err(e) => {
            return Err(crate::gitio::vcs_err(e));
        },
    };
    let resume_ref: Option<&str> = match &st.resume_oid {
        Some(s) => Some(s.as_str()),
        None => None,
    };

    let out: WalkOutcome = if strategy == Strategy::PathFiltered {
        match file_path {
            Some(path) => {
                match path_filtered_index(
                    &repo,
                    db,
                    path,
                    budget_ms,
                    resume_ref,
                    BACKGROUND_BATCH_SIZE,
                ) {
                    Ok(t) => t,
                    Err(e) => {
                        return Err(e);
                    },
                }
            },
            None => {
                return Ok(());
            },
        }
    } else {
        let base: usize = st.commits_indexed as usize;
        let remaining_limit: usize = if base >= DEFAULT_COMMIT_LIMIT {
            0
        } else {
            DEFAULT_COMMIT_LIMIT - base
        };
        match budgeted_global_index(
            &repo,
            db,
            budget_ms,
            remaining_limit,
            resume_ref,
            BACKGROUND_BATCH_SIZE,
        ) {
            Ok(t) => t,
            Err(e) => {
                return Err(e);
            },
        }
    };
    let new_target: Option<String> = match file_path {
        Some(p) => Some(p.to_owned()),
        None => st.target_path,
    };
    let new_state = state_after_walk(
        st.head_commit,
        st.strategy,
        st.commits_indexed,
        st.resume_oid,
        new_target,
        out,
        unix_now(),
    );
    match db.set_indexing_state(&new_state) {
        Ok(()) => {},
        Err(e) => {
            return Err(e);
        },
    }
    Ok(())
}

/// Background continuation entry point: reopen the store under the
/// repository root and continue indexing there; what the continuation
/// does to the store is `continue_indexing`'s contract.  For the
/// path-filtered strategy the caller must pass the file again; without it
/// the continuation is a no-op, since only the path-filtered state
/// records its target.
pub fn background_index(repo_root: &str, budget_ms: u64, file_path: Option<&str>) -> (r: Result<
    (),
    EngramError,
>) {
    let mut db_path: String = repo_root.to_owned();
    db_path.append("/.engram/engram.db");
    let mut db = match Database::open(db_path.as_str()) {
        Ok(d) => d,
        Err(e) => {
            return Err(e);
        },
    };
    continue_indexing(&mut db, repo_root, budget_ms, file_path)
}

} // verus!
