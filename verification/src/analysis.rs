//! The analysis entry point: index, then query and score.

use vstd::prelude::*;

use crate::gitio::{clock_now, commit_time, elapsed_ms, repo_head, revwalk_next, revwalk_start,
    vcs_err};
use crate::orchestrate::smart_index;
use crate::risk::{GATED_RISK, HALF_COUPLING, RISK_SCALE, RawCoupledFileStats, TimeWindow,
    lemma_scored_member, score_coupled_files, spec_coupling, spec_entry_view, spec_risk_sorted,
    spec_scored_of, spec_stats_valid};
use crate::rows::{CommitRows, rows_apply_all, spec_co_change, spec_commit_count,
    spec_coupled_with};
use crate::store::{Database, EngramError, db_events, db_memories, db_rows, db_state,
    db_watermark};
use crate::strategy::spec_strategy_parse;
use crate::text::str_eq;
use crate::types::{AnalysisResponse, IndexingStatus};
use crate::walk::{filter_indexable, rows_grown_indexable};

verus! {

/// How the walkers and the incremental indexer are bounded by default.
pub const HISTORY_COMMIT_LIMIT: usize = 1000;

/// Incremental history indexing for small repositories: walk from HEAD,
/// inserting each commit's indexable files with rename detection, until
/// the commit limit or the watermark (the newest commit of the previous
/// run) is reached; then move the watermark to the new HEAD.  The
/// commit-row table only grows by filtered rows; state, memories and
/// events are untouched.  Returns the number of commits indexed.
pub fn index_history(repo: &git2::Repository, db: &mut Database, commit_limit: usize) -> (r:
    Result<u32, EngramError>)
    ensures
        rows_grown_indexable(db_rows(*old(db)), db_rows(*final(db))),
        db_state(*final(db)) == db_state(*old(db)),
        db_memories(*final(db)) == db_memories(*old(db)),
        db_events(*final(db)) == db_events(*old(db)),
        r matches Ok(n) ==> n as int <= commit_limit as int,
        r matches Ok(n) ==> (n == 0 ==> db_rows(*final(db)) == db_rows(*old(db))),
        r is Ok ==> exists|cs: Seq<CommitRows>|
            db_rows(*final(db)) == #[trigger] rows_apply_all(db_rows(*old(db)), cs),
{
    let ghost rows0 = db_rows(*db);
    let ghost state0 = db_state(*db);
    let ghost mem0 = db_memories(*db);
    let ghost ev0 = db_events(*db);

    let mut walk = match revwalk_start(repo, false) {
        Ok(w) => w,
        Err(e) => {
            return Err(vcs_err(e));
        },
    };
    let watermark = match db.get_watermark() {
        Ok(w) => w,
        Err(e) => {
            return Err(e);
        },
    };

    let mut indexed: u32 = 0;
    match db.begin_transaction() {
        Ok(()) => {},
        Err(e) => {
            return Err(e);
        },
    }
    let ghost mut walked: Seq<CommitRows> = Seq::empty();
    loop
        invariant
            rows0 == db_rows(*old(db)),
            state0 == db_state(*old(db)),
            mem0 == db_memories(*old(db)),
            ev0 == db_events(*old(db)),
            rows_grown_indexable(rows0, db_rows(*db)),
            db_rows(*db) == rows_apply_all(rows0, walked),
            db_state(*db) == state0,
            db_memories(*db) == mem0,
            db_events(*db) == ev0,
            indexed as int <= commit_limit as int,
            indexed == 0 ==> db_rows(*db) == rows0,
        decreases commit_limit - indexed,
    {
        if indexed as usize >= commit_limit || indexed == u32::MAX {
            break;
        }
        let next = revwalk_next(&mut walk);
        let oid = match next {
            None => {
                break;
            },
            Some(rr) => match rr {
                Ok(o) => o,
                Err(e) => {
                    return Err(vcs_err(e));
                },
            },
        };
        let reached_watermark = match &watermark {
            Some(wm) => str_eq(wm.as_str(), oid.as_str()),
            None => false,
        };
        if reached_watermark {
            break;
        }
        let ts = match commit_time(repo, oid.as_str()) {
            Ok(t) => t,
            Err(e) => {
                return Err(vcs_err(e));
            },
        };
        let parent = match crate::gitio::first_parent_id(repo, oid.as_str()) {
            Ok(p) => p,
            Err(e) => {
                return Err(vcs_err(e));
            },
        };
        let parent_ref: Option<&str> = match &parent {
            Some(p) => Some(p.as_str()),
            None => None,
        };
        let all_paths = match crate::gitio::diff_new_files(repo, oid.as_str(), parent_ref, true)
        {
            Ok(v) => v,
            Err(e) => {
                return Err(vcs_err(e));
            },
        };
        let files = filter_indexable(&all_paths);
        if files.len() > 0 {
            let ghost cur = db_rows(*db);
            let ghost fseq = files@.map_values(|s: String| s@);
            match db.insert_commit(oid.as_str(), &files, ts) {
                Ok(()) => {
                    proof {
                        crate::walk::lemma_grown_insert(rows0, cur, oid@, fseq, ts as int);
                        let step = CommitRows { commit: oid@, files: fseq, ts: ts as int };
                        assert(walked.push(step).drop_last() =~= walked);
                        assert(walked.push(step).last() == step);
                        walked = walked.push(step);
                        assert(db_rows(*db) == rows_apply_all(rows0, walked));
                    }
                },
                Err(e) => {
                    proof {
                        crate::walk::lemma_grown_partial(
                            rows0,
                            cur,
                            db_rows(*db),
                            oid@,
                            fseq,
                            ts as int,
                        );
                    }
                    return Err(e);
                },
            }
        }
        if indexed == 0 {
            match db.set_watermark(oid.as_str()) {
                Ok(()) => {},
                Err(e) => {
                    return Err(e);
                },
            }
        }
        indexed = indexed + 1;
    }
    match db.commit_transaction() {
        Ok(()) => {},
        Err(e) => {
            return Err(e);
        },
    }
    Ok(indexed)
}

/// Analyze coupling for one file: run the orchestrated indexer (HEAD or
/// walk failures on single objects degrade to whatever the store already
/// holds; store failures are fatal), then read the coupling statistics
/// and score them.
///
/// The response's coupled files are exactly scored, sorted and capped as
/// the risk module states, and every entry names a file that really
/// co-changed with the target, with its exact co-change count and
/// coupling score against the store.  Returns the response and whether a
/// background continuation should run.
pub fn analyze(
    repo: &git2::Repository,
    db: &mut Database,
    repo_root: &str,
    file_path: &str,
    foreground_budget_ms: u64,
    index_file_size: Option<u64>,
) -> (r: Result<(AnalysisResponse, bool), EngramError>)
    ensures
        rows_grown_indexable(db_rows(*old(db)), db_rows(*final(db))),
        db_watermark(*final(db)) == db_watermark(*old(db)),
        db_memories(*final(db)) == db_memories(*old(db)),
        db_events(*final(db)) == db_events(*old(db)),
        r matches Ok(out) ==> (out.0.indexing_status matches Some(ist) ==> ({
            &&& db_state(*final(db)) matches Some(ns)
            &&& ns.commits_indexed == ist.commits_indexed as int
            &&& ns.is_complete == ist.is_complete
            &&& spec_strategy_parse(ns.strategy) == ist.strategy
            &&& out.1 ==> !ist.is_complete
        })),
        r matches Ok(out) ==> ({
            let resp = out.0;
            let m = db_rows(*final(db));
            &&& resp.file_path@ == file_path@
            &&& resp.repo_root@ == repo_root@
            &&& resp.commit_count as nat == spec_commit_count(m, file_path@)
            &&& resp.coupled_files@.len() <= 10
            &&& spec_risk_sorted(resp.coupled_files@)
            &&& forall|i: int|
                0 <= i < resp.coupled_files@.len() ==> 0 < #[trigger] resp.coupled_files@[
                    i
                ].risk_score <= RISK_SCALE
            &&& forall|i: int|
                0 <= i < resp.coupled_files@.len() && resp.coupled_files@[i].coupling_score
                    < HALF_COUPLING ==> #[trigger] resp.coupled_files@[i].risk_score
                    <= GATED_RISK
            &&& forall|i: int|
                0 <= i < resp.coupled_files@.len() ==> spec_coupled_with(
                    m,
                    file_path@,
                ).contains(#[trigger] resp.coupled_files@[i].path@)
            &&& forall|i: int|
                0 <= i < resp.coupled_files@.len() ==> #[trigger] resp.coupled_files@[
                    i
                ].co_change_count as nat == spec_co_change(
                    m,
                    file_path@,
                    resp.coupled_files@[i].path@,
                )
            &&& forall|i: int|
                0 <= i < resp.coupled_files@.len() ==> #[trigger] resp.coupled_files@[
                    i
                ].coupling_score as int == spec_coupling(
                    resp.coupled_files@[i].co_change_count as int,
                    resp.commit_count as int,
                )
        }),
{
    let start = clock_now();
    let mut needs_background = false;
    let mut status: Option<IndexingStatus> = None;

    match repo_head(repo) {
        Ok(head) => {
            let now = crate::gitio::unix_now();
            match smart_index(
                repo,
                db,
                head.as_str(),
                file_path,
                now,
                foreground_budget_ms,
                index_file_size,
            ) {
                Ok(res) => {
                    needs_background = res.needs_background;
                    status = Some(
                        IndexingStatus {
                            strategy: res.strategy,
                            commits_indexed: res.commits_indexed,
                            is_complete: res.is_complete,
                        },
                    );
                },
                Err(e) => match e {
                    EngramError::Store(msg) => {
                        return Err(EngramError::Store(msg));
                    },
                    EngramError::Vcs(_) => {},
                },
            }
        },
        Err(_) => {},
    }

    let stats = match db.coupled_files_with_stats(file_path) {
        Ok(v) => v,
        Err(e) => {
            return Err(e);
        },
    };
    let commit_count = match db.commit_count(file_path) {
        Ok(c) => c,
        Err(e) => {
            return Err(e);
        },
    };
    let range = match db.commit_time_range() {
        Ok(t) => t,
        Err(e) => {
            return Err(e);
        },
    };
    let window = TimeWindow { oldest_ts: range.0, newest_ts: range.1 };

    let ghost m = db_rows(*db);
    proof {
        if m.dom() =~= Set::<(Seq<char>, Seq<char>)>::empty() {
        } else {
            let k0 = choose|k: (Seq<char>, Seq<char>)| #[trigger] m.contains_key(k) && m[k]
                == range.0 as int;
            assert(range.0 <= m[k0] <= range.1);
        }
        assert(range.0 <= range.1);
        assert forall|i: int|
            0 <= i < stats@.len() implies range.0 <= #[trigger] stats@[i].last_timestamp
            <= range.1 by {
            let c = choose|c: Seq<char>|
                #[trigger] crate::rows::spec_shared_commits(m, file_path@, stats@[
                    i
                ].path@).contains(c) && m[(c, stats@[i].path@)] == stats@[i].last_timestamp;
            assert(m.contains_key((c, stats@[i].path@)));
            assert(m.dom().contains((c, stats@[i].path@)));
            assert(!(m.dom() =~= Set::<(Seq<char>, Seq<char>)>::empty()));
        }
        assert(spec_stats_valid(stats@, commit_count as int, range.0 as int, range.1 as int));
    }
    let coupled = score_coupled_files(&stats, commit_count, &window);
    let ghost cs = coupled@;
    proof {
        lemma_entries_exact(m, stats@, file_path@, commit_count as int, range.0 as int,
            range.1 as int, cs);
    }

    let elapsed = elapsed_ms(&start);
    let response = AnalysisResponse {
        file_path: file_path.to_owned(),
        repo_root: repo_root.to_owned(),
        coupled_files: coupled,
        commit_count: commit_count,
        analysis_time_ms: elapsed,
        test_info: None,
        indexing_status: status,
    };
    proof {
        assert(response.coupled_files@ == cs);
        assert forall|i: int|
            0 <= i < response.coupled_files@.len() implies 0 < #[trigger] response.coupled_files@[
            i
        ].risk_score <= RISK_SCALE by {
            assert(response.coupled_files@[i] == cs[i]);
            assert(0 < cs[i].risk_score <= RISK_SCALE);
        }
        assert forall|i: int|
            0 <= i < response.coupled_files@.len() && response.coupled_files@[i].coupling_score
            < HALF_COUPLING implies #[trigger] response.coupled_files@[i].risk_score
            <= GATED_RISK by {
            assert(response.coupled_files@[i] == cs[i]);
            assert(cs[i].coupling_score < HALF_COUPLING ==> cs[i].risk_score <= GATED_RISK);
        }
        assert forall|i: int|
            0 <= i < response.coupled_files@.len() implies spec_coupled_with(
            m,
            file_path@,
        ).contains(#[trigger] response.coupled_files@[i].path@) by {
            assert(response.coupled_files@[i] == cs[i]);
            assert(spec_coupled_with(m, file_path@).contains(cs[i].path@));
        }
        assert forall|i: int|
            0 <= i < response.coupled_files@.len() implies #[trigger] response.coupled_files@[
            i
        ].co_change_count as nat == spec_co_change(
            m,
            file_path@,
            response.coupled_files@[i].path@,
        ) by {
            assert(response.coupled_files@[i] == cs[i]);
            assert(cs[i].co_change_count as nat == spec_co_change(m, file_path@, cs[i].path@));
        }
        assert forall|i: int|
            0 <= i < response.coupled_files@.len() implies #[trigger] response.coupled_files@[
            i
        ].coupling_score as int == spec_coupling(
            response.coupled_files@[i].co_change_count as int,
            response.commit_count as int,
        ) by {
            assert(response.coupled_files@[i] == cs[i]);
            assert(cs[i].coupling_score as int == spec_coupling(
                cs[i].co_change_count as int,
                commit_count as int,
            ));
        }
    }
    Ok((response, needs_background))
}

/// Each scored entry inherits, through the scored multiset, the exactness
/// of the statistics it came from.
proof fn lemma_entries_exact(
    m: crate::rows::RowMap,
    sv: Seq<RawCoupledFileStats>,
    file: Seq<char>,
    target: int,
    oldest: int,
    newest: int,
    out: Seq<crate::types::CoupledFile>,
)
    requires
        forall|i: int|
            0 <= i < sv.len() ==> spec_coupled_with(m, file).contains(#[trigger] sv[i].path@),
        forall|i: int|
            0 <= i < sv.len() ==> #[trigger] sv[i].co_change_count as nat == spec_co_change(
                m,
                file,
                sv[i].path@,
            ),
        out.map_values(|e: crate::types::CoupledFile| spec_entry_view(e)).to_multiset().subset_of(
            crate::risk::spec_scored_multiset(
                sv,
                target,
                oldest,
                newest,
                crate::risk::spec_max_total(sv),
            ),
        ),
    ensures
        forall|i: int|
            0 <= i < out.len() ==> spec_coupled_with(m, file).contains(#[trigger] out[i].path@),
        forall|i: int|
            0 <= i < out.len() ==> #[trigger] out[i].co_change_count as nat == spec_co_change(
                m,
                file,
                out[i].path@,
            ),
        forall|i: int|
            0 <= i < out.len() ==> #[trigger] out[i].coupling_score as int == spec_coupling(
                out[i].co_change_count as int,
                target,
            ),
{
    let mx = crate::risk::spec_max_total(sv);
    let all = crate::risk::spec_scored_multiset(sv, target, oldest, newest, mx);
    let mv = |e: crate::types::CoupledFile| spec_entry_view(e);
    assert forall|i: int|
        #![trigger out[i].path@]
        #![trigger out[i].co_change_count]
        #![trigger out[i].coupling_score]
        0 <= i < out.len() implies spec_coupled_with(m, file).contains(out[i].path@)
        && out[i].co_change_count as nat == spec_co_change(m, file, out[i].path@) && out[
        i
    ].coupling_score as int == spec_coupling(out[i].co_change_count as int, target) by {
        broadcast use vstd::seq_lib::group_to_multiset_ensures;

        let s = spec_entry_view(out[i]);
        assert(out.map_values(mv)[i] == s);
        assert(out.map_values(mv).contains(s));
        assert(out.map_values(mv).to_multiset().count(s) > 0);
        assert(all.count(s) > 0);
        lemma_scored_member(sv, target, oldest, newest, mx, s);
        let j = choose|j: int|
            0 <= j < sv.len() && #[trigger] spec_scored_of(sv[j], target, oldest, newest, mx)
                == s && s.risk > 0;
        assert(sv[j].path@ == s.path);
        assert(sv[j].co_change_count as nat == spec_co_change(m, file, sv[j].path@));
        assert(s.co_change == sv[j].co_change_count as int);
        assert(s.coupling == spec_coupling(s.co_change, target));
    }
}

} // verus!
