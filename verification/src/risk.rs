//! The risk scorer.
//!
//! Scores are fixed-point fractions of [`RISK_SCALE`]: a score of
//! `RISK_SCALE` means 1.0.  Each coupled file blends three signals,
//! `risk = 0.5 * coupling + 0.3 * churn + 0.2 * recency`, every division
//! rounding down.  Files whose coupling is below one half cannot reach the
//! critical band: their risk is clamped below `8/10` of the scale.  The
//! result is filtered to positive risk, sorted non-increasingly and capped
//! at ten entries.

use vstd::prelude::*;
use vstd::multiset::Multiset;
use vstd::seq_lib::lemma_multiset_commutative;

use crate::text::clone_string;
use crate::types::{CoupledFile, TestIntent, Memory};

verus! {

/// One unit of score: scores range over `0 ..= RISK_SCALE`.
pub const RISK_SCALE: u32 = 10000;

/// Coupling below this cannot be critical.
pub const HALF_COUPLING: u32 = 5000;

/// The critical band starts here ...
pub const CRITICAL_RISK: u32 = 8000;

/// ... and gated files are clamped to this, just below it.
pub const GATED_RISK: u32 = 7900;

/// At most this many coupled files are reported.
pub const MAX_RESULTS: usize = 10;

/// Raw statistics for one candidate file, as read from the store.
pub struct RawCoupledFileStats {
    pub path: String,
    pub co_change_count: u32,
    pub total_commits: u32,
    pub last_timestamp: i64,
}

/// The span of commit timestamps over the whole store.
pub struct TimeWindow {
    pub oldest_ts: i64,
    pub newest_ts: i64,
}

/// The scored fields of a result entry, as mathematical values.
pub struct Scored {
    pub path: Seq<char>,
    pub coupling: int,
    pub co_change: int,
    pub risk: int,
}

/// Fraction of the target's commits that also touched the candidate.
pub open spec fn spec_coupling(co_change: int, target: int) -> int {
    if target > 0 {
        co_change * RISK_SCALE / target
    } else {
        0
    }
}

/// The candidate's total commits against the busiest candidate.
pub open spec fn spec_churn(total: int, max_total: int) -> int {
    total * RISK_SCALE / max_total
}

/// Position of the last shared commit inside the global time window; a
/// degenerate window counts as fully recent.
pub open spec fn spec_recency(last: int, oldest: int, newest: int) -> int {
    if newest == oldest {
        RISK_SCALE as int
    } else {
        (last - oldest) * RISK_SCALE / (newest - oldest)
    }
}

/// The blended risk before the coupling gate.
pub open spec fn spec_raw_risk(coupling: int, churn: int, recency: int) -> int {
    (5 * coupling + 3 * churn + 2 * recency) / 10
}

/// The coupling gate: risk in the critical band is clamped just below it
/// when coupling is under one half.
pub open spec fn spec_gated_risk(coupling: int, raw: int) -> int {
    if coupling < HALF_COUPLING && raw >= CRITICAL_RISK {
        GATED_RISK as int
    } else {
        raw
    }
}

/// The largest `total_commits` among the candidates, floored at one.
pub open spec fn spec_max_total(files: Seq<RawCoupledFileStats>) -> int
    decreases files.len(),
{
    if files.len() == 0 {
        1
    } else {
        let rest = spec_max_total(files.drop_last());
        if files.last().total_commits > rest {
            files.last().total_commits as int
        } else {
            rest
        }
    }
}

/// The scored view of one candidate.
pub open spec fn spec_scored_of(
    f: RawCoupledFileStats,
    target: int,
    oldest: int,
    newest: int,
    max_total: int,
) -> Scored {
    let coupling = spec_coupling(f.co_change_count as int, target);
    let churn = spec_churn(f.total_commits as int, max_total);
    let recency = spec_recency(f.last_timestamp as int, oldest, newest);
    Scored {
        path: f.path@,
        coupling: coupling,
        co_change: f.co_change_count as int,
        risk: spec_gated_risk(coupling, spec_raw_risk(coupling, churn, recency)),
    }
}

/// How many candidates score a positive risk.
pub open spec fn spec_count_positive(
    files: Seq<RawCoupledFileStats>,
    target: int,
    oldest: int,
    newest: int,
    max_total: int,
) -> int
    decreases files.len(),
{
    if files.len() == 0 {
        0
    } else {
        spec_count_positive(files.drop_last(), target, oldest, newest, max_total) + if spec_scored_of(
            files.last(),
            target,
            oldest,
            newest,
            max_total,
        ).risk > 0 {
            1int
        } else {
            0int
        }
    }
}

/// The multiset of scored candidates with positive risk.
pub open spec fn spec_scored_multiset(
    files: Seq<RawCoupledFileStats>,
    target: int,
    oldest: int,
    newest: int,
    max_total: int,
) -> Multiset<Scored>
    decreases files.len(),
{
    if files.len() == 0 {
        Multiset::empty()
    } else {
        let rest = spec_scored_multiset(files.drop_last(), target, oldest, newest, max_total);
        let s = spec_scored_of(files.last(), target, oldest, newest, max_total);
        if s.risk > 0 {
            rest.insert(s)
        } else {
            rest
        }
    }
}

/// Every member of the scored multiset is the scored view of some
/// candidate, with positive risk.
pub proof fn lemma_scored_member(
    files: Seq<RawCoupledFileStats>,
    target: int,
    oldest: int,
    newest: int,
    max_total: int,
    s: Scored,
)
    requires
        spec_scored_multiset(files, target, oldest, newest, max_total).count(s) > 0,
    ensures
        exists|j: int|
            0 <= j < files.len() && #[trigger] spec_scored_of(
                files[j],
                target,
                oldest,
                newest,
                max_total,
            ) == s && s.risk > 0,
    decreases files.len(),
{
    if files.len() > 0 {
        let last_s = spec_scored_of(files.last(), target, oldest, newest, max_total);
        let rest = spec_scored_multiset(files.drop_last(), target, oldest, newest, max_total);
        if last_s.risk > 0 && s == last_s {
            assert(spec_scored_of(files[files.len() - 1], target, oldest, newest, max_total)
                == s);
        } else {
            assert(rest.count(s) > 0);
            lemma_scored_member(files.drop_last(), target, oldest, newest, max_total, s);
            let j = choose|j: int|
                0 <= j < files.drop_last().len() && #[trigger] spec_scored_of(
                    files.drop_last()[j],
                    target,
                    oldest,
                    newest,
                    max_total,
                ) == s && s.risk > 0;
            assert(files.drop_last()[j] == files[j]);
        }
    }
}

/// The scored view of a result entry.
pub open spec fn spec_entry_view(e: CoupledFile) -> Scored {
    Scored {
        path: e.path@,
        coupling: e.coupling_score as int,
        co_change: e.co_change_count as int,
        risk: e.risk_score as int,
    }
}

/// Result entries sorted by non-increasing risk.
pub open spec fn spec_risk_sorted(s: Seq<CoupledFile>) -> bool {
    forall|i: int, j: int|
        0 <= i <= j < s.len() ==> #[trigger] s[i].risk_score >= #[trigger] s[j].risk_score
}

/// Candidate statistics consistent with having been read from the store
/// for a target file with `target` commits and this time window: counts
/// are bounded by the target's commit count and timestamps lie inside the
/// window.
pub open spec fn spec_stats_valid(
    files: Seq<RawCoupledFileStats>,
    target: int,
    oldest: int,
    newest: int,
) -> bool {
    &&& oldest <= newest
    &&& forall|i: int|
        0 <= i < files.len() ==> oldest <= #[trigger] files[i].last_timestamp <= newest
    &&& target > 0 ==> forall|i: int|
        0 <= i < files.len() ==> #[trigger] files[i].co_change_count <= target
}

/// All scored fields of `e` agree with the scored value `s`, and the
/// enrichment lists start out empty.
pub open spec fn spec_entry_fresh(e: CoupledFile) -> bool {
    e.memories@ == Seq::<Memory>::empty() && e.test_intents@ == Seq::<TestIntent>::empty()
}

/// Each signal stays inside the scale when its inputs are valid.
proof fn lemma_signal_bounds(
    f: RawCoupledFileStats,
    target: int,
    oldest: int,
    newest: int,
    max_total: int,
)
    requires
        oldest <= newest,
        oldest <= f.last_timestamp <= newest,
        target > 0 ==> f.co_change_count <= target,
        max_total >= 1,
        f.total_commits <= max_total,
    ensures
        0 <= spec_coupling(f.co_change_count as int, target) <= RISK_SCALE,
        0 <= spec_churn(f.total_commits as int, max_total) <= RISK_SCALE,
        0 <= spec_recency(f.last_timestamp as int, oldest, newest) <= RISK_SCALE,
        0 <= spec_scored_of(f, target, oldest, newest, max_total).risk <= RISK_SCALE,
        spec_scored_of(f, target, oldest, newest, max_total).coupling < HALF_COUPLING
            ==> spec_scored_of(f, target, oldest, newest, max_total).risk <= GATED_RISK,
{
    let co = f.co_change_count as int;
    let total = f.total_commits as int;
    let last = f.last_timestamp as int;
    let sc = RISK_SCALE as int;
    if target > 0 {
        assert(co * sc <= target * sc) by (nonlinear_arith)
            requires co <= target, sc > 0;
        vstd::arithmetic::div_mod::lemma_div_is_ordered(co * sc, target * sc, target);
        vstd::arithmetic::div_mod::lemma_div_multiples_vanish(sc, target);
        vstd::arithmetic::div_mod::lemma_div_pos_is_pos(co * sc, target);
        assert(co * sc >= 0) by (nonlinear_arith)
            requires co >= 0, sc >= 0;
    }
    assert(total * sc <= max_total * sc) by (nonlinear_arith)
        requires total <= max_total, sc > 0;
    vstd::arithmetic::div_mod::lemma_div_is_ordered(total * sc, max_total * sc, max_total);
    vstd::arithmetic::div_mod::lemma_div_multiples_vanish(sc, max_total);
    vstd::arithmetic::div_mod::lemma_div_pos_is_pos(total * sc, max_total);
    assert(total * sc >= 0) by (nonlinear_arith)
        requires total >= 0, sc >= 0;
    if newest != oldest {
        let span = newest - oldest;
        assert((last - oldest) * sc <= span * sc) by (nonlinear_arith)
            requires last - oldest <= span, sc > 0;
        vstd::arithmetic::div_mod::lemma_div_is_ordered((last - oldest) * sc, span * sc, span);
        vstd::arithmetic::div_mod::lemma_div_multiples_vanish(sc, span);
        vstd::arithmetic::div_mod::lemma_div_pos_is_pos((last - oldest) * sc, span);
        assert((last - oldest) * sc >= 0) by (nonlinear_arith)
            requires last - oldest >= 0, sc >= 0;
    }
}

/// The maximum really bounds every candidate.
proof fn lemma_max_total_bounds(files: Seq<RawCoupledFileStats>)
    ensures
        spec_max_total(files) >= 1,
        forall|i: int|
            0 <= i < files.len() ==> #[trigger] files[i].total_commits <= spec_max_total(files),
    decreases files.len(),
{
    if files.len() > 0 {
        lemma_max_total_bounds(files.drop_last());
        assert forall|i: int| 0 <= i < files.len() implies #[trigger] files[i].total_commits
            <= spec_max_total(files) by {
            if i < files.len() - 1 {
                assert(files.drop_last()[i] == files[i]);
            }
        }
    }
}

/// Compute risk-scored coupled files from raw candidate statistics.
///
/// The result holds, for every candidate whose blended risk is positive,
/// one entry with the candidate's path and co-change count, its coupling
/// score, and its gated risk; entries are sorted by non-increasing risk
/// and truncated to the ten highest.  Every dropped positive candidate
/// scores no higher than the last kept entry.
pub fn score_coupled_files(
    files: &Vec<RawCoupledFileStats>,
    target_commit_count: u32,
    window: &TimeWindow,
) -> (r: Vec<CoupledFile>)
    requires
        spec_stats_valid(
            files@,
            target_commit_count as int,
            window.oldest_ts as int,
            window.newest_ts as int,
        ),
    ensures
        ({
            let target = target_commit_count as int;
            let oldest = window.oldest_ts as int;
            let newest = window.newest_ts as int;
            let mx = spec_max_total(files@);
            let all = spec_scored_multiset(files@, target, oldest, newest, mx);
            let kept = r@.map_values(|e: CoupledFile| spec_entry_view(e)).to_multiset();
            let pos = spec_count_positive(files@, target, oldest, newest, mx);
            &&& r@.len() <= MAX_RESULTS
            &&& r@.len() == if pos <= MAX_RESULTS {
                pos
            } else {
                MAX_RESULTS as int
            }
            &&& spec_risk_sorted(r@)
            &&& forall|i: int|
                0 <= i < r@.len() ==> 0 < #[trigger] r@[i].risk_score <= RISK_SCALE
            &&& forall|i: int|
                0 <= i < r@.len() && r@[i].coupling_score < HALF_COUPLING ==> #[trigger] r@[
                    i
                ].risk_score <= GATED_RISK
            &&& forall|i: int| 0 <= i < r@.len() ==> spec_entry_fresh(#[trigger] r@[i])
            &&& kept.subset_of(all)
            &&& pos <= MAX_RESULTS ==> kept =~= all
            &&& forall|s: Scored|
                #[trigger] all.count(s) > kept.count(s) ==> r@.len() == MAX_RESULTS && s.risk
                    <= r@[MAX_RESULTS - 1].risk_score
        }),
{
    let ghost target = target_commit_count as int;
    let ghost oldest = window.oldest_ts as int;
    let ghost newest = window.newest_ts as int;

    let max_total: u32 = max_total_commits(files);
    proof {
        lemma_max_total_bounds(files@);
    }
    let ghost mx = spec_max_total(files@);

    let scored: Vec<CoupledFile> = score_all(files, target_commit_count, window, max_total);
    let ghost sc = scored@;
    let sorted: Vec<CoupledFile> = sort_by_risk(scored);
    let mut out: Vec<CoupledFile> = sorted;
    let ghost full = out@;
    if out.len() > MAX_RESULTS {
        out.truncate(MAX_RESULTS);
    }

    proof {
        let all = spec_scored_multiset(files@, target, oldest, newest, mx);
        let pos = spec_count_positive(files@, target, oldest, newest, mx);
        broadcast use vstd::seq_lib::group_to_multiset_ensures;

        assert forall|i: int| 0 <= i < out@.len() implies (0 < #[trigger] out@[i].risk_score
            <= RISK_SCALE && (out@[i].coupling_score < HALF_COUPLING ==> out@[i].risk_score
            <= GATED_RISK) && spec_entry_fresh(out@[i])) by {
            assert(out@[i] == full[i]);
            assert(sc.contains(full[i]));
            let j = choose|j: int| 0 <= j < sc.len() && sc[j] == full[i];
            assert(0 < sc[j].risk_score <= RISK_SCALE);
        }

        if full.len() > MAX_RESULTS {
            assert(out@ =~= full.take(MAX_RESULTS as int));
            let kept_seq = full.take(MAX_RESULTS as int);
            let dropped = full.skip(MAX_RESULTS as int);
            assert(full =~= kept_seq + dropped);
            lemma_multiset_commutative(kept_seq, dropped);
            lemma_map_values_distributes(kept_seq, dropped);
            lemma_multiset_commutative(
                kept_seq.map_values(|e: CoupledFile| spec_entry_view(e)),
                dropped.map_values(|e: CoupledFile| spec_entry_view(e)),
            );
            assert forall|s: Scored|
                #[trigger] all.count(s) > out@.map_values(
                    |e: CoupledFile| spec_entry_view(e),
                ).to_multiset().count(s) implies out@.len() == MAX_RESULTS && s.risk <= out@[
                MAX_RESULTS - 1
            ].risk_score by {
                let kept = out@.map_values(|e: CoupledFile| spec_entry_view(e)).to_multiset();
                let dm = dropped.map_values(|e: CoupledFile| spec_entry_view(e)).to_multiset();
                assert(dm.count(s) > 0);
                let dseq = dropped.map_values(|e: CoupledFile| spec_entry_view(e));
                assert(dseq.contains(s));
                let di = choose|di: int| 0 <= di < dseq.len() && dseq[di] == s;
                assert(dropped[di] == full[MAX_RESULTS + di]);
                assert(full[MAX_RESULTS + di].risk_score <= full[MAX_RESULTS - 1].risk_score);
            }
        } else {
            assert(out@ == full);
        }
    }
    out
}

/// `map_values` distributes over concatenation.
proof fn lemma_map_values_distributes(a: Seq<CoupledFile>, b: Seq<CoupledFile>)
    ensures
        (a + b).map_values(|e: CoupledFile| spec_entry_view(e)) =~= a.map_values(
            |e: CoupledFile| spec_entry_view(e),
        ) + b.map_values(|e: CoupledFile| spec_entry_view(e)),
{
}

/// The largest `total_commits` among the candidates, floored at one.
fn max_total_commits(files: &Vec<RawCoupledFileStats>) -> (r: u32)
    ensures
        r as int == spec_max_total(files@),
{
    let n: usize = files.len();
    let mut mx: u32 = 1;
    let mut i: usize = 0;
    while i < n
        invariant
            0 <= i <= n,
            n == files@.len(),
            mx as int == spec_max_total(files@.take(i as int)),
        decreases n - i,
    {
        assert(files@.take(i + 1).drop_last() =~= files@.take(i as int));
        assert(files@.take(i + 1).last() == files@[i as int]);
        if files[i].total_commits > mx {
            mx = files[i].total_commits;
        }
        i = i + 1;
    }
    assert(files@.take(n as int) =~= files@);
    mx
}

/// Scores every candidate, keeping those with positive risk.
fn score_all(
    files: &Vec<RawCoupledFileStats>,
    target_commit_count: u32,
    window: &TimeWindow,
    max_total: u32,
) -> (r: Vec<CoupledFile>)
    requires
        spec_stats_valid(
            files@,
            target_commit_count as int,
            window.oldest_ts as int,
            window.newest_ts as int,
        ),
        max_total as int == spec_max_total(files@),
    ensures
        ({
            let target = target_commit_count as int;
            let oldest = window.oldest_ts as int;
            let newest = window.newest_ts as int;
            let mx = spec_max_total(files@);
            &&& r@.map_values(|e: CoupledFile| spec_entry_view(e)).to_multiset()
                =~= spec_scored_multiset(files@, target, oldest, newest, mx)
            &&& r@.len() == spec_count_positive(files@, target, oldest, newest, mx)
            &&& forall|i: int|
                0 <= i < r@.len() ==> 0 < #[trigger] r@[i].risk_score <= RISK_SCALE
            &&& forall|i: int|
                0 <= i < r@.len() && r@[i].coupling_score < HALF_COUPLING ==> #[trigger] r@[
                    i
                ].risk_score <= GATED_RISK
            &&& forall|i: int| 0 <= i < r@.len() ==> spec_entry_fresh(#[trigger] r@[i])
        }),
{
    let ghost target = target_commit_count as int;
    let ghost oldest = window.oldest_ts as int;
    let ghost newest = window.newest_ts as int;
    let ghost mx = spec_max_total(files@);
    proof {
        lemma_max_total_bounds(files@);
    }

    let n: usize = files.len();
    let mut out: Vec<CoupledFile> = Vec::new();
    let mut i: usize = 0;
    proof {
        broadcast use vstd::seq_lib::group_to_multiset_ensures;

        let mv = |e: CoupledFile| spec_entry_view(e);
        assert(out@.map_values(mv) =~= Seq::<Scored>::empty());
        assert(out@.map_values(mv).to_multiset() =~= Multiset::<Scored>::empty());
        assert(files@.take(0) =~= Seq::<RawCoupledFileStats>::empty());
    }
    while i < n
        invariant
            0 <= i <= n,
            n == files@.len(),
            max_total as int == mx,
            mx >= 1,
            target == target_commit_count as int,
            oldest == window.oldest_ts as int,
            newest == window.newest_ts as int,
            spec_stats_valid(files@, target, oldest, newest),
            forall|j: int|
                0 <= j < files@.len() ==> #[trigger] files@[j].total_commits <= mx,
            out@.map_values(|e: CoupledFile| spec_entry_view(e)).to_multiset()
                =~= spec_scored_multiset(files@.take(i as int), target, oldest, newest, mx),
            out@.len() == spec_count_positive(files@.take(i as int), target, oldest, newest, mx),
            forall|j: int|
                0 <= j < out@.len() ==> 0 < #[trigger] out@[j].risk_score <= RISK_SCALE,
            forall|j: int|
                0 <= j < out@.len() && out@[j].coupling_score < HALF_COUPLING ==> #[trigger] out@[
                    j
                ].risk_score <= GATED_RISK,
            forall|j: int| 0 <= j < out@.len() ==> spec_entry_fresh(#[trigger] out@[j]),
        decreases n - i,
    {
        broadcast use vstd::seq_lib::group_to_multiset_ensures;

        assert(files@.take(i + 1).drop_last() =~= files@.take(i as int));
        assert(files@.take(i + 1).last() == files@[i as int]);

        let f = &files[i];
        proof {
            lemma_signal_bounds(files@[i as int], target, oldest, newest, mx);
        }

        let coupling: u32 = if target_commit_count > 0 {
            ((f.co_change_count as u64) * (RISK_SCALE as u64) / (target_commit_count as u64))
                as u32
        } else {
            0
        };
        let churn: u32 = ((f.total_commits as u64) * (RISK_SCALE as u64) / (max_total as u64))
            as u32;
        let recency: u32 = if window.newest_ts == window.oldest_ts {
            RISK_SCALE
        } else {
            let span: i128 = (window.newest_ts as i128) - (window.oldest_ts as i128);
            let off: i128 = (f.last_timestamp as i128) - (window.oldest_ts as i128);
            (off * (RISK_SCALE as i128) / span) as u32
        };
        let raw: u32 = (5 * coupling + 3 * churn + 2 * recency) / 10;
        let risk: u32 = if coupling < HALF_COUPLING && raw >= CRITICAL_RISK {
            GATED_RISK
        } else {
            raw
        };

        let ghost s = spec_scored_of(files@[i as int], target, oldest, newest, mx);
        assert(coupling as int == s.coupling);
        assert(risk as int == s.risk);
        let ghost out_before = out@;
        let ghost mv = |e: CoupledFile| spec_entry_view(e);

        if risk > 0 {
            let entry = CoupledFile {
                path: clone_string(&f.path),
                coupling_score: coupling,
                co_change_count: f.co_change_count,
                risk_score: risk,
                memories: Vec::new(),
                test_intents: Vec::new(),
            };
            assert(spec_entry_view(entry) == s);
            out.push(entry);
            proof {
                assert(out@ =~= out_before.push(entry));
                assert(out@.map_values(mv) =~= out_before.map_values(mv).push(s));
                assert(out@.map_values(mv).to_multiset() =~= out_before.map_values(
                    mv,
                ).to_multiset().insert(s));
            }
        }
        i = i + 1;
    }
    assert(files@.take(n as int) =~= files@);
    out
}

/// Sorts entries by non-increasing risk score, preserving the multiset of
/// scored values (selection sort).
fn sort_by_risk(inp: Vec<CoupledFile>) -> (r: Vec<CoupledFile>)
    ensures
        r@.map_values(|e: CoupledFile| spec_entry_view(e)).to_multiset() =~= inp@.map_values(
            |e: CoupledFile| spec_entry_view(e),
        ).to_multiset(),
        r@.len() == inp@.len(),
        spec_risk_sorted(r@),
        forall|i: int| 0 <= i < r@.len() ==> inp@.contains(#[trigger] r@[i]),
{
    let ghost orig = inp@;
    let mut rest: Vec<CoupledFile> = inp;
    let mut out: Vec<CoupledFile> = Vec::new();
    proof {
        broadcast use vstd::seq_lib::group_to_multiset_ensures;

        let mv = |e: CoupledFile| spec_entry_view(e);
        assert(out@.map_values(mv) =~= Seq::<Scored>::empty());
        assert(out@.map_values(mv).to_multiset() =~= Multiset::<Scored>::empty());
        assert(out@.map_values(mv).to_multiset().add(
            rest@.map_values(mv).to_multiset(),
        ) =~= orig.map_values(mv).to_multiset());
        assert forall|i: int| 0 <= i < rest@.len() implies orig.contains(
            #[trigger] rest@[i],
        ) by {
            assert(rest@[i] == orig[i]);
        }
    }
    while rest.len() > 0
        invariant
            out@.len() + rest@.len() == orig.len(),
            out@.map_values(|e: CoupledFile| spec_entry_view(e)).to_multiset().add(
                rest@.map_values(|e: CoupledFile| spec_entry_view(e)).to_multiset(),
            ) =~= orig.map_values(|e: CoupledFile| spec_entry_view(e)).to_multiset(),
            spec_risk_sorted(out@),
            forall|j: int|
                0 <= j < rest@.len() && out@.len() > 0 ==> #[trigger] rest@[j].risk_score
                    <= out@[out@.len() - 1].risk_score,
            forall|i: int| 0 <= i < out@.len() ==> orig.contains(#[trigger] out@[i]),
            forall|i: int| 0 <= i < rest@.len() ==> orig.contains(#[trigger] rest@[i]),
        decreases rest@.len(),
    {
        broadcast use vstd::seq_lib::group_to_multiset_ensures;

        let n: usize = rest.len();
        let mut best: usize = 0;
        let mut k: usize = 1;
        while k < n
            invariant
                0 <= best < k <= n,
                n == rest@.len(),
                forall|j: int| 0 <= j < k ==> #[trigger] rest@[j].risk_score <= rest@[
                    best as int
                ].risk_score,
            decreases n - k,
        {
            if rest[k].risk_score > rest[best].risk_score {
                best = k;
            }
            k = k + 1;
        }
        let ghost rest_before = rest@;
        let picked = rest.remove(best);
        assert(rest_before.map_values(|e: CoupledFile| spec_entry_view(e)).remove(best as int)
            =~= rest@.map_values(|e: CoupledFile| spec_entry_view(e)));
        proof {
            let mv = |e: CoupledFile| spec_entry_view(e);
            assert(rest_before.map_values(mv)[best as int] == spec_entry_view(picked));
            assert(rest_before.map_values(mv).remove(best as int).to_multiset()
                =~= rest_before.map_values(mv).to_multiset().remove(spec_entry_view(picked)));
        }
        let ghost out_before = out@;
        out.push(picked);
        proof {
            let mv = |e: CoupledFile| spec_entry_view(e);
            assert(out@ =~= out_before.push(picked));
            assert(out@.map_values(mv) =~= out_before.map_values(mv).push(
                spec_entry_view(picked),
            ));
            assert(out@.map_values(mv).to_multiset() =~= out_before.map_values(
                mv,
            ).to_multiset().insert(spec_entry_view(picked)));
            assert forall|j: int|
                0 <= j < rest@.len() && out@.len() > 0 implies #[trigger] rest@[j].risk_score
                <= out@[out@.len() - 1].risk_score by {
                if j < best {
                    assert(rest@[j] == rest_before[j]);
                } else {
                    assert(rest@[j] == rest_before[j + 1]);
                }
            }
        }
    }
    out
}

} // verus!
