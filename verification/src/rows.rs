//! Mathematical model of the commit-row table.
//!
//! The store keeps one row per `(commit, file)` pair, carrying the commit's
//! timestamp.  The model is a map from the pair to the timestamp; inserting
//! a commit adds the missing pairs and leaves present ones untouched, which
//! is what makes re-indexing a commit a no-op.

use vstd::prelude::*;

verus! {

/// The commit-row table: `(commit id, file path) -> commit timestamp`.
pub type RowMap = Map<(Seq<char>, Seq<char>), int>;

/// The rows that one walked commit contributes.
pub struct CommitRows {
    pub commit: Seq<char>,
    pub files: Seq<Seq<char>>,
    pub ts: int,
}

/// The table after inserting one commit's files: every `(commit, file)`
/// pair is present afterwards; pairs already present keep their timestamp,
/// new ones get `ts`.
pub open spec fn rows_insert(
    m: RowMap,
    commit: Seq<char>,
    files: Seq<Seq<char>>,
    ts: int,
) -> RowMap {
    Map::new(
        |k: (Seq<char>, Seq<char>)| m.contains_key(k) || (k.0 == commit && files.contains(k.1)),
        |k: (Seq<char>, Seq<char>)| if m.contains_key(k) {
            m[k]
        } else {
            ts
        },
    )
}

/// The table after walking a sequence of commits, oldest applied last.
pub open spec fn rows_apply_all(m: RowMap, cs: Seq<CommitRows>) -> RowMap
    decreases cs.len(),
{
    if cs.len() == 0 {
        m
    } else {
        rows_insert(rows_apply_all(m, cs.drop_last()), cs.last().commit, cs.last().files, cs.last().ts)
    }
}

/// The commits whose row set mentions `f`.
pub open spec fn spec_commits_with(m: RowMap, f: Seq<char>) -> Set<Seq<char>> {
    Set::new(|c: Seq<char>| m.contains_key((c, f)))
}

/// How many commits touch `f`.
pub open spec fn spec_commit_count(m: RowMap, f: Seq<char>) -> nat {
    spec_commits_with(m, f).len()
}

/// The commits that contain both `a` and `b`.
pub open spec fn spec_shared_commits(m: RowMap, a: Seq<char>, b: Seq<char>) -> Set<Seq<char>> {
    Set::new(|c: Seq<char>| m.contains_key((c, a)) && m.contains_key((c, b)))
}

/// How many commits contain both `a` and `b`.
pub open spec fn spec_co_change(m: RowMap, a: Seq<char>, b: Seq<char>) -> nat {
    spec_shared_commits(m, a, b).len()
}

/// The files that ever appeared in a commit together with `f` (other than
/// `f` itself).
pub open spec fn spec_coupled_with(m: RowMap, f: Seq<char>) -> Set<Seq<char>> {
    Set::new(
        |b: Seq<char>| b != f && exists|c: Seq<char>|
            m.contains_key((c, f)) && #[trigger] m.contains_key((c, b)),
    )
}

/// Inserting the same commit a second time changes nothing: the pairs are
/// already present, so the table — and with it every co-change count and
/// commit count — is left exactly as it was.
pub proof fn lemma_insert_idempotent(
    m: RowMap,
    commit: Seq<char>,
    files: Seq<Seq<char>>,
    ts: int,
)
    ensures
        rows_insert(rows_insert(m, commit, files, ts), commit, files, ts) == rows_insert(
            m,
            commit,
            files,
            ts,
        ),
{
    let once = rows_insert(m, commit, files, ts);
    let twice = rows_insert(once, commit, files, ts);
    assert(twice =~= once);
}

/// Idempotence of inserts, stated on the derived statistics: re-inserting
/// a commit's rows leaves `co_change` and `commit_count` for every pair of
/// files unchanged.
pub proof fn lemma_insert_idempotent_counts(
    m: RowMap,
    commit: Seq<char>,
    files: Seq<Seq<char>>,
    ts: int,
    a: Seq<char>,
    b: Seq<char>,
)
    ensures
        spec_co_change(rows_insert(rows_insert(m, commit, files, ts), commit, files, ts), a, b)
            == spec_co_change(rows_insert(m, commit, files, ts), a, b),
        spec_commit_count(rows_insert(rows_insert(m, commit, files, ts), commit, files, ts), a)
            == spec_commit_count(rows_insert(m, commit, files, ts), a),
{
    lemma_insert_idempotent(m, commit, files, ts);
}

/// Symmetry of coupling: the commits shared by `a` and `b` are the commits
/// shared by `b` and `a`, so the co-change count is symmetric.
pub proof fn lemma_co_change_symmetric(m: RowMap, a: Seq<char>, b: Seq<char>)
    ensures
        spec_co_change(m, a, b) == spec_co_change(m, b, a),
{
    assert(spec_shared_commits(m, a, b) =~= spec_shared_commits(m, b, a));
}

/// Resume correctness: walking a commit sequence in two runs split at any
/// cursor produces exactly the table of a single uninterrupted walk.
pub proof fn lemma_apply_all_split(m: RowMap, s1: Seq<CommitRows>, s2: Seq<CommitRows>)
    ensures
        rows_apply_all(rows_apply_all(m, s1), s2) == rows_apply_all(m, s1 + s2),
    decreases s2.len(),
{
    if s2.len() == 0 {
        assert(s1 + s2 =~= s1);
    } else {
        lemma_apply_all_split(m, s1, s2.drop_last());
        assert((s1 + s2).drop_last() =~= s1 + s2.drop_last());
        assert((s1 + s2).last() == s2.last());
    }
}

} // verus!
