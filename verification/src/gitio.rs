//! Access to the version-control repository through the `git2` crate, and
//! to the clocks.
//!
//! Every value that crosses into verified code is a plain value: object
//! ids travel as their hex strings, timestamps as integers.  What a
//! repository holds depends on the disk, so these wrappers promise nothing
//! about the values they return; the walkers state what they do with them.

use vstd::prelude::*;

use git2::{DiffFindOptions, DiffOptions, Oid};

use crate::store::EngramError;

verus! {

/// The `git2` repository handle, opaque to the verifier.
#[verifier::external_type_specification]
#[verifier::external_body]
pub struct ExRepository(git2::Repository);

/// The `git2` revision walker, opaque to the verifier.
#[verifier::external_type_specification]
#[verifier::external_body]
pub struct ExRevwalk<'repo>(git2::Revwalk<'repo>);

/// The `git2` object id, opaque to the verifier (ids cross into verified
/// code as hex strings).
#[verifier::external_type_specification]
#[verifier::external_body]
pub struct ExOid(git2::Oid);

/// The `git2` error type, opaque to the verifier.
#[verifier::external_type_specification]
#[verifier::external_body]
pub struct ExGitError(git2::Error);

/// A monotonic instant, opaque to the verifier.
#[verifier::external_type_specification]
#[verifier::external_body]
pub struct ExInstant(std::time::Instant);

/// Relies on `git2::Error` carrying a message: wraps it as a
/// version-control error of the library.
#[verifier::external_body]
pub(crate) fn vcs_err(e: git2::Error) -> (r: EngramError)
    ensures
        r is Vcs,
{
    EngramError::Vcs(e.to_string())
}

/// Relies on `git2::Repository::head` and `peel_to_commit`: the hex id of
/// the commit at HEAD.
#[verifier::external_body]
pub(crate) fn repo_head(repo: &git2::Repository) -> (r: Result<String, git2::Error>) {
    Ok(repo.head()?.peel_to_commit()?.id().to_string())
}

/// Relies on `Repository::revwalk`, `Revwalk::push_head`, `set_sorting`
/// and `simplify_first_parent`: an iterator over commit ids starting at
/// HEAD in time order, following only first parents when asked.
#[verifier::external_body]
pub(crate) fn revwalk_start(repo: &git2::Repository, first_parent_only: bool) -> (r: Result<
    git2::Revwalk<'_>,
    git2::Error,
>) {
    let mut walk = repo.revwalk()?;
    walk.push_head()?;
    walk.set_sorting(git2::Sort::TIME)?;
    if first_parent_only {
        walk.simplify_first_parent()?;
    }
    Ok(walk)
}

/// Relies on `Revwalk` as an iterator: the next commit id, as hex.
#[verifier::external_body]
pub(crate) fn revwalk_next(walk: &mut git2::Revwalk<'_>) -> (r: Option<
    Result<String, git2::Error>,
>) {
    walk.next().map(|r| r.map(|oid| oid.to_string()))
}

/// Relies on `Repository::find_commit` and `Commit::time`: the commit's
/// timestamp in Unix seconds.
#[verifier::external_body]
pub(crate) fn commit_time(repo: &git2::Repository, oid: &str) -> (r: Result<i64, git2::Error>) {
    Ok(repo.find_commit(git2::Oid::from_str(oid)?)?.time().seconds())
}

/// Relies on `Repository::find_commit` and `Commit::parent_count`: how
/// many parents the commit has.
#[verifier::external_body]
pub(crate) fn commit_parent_count(repo: &git2::Repository, oid: &str) -> (r: Result<
    usize,
    git2::Error,
>) {
    Ok(repo.find_commit(git2::Oid::from_str(oid)?)?.parent_count())
}

/// Relies on `Commit::parent_id`: the hex id of the first parent, or
/// `None` for a root commit.
#[verifier::external_body]
pub(crate) fn first_parent_id(repo: &git2::Repository, oid: &str) -> (r: Result<
    Option<String>,
    git2::Error,
>) {
    let commit = repo.find_commit(git2::Oid::from_str(oid)?)?;
    Ok(commit.parent_id(0).ok().map(|p| p.to_string()))
}

/// Relies on `Commit::tree` and `Tree::get_path`: the hex id of the blob
/// at `path` in the commit's tree, or `None` when the path is absent.
#[verifier::external_body]
pub(crate) fn blob_at(repo: &git2::Repository, oid: &str, path: &str) -> (r: Result<
    Option<String>,
    git2::Error,
>) {
    let tree = repo.find_commit(git2::Oid::from_str(oid)?)?.tree()?;
    Ok(tree.get_path(std::path::Path::new(path)).ok().map(|e| e.id().to_string()))
}

/// Relies on `Repository::diff_tree_to_tree` and `Diff::foreach`: the new
/// file path of every delta between the parent's tree (or the empty tree)
/// and the commit's tree, skipping binary-content checks, optionally with
/// rename detection.
#[verifier::external_body]
pub(crate) fn diff_new_files(
    repo: &git2::Repository,
    oid: &str,
    parent: Option<&str>,
    detect_renames: bool,
) -> (r: Result<Vec<String>, git2::Error>) {
    let tree = repo.find_commit(Oid::from_str(oid)?)?.tree()?;
    let parent_tree = match parent { Some(p) => Some(repo.find_commit(Oid::from_str(p)?)?.tree()?), None => None };
    let mut diff = repo.diff_tree_to_tree(parent_tree.as_ref(), Some(&tree), Some(DiffOptions::new().skip_binary_check(true)))?;
    if detect_renames { diff.find_similar(Some(DiffFindOptions::new().renames(true)))?; }
    let mut files = Vec::new();
    diff.foreach(&mut |d, _| { if let Some(p) = d.new_file().path().and_then(|q| q.to_str()) { files.push(p.to_string()); } true }, None, None, None)?;
    Ok(files)
}

/// Relies on `git2::Repository::open`: opens the repository at the root.
#[verifier::external_body]
pub(crate) fn repo_open(root: &str) -> (r: Result<git2::Repository, git2::Error>) {
    git2::Repository::open(root)
}

/// Relies on `std::time::Instant::now`: the clock reading at the call.
#[verifier::external_body]
pub(crate) fn clock_now() -> (r: std::time::Instant) {
    std::time::Instant::now()
}

/// Relies on `Instant::elapsed`: whole milliseconds since `start`, capped
/// at `u64::MAX`.  The reading depends on the wall clock, so nothing is
/// promised of it.
#[verifier::external_body]
pub(crate) fn elapsed_ms(start: &std::time::Instant) -> (r: u64) {
    u64::try_from(start.elapsed().as_millis()).unwrap_or(u64::MAX)
}

/// Relies on `std::time::SystemTime`: the current Unix time in seconds;
/// never negative (a clock before the epoch reads as zero).
#[verifier::external_body]
pub(crate) fn unix_now() -> (r: i64)
    ensures
        r >= 0,
{
    std::time::SystemTime::now()
        .duration_since(std::time::UNIX_EPOCH)
        .unwrap_or_default()
        .as_secs()
        .try_into()
        .unwrap_or(i64::MAX)
}

} // verus!
