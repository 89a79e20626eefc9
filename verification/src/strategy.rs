//! Walk-strategy selection.
//!
//! After a short probe of the repository the indexer commits to one of four
//! strategies; the decision table lives here as a pure function so that the
//! orchestrator and its callers can reason about it exactly.

use vstd::prelude::*;

use crate::text::str_eq;

verus! {

/// The strategy chosen after the probe phase.
#[derive(Debug, Clone, Copy, PartialEq, Eq, Structural)]
pub enum Strategy {
    /// Small repository: the probe reached the end of history.
    Complete,
    /// Fast machine or small repository (more than 40% probed): finish the
    /// global walk in the foreground.
    ContinueGlobal,
    /// Medium repository (1% to 40% probed): keep walking globally within
    /// the remaining budget and defer the rest to the background.
    BudgetedGlobal,
    /// Huge repository (under 1% probed): switch to the per-file walk.
    PathFiltered,
}

/// The wire name of each strategy.
pub open spec fn spec_strategy_name(s: Strategy) -> Seq<char> {
    match s {
        Strategy::Complete => "complete"@,
        Strategy::ContinueGlobal => "continue_global"@,
        Strategy::BudgetedGlobal => "budgeted_global"@,
        Strategy::PathFiltered => "path_filtered"@,
    }
}

/// Parsing a strategy name; unknown names fall back to `BudgetedGlobal`.
pub open spec fn spec_strategy_parse(s: Seq<char>) -> Strategy {
    if s == "complete"@ {
        Strategy::Complete
    } else if s == "continue_global"@ {
        Strategy::ContinueGlobal
    } else if s == "path_filtered"@ {
        Strategy::PathFiltered
    } else {
        Strategy::BudgetedGlobal
    }
}

impl Strategy {
    /// The stable wire name, as stored in the indexing-state record and
    /// emitted in the analysis response.
    pub fn as_str(&self) -> (r: &'static str)
        ensures
            r@ == spec_strategy_name(*self),
    {
        match self {
            Strategy::Complete => "complete",
            Strategy::ContinueGlobal => "continue_global",
            Strategy::BudgetedGlobal => "budgeted_global",
            Strategy::PathFiltered => "path_filtered",
        }
    }

    /// Parses a wire name back into a strategy; unknown names are read as
    /// `BudgetedGlobal`.
    pub fn from_str(s: &str) -> (r: Self)
        ensures
            r == spec_strategy_parse(s@),
    {
        if str_eq(s, "complete") {
            Strategy::Complete
        } else if str_eq(s, "continue_global") {
            Strategy::ContinueGlobal
        } else if str_eq(s, "path_filtered") {
            Strategy::PathFiltered
        } else {
            Strategy::BudgetedGlobal
        }
    }
}

/// Round trip: the wire name of a strategy parses back to the same strategy.
pub proof fn lemma_strategy_name_round_trip(s: Strategy)
    ensures
        spec_strategy_parse(spec_strategy_name(s)) == s,
{
    reveal_strlit("complete");
    reveal_strlit("continue_global");
    reveal_strlit("budgeted_global");
    reveal_strlit("path_filtered");
    assert("complete"@.len() == 8);
    assert("continue_global"@.len() == 15);
    assert("budgeted_global"@.len() == 15);
    assert("path_filtered"@.len() == 13);
    assert("budgeted_global"@[0] == 'b');
    assert("continue_global"@[0] == 'c');
}

/// Result of one orchestrated indexing call.
pub struct SmartIndexResult {
    pub strategy: Strategy,
    pub commits_indexed: u32,
    pub is_complete: bool,
    pub needs_background: bool,
}

/// The probe decision table over exact rationals: with progress
/// `commits / limit`, more than 2/5 continues globally, at least 1/100 keeps
/// a budgeted global walk, anything less falls back to the per-file walk.
/// An exhausted probe (`hit_end`) means the repository is fully indexed.
/// A zero limit counts as unbounded progress when any commit was probed.
pub open spec fn spec_decide_strategy(commits: int, hit_end: bool, limit: int) -> Strategy {
    if hit_end {
        Strategy::Complete
    } else if limit == 0 {
        if commits > 0 {
            Strategy::ContinueGlobal
        } else {
            Strategy::PathFiltered
        }
    } else if commits * 10 > limit * 4 {
        Strategy::ContinueGlobal
    } else if commits * 100 >= limit {
        Strategy::BudgetedGlobal
    } else {
        Strategy::PathFiltered
    }
}

/// Decide the strategy from the probe outcome: `commits_processed` commits
/// were walked out of a ceiling of `commit_limit`, and `hit_end` tells
/// whether the probe exhausted the history.
pub fn decide_strategy(commits_processed: u32, hit_end: bool, commit_limit: usize) -> (r:
    Strategy)
    ensures
        r == spec_decide_strategy(commits_processed as int, hit_end, commit_limit as int),
{
    if hit_end {
        return Strategy::Complete;
    }
    let c: u128 = commits_processed as u128;
    let l: u128 = commit_limit as u128;
    if l == 0 {
        if c > 0 {
            Strategy::ContinueGlobal
        } else {
            Strategy::PathFiltered
        }
    } else if c * 10 > l * 4 {
        Strategy::ContinueGlobal
    } else if c * 100 >= l {
        Strategy::BudgetedGlobal
    } else {
        Strategy::PathFiltered
    }
}

} // verus!
