//! Usage metrics: one event row per analysis or note action, and their
//! aggregation.
//!
//! Risk bands over the fixed-point scale: critical at or above `0.8`,
//! high at `0.5`, medium at `0.25`, low below.

use vstd::prelude::*;

use crate::risk::{CRITICAL_RISK, RISK_SCALE};
use crate::store::{Database, EngramError, EventModel, db_events, db_memories, db_rows,
    db_state, db_watermark, spec_summary_ok};
use crate::types::{AnalysisResponse, CoupledFile, MetricsResponse};

verus! {

/// The high band starts at one half of the scale.
pub const HIGH_RISK: u32 = 5000;

/// The medium band starts at one quarter of the scale.
pub const MEDIUM_RISK: u32 = 2500;

/// How many coupled files fall in the critical band.
pub open spec fn spec_critical_count(files: Seq<CoupledFile>) -> int
    decreases files.len(),
{
    if files.len() == 0 {
        0
    } else {
        spec_critical_count(files.drop_last()) + if files.last().risk_score >= CRITICAL_RISK {
            1int
        } else {
            0int
        }
    }
}

/// ... in the high band.
pub open spec fn spec_high_count(files: Seq<CoupledFile>) -> int
    decreases files.len(),
{
    if files.len() == 0 {
        0
    } else {
        spec_high_count(files.drop_last()) + if files.last().risk_score < CRITICAL_RISK
            && files.last().risk_score >= HIGH_RISK {
            1int
        } else {
            0int
        }
    }
}

/// ... in the medium band.
pub open spec fn spec_medium_count(files: Seq<CoupledFile>) -> int
    decreases files.len(),
{
    if files.len() == 0 {
        0
    } else {
        spec_medium_count(files.drop_last()) + if files.last().risk_score < HIGH_RISK
            && files.last().risk_score >= MEDIUM_RISK {
            1int
        } else {
            0int
        }
    }
}

/// ... in the low band.
pub open spec fn spec_low_count(files: Seq<CoupledFile>) -> int
    decreases files.len(),
{
    if files.len() == 0 {
        0
    } else {
        spec_low_count(files.drop_last()) + if files.last().risk_score < MEDIUM_RISK {
            1int
        } else {
            0int
        }
    }
}

/// How many coupled files carry at least one test intent.
pub open spec fn spec_test_files_found(files: Seq<CoupledFile>) -> int
    decreases files.len(),
{
    if files.len() == 0 {
        0
    } else {
        spec_test_files_found(files.drop_last()) + if files.last().test_intents@.len() > 0 {
            1int
        } else {
            0int
        }
    }
}

/// Total test intents across the coupled files.
pub open spec fn spec_test_intents_total(files: Seq<CoupledFile>) -> int
    decreases files.len(),
{
    if files.len() == 0 {
        0
    } else {
        spec_test_intents_total(files.drop_last()) + files.last().test_intents@.len()
    }
}

/// An integer capped at a counter's ceiling.
pub open spec fn spec_capped(n: int, cap: int) -> int {
    if n <= cap {
        n
    } else {
        cap
    }
}

/// Records one analysis event: classifies the coupled files into risk
/// bands, counts test intents, and appends exactly one `analysis` event
/// carrying those counters (each capped at its field's ceiling).  Nothing
/// else in the store changes.
pub fn record_analysis_event(db: &mut Database, response: &AnalysisResponse, repo_root: &str)
    -> (r: Result<(), EngramError>)
    ensures
        db_rows(*final(db)) == db_rows(*old(db)),
        db_state(*final(db)) == db_state(*old(db)),
        db_watermark(*final(db)) == db_watermark(*old(db)),
        db_memories(*final(db)) == db_memories(*old(db)),
        r is Ok ==> ({
            let cf = response.coupled_files@;
            &&& db_events(*final(db)).len() == db_events(*old(db)).len() + 1
            &&& db_events(*final(db)).drop_last() == db_events(*old(db))
            &&& ({
                let ev = db_events(*final(db)).last();
                &&& ev.event_type == "analysis"@
                &&& ev.file_path == Some(response.file_path@)
                &&& ev.repo_root == repo_root@
                &&& ev.coupled_files_count == spec_capped(cf.len() as int, u32::MAX as int)
                &&& ev.critical_count == spec_capped(spec_critical_count(cf), u32::MAX as int)
                &&& ev.high_count == spec_capped(spec_high_count(cf), u32::MAX as int)
                &&& ev.medium_count == spec_capped(spec_medium_count(cf), u32::MAX as int)
                &&& ev.low_count == spec_capped(spec_low_count(cf), u32::MAX as int)
                &&& ev.test_files_found == spec_capped(
                    spec_test_files_found(cf),
                    u32::MAX as int,
                )
                &&& ev.test_intents_total == spec_capped(
                    spec_test_intents_total(cf),
                    u32::MAX as int,
                )
                &&& ev.commit_count == response.commit_count as int
                &&& ev.analysis_time_ms == spec_capped(
                    response.analysis_time_ms as int,
                    i64::MAX as int,
                )
                &&& ev.note_id is None
            })
        }),
        r is Err ==> db_events(*final(db)) == db_events(*old(db)),
{
    let n: usize = response.coupled_files.len();
    let mut critical: u32 = 0;
    let mut high: u32 = 0;
    let mut medium: u32 = 0;
    let mut low: u32 = 0;
    let mut test_files: u32 = 0;
    let mut intents: u32 = 0;
    let mut i: usize = 0;
    while i < n
        invariant
            0 <= i <= n,
            n == response.coupled_files@.len(),
            critical as int == spec_capped(
                spec_critical_count(response.coupled_files@.take(i as int)),
                u32::MAX as int,
            ),
            high as int == spec_capped(
                spec_high_count(response.coupled_files@.take(i as int)),
                u32::MAX as int,
            ),
            medium as int == spec_capped(
                spec_medium_count(response.coupled_files@.take(i as int)),
                u32::MAX as int,
            ),
            low as int == spec_capped(
                spec_low_count(response.coupled_files@.take(i as int)),
                u32::MAX as int,
            ),
            test_files as int == spec_capped(
                spec_test_files_found(response.coupled_files@.take(i as int)),
                u32::MAX as int,
            ),
            intents as int == spec_capped(
                spec_test_intents_total(response.coupled_files@.take(i as int)),
                u32::MAX as int,
            ),
        decreases n - i,
    {
        assert(response.coupled_files@.take(i + 1).drop_last() =~= response.coupled_files@.take(
            i as int,
        ));
        assert(response.coupled_files@.take(i + 1).last() == response.coupled_files@[i as int]);
        let file = &response.coupled_files[i];
        if file.risk_score >= CRITICAL_RISK {
            if critical < u32::MAX {
                critical = critical + 1;
            }
        } else if file.risk_score >= HIGH_RISK {
            if high < u32::MAX {
                high = high + 1;
            }
        } else if file.risk_score >= MEDIUM_RISK {
            if medium < u32::MAX {
                medium = medium + 1;
            }
        } else {
            if low < u32::MAX {
                low = low + 1;
            }
        }
        let k: usize = file.test_intents.len();
        if k > 0 {
            if test_files < u32::MAX {
                test_files = test_files + 1;
            }
            if (k as u64) < (u32::MAX - intents) as u64 {
                intents = intents + (k as u32);
            } else {
                intents = u32::MAX;
            }
        }
        i = i + 1;
    }
    assert(response.coupled_files@.take(n as int) =~= response.coupled_files@);

    let coupled_count: u32 = if n <= u32::MAX as usize {
        n as u32
    } else {
        u32::MAX
    };
    db.insert_metrics_event(
        "analysis",
        Some(response.file_path.as_str()),
        coupled_count,
        critical,
        high,
        medium,
        low,
        test_files,
        intents,
        response.commit_count,
        response.analysis_time_ms,
        None,
        repo_root,
    )
}

/// Records one note-creation event, carrying only the note id.
pub fn record_note_event(db: &mut Database, note_id: i64, file_path: &str, repo_root: &str)
    -> (r: Result<(), EngramError>)
    ensures
        db_rows(*final(db)) == db_rows(*old(db)),
        db_state(*final(db)) == db_state(*old(db)),
        db_watermark(*final(db)) == db_watermark(*old(db)),
        db_memories(*final(db)) == db_memories(*old(db)),
        r is Ok ==> ({
            &&& db_events(*final(db)).len() == db_events(*old(db)).len() + 1
            &&& db_events(*final(db)).drop_last() == db_events(*old(db))
            &&& ({
                let ev = db_events(*final(db)).last();
                &&& ev.event_type == "add_note"@
                &&& ev.file_path == Some(file_path@)
                &&& ev.repo_root == repo_root@
                &&& ev.note_id == Some(note_id as int)
                &&& ev.coupled_files_count == 0
                &&& ev.commit_count == 0
                &&& ev.analysis_time_ms == 0
            })
        }),
        r is Err ==> db_events(*final(db)) == db_events(*old(db)),
{
    db.insert_metrics_event(
        "add_note",
        Some(file_path),
        0,
        0,
        0,
        0,
        0,
        0,
        0,
        0,
        0,
        Some(note_id),
        repo_root,
    )
}

/// Aggregated metrics for one repository, as the store computes them.
pub fn get_metrics(db: &Database, repo_root: &str) -> (r: Result<MetricsResponse, EngramError>)
    ensures
        r matches Ok(resp) ==> ({
            &&& resp.repo_root@ == repo_root@
            &&& spec_summary_ok(db_events(*db), repo_root@, resp.summary)
        }),
{
    let summary = match db.get_metrics_summary(repo_root) {
        Ok(s) => s,
        Err(e) => {
            return Err(e);
        },
    };
    Ok(MetricsResponse { repo_root: repo_root.to_owned(), summary })
}

} // verus!
