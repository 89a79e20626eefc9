//! Scores are fixed-point fractions of `RISK_SCALE` (10000 = 1.0).

use engram_core::risk::{score_coupled_files, RawCoupledFileStats, TimeWindow, MAX_RESULTS};

fn make_stats(path: &str, co_change: u32, total: u32, ts: i64) -> RawCoupledFileStats {
    RawCoupledFileStats {
        path: path.to_string(),
        co_change_count: co_change,
        total_commits: total,
        last_timestamp: ts,
    }
}

#[test]
fn test_formula_weights() {
    // Single file: churn = 1.0 (only file), recency = 1.0 (most recent),
    // coupling = 0.5; risk = 0.5*0.5 + 1.0*0.3 + 1.0*0.2 = 0.75.
    let files = vec![make_stats("A.ts", 5, 10, 5000)];
    let window = TimeWindow { oldest_ts: 1000, newest_ts: 5000 };
    let result = score_coupled_files(&files, 10, &window);

    assert_eq!(result.len(), 1);
    assert_eq!(result[0].risk_score, 7500);
}

#[test]
fn test_churn_normalization() {
    let files = vec![
        make_stats("High.ts", 5, 20, 5000),
        make_stats("Low.ts", 5, 10, 5000),
    ];
    let window = TimeWindow { oldest_ts: 1000, newest_ts: 5000 };
    let result = score_coupled_files(&files, 10, &window);

    assert_eq!(result.len(), 2);
    assert_eq!(result[0].path, "High.ts");
    assert_eq!(result[1].path, "Low.ts");
    // churn difference = 0.3 * (1.0 - 0.5) = 0.15
    assert_eq!(result[0].risk_score - result[1].risk_score, 1500);
}

#[test]
fn test_recency_normalization() {
    let files = vec![
        make_stats("Recent.ts", 5, 10, 5000),
        make_stats("Old.ts", 5, 10, 1000),
    ];
    let window = TimeWindow { oldest_ts: 1000, newest_ts: 5000 };
    let result = score_coupled_files(&files, 10, &window);

    assert_eq!(result.len(), 2);
    assert_eq!(result[0].path, "Recent.ts");
    assert_eq!(result[1].path, "Old.ts");
    // recency difference = 0.2 * (1.0 - 0.0) = 0.2
    assert_eq!(result[0].risk_score - result[1].risk_score, 2000);
}

#[test]
fn test_sort_order_descending() {
    let files = vec![
        make_stats("Low.ts", 1, 2, 1000),
        make_stats("High.ts", 10, 20, 5000),
        make_stats("Med.ts", 5, 10, 3000),
    ];
    let window = TimeWindow { oldest_ts: 1000, newest_ts: 5000 };
    let result = score_coupled_files(&files, 20, &window);

    assert_eq!(result.len(), 3);
    assert!(result[0].risk_score >= result[1].risk_score);
    assert!(result[1].risk_score >= result[2].risk_score);
    assert_eq!(result[0].path, "High.ts");
}

#[test]
fn test_single_file_edge_case() {
    // churn = 5/5 = 1.0, recency = (3000-1000)/4000 = 0.5, coupling = 0.3
    // risk = 0.3*0.5 + 1.0*0.3 + 0.5*0.2 = 0.55
    let files = vec![make_stats("Only.ts", 3, 5, 3000)];
    let window = TimeWindow { oldest_ts: 1000, newest_ts: 5000 };
    let result = score_coupled_files(&files, 10, &window);

    assert_eq!(result.len(), 1);
    assert_eq!(result[0].risk_score, 5500);
}

#[test]
fn test_zero_time_range() {
    // All commits at the same timestamp: recency is 1.0 for all.
    let files = vec![
        make_stats("A.ts", 5, 10, 3000),
        make_stats("B.ts", 3, 6, 3000),
    ];
    let window = TimeWindow { oldest_ts: 3000, newest_ts: 3000 };
    let result = score_coupled_files(&files, 10, &window);

    assert_eq!(result.len(), 2);
    for f in &result {
        assert!(f.risk_score >= 3000);
    }
}

#[test]
fn test_empty_input() {
    let files = vec![];
    let window = TimeWindow { oldest_ts: 0, newest_ts: 0 };
    let result = score_coupled_files(&files, 10, &window);
    assert!(result.is_empty());
}

#[test]
fn test_coupling_score_preserved() {
    let files = vec![make_stats("A.ts", 8, 10, 5000)];
    let window = TimeWindow { oldest_ts: 1000, newest_ts: 5000 };
    let result = score_coupled_files(&files, 20, &window);

    assert_eq!(result.len(), 1);
    assert_eq!(result[0].coupling_score, 4000); // 8/20
}

#[test]
fn test_truncation_with_more_than_max() {
    let files: Vec<RawCoupledFileStats> = (0..15)
        .map(|i| make_stats(&format!("File{i}.ts"), 5, 10 + i, 2000 + i as i64 * 100))
        .collect();
    let window = TimeWindow { oldest_ts: 1000, newest_ts: 5000 };
    let result = score_coupled_files(&files, 20, &window);

    assert_eq!(result.len(), MAX_RESULTS, "should truncate to MAX_RESULTS");
    for i in 1..result.len() {
        assert!(result[i - 1].risk_score >= result[i].risk_score);
    }
}

#[test]
fn test_coupling_gate_prevents_critical() {
    let files = vec![make_stats("HighChurn.ts", 3, 100, 5000)];
    let window = TimeWindow { oldest_ts: 1000, newest_ts: 5000 };
    let result = score_coupled_files(&files, 10, &window);

    assert_eq!(result.len(), 1);
    assert_eq!(result[0].risk_score, 6500);

    // coupling 0.4: 0.4*0.5 + 1.0*0.3 + 1.0*0.2 = 0.7, still below 0.8.
    let files = vec![make_stats("VeryHighChurn.ts", 4, 200, 5000)];
    let result = score_coupled_files(&files, 10, &window);
    assert_eq!(result[0].risk_score, 7000);
}

#[test]
fn test_high_coupling_allows_critical() {
    // coupling 0.8: 0.8*0.5 + 1.0*0.3 + 1.0*0.2 = 0.9; no cap applies.
    let files = vec![make_stats("HighCoupling.ts", 8, 10, 5000)];
    let window = TimeWindow { oldest_ts: 1000, newest_ts: 5000 };
    let result = score_coupled_files(&files, 10, &window);

    assert_eq!(result.len(), 1);
    assert_eq!(result[0].risk_score, 9000);
    assert!(result[0].risk_score >= 8000, "Should be Critical risk");
}

#[test]
fn test_no_truncation_under_max() {
    let files: Vec<RawCoupledFileStats> = (0..5)
        .map(|i| make_stats(&format!("File{i}.ts"), 3, 8, 3000 + i as i64 * 100))
        .collect();
    let window = TimeWindow { oldest_ts: 1000, newest_ts: 5000 };
    let result = score_coupled_files(&files, 10, &window);

    assert_eq!(result.len(), 5, "should not truncate when under MAX_RESULTS");
}

#[test]
fn test_coupling_boundary_not_gated() {
    let files = vec![make_stats("Boundary.ts", 5, 10, 5000)];
    let window = TimeWindow { oldest_ts: 1000, newest_ts: 5000 };
    let result = score_coupled_files(&files, 10, &window);
    assert_eq!(result[0].coupling_score, 5000);
    assert_eq!(result[0].risk_score, 7500);
}
