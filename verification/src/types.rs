//! Shared data types of the analysis API.
//!
//! Scores are fixed-point: a `coupling_score` or `risk_score` of
//! `risk::RISK_SCALE` stands for 1.0.

use vstd::prelude::*;

use crate::strategy::Strategy;

verus! {

/// A request to analyze one file of one repository.
#[derive(Debug, Clone)]
pub struct AnalysisRequest {
    pub file_path: String,
    pub repo_root: String,
}

/// The title of one test, extracted from a test file.
#[derive(Debug, Clone)]
pub struct TestIntent {
    pub title: String,
}

/// A note attached to a file or to a symbol within it.
#[derive(Debug, Clone)]
pub struct Memory {
    pub id: i64,
    pub file_path: String,
    pub symbol_name: Option<String>,
    pub content: String,
    pub created_at: String,
}

/// One file coupled to the analyzed file, with its scores.
#[derive(Debug, Clone)]
pub struct CoupledFile {
    pub path: String,
    /// Fixed-point fraction of the target's commits shared with this file.
    pub coupling_score: u32,
    pub co_change_count: u32,
    /// Fixed-point blended risk; see the risk module.
    pub risk_score: u32,
    pub memories: Vec<Memory>,
    pub test_intents: Vec<TestIntent>,
}

/// One discovered test file for the analyzed source file.
#[derive(Debug, Clone)]
pub struct DiscoveredTestFile {
    pub path: String,
    pub test_intents: Vec<TestIntent>,
    pub test_count: u32,
}

/// Everything learned about tests covering the analyzed file.
#[derive(Debug, Clone)]
pub struct TestInfo {
    pub test_files: Vec<DiscoveredTestFile>,
    pub coverage_hint: Option<String>,
}

/// How far indexing has progressed, as reported in the response.
#[derive(Debug, Clone)]
pub struct IndexingStatus {
    pub strategy: Strategy,
    pub commits_indexed: u32,
    pub is_complete: bool,
}

/// The full analysis answer for one file.
#[derive(Debug, Clone)]
pub struct AnalysisResponse {
    pub file_path: String,
    pub repo_root: String,
    pub coupled_files: Vec<CoupledFile>,
    pub commit_count: u32,
    pub analysis_time_ms: u64,
    pub test_info: Option<TestInfo>,
    pub indexing_status: Option<IndexingStatus>,
}

/// Answer to adding a note.
#[derive(Debug, Clone)]
pub struct AddNoteResponse {
    pub id: i64,
    pub file_path: String,
    pub content: String,
}

/// Answer to a note search.
#[derive(Debug, Clone)]
pub struct SearchNotesResponse {
    pub query: String,
    pub memories: Vec<Memory>,
}

/// Answer to listing notes.
#[derive(Debug, Clone)]
pub struct ListNotesResponse {
    pub file_path: Option<String>,
    pub memories: Vec<Memory>,
}

/// Aggregated usage counters for one repository.
#[derive(Debug, Clone)]
pub struct MetricsSummary {
    pub total_analyses: u32,
    pub notes_created: u32,
    pub searches_performed: u32,
    pub lists_performed: u32,
    pub total_coupled_files: u32,
    pub critical_risk_count: u32,
    pub high_risk_count: u32,
    pub medium_risk_count: u32,
    pub low_risk_count: u32,
    pub test_files_found: u32,
    pub test_intents_extracted: u32,
    pub avg_analysis_time_ms: u64,
}

/// Answer to a metrics query.
#[derive(Debug, Clone)]
pub struct MetricsResponse {
    pub repo_root: String,
    pub summary: MetricsSummary,
}

} // verus!
