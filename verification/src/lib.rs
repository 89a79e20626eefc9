//! Temporal co-change analysis for git repositories.
//!
//! The library mines a repository's commit history for files that change
//! together, persists the commit -> file mapping in an embedded store, and
//! ranks the files coupled to a target file by a blended risk score.

pub mod analysis;
pub mod filter;
pub mod gitio;
pub mod rows;
pub mod intents;
pub mod knowledge;
pub mod metrics;
pub mod orchestrate;
pub mod risk;
pub mod store;
pub mod strategy;
pub mod text;
pub mod types;
pub mod walk;
