//! Search orchestration for a desktop file-search tool: pacing and sequencing
//! of engine queries, per-result enrichment under a bounded budget, and
//! extraction of annotations from PDF documents.
//!
//! The library decides and computes. The application around it waits,
//! locks, queries the engine and touches the file system, and reports what
//! it found as plain values.

pub mod budget;
pub mod creator;
pub mod file_info;
pub mod file_ops;
pub mod filetime;
pub mod highlights;
pub mod paths;
pub mod pdf_model;
pub mod pdf_text;
pub mod rate_limiter;
pub mod search;
pub mod text;
pub mod watcher;
