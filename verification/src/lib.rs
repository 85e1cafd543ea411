//! Verified core of a small file-listing service: a scan configuration built
//! around a compiled name pattern, the per-request scan that selects matching
//! regular files, and the response that reports them.

pub mod config;
pub mod http;
pub mod json;
pub mod listing;
pub mod scan;
