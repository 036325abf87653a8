//! The scan nodes of a physical plan, and what they do while they run.
pub mod bridge;
pub mod bucket_scan;
pub mod display;
pub mod partitioned_scan;
pub mod row_limit;
pub mod scan;
pub mod scan_planning;
pub mod scan_stream;
pub mod storage_metrics;
