//! Scan planning and scan accounting for Iceberg tables read through DataFusion.
//!
//! * [`arrow::scan_metrics`]: the counters that a scan keeps while it reads Parquet files.
//! * [`physical_plan`]: the scan nodes (one partition per task group, per file or per bucket),
//!   the row limit, the bridge between runtimes and the metrics of a running scan.
//! * [`table`]: the providers that turn planned file tasks into scan nodes.
//! * [`metadata`], [`schema`], [`plan`]: the plain data that these work on.
//! * [`text`]: the texts that plans and errors show.
//! * [`laws`]: what holds of all of this together.
//! * [`outside`]: what is taken on trust of DataFusion, Arrow, Tokio and std.

pub mod arrow;
pub mod laws;
pub mod metadata;
pub mod outside;
pub mod physical_plan;
pub mod plan;
pub mod schema;
pub mod search;
pub mod table;
pub mod text;
