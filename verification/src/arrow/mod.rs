//! Reading Parquet files into record batches.
pub mod scan_metrics;
