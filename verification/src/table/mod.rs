//! The providers that turn the file tasks of a table into scan nodes.
pub mod bucket;
pub mod bucket_groups;
pub mod fetch;
pub mod partitioned;
