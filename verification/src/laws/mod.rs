//! What holds of the library as a whole: laws stated on the inputs and the results themselves.
pub mod buckets;
pub mod counters;
pub mod display;
pub mod forwarding;
pub mod limits;
pub mod metrics;
pub mod projection;
pub mod scans;
pub mod texts;
pub mod timing;
