//! Laws of the counters of a scan.
use std::time::Instant;

use vstd::prelude::*;

use crate::arrow::scan_metrics::{capped_nanos, elapsed_since, ScanCounts, ScanEvent};
use crate::outside::ElapsedReading;

verus! {

/// Every counter starts at zero.
pub proof fn lemma_counters_start_at_zero()
    ensures
        ScanCounts::zero().bytes_read == 0,
        ScanCounts::zero().read_requests == 0,
        ScanCounts::zero().read_errors == 0,
        ScanCounts::zero().read_elapsed_nanos == 0,
        ScanCounts::zero().parquet_files_opened == 0,
        ScanCounts::zero().file_open_elapsed_nanos == 0,
        ScanCounts::zero().parquet_metadata_load_elapsed_nanos == 0,
        ScanCounts::zero().file_scan_tasks_started == 0,
{
}

/// What an event adds goes to its own counters, modulo 2^64, and leaves all others alone: a read
/// that is issued counts as a request and with its bytes, one that comes back with its time and,
/// if it failed, as an error.
pub proof fn lemma_event_goes_to_its_counters(
    counts: ScanCounts,
    amount: u64,
    failed: bool,
)
    ensures
        counts.after(ScanEvent::TaskStarted) == (ScanCounts {
            file_scan_tasks_started: counts.file_scan_tasks_started.wrapping_add(1),
            ..counts
        }),
        counts.after(ScanEvent::FileOpened) == (ScanCounts {
            parquet_files_opened: counts.parquet_files_opened.wrapping_add(1),
            ..counts
        }),
        counts.after(ScanEvent::FileOpenElapsed(amount)) == (ScanCounts {
            file_open_elapsed_nanos: counts.file_open_elapsed_nanos.wrapping_add(amount),
            ..counts
        }),
        counts.after(ScanEvent::MetadataLoadElapsed(amount)) == (ScanCounts {
            parquet_metadata_load_elapsed_nanos:
                counts.parquet_metadata_load_elapsed_nanos.wrapping_add(amount),
            ..counts
        }),
        counts.after(ScanEvent::ReadIssued(amount)) == (ScanCounts {
            bytes_read: counts.bytes_read.wrapping_add(amount),
            read_requests: counts.read_requests.wrapping_add(1),
            ..counts
        }),
        counts.after(ScanEvent::ReadReturned { nanos: amount, failed }) == (ScanCounts {
            read_elapsed_nanos: counts.read_elapsed_nanos.wrapping_add(amount),
            read_errors: counts.read_errors.wrapping_add(
                if failed {
                    1
                } else {
                    0
                },
            ),
            ..counts
        }),
{
}

/// After a sequence of events the counters are what the last event makes of what they were before.
pub proof fn lemma_events_come_one_by_one(
    counts: ScanCounts,
    events: Seq<ScanEvent>,
    event: ScanEvent,
)
    ensures
        counts.after_all(Seq::<ScanEvent>::empty()) == counts,
        counts.after_all(events.push(event)) == counts.after_all(events).after(event),
{
    assert(events.push(event).drop_last() =~= events);
}

/// A measured time is what some reading of the clock since the start gave, exact while it fits a
/// counter.
pub proof fn lemma_elapsed_since(started: Instant, nanos: u64)
    requires
        elapsed_since(started, nanos),
    ensures
        exists|reading: ElapsedReading| #[trigger]
            reading.since() == started && if reading.spec_nanos() <= u64::MAX {
                nanos == reading.spec_nanos()
            } else {
                nanos == u64::MAX
            },
{
}

/// Nanoseconds are kept as they are while they fit a counter, and cut off at its largest value.
pub proof fn lemma_capped_nanos(nanos: nat)
    ensures
        nanos <= u64::MAX ==> capped_nanos(nanos) == nanos,
        nanos > u64::MAX ==> capped_nanos(nanos) == u64::MAX,
{
}

} // verus!
