//! Laws of carrying the counters of a scan over to the metrics of its plan node.
use datafusion::physical_plan::metrics::ExecutionPlanMetricsSet;
use vstd::prelude::*;

use crate::arrow::scan_metrics::ScanCounts;
use crate::outside::{MetricLabel, RecordedTime};
use crate::physical_plan::storage_metrics::{
    advance, capped_usize, reported, snapshot_of, with_advance, DataFusionStorageMetrics,
    ScanMetricSnapshot, StorageRecord,
};

verus! {

/// A counter advances by the difference to what it was, and not at all where it has gone back;
/// what exceeds a `usize` is cut off.
pub proof fn lemma_advance(current: u64, previous: u64, n: u64)
    ensures
        current >= previous ==> advance(current, previous) == current - previous,
        current < previous ==> advance(current, previous) == 0,
        n <= usize::MAX ==> capped_usize(n) == n,
        n > usize::MAX ==> capped_usize(n) == usize::MAX,
{
}

/// A sum of times is given the nanoseconds by which its counter is ahead, in one addition, and is
/// left alone where it is not ahead.
pub proof fn lemma_times_advance(recorded: Seq<RecordedTime>, current: u64, previous: u64)
    ensures
        current > previous ==> with_advance(recorded, current, previous) == recorded.push(
            RecordedTime::Nanos((current - previous) as u64),
        ),
        current <= previous ==> with_advance(recorded, current, previous) == recorded,
{
}

/// The metrics of a partition belong to its own counters: each count grows by what its counter has
/// advanced since the last time, and each sum of times by what its own has.
pub proof fn lemma_metrics_follow_their_counters(
    record: StorageRecord,
    counts: ScanCounts,
    previous: ScanMetricSnapshot,
)
    ensures
        ({
            let after = record.after(counts, previous);
            let grows = |now: nat, before: nat, current: u64, last: u64|
                {
                    &&& current >= last && current - last <= usize::MAX ==> now == before + (current
                        - last)
                    &&& current >= last && current - last > usize::MAX ==> now == before
                        + usize::MAX
                    &&& current < last ==> now == before
                };
            let gains = |
                now: Seq<RecordedTime>,
                before: Seq<RecordedTime>,
                current: u64,
                last: u64,
            |
                {
                    &&& current > last ==> now == before.push(
                        RecordedTime::Nanos((current - last) as u64),
                    )
                    &&& current <= last ==> now == before
                };
            &&& grows(
                after.storage_bytes_read,
                record.storage_bytes_read,
                counts.bytes_read,
                previous.storage_bytes_read,
            )
            &&& grows(
                after.storage_read_requests,
                record.storage_read_requests,
                counts.read_requests,
                previous.storage_read_requests,
            )
            &&& grows(
                after.storage_read_errors,
                record.storage_read_errors,
                counts.read_errors,
                previous.storage_read_errors,
            )
            &&& gains(
                after.storage_read_elapsed,
                record.storage_read_elapsed,
                counts.read_elapsed_nanos,
                previous.storage_read_elapsed,
            )
            &&& grows(
                after.parquet_files_opened,
                record.parquet_files_opened,
                counts.parquet_files_opened,
                previous.parquet_files_opened,
            )
            &&& gains(
                after.file_open_elapsed,
                record.file_open_elapsed,
                counts.file_open_elapsed_nanos,
                previous.file_open_elapsed,
            )
            &&& gains(
                after.parquet_metadata_load_elapsed,
                record.parquet_metadata_load_elapsed,
                counts.parquet_metadata_load_elapsed_nanos,
                previous.parquet_metadata_load_elapsed,
            )
            &&& grows(
                after.file_scan_tasks_started,
                record.file_scan_tasks_started,
                counts.file_scan_tasks_started,
                previous.file_scan_tasks_started,
            )
        }),
{
}

/// A snapshot has the value of every counter.
pub proof fn lemma_snapshot(counts: ScanCounts)
    ensures
        snapshot_of(counts).storage_bytes_read == counts.bytes_read,
        snapshot_of(counts).storage_read_requests == counts.read_requests,
        snapshot_of(counts).storage_read_errors == counts.read_errors,
        snapshot_of(counts).storage_read_elapsed == counts.read_elapsed_nanos,
        snapshot_of(counts).parquet_files_opened == counts.parquet_files_opened,
        snapshot_of(counts).file_open_elapsed == counts.file_open_elapsed_nanos,
        snapshot_of(counts).parquet_metadata_load_elapsed
            == counts.parquet_metadata_load_elapsed_nanos,
        snapshot_of(counts).file_scan_tasks_started == counts.file_scan_tasks_started,
{
}

/// The record of a partition's metrics is what was added to each of them, at first nothing.
pub proof fn lemma_record(metrics: DataFusionStorageMetrics)
    ensures
        metrics.recorded().storage_bytes_read == metrics.storage_bytes_read.added(),
        metrics.recorded().storage_read_requests == metrics.storage_read_requests.added(),
        metrics.recorded().storage_read_errors == metrics.storage_read_errors.added(),
        metrics.recorded().storage_read_elapsed == metrics.storage_read_elapsed.recorded(),
        metrics.recorded().parquet_files_opened == metrics.parquet_files_opened.added(),
        metrics.recorded().file_open_elapsed == metrics.file_open_elapsed.recorded(),
        metrics.recorded().parquet_metadata_load_elapsed
            == metrics.parquet_metadata_load_elapsed.recorded(),
        metrics.recorded().file_scan_tasks_started == metrics.file_scan_tasks_started.added(),
        StorageRecord::empty().storage_bytes_read == 0,
        StorageRecord::empty().storage_read_requests == 0,
        StorageRecord::empty().storage_read_errors == 0,
        StorageRecord::empty().storage_read_elapsed.len() == 0,
        StorageRecord::empty().parquet_files_opened == 0,
        StorageRecord::empty().file_open_elapsed.len() == 0,
        StorageRecord::empty().parquet_metadata_load_elapsed.len() == 0,
        StorageRecord::empty().file_scan_tasks_started == 0,
{
}

/// The metrics of a partition are registered for it, each under its own name.
pub proof fn lemma_registered(
    metrics: DataFusionStorageMetrics,
    set: ExecutionPlanMetricsSet,
    partition: usize,
)
    requires
        metrics.registered_in(set, partition),
    ensures
        metrics.storage_bytes_read.label() == (MetricLabel {
            metrics: set,
            name: "storage_bytes_read"@,
            partition,
        }),
        metrics.storage_read_requests.label() == (MetricLabel {
            metrics: set,
            name: "storage_read_requests"@,
            partition,
        }),
        metrics.storage_read_errors.label() == (MetricLabel {
            metrics: set,
            name: "storage_read_errors"@,
            partition,
        }),
        metrics.storage_read_elapsed.label() == (MetricLabel {
            metrics: set,
            name: "storage_read_elapsed"@,
            partition,
        }),
        metrics.parquet_files_opened.label() == (MetricLabel {
            metrics: set,
            name: "parquet_files_opened"@,
            partition,
        }),
        metrics.file_open_elapsed.label() == (MetricLabel {
            metrics: set,
            name: "file_open_elapsed"@,
            partition,
        }),
        metrics.parquet_metadata_load_elapsed.label() == (MetricLabel {
            metrics: set,
            name: "parquet_metadata_load_elapsed"@,
            partition,
        }),
        metrics.file_scan_tasks_started.label() == (MetricLabel {
            metrics: set,
            name: "file_scan_tasks_started"@,
            partition,
        }),
{
}

/// What a stream has reported grows with every reading by what the counters have advanced since
/// the reading before, or since zero for the first.
pub proof fn lemma_reported(readings: Seq<ScanCounts>, reading: ScanCounts)
    ensures
        reported(Seq::<ScanCounts>::empty()) == StorageRecord::empty(),
        reported(readings.push(reading)) == reported(readings).after(
            reading,
            snapshot_of(
                if readings.len() == 0 {
                    ScanCounts::zero()
                } else {
                    readings.last()
                },
            ),
        ),
{
    assert(readings.push(reading).drop_last() =~= readings);
}

} // verus!
