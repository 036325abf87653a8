//! Carrying the counters of a scan over to the metrics of its plan node.
use datafusion::physical_plan::metrics::ExecutionPlanMetricsSet;
use vstd::prelude::*;

use crate::arrow::scan_metrics::{ScanCounts, ScanMetrics};
use crate::outside::{CountMetric, MetricLabel, RecordedTime, TimeMetric};

verus! {

/// The counters of a scan as they were when they were last carried over.
#[derive(Debug, Clone, Copy)]
pub struct ScanMetricSnapshot {
    pub storage_bytes_read: u64,
    pub storage_read_requests: u64,
    pub storage_read_errors: u64,
    pub storage_read_elapsed: u64,
    pub parquet_files_opened: u64,
    pub file_open_elapsed: u64,
    pub parquet_metadata_load_elapsed: u64,
    pub file_scan_tasks_started: u64,
}

/// How far a counter has advanced; a counter that has gone back has not advanced.
pub open spec fn advance(current: u64, previous: u64) -> u64 {
    if current >= previous {
        (current - previous) as u64
    } else {
        0
    }
}

/// A number as a `usize`, cut off at the largest one.
pub open spec fn capped_usize(n: u64) -> usize {
    if n <= usize::MAX {
        n as usize
    } else {
        usize::MAX
    }
}

/// `recorded`, and after it the nanoseconds by which a sum has advanced, if it has.
pub open spec fn with_advance(
    recorded: Seq<RecordedTime>,
    current: u64,
    previous: u64,
) -> Seq<RecordedTime> {
    if advance(current, previous) > 0 {
        recorded.push(RecordedTime::Nanos(advance(current, previous)))
    } else {
        recorded
    }
}

/// The snapshot of the counters `counts`.
pub open spec fn snapshot_of(counts: ScanCounts) -> ScanMetricSnapshot {
    ScanMetricSnapshot {
        storage_bytes_read: counts.bytes_read,
        storage_read_requests: counts.read_requests,
        storage_read_errors: counts.read_errors,
        storage_read_elapsed: counts.read_elapsed_nanos,
        parquet_files_opened: counts.parquet_files_opened,
        file_open_elapsed: counts.file_open_elapsed_nanos,
        parquet_metadata_load_elapsed: counts.parquet_metadata_load_elapsed_nanos,
        file_scan_tasks_started: counts.file_scan_tasks_started,
    }
}

/// What has been added to the metrics of a plan node: the sums of the counters, and the times in
/// the sums of times.
pub struct StorageRecord {
    pub storage_bytes_read: nat,
    pub storage_read_requests: nat,
    pub storage_read_errors: nat,
    pub storage_read_elapsed: Seq<RecordedTime>,
    pub parquet_files_opened: nat,
    pub file_open_elapsed: Seq<RecordedTime>,
    pub parquet_metadata_load_elapsed: Seq<RecordedTime>,
    pub file_scan_tasks_started: nat,
}

impl StorageRecord {
    /// Nothing has been added.
    pub open spec fn empty() -> StorageRecord {
        StorageRecord {
            storage_bytes_read: 0,
            storage_read_requests: 0,
            storage_read_errors: 0,
            storage_read_elapsed: seq![],
            parquet_files_opened: 0,
            file_open_elapsed: seq![],
            parquet_metadata_load_elapsed: seq![],
            file_scan_tasks_started: 0,
        }
    }

    /// What has been added once every metric was given what its counter in `counts` has advanced
    /// since `previous`.
    pub open spec fn after(
        self,
        counts: ScanCounts,
        previous: ScanMetricSnapshot,
    ) -> StorageRecord {
        StorageRecord {
            storage_bytes_read: self.storage_bytes_read + capped_usize(
                advance(counts.bytes_read, previous.storage_bytes_read),
            ) as nat,
            storage_read_requests: self.storage_read_requests + capped_usize(
                advance(counts.read_requests, previous.storage_read_requests),
            ) as nat,
            storage_read_errors: self.storage_read_errors + capped_usize(
                advance(counts.read_errors, previous.storage_read_errors),
            ) as nat,
            storage_read_elapsed: with_advance(
                self.storage_read_elapsed,
                counts.read_elapsed_nanos,
                previous.storage_read_elapsed,
            ),
            parquet_files_opened: self.parquet_files_opened + capped_usize(
                advance(counts.parquet_files_opened, previous.parquet_files_opened),
            ) as nat,
            file_open_elapsed: with_advance(
                self.file_open_elapsed,
                counts.file_open_elapsed_nanos,
                previous.file_open_elapsed,
            ),
            parquet_metadata_load_elapsed: with_advance(
                self.parquet_metadata_load_elapsed,
                counts.parquet_metadata_load_elapsed_nanos,
                previous.parquet_metadata_load_elapsed,
            ),
            file_scan_tasks_started: self.file_scan_tasks_started + capped_usize(
                advance(counts.file_scan_tasks_started, previous.file_scan_tasks_started),
            ) as nat,
        }
    }
}

/// How far a counter has advanced since it was at `previous`, cut off at the largest `usize`.
pub fn delta_as_usize(current: u64, previous: &mut u64) -> (delta: usize)
    ensures
        delta == capped_usize(advance(current, *old(previous))),
        *final(previous) == current,
{
    let delta: u64 = current.saturating_sub(*previous);
    *previous = current;
    match usize::try_from(delta) {
        Ok(n) => n,
        Err(_) => usize::MAX,
    }
}

/// Adds to `metric` how far a sum of nanoseconds has advanced since it was at `previous`, and
/// leaves it alone if it has not.
pub fn add_elapsed_delta(metric: &mut TimeMetric, current: u64, previous: &mut u64)
    ensures
        final(metric).recorded() == with_advance(old(metric).recorded(), current, *old(previous)),
        final(metric).label() == old(metric).label(),
        *final(previous) == current,
{
    let delta: u64 = current.saturating_sub(*previous);
    *previous = current;
    if delta > 0 {
        metric.add_nanos(delta);
    }
}

impl Default for ScanMetricSnapshot {
    fn default() -> (snapshot: Self)
        ensures
            snapshot == snapshot_of(ScanCounts::zero()),
    {
        ScanMetricSnapshot {
            storage_bytes_read: 0,
            storage_read_requests: 0,
            storage_read_errors: 0,
            storage_read_elapsed: 0,
            parquet_files_opened: 0,
            file_open_elapsed: 0,
            parquet_metadata_load_elapsed: 0,
            file_scan_tasks_started: 0,
        }
    }
}

/// The metrics of a plan node for what one partition reads from storage.
pub struct DataFusionStorageMetrics {
    pub storage_bytes_read: CountMetric,
    pub storage_read_requests: CountMetric,
    pub storage_read_errors: CountMetric,
    pub storage_read_elapsed: TimeMetric,
    pub parquet_files_opened: CountMetric,
    pub file_open_elapsed: TimeMetric,
    pub parquet_metadata_load_elapsed: TimeMetric,
    pub file_scan_tasks_started: CountMetric,
}

impl DataFusionStorageMetrics {
    /// Every metric is registered in `metrics` under its own name, for `partition`.
    pub open spec fn registered_in(
        &self,
        metrics: ExecutionPlanMetricsSet,
        partition: usize,
    ) -> bool {
        let label = |name: Seq<char>| MetricLabel { metrics, name, partition };
        &&& self.storage_bytes_read.label() == label("storage_bytes_read"@)
        &&& self.storage_read_requests.label() == label("storage_read_requests"@)
        &&& self.storage_read_errors.label() == label("storage_read_errors"@)
        &&& self.storage_read_elapsed.label() == label("storage_read_elapsed"@)
        &&& self.parquet_files_opened.label() == label("parquet_files_opened"@)
        &&& self.file_open_elapsed.label() == label("file_open_elapsed"@)
        &&& self.parquet_metadata_load_elapsed.label() == label("parquet_metadata_load_elapsed"@)
        &&& self.file_scan_tasks_started.label() == label("file_scan_tasks_started"@)
    }

    /// What has been added to the metrics.
    pub open spec fn recorded(&self) -> StorageRecord {
        StorageRecord {
            storage_bytes_read: self.storage_bytes_read.added(),
            storage_read_requests: self.storage_read_requests.added(),
            storage_read_errors: self.storage_read_errors.added(),
            storage_read_elapsed: self.storage_read_elapsed.recorded(),
            parquet_files_opened: self.parquet_files_opened.added(),
            file_open_elapsed: self.file_open_elapsed.recorded(),
            parquet_metadata_load_elapsed: self.parquet_metadata_load_elapsed.recorded(),
            file_scan_tasks_started: self.file_scan_tasks_started.added(),
        }
    }

    /// Registers the metrics for `partition` in `metrics`.
    pub fn new(metrics: &ExecutionPlanMetricsSet, partition: usize) -> (storage_metrics: Self)
        ensures
            storage_metrics.registered_in(*metrics, partition),
            storage_metrics.recorded() == StorageRecord::empty(),
    {
        DataFusionStorageMetrics {
            storage_bytes_read: CountMetric::register(metrics, "storage_bytes_read", partition),
            storage_read_requests: CountMetric::register(
                metrics,
                "storage_read_requests",
                partition,
            ),
            storage_read_errors: CountMetric::register(metrics, "storage_read_errors", partition),
            storage_read_elapsed: TimeMetric::register(metrics, "storage_read_elapsed", partition),
            parquet_files_opened: CountMetric::register(metrics, "parquet_files_opened", partition),
            file_open_elapsed: TimeMetric::register(metrics, "file_open_elapsed", partition),
            parquet_metadata_load_elapsed: TimeMetric::register(
                metrics,
                "parquet_metadata_load_elapsed",
                partition,
            ),
            file_scan_tasks_started: CountMetric::register(
                metrics,
                "file_scan_tasks_started",
                partition,
            ),
        }
    }

    /// Adds to every metric what its counter has advanced since `previous`, and brings `previous`
    /// up to date.
    pub fn record(&mut self, scan_metrics: &ScanMetrics, previous: &mut ScanMetricSnapshot)
        ensures
            final(self).recorded() == old(self).recorded().after(scan_metrics@, *old(previous)),
            forall|metrics: ExecutionPlanMetricsSet, partition: usize|
                final(self).registered_in(metrics, partition) == old(self).registered_in(
                    metrics,
                    partition,
                ),
            *final(previous) == snapshot_of(scan_metrics@),
    {
        self.storage_bytes_read.add(
            delta_as_usize(scan_metrics.bytes_read(), &mut previous.storage_bytes_read),
        );
        self.storage_read_requests.add(
            delta_as_usize(scan_metrics.read_requests(), &mut previous.storage_read_requests),
        );
        self.storage_read_errors.add(
            delta_as_usize(scan_metrics.read_errors(), &mut previous.storage_read_errors),
        );
        add_elapsed_delta(
            &mut self.storage_read_elapsed,
            scan_metrics.read_elapsed_nanos(),
            &mut previous.storage_read_elapsed,
        );
        self.parquet_files_opened.add(
            delta_as_usize(scan_metrics.parquet_files_opened(), &mut previous.parquet_files_opened),
        );
        add_elapsed_delta(
            &mut self.file_open_elapsed,
            scan_metrics.file_open_elapsed_nanos(),
            &mut previous.file_open_elapsed,
        );
        add_elapsed_delta(
            &mut self.parquet_metadata_load_elapsed,
            scan_metrics.parquet_metadata_load_elapsed_nanos(),
            &mut previous.parquet_metadata_load_elapsed,
        );
        self.file_scan_tasks_started.add(
            delta_as_usize(
                scan_metrics.file_scan_tasks_started(),
                &mut previous.file_scan_tasks_started,
            ),
        );
    }
}

/// The accounting of a stream that carries the counters of its scan over at every poll, and once
/// more when it is dropped.
pub struct StorageMetricStream {
    datafusion_metrics: DataFusionStorageMetrics,
    previous: ScanMetricSnapshot,
}

impl StorageMetricStream {
    /// The metrics that are kept.
    pub closed spec fn spec_metrics(&self) -> DataFusionStorageMetrics {
        self.datafusion_metrics
    }

    /// The counters as they were last carried over.
    pub closed spec fn spec_previous(&self) -> ScanMetricSnapshot {
        self.previous
    }

    /// Nothing has been carried over yet.
    pub fn new(datafusion_metrics: DataFusionStorageMetrics) -> (stream: Self)
        ensures
            stream.spec_metrics() == datafusion_metrics,
            stream.spec_previous() == snapshot_of(ScanCounts::zero()),
    {
        StorageMetricStream { datafusion_metrics, previous: ScanMetricSnapshot::default() }
    }

    /// Carries over what the counters have advanced since the last time.
    pub fn record_metrics(&mut self, scan_metrics: &ScanMetrics)
        ensures
            final(self).spec_metrics().recorded() == old(self).spec_metrics().recorded().after(
                scan_metrics@,
                old(self).spec_previous(),
            ),
            forall|metrics: ExecutionPlanMetricsSet, partition: usize|
                final(self).spec_metrics().registered_in(metrics, partition) == old(
                    self,
                ).spec_metrics().registered_in(metrics, partition),
            final(self).spec_previous() == snapshot_of(scan_metrics@),
    {
        self.datafusion_metrics.record(scan_metrics, &mut self.previous)
    }
}

/// The nanoseconds in `recorded`, all in all. A time taken from a clock is not among them.
pub open spec fn total_nanos(recorded: Seq<RecordedTime>) -> nat
    decreases recorded.len(),
{
    if recorded.len() == 0 {
        0
    } else {
        total_nanos(recorded.drop_last()) + match recorded.last() {
            RecordedTime::Nanos(nanos) => nanos as nat,
            RecordedTime::Since(_) => 0,
        }
    }
}

/// Every time in `recorded` is a positive number of nanoseconds, and they add up to `nanos`.
pub open spec fn adds_up_to(recorded: Seq<RecordedTime>, nanos: u64) -> bool {
    &&& forall|i: int|
        0 <= i < recorded.len() ==> (#[trigger] recorded[i] matches RecordedTime::Nanos(n) && n > 0)
    &&& total_nanos(recorded) == nanos
}

/// Every metric shows the value of its counter in `counts`.
pub open spec fn shows(record: StorageRecord, counts: ScanCounts) -> bool {
    &&& record.storage_bytes_read == counts.bytes_read
    &&& record.storage_read_requests == counts.read_requests
    &&& record.storage_read_errors == counts.read_errors
    &&& adds_up_to(record.storage_read_elapsed, counts.read_elapsed_nanos)
    &&& record.parquet_files_opened == counts.parquet_files_opened
    &&& adds_up_to(record.file_open_elapsed, counts.file_open_elapsed_nanos)
    &&& adds_up_to(record.parquet_metadata_load_elapsed, counts.parquet_metadata_load_elapsed_nanos)
    &&& record.file_scan_tasks_started == counts.file_scan_tasks_started
}

/// No counter of `a` is ahead of its counterpart in `b`.
pub open spec fn not_ahead(a: ScanCounts, b: ScanCounts) -> bool {
    &&& a.bytes_read <= b.bytes_read
    &&& a.read_requests <= b.read_requests
    &&& a.read_errors <= b.read_errors
    &&& a.read_elapsed_nanos <= b.read_elapsed_nanos
    &&& a.parquet_files_opened <= b.parquet_files_opened
    &&& a.file_open_elapsed_nanos <= b.file_open_elapsed_nanos
    &&& a.parquet_metadata_load_elapsed_nanos <= b.parquet_metadata_load_elapsed_nanos
    &&& a.file_scan_tasks_started <= b.file_scan_tasks_started
}

/// From `a` to `b` no plain counter advances by more than a `usize` holds.
pub open spec fn advance_fits(a: ScanCounts, b: ScanCounts) -> bool {
    &&& advance(b.bytes_read, a.bytes_read) <= usize::MAX
    &&& advance(b.read_requests, a.read_requests) <= usize::MAX
    &&& advance(b.read_errors, a.read_errors) <= usize::MAX
    &&& advance(b.parquet_files_opened, a.parquet_files_opened) <= usize::MAX
    &&& advance(b.file_scan_tasks_started, a.file_scan_tasks_started) <= usize::MAX
}

/// The last of `readings`, or zero if there is none.
pub open spec fn last_reading(readings: Seq<ScanCounts>) -> ScanCounts {
    if readings.len() == 0 {
        ScanCounts::zero()
    } else {
        readings.last()
    }
}

/// What a stream has added to its metrics after it carried over each of `readings`.
pub open spec fn reported(readings: Seq<ScanCounts>) -> StorageRecord
    decreases readings.len(),
{
    if readings.len() == 0 {
        StorageRecord::empty()
    } else {
        let before = readings.drop_last();
        reported(before).after(readings.last(), snapshot_of(last_reading(before)))
    }
}

proof fn lemma_one_more_time(recorded: Seq<RecordedTime>, a: u64, b: u64)
    requires
        adds_up_to(recorded, a),
        a <= b,
    ensures
        adds_up_to(with_advance(recorded, b, a), b),
{
    let after = with_advance(recorded, b, a);
    if advance(b, a) > 0 {
        assert(after.drop_last() =~= recorded);
        assert forall|i: int| 0 <= i < after.len() implies (#[trigger] after[i] matches
            RecordedTime::Nanos(n) && n > 0) by {
            if i < recorded.len() {
                assert(after[i] == recorded[i]);
            }
        }
    }
}

proof fn lemma_one_more_reading(record: StorageRecord, a: ScanCounts, b: ScanCounts)
    requires
        shows(record, a),
        not_ahead(a, b),
        advance_fits(a, b),
    ensures
        shows(record.after(b, snapshot_of(a)), b),
{
    lemma_one_more_time(record.storage_read_elapsed, a.read_elapsed_nanos, b.read_elapsed_nanos);
    lemma_one_more_time(
        record.file_open_elapsed,
        a.file_open_elapsed_nanos,
        b.file_open_elapsed_nanos,
    );
    lemma_one_more_time(
        record.parquet_metadata_load_elapsed,
        a.parquet_metadata_load_elapsed_nanos,
        b.parquet_metadata_load_elapsed_nanos,
    );
}

/// However often a stream carries its counters over, each metric ends up at the value of its
/// counter: nothing is added twice and nothing is missed.
pub proof fn lemma_metrics_add_up_to_the_counters(readings: Seq<ScanCounts>)
    requires
        forall|i: int|
            0 <= i < readings.len() ==> not_ahead(
                last_reading(readings.take(i)),
                #[trigger] readings[i],
            ) && advance_fits(last_reading(readings.take(i)), readings[i]),
    ensures
        shows(reported(readings), last_reading(readings)),
    decreases readings.len(),
{
    if readings.len() > 0 {
        let n = readings.len() - 1;
        let before = readings.drop_last();
        assert(readings.take(n) =~= before);
        assert(not_ahead(last_reading(readings.take(n)), readings[n]));
        assert forall|i: int| 0 <= i < before.len() implies not_ahead(
            last_reading(before.take(i)),
            #[trigger] before[i],
        ) && advance_fits(last_reading(before.take(i)), before[i]) by {
            assert(before.take(i) =~= readings.take(i));
            assert(before[i] == readings[i]);
        }
        lemma_metrics_add_up_to_the_counters(before);
        lemma_one_more_reading(reported(before), last_reading(before), readings[n]);
    }
}

/// Carrying over counters that have not moved adds nothing.
pub proof fn lemma_unchanged_counters_add_nothing(record: StorageRecord, counts: ScanCounts)
    ensures
        record.after(counts, snapshot_of(counts)) == record,
{
}

} // verus!
