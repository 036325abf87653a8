//! Scan metrics and I/O counting for Parquet data file reads.
use std::ops::Range;
use std::time::Instant;

use vstd::prelude::*;

use crate::outside::ElapsedReading;

verus! {

/// The values of the counters of a scan. Every counter counts modulo 2^64.
#[derive(Debug, Clone, Copy)]
pub struct ScanCounts {
    pub bytes_read: u64,
    pub read_requests: u64,
    pub read_errors: u64,
    pub read_elapsed_nanos: u64,
    pub parquet_files_opened: u64,
    pub file_open_elapsed_nanos: u64,
    pub parquet_metadata_load_elapsed_nanos: u64,
    pub file_scan_tasks_started: u64,
}

/// Something that the counters of a scan take note of.
pub enum ScanEvent {
    /// The processing of a data-file scan task has started.
    TaskStarted,
    /// A Parquet data or delete file was opened.
    FileOpened,
    /// Opening a file took this many nanoseconds.
    FileOpenElapsed(u64),
    /// Loading Parquet metadata took this many nanoseconds.
    MetadataLoadElapsed(u64),
    /// A read of this many bytes was issued to storage.
    ReadIssued(u64),
    /// A read came back, after `nanos` nanoseconds, with an error or without.
    ReadReturned { nanos: u64, failed: bool },
}

impl ScanCounts {
    /// All counters at zero.
    pub open spec fn zero() -> ScanCounts {
        ScanCounts {
            bytes_read: 0,
            read_requests: 0,
            read_errors: 0,
            read_elapsed_nanos: 0,
            parquet_files_opened: 0,
            file_open_elapsed_nanos: 0,
            parquet_metadata_load_elapsed_nanos: 0,
            file_scan_tasks_started: 0,
        }
    }

    /// Every counter advanced by its counterpart in `more`.
    pub open spec fn plus(self, more: ScanCounts) -> ScanCounts {
        ScanCounts {
            bytes_read: self.bytes_read.wrapping_add(more.bytes_read),
            read_requests: self.read_requests.wrapping_add(more.read_requests),
            read_errors: self.read_errors.wrapping_add(more.read_errors),
            read_elapsed_nanos: self.read_elapsed_nanos.wrapping_add(more.read_elapsed_nanos),
            parquet_files_opened: self.parquet_files_opened.wrapping_add(more.parquet_files_opened),
            file_open_elapsed_nanos: self.file_open_elapsed_nanos.wrapping_add(
                more.file_open_elapsed_nanos,
            ),
            parquet_metadata_load_elapsed_nanos:
                self.parquet_metadata_load_elapsed_nanos.wrapping_add(
                more.parquet_metadata_load_elapsed_nanos,
            ),
            file_scan_tasks_started: self.file_scan_tasks_started.wrapping_add(
                more.file_scan_tasks_started,
            ),
        }
    }

    /// The counters after `event`.
    pub open spec fn after(self, event: ScanEvent) -> ScanCounts {
        self.plus(event.counts())
    }

    /// The counters after all of `events`, in order.
    pub open spec fn after_all(self, events: Seq<ScanEvent>) -> ScanCounts
        decreases events.len(),
    {
        if events.len() == 0 {
            self
        } else {
            self.after_all(events.drop_last()).after(events.last())
        }
    }
}

impl ScanEvent {
    /// What an event adds to each counter.
    pub open spec fn counts(self) -> ScanCounts {
        let none = ScanCounts::zero();
        match self {
            ScanEvent::TaskStarted => ScanCounts { file_scan_tasks_started: 1, ..none },
            ScanEvent::FileOpened => ScanCounts { parquet_files_opened: 1, ..none },
            ScanEvent::FileOpenElapsed(nanos) => ScanCounts {
                file_open_elapsed_nanos: nanos,
                ..none
            },
            ScanEvent::MetadataLoadElapsed(nanos) => ScanCounts {
                parquet_metadata_load_elapsed_nanos: nanos,
                ..none
            },
            ScanEvent::ReadIssued(bytes) => ScanCounts {
                bytes_read: bytes,
                read_requests: 1,
                ..none
            },
            ScanEvent::ReadReturned { nanos, failed } => ScanCounts {
                read_elapsed_nanos: nanos,
                read_errors: if failed {
                    1
                } else {
                    0
                },
                ..none
            },
        }
    }
}

/// `amount` of all of `events` together.
pub open spec fn total(events: Seq<ScanEvent>, amount: spec_fn(ScanEvent) -> nat) -> nat
    decreases events.len(),
{
    if events.len() == 0 {
        0
    } else {
        total(events.drop_last(), amount) + amount(events.last())
    }
}

/// The bytes that an event asks storage for.
pub open spec fn bytes_issued() -> spec_fn(ScanEvent) -> nat {
    |event: ScanEvent|
        match event {
            ScanEvent::ReadIssued(bytes) => bytes as nat,
            _ => 0,
        }
}

/// Being a read that is issued, as a number.
pub open spec fn reads_issued() -> spec_fn(ScanEvent) -> nat {
    |event: ScanEvent|
        if event is ReadIssued {
            1
        } else {
            0
        }
}

/// Being a read that comes back, as a number.
pub open spec fn reads_returned() -> spec_fn(ScanEvent) -> nat {
    |event: ScanEvent|
        if event is ReadReturned {
            1
        } else {
            0
        }
}

/// Being a read that comes back with an error, as a number.
pub open spec fn reads_failed() -> spec_fn(ScanEvent) -> nat {
    |event: ScanEvent|
        match event {
            ScanEvent::ReadReturned { nanos: _, failed: true } => 1,
            _ => 0,
        }
}

/// The nanoseconds that a read took that comes back.
pub open spec fn read_nanos() -> spec_fn(ScanEvent) -> nat {
    |event: ScanEvent|
        match event {
            ScanEvent::ReadReturned { nanos, failed: _ } => nanos as nat,
            _ => 0,
        }
}

/// Being a file that is opened, as a number.
pub open spec fn files_opened() -> spec_fn(ScanEvent) -> nat {
    |event: ScanEvent|
        if event is FileOpened {
            1
        } else {
            0
        }
}

/// The nanoseconds that opening a file took.
pub open spec fn open_nanos() -> spec_fn(ScanEvent) -> nat {
    |event: ScanEvent|
        match event {
            ScanEvent::FileOpenElapsed(nanos) => nanos as nat,
            _ => 0,
        }
}

/// The nanoseconds that loading metadata took.
pub open spec fn metadata_nanos() -> spec_fn(ScanEvent) -> nat {
    |event: ScanEvent|
        match event {
            ScanEvent::MetadataLoadElapsed(nanos) => nanos as nat,
            _ => 0,
        }
}

/// Being a task that starts, as a number.
pub open spec fn tasks_started() -> spec_fn(ScanEvent) -> nat {
    |event: ScanEvent|
        if event is TaskStarted {
            1
        } else {
            0
        }
}

/// The counter `count` shows `sum`, modulo 2^64.
pub open spec fn counts_to(count: u64, sum: nat) -> bool {
    count == sum % 0x1_0000_0000_0000_0000
}

/// A number of nanoseconds as a `u64`, cut off at the largest one.
pub open spec fn capped_nanos(nanos: nat) -> u64 {
    if nanos <= u64::MAX {
        nanos as u64
    } else {
        u64::MAX
    }
}

/// `nanos` is what a reading of the clock since `started` gave, cut off at the largest `u64`.
pub open spec fn elapsed_since(started: Instant, nanos: u64) -> bool {
    exists|reading: ElapsedReading| #[trigger]
        reading.since() == started && nanos == capped_nanos(reading.spec_nanos() as nat)
}

/// Metrics collected during an Iceberg scan.
///
/// One value counts for a whole scan. It is deliberately not `Clone`: the readers of a scan and
/// its observers hold the same value, behind a lock, so that all of them see the same counts.
#[derive(Debug)]
pub struct ScanMetrics {
    counts: ScanCounts,
}

impl View for ScanMetrics {
    type V = ScanCounts;

    closed spec fn view(&self) -> ScanCounts {
        self.counts
    }
}

impl ScanMetrics {
    /// Metrics of a scan that has done nothing yet.
    pub fn new() -> (metrics: Self)
        ensures
            metrics@ == ScanCounts::zero(),
    {
        ScanMetrics {
            counts: ScanCounts {
                bytes_read: 0,
                read_requests: 0,
                read_errors: 0,
                read_elapsed_nanos: 0,
                parquet_files_opened: 0,
                file_open_elapsed_nanos: 0,
                parquet_metadata_load_elapsed_nanos: 0,
                file_scan_tasks_started: 0,
            },
        }
    }

    /// Counts a data-file scan task whose processing starts.
    pub fn file_scan_task_started(&mut self)
        ensures
            final(self)@ == old(self)@.after(ScanEvent::TaskStarted),
    {
        self.counts.file_scan_tasks_started = self.counts.file_scan_tasks_started.wrapping_add(1);
    }

    /// Counts a Parquet data or delete file that was opened.
    pub fn parquet_file_opened(&mut self)
        ensures
            final(self)@ == old(self)@.after(ScanEvent::FileOpened),
    {
        self.counts.parquet_files_opened = self.counts.parquet_files_opened.wrapping_add(1);
    }

    /// Adds the time since `started` to the time spent opening files; returns the nanoseconds that
    /// were added.
    pub fn add_file_open_elapsed(&mut self, started: Instant) -> (nanos: u64)
        ensures
            elapsed_since(started, nanos),
            final(self)@ == old(self)@.after(ScanEvent::FileOpenElapsed(nanos)),
    {
        let nanos: u64 = duration_as_u64_nanos(started);
        self.add_file_open_nanos(nanos);
        nanos
    }

    /// Adds `nanos` nanoseconds to the time spent opening files.
    pub fn add_file_open_nanos(&mut self, nanos: u64)
        ensures
            final(self)@ == old(self)@.after(ScanEvent::FileOpenElapsed(nanos)),
    {
        self.counts.file_open_elapsed_nanos =
            self.counts.file_open_elapsed_nanos.wrapping_add(nanos);
    }

    /// Adds the time since `started` to the time spent loading Parquet metadata; returns the
    /// nanoseconds that were added.
    pub fn add_parquet_metadata_load_elapsed(&mut self, started: Instant) -> (nanos: u64)
        ensures
            elapsed_since(started, nanos),
            final(self)@ == old(self)@.after(ScanEvent::MetadataLoadElapsed(nanos)),
    {
        let nanos: u64 = duration_as_u64_nanos(started);
        self.add_parquet_metadata_load_nanos(nanos);
        nanos
    }

    /// Adds `nanos` nanoseconds to the time spent loading Parquet metadata.
    pub fn add_parquet_metadata_load_nanos(&mut self, nanos: u64)
        ensures
            final(self)@ == old(self)@.after(ScanEvent::MetadataLoadElapsed(nanos)),
    {
        self.counts.parquet_metadata_load_elapsed_nanos =
            self.counts.parquet_metadata_load_elapsed_nanos.wrapping_add(nanos);
    }

    /// Counts a read of `range` that is issued to storage: its bytes and the request.
    pub fn begin_read(&mut self, range: &Range<u64>)
        requires
            range.start <= range.end,
        ensures
            final(self)@ == old(self)@.after(
                ScanEvent::ReadIssued((range.end - range.start) as u64),
            ),
    {
        self.counts.bytes_read = self.counts.bytes_read.wrapping_add(range.end - range.start);
        self.counts.read_requests = self.counts.read_requests.wrapping_add(1);
    }

    /// Counts a read that was issued at `started` and has come back; returns the nanoseconds that
    /// it is counted with.
    pub fn finish_read(&mut self, started: Instant, failed: bool) -> (nanos: u64)
        ensures
            elapsed_since(started, nanos),
            final(self)@ == old(self)@.after(ScanEvent::ReadReturned { nanos, failed }),
    {
        let nanos: u64 = duration_as_u64_nanos(started);
        self.finish_read_after(nanos, failed);
        nanos
    }

    /// Counts a read that has come back after `nanos` nanoseconds.
    pub fn finish_read_after(&mut self, nanos: u64, failed: bool)
        ensures
            final(self)@ == old(self)@.after(ScanEvent::ReadReturned { nanos, failed }),
    {
        self.counts.read_elapsed_nanos = self.counts.read_elapsed_nanos.wrapping_add(nanos);
        if failed {
            self.counts.read_errors = self.counts.read_errors.wrapping_add(1);
        }
    }

    /// Total bytes requested from storage during this scan, for data and delete files alike.
    pub fn bytes_read(&self) -> (count: u64)
        ensures
            count == self@.bytes_read,
    {
        self.counts.bytes_read
    }

    /// Number of range-read requests issued to storage.
    pub fn read_requests(&self) -> (count: u64)
        ensures
            count == self@.read_requests,
    {
        self.counts.read_requests
    }

    /// Number of storage range-read requests that returned an error.
    pub fn read_errors(&self) -> (count: u64)
        ensures
            count == self@.read_errors,
    {
        self.counts.read_errors
    }

    /// Sum of storage range-read latency in nanoseconds.
    ///
    /// Concurrent requests overlap, so this can exceed wall-clock scan time.
    pub fn read_elapsed_nanos(&self) -> (nanos: u64)
        ensures
            nanos == self@.read_elapsed_nanos,
    {
        self.counts.read_elapsed_nanos
    }

    /// Number of Parquet data and delete files successfully opened.
    pub fn parquet_files_opened(&self) -> (count: u64)
        ensures
            count == self@.parquet_files_opened,
    {
        self.counts.parquet_files_opened
    }

    /// Sum of time spent opening Parquet data and delete files in nanoseconds.
    pub fn file_open_elapsed_nanos(&self) -> (nanos: u64)
        ensures
            nanos == self@.file_open_elapsed_nanos,
    {
        self.counts.file_open_elapsed_nanos
    }

    /// Sum of time spent loading Parquet metadata in nanoseconds.
    pub fn parquet_metadata_load_elapsed_nanos(&self) -> (nanos: u64)
        ensures
            nanos == self@.parquet_metadata_load_elapsed_nanos,
    {
        self.counts.parquet_metadata_load_elapsed_nanos
    }

    /// Number of data-file scan tasks whose processing has started.
    pub fn file_scan_tasks_started(&self) -> (count: u64)
        ensures
            count == self@.file_scan_tasks_started,
    {
        self.counts.file_scan_tasks_started
    }
}

/// The nanoseconds since `started`, cut off at the largest `u64`.
fn duration_as_u64_nanos(started: Instant) -> (nanos: u64)
    ensures
        elapsed_since(started, nanos),
{
    let reading = ElapsedReading::take(started);
    let nanos: u64 = cap_nanos(reading.nanos());
    assert(reading.since() == started && nanos == capped_nanos(reading.spec_nanos() as nat));
    nanos
}

/// `nanos` as a `u64`, cut off at the largest one.
pub fn cap_nanos(nanos: u128) -> (capped: u64)
    ensures
        capped == capped_nanos(nanos as nat),
{
    match u64::try_from(nanos) {
        Ok(n) => n,
        Err(_) => u64::MAX,
    }
}

/// Result of reading file scan tasks: the record batch stream, and the metrics collected during
/// the scan or the handle by which they are shared.
#[derive(Debug)]
pub struct ScanResult<S, M = ScanMetrics> {
    stream: S,
    metrics: M,
}

impl<S, M> ScanResult<S, M> {
    /// The record batch stream.
    pub closed spec fn spec_stream(&self) -> S {
        self.stream
    }

    /// The scan metrics.
    pub closed spec fn spec_metrics(&self) -> M {
        self.metrics
    }

    pub fn new(stream: S, metrics: M) -> (result: Self)
        ensures
            result.spec_stream() == stream,
            result.spec_metrics() == metrics,
    {
        ScanResult { stream, metrics }
    }

    /// Consumes the result, returning only the record batch stream.
    pub fn stream(self) -> (stream: S)
        ensures
            stream == self.spec_stream(),
    {
        self.stream
    }

    /// Returns a reference to the scan metrics.
    pub fn metrics(&self) -> (metrics: &M)
        ensures
            *metrics == self.spec_metrics(),
    {
        &self.metrics
    }
}

/// Two events may reach the counters in either order: concurrent readers need not agree on one.
pub proof fn lemma_events_commute(counts: ScanCounts, a: ScanEvent, b: ScanEvent)
    ensures
        counts.after(a).after(b) == counts.after(b).after(a),
{
    lemma_plus_commutes(counts, a.counts(), b.counts());
}

proof fn lemma_plus_commutes(counts: ScanCounts, x: ScanCounts, y: ScanCounts)
    ensures
        counts.plus(x).plus(y) == counts.plus(y).plus(x),
{
}

/// Exchanging two neighbours in a sequence of events leaves the counters as they are.
pub proof fn lemma_neighbours_commute(
    counts: ScanCounts,
    before: Seq<ScanEvent>,
    a: ScanEvent,
    b: ScanEvent,
    rest: Seq<ScanEvent>,
)
    ensures
        counts.after_all(before.push(a).push(b) + rest) == counts.after_all(
            before.push(b).push(a) + rest,
        ),
    decreases rest.len(),
{
    let ab = before.push(a).push(b);
    let ba = before.push(b).push(a);
    if rest.len() == 0 {
        assert(ab + rest =~= ab);
        assert(ba + rest =~= ba);
        assert(ab.drop_last() =~= before.push(a));
        assert(ba.drop_last() =~= before.push(b));
        assert(before.push(a).drop_last() =~= before);
        assert(before.push(b).drop_last() =~= before);
        assert(counts.after_all(before.push(a)) == counts.after_all(before).after(a));
        assert(counts.after_all(before.push(b)) == counts.after_all(before).after(b));
        assert(counts.after_all(ab) == counts.after_all(before).after(a).after(b));
        assert(counts.after_all(ba) == counts.after_all(before).after(b).after(a));
        lemma_events_commute(counts.after_all(before), a, b);
    } else {
        assert((ab + rest).drop_last() =~= ab + rest.drop_last());
        assert((ba + rest).drop_last() =~= ba + rest.drop_last());
        assert((ab + rest).last() == rest.last());
        assert((ba + rest).last() == rest.last());
        lemma_neighbours_commute(counts, before, a, b, rest.drop_last());
    }
}

/// Whatever happens during a scan, and however its reads overlap, every counter shows the total of
/// what it counts, modulo 2^64: no event is missed, counted twice or counted elsewhere.
pub proof fn lemma_events_are_accounted_for(events: Seq<ScanEvent>)
    ensures
        ({
            let counts = ScanCounts::zero().after_all(events);
            &&& counts_to(counts.bytes_read, total(events, bytes_issued()))
            &&& counts_to(counts.read_requests, total(events, reads_issued()))
            &&& counts_to(counts.read_errors, total(events, reads_failed()))
            &&& counts_to(counts.read_elapsed_nanos, total(events, read_nanos()))
            &&& counts_to(counts.parquet_files_opened, total(events, files_opened()))
            &&& counts_to(counts.file_open_elapsed_nanos, total(events, open_nanos()))
            &&& counts_to(
                counts.parquet_metadata_load_elapsed_nanos,
                total(events, metadata_nanos()),
            )
            &&& counts_to(counts.file_scan_tasks_started, total(events, tasks_started()))
        }),
    decreases events.len(),
{
    if events.len() > 0 {
        lemma_events_are_accounted_for(events.drop_last());
    }
}

/// As long as no more reads have come back than were issued, no more errors than requests are
/// counted, and each counter of reads is exact while its total fits it.
pub proof fn lemma_reads_are_accounted_for(events: Seq<ScanEvent>)
    requires
        total(events, reads_returned()) <= total(events, reads_issued()) <= u64::MAX,
    ensures
        ({
            let counts = ScanCounts::zero().after_all(events);
            &&& counts.read_requests == total(events, reads_issued())
            &&& counts.read_errors == total(events, reads_failed())
            &&& counts.read_errors <= counts.read_requests
            &&& total(events, bytes_issued()) <= u64::MAX ==> counts.bytes_read == total(
                events,
                bytes_issued(),
            )
            &&& total(events, read_nanos()) <= u64::MAX ==> counts.read_elapsed_nanos == total(
                events,
                read_nanos(),
            )
        }),
{
    lemma_events_are_accounted_for(events);
    lemma_failed_reads_have_returned(events);
}

proof fn lemma_failed_reads_have_returned(events: Seq<ScanEvent>)
    ensures
        total(events, reads_failed()) <= total(events, reads_returned()),
    decreases events.len(),
{
    if events.len() > 0 {
        lemma_failed_reads_have_returned(events.drop_last());
    }
}

} // verus!
