//! What is taken on trust of DataFusion, Arrow, Tokio and std: the types that pass through the
//! library unread, and the calls whose results Verus cannot derive.
use std::sync::Arc;
use std::time::{Duration, Instant};

use datafusion::arrow::array::RecordBatch;
use datafusion::arrow::datatypes::Schema;
use datafusion::physical_plan::metrics::{
    Count, ExecutionPlanMetricsSet, MetricBuilder, MetricsSet, Time,
};
use tokio::runtime::Handle;
use vstd::prelude::*;

use crate::schema::{
    first_missing, indices_in_range, name_index, names_of, pick, projection_error_text,
};

verus! {

/// `tokio::runtime::Handle`, a reference-counted handle of a runtime, carried through unread.
#[verifier::external_type_specification]
#[verifier::external_body]
pub struct ExHandle(Handle);

/// `datafusion::physical_plan::metrics::Count`, a shared counter, written and never read here.
#[verifier::external_type_specification]
#[verifier::external_body]
pub struct ExCount(Count);

/// `datafusion::physical_plan::metrics::Time`, a shared sum of times, written and never read here.
#[verifier::external_type_specification]
#[verifier::external_body]
pub struct ExTime(Time);

/// `datafusion::physical_plan::metrics::ExecutionPlanMetricsSet`, the shared list of the metrics
/// of a plan node, carried through unread.
#[verifier::external_type_specification]
#[verifier::external_body]
pub struct ExExecutionPlanMetricsSet(ExecutionPlanMetricsSet);

/// `datafusion::physical_plan::metrics::MetricsSet`, a list of metrics, handed out unread.
#[verifier::external_type_specification]
#[verifier::external_body]
pub struct ExMetricsSet(MetricsSet);

/// `std::time::Instant`, a reading of the clock, carried through unread.
#[verifier::external_type_specification]
#[verifier::external_body]
pub struct ExInstant(Instant);

/// `datafusion::arrow::datatypes::Schema`, the columns of record batches.
#[verifier::external_type_specification]
#[verifier::external_body]
pub struct ExSchema(Schema);

/// `Handle::clone`: the clone is a handle of the same runtime.
pub assume_specification[ <Handle as Clone>::clone ](handle: &Handle) -> (same: Handle)
    ensures
        same == *handle,
;

/// `Instant::now` reads the clock: nothing is claimed of what it says.
pub assume_specification[ Instant::now ]() -> (now: Instant)
;

/// A reading of the clock: how much time had passed since an instant.
pub struct ElapsedReading {
    nanos: u128,
    since: Ghost<Instant>,
}

impl ElapsedReading {
    /// The nanoseconds that had passed.
    pub closed spec fn spec_nanos(&self) -> u128 {
        self.nanos
    }

    /// The instant from which they were counted.
    pub closed spec fn since(&self) -> Instant {
        self.since@
    }

    /// `Instant::elapsed` reads the clock and gives the time since `started`, here in
    /// nanoseconds. How long that is only the clock knows, so the contract says from when it was
    /// counted.
    #[verifier::external_body]
    pub(crate) fn take(started: Instant) -> (reading: ElapsedReading)
        ensures
            reading.since() == started,
    {
        ElapsedReading { nanos: started.elapsed().as_nanos(), since: Ghost(started) }
    }

    /// The nanoseconds that had passed.
    pub fn nanos(&self) -> (nanos: u128)
        ensures
            nanos == self.spec_nanos(),
    {
        self.nanos
    }
}

/// `ExecutionPlanMetricsSet::new` makes a new, empty list. A list stands for the memory that it
/// shares with its clones, and a new one shares none, so it is another than `besides`. What it
/// holds can change behind every reference to it, so nothing is claimed of that.
#[verifier::external_body]
pub(crate) fn new_metrics_set(besides: Option<&ExecutionPlanMetricsSet>) -> (metrics:
    ExecutionPlanMetricsSet)
    ensures
        besides matches Some(other) ==> metrics != *other,
{
    let _ = besides;
    ExecutionPlanMetricsSet::new()
}

/// A copy of the metrics in a list.
pub struct MetricsSnapshot {
    /// The metrics that the list held when the copy was made.
    pub set: MetricsSet,
    taken_from: Ghost<ExecutionPlanMetricsSet>,
}

impl MetricsSnapshot {
    /// The list that was copied.
    pub closed spec fn taken_from(&self) -> ExecutionPlanMetricsSet {
        self.taken_from@
    }

    /// `ExecutionPlanMetricsSet::clone_inner` copies the list `metrics` as it stands at the call.
    /// Other holders may put metrics in it at any time, so the contract says which list was
    /// copied and nothing of what is in the copy.
    #[verifier::external_body]
    pub(crate) fn take(metrics: &ExecutionPlanMetricsSet) -> (snapshot: MetricsSnapshot)
        ensures
            snapshot.taken_from() == *metrics,
    {
        MetricsSnapshot { set: metrics.clone_inner(), taken_from: Ghost(*metrics) }
    }
}

/// What a metric is registered under: the list it is in, its name and its partition.
pub struct MetricLabel {
    pub metrics: ExecutionPlanMetricsSet,
    pub name: Seq<char>,
    pub partition: usize,
}

/// A counter of a plan node.
///
/// The counter itself is shared with the list it is registered in, which only reads it, so what
/// it shows is what was added through this metric. Contracts speak of that.
pub struct CountMetric {
    count: Count,
    label: Ghost<MetricLabel>,
    added: Ghost<nat>,
}

impl CountMetric {
    /// What the counter is registered under.
    pub closed spec fn label(&self) -> MetricLabel {
        self.label@
    }

    /// The sum of all numbers that were added.
    pub closed spec fn added(&self) -> nat {
        self.added@
    }

    /// `MetricBuilder::counter` registers a new counter called `name` for `partition` in
    /// `metrics`, to which nothing has been added, and returns it.
    #[verifier::external_body]
    pub(crate) fn register(
        metrics: &ExecutionPlanMetricsSet,
        name: &'static str,
        partition: usize,
    ) -> (metric: CountMetric)
        ensures
            metric.label() == (MetricLabel { metrics: *metrics, name: name@, partition }),
            metric.added() == 0,
    {
        let count = MetricBuilder::new(metrics).counter(name, partition);
        let label = Ghost(MetricLabel { metrics: *metrics, name: name@, partition });
        CountMetric { count, label, added: Ghost(0) }
    }

    /// `Count::add` adds `n` to the counter. (The counter shows the sum modulo the number of
    /// values of a `usize`.)
    #[verifier::external_body]
    pub(crate) fn add(&mut self, n: usize)
        ensures
            final(self).label() == old(self).label(),
            final(self).added() == old(self).added() + n,
    {
        self.count.add(n);
    }
}

/// A time that was added to a sum of times.
pub enum RecordedTime {
    /// This many nanoseconds.
    Nanos(u64),
    /// The time from this instant until it was recorded.
    Since(Instant),
}

/// A sum of times of a plan node.
///
/// As with a counter, what the sum shows is what was added through this metric.
pub struct TimeMetric {
    time: Time,
    label: Ghost<MetricLabel>,
    recorded: Ghost<Seq<RecordedTime>>,
}

impl TimeMetric {
    /// What the sum is registered under.
    pub closed spec fn label(&self) -> MetricLabel {
        self.label@
    }

    /// The times that were added, in order.
    pub closed spec fn recorded(&self) -> Seq<RecordedTime> {
        self.recorded@
    }

    /// `MetricBuilder::subset_time` registers a new sum of times called `name` for `partition` in
    /// `metrics`, to which nothing has been added, and returns it.
    #[verifier::external_body]
    pub(crate) fn register(
        metrics: &ExecutionPlanMetricsSet,
        name: &'static str,
        partition: usize,
    ) -> (metric: TimeMetric)
        ensures
            metric.label() == (MetricLabel { metrics: *metrics, name: name@, partition }),
            metric.recorded() == Seq::<RecordedTime>::empty(),
    {
        let time = MetricBuilder::new(metrics).subset_time(name, partition);
        let label = Ghost(MetricLabel { metrics: *metrics, name: name@, partition });
        TimeMetric { time, label, recorded: Ghost(Seq::empty()) }
    }

    /// `Time::add_duration` adds a duration, here of `nanos` nanoseconds. (The sum grows by at
    /// least one nanosecond, and shows its value modulo the number of values of a `usize`.)
    #[verifier::external_body]
    pub(crate) fn add_nanos(&mut self, nanos: u64)
        ensures
            final(self).label() == old(self).label(),
            final(self).recorded() == old(self).recorded().push(RecordedTime::Nanos(nanos)),
    {
        self.time.add_duration(Duration::from_nanos(nanos));
    }

    /// `Time::add_elapsed` adds the time from `started` until now. How long that is only the
    /// clock knows, so the contract says from when it was taken.
    #[verifier::external_body]
    pub(crate) fn add_elapsed(&mut self, started: Instant)
        ensures
            final(self).label() == old(self).label(),
            final(self).recorded() == old(self).recorded().push(RecordedTime::Since(started)),
    {
        self.time.add_elapsed(started);
    }
}

/// `Arc::<[T]>::from` for a `Vec<T>`: the shared slice holds the items of `items`, in their order.
#[verifier::external_body]
pub(crate) fn shared_slice<T>(items: Vec<T>) -> (shared: Arc<[T]>)
    ensures
        shared@ == items@,
{
    Arc::<[T]>::from(items)
}

/// The columns of a schema, in order: the name of each, and the bytes of one fixed encoding of its
/// type, its nullability and its metadata.
pub uninterp spec fn schema_columns(schema: Schema) -> Seq<(Seq<char>, Seq<u8>)>;

/// The metadata of a schema as a whole.
pub uninterp spec fn schema_metadata(schema: Schema) -> Map<Seq<char>, Seq<char>>;

/// `Schema::fields`: the number of columns.
#[verifier::external_body]
pub(crate) fn column_count(schema: &Schema) -> (count: usize)
    ensures
        count == schema_columns(*schema).len(),
{
    schema.fields().len()
}

/// `Schema::field`: column `index`, here its name. It panics where there is no such column.
#[verifier::external_body]
pub(crate) fn column_name(schema: &Schema, index: usize) -> (name: &str)
    requires
        index < schema_columns(*schema).len(),
    ensures
        name@ == schema_columns(*schema)[index as int].0,
{
    schema.field(index).name().as_str()
}

/// `Schema::index_of`: the position of the first column called `name`; an error, here `None`, if
/// there is no such column.
#[verifier::external_body]
pub(crate) fn index_of(schema: &Schema, name: &str) -> (index: Option<usize>)
    ensures
        match index {
            Some(i) => name_index(names_of(*schema), name@) == Some(i as int),
            None => name_index(names_of(*schema), name@) is None,
        },
{
    match schema.index_of(name) {
        Ok(index) => Some(index),
        Err(_) => None,
    }
}

/// `Schema::project`: the columns at `indices`, in that order, with the metadata of the schema. It
/// fails at the first index that is not a column, here with the text of the error.
#[verifier::external_body]
pub(crate) fn project(schema: &Schema, indices: &[usize]) -> (projected: Result<Schema, String>)
    ensures
        projected is Ok <==> indices_in_range(indices@, schema_columns(*schema).len()),
        match projected {
            Ok(projected) => {
                &&& schema_columns(projected) == pick(schema_columns(*schema), indices@)
                &&& schema_metadata(projected) == schema_metadata(*schema)
            },
            Err(text) => {
                &&& first_missing(indices@, schema_columns(*schema).len()) matches Some(i)
                &&& text@ == projection_error_text(
                    indices@[i] as nat,
                    schema_columns(*schema).len(),
                )
            },
        },
{
    match schema.project(indices) {
        Ok(projected) => Ok(projected),
        Err(error) => Err(error.to_string()),
    }
}

/// An Arrow `RecordBatch`, a collection of rows.
#[verifier::external_body]
#[derive(Debug)]
pub struct RowBatch {
    pub batch: RecordBatch,
}

/// The rows of a batch, in order, each as the bytes of one fixed encoding of its values.
pub uninterp spec fn batch_rows(batch: RowBatch) -> Seq<Seq<u8>>;

impl RowBatch {
    /// `RecordBatch::num_rows`: the number of rows.
    #[verifier::external_body]
    pub(crate) fn num_rows(&self) -> (count: usize)
        ensures
            count == batch_rows(*self).len(),
    {
        self.batch.num_rows()
    }

    /// `RecordBatch::slice`: the `length` rows that start at row `offset`. It panics where the
    /// batch does not have them.
    #[verifier::external_body]
    pub(crate) fn slice(&self, offset: usize, length: usize) -> (part: RowBatch)
        requires
            offset + length <= batch_rows(*self).len(),
        ensures
            batch_rows(part) == batch_rows(*self).subrange(offset as int, offset + length),
    {
        RowBatch { batch: self.batch.slice(offset, length) }
    }
}

} // verus!
