//! The scan node of a whole table, with its file tasks planned up front or while it runs.
use std::sync::Arc;

use datafusion::physical_plan::metrics::ExecutionPlanMetricsSet;
use vstd::prelude::*;

use crate::arrow::scan_metrics::ScanCounts;
use crate::metadata::{
    all_tasks, lemma_all_tasks_prefix, FileScanTask, Predicate,
};
use crate::outside::{
    new_metrics_set, shared_slice, MetricLabel, MetricsSnapshot, RecordedTime, TimeMetric,
};
use crate::physical_plan::bucket_scan::group_views;
use crate::physical_plan::row_limit::RowLimit;
use crate::physical_plan::scan_planning::{IcebergScanConfig, ScanConfigView};
use crate::physical_plan::scan_stream::{ScanMetricStream, ScanProgress};
use crate::physical_plan::storage_metrics::{
    snapshot_of, DataFusionStorageMetrics, StorageMetricStream, StorageRecord,
};
use crate::plan::{
    properties_for, Boundedness, EmissionType, Partitioning, PlanError, PlanErrorView,
    PlanProperties,
};
use crate::schema::ArrowSchemaRef;
use crate::text::{decimal, join, joined, push_decimal, str_views, string_views};

verus! {

/// Manages the scanning of an Iceberg table of type `T`, with filters of type `P` and task details
/// of type `D`: the details of the scan and the properties that planning relies on.
#[derive(Debug)]
pub struct IcebergTableScan<T, P, D> {
    /// A table in the catalog.
    table: T,
    /// Snapshot, projection, output schema and pushed predicates of this scan.
    scan_config: IcebergScanConfig<P>,
    /// What the planner is told.
    plan_properties: Arc<PlanProperties>,
    /// Optional limit on the number of rows to return.
    limit: Option<usize>,
    /// File scan tasks that were planned up front, grouped by partition. `None` leaves planning
    /// to the run.
    file_task_groups: Option<Vec<Arc<[FileScanTask<D>]>>>,
    /// Execution metrics of this scan.
    metrics: ExecutionPlanMetricsSet,
}

/// Where the tasks of a run come from.
#[derive(Debug)]
pub enum TaskSource<D> {
    /// These tasks were planned up front.
    Planned(Arc<[FileScanTask<D>]>),
    /// The tasks of the whole table are planned by the run itself.
    Lazy,
}

/// How one partition is read.
pub struct TableScanRead<'a, T, P, D> {
    /// The table to read.
    pub table: &'a T,
    /// What to read of it.
    pub scan_config: &'a IcebergScanConfig<P>,
    /// Which files to read.
    pub source: TaskSource<D>,
    /// How many data files may be in flight; `None` leaves it to the reader.
    pub data_file_concurrency_limit: Option<usize>,
    /// The bound on the rows of this partition.
    pub row_limit: Option<RowLimit>,
    /// The accounting of what is read.
    pub storage_stream: StorageMetricStream,
}

/// With tasks planned up front the planner drives concurrency through the output partitions, so
/// that each keeps this many data files in flight.
pub const PLANNED_DATA_FILE_CONCURRENCY: usize = 1;

/// The tasks of each group.
pub open spec fn shared_group_views<D>(groups: Seq<Arc<[FileScanTask<D>]>>) -> Seq<
    Seq<FileScanTask<D>>,
> {
    groups.map_values(|group: Arc<[FileScanTask<D>]>| group@)
}

/// The tasks of each group, if they were planned up front.
pub open spec fn optional_group_views<D>(groups: Option<Vec<Arc<[FileScanTask<D>]>>>) -> Option<
    Seq<Seq<FileScanTask<D>>>,
> {
    match groups {
        Some(groups) => Some(shared_group_views(groups@)),
        None => None,
    }
}

/// The number of output partitions: one per group, or a single one if planning is left to the
/// run.
pub open spec fn partition_count_of<D>(groups: Option<Seq<Seq<FileScanTask<D>>>>) -> nat {
    match groups {
        Some(groups) => groups.len(),
        None => 1,
    }
}

/// The error for a partition that does not exist.
pub open spec fn missing_partition_text(partition: nat, partition_count: nat) -> Seq<char> {
    "IcebergTableScan partition "@ + decimal(partition) + " does not exist; scan has "@ + decimal(
        partition_count,
    ) + " partitions"@
}

/// The error for a scan that is given children.
pub open spec fn leaf_text() -> Seq<char> {
    "IcebergTableScan is a leaf node and cannot have children"@
}

/// What a plan shows of the scan.
pub open spec fn display_text<P, D>(
    config: ScanConfigView<P>,
    groups: Option<Seq<Seq<FileScanTask<D>>>>,
    limit: Option<usize>,
) -> Seq<char> {
    let projection = match config.column_names {
        Some(names) => joined(names, ","@),
        None => seq![],
    };
    let tasks = match groups {
        Some(groups) => " task_groups:["@ + decimal(groups.len()) + "] tasks:["@ + decimal(
            all_tasks(groups).len(),
        ) + "]"@,
        None => seq![],
    };
    let bound = match limit {
        Some(limit) => " limit:["@ + decimal(limit as nat) + "]"@,
        None => seq![],
    };
    let predicate = match config.predicates {
        Some(predicate) => predicate.text@,
        None => seq![],
    };
    "IcebergTableScan projection:["@ + projection + "] predicate:["@ + predicate + "]"@ + tasks
        + bound
}

impl<T, P, D> IcebergTableScan<T, P, D> {
    /// The table.
    pub closed spec fn spec_table(&self) -> T {
        self.table
    }

    /// What is asked for.
    pub closed spec fn spec_scan_config(&self) -> IcebergScanConfig<P> {
        self.scan_config
    }

    /// What the planner is told.
    pub closed spec fn spec_properties(&self) -> PlanProperties {
        *self.plan_properties
    }

    /// The limit on the rows, if any.
    pub closed spec fn spec_limit(&self) -> Option<usize> {
        self.limit
    }

    /// The groups of tasks that were planned up front, if they were.
    pub closed spec fn spec_file_task_groups(&self) -> Option<Seq<Seq<FileScanTask<D>>>> {
        optional_group_views(self.file_task_groups)
    }

    /// The metrics of this scan.
    pub closed spec fn spec_metrics_set(&self) -> ExecutionPlanMetricsSet {
        self.metrics
    }

    /// There are as many partitions as groups, or a single one, and the batches have the schema
    /// that was asked for.
    #[verifier::type_invariant]
    spec fn one_partition_per_group(&self) -> bool {
        *self.plan_properties == properties_for(
            self.scan_config@.output_schema,
            partition_count_of(self.spec_file_task_groups()),
        )
    }

    pub fn new(
        table: T,
        scan_config: IcebergScanConfig<P>,
        limit: Option<usize>,
        file_task_groups: Option<Vec<Vec<FileScanTask<D>>>>,
    ) -> (scan: Self)
        ensures
            scan.spec_table() == table,
            scan.spec_scan_config() == scan_config,
            scan.spec_limit() == limit,
            scan.spec_file_task_groups() == (match file_task_groups {
                Some(groups) => Some(group_views(groups@)),
                None => None,
            }),
            scan.spec_properties() == properties_for(
                scan_config@.output_schema,
                partition_count_of(scan.spec_file_task_groups()),
            ),
    {
        let partition_count: usize = match &file_task_groups {
            Some(groups) => groups.len(),
            None => 1,
        };
        let plan_properties = Self::compute_properties(
            scan_config.output_schema(),
            partition_count,
        );
        let file_task_groups = match file_task_groups {
            Some(groups) => Some(share_groups(groups)),
            None => None,
        };
        IcebergTableScan {
            table,
            scan_config,
            plan_properties,
            limit,
            file_task_groups,
            metrics: new_metrics_set(None),
        }
    }

    pub fn table(&self) -> (table: &T)
        ensures
            *table == self.spec_table(),
    {
        &self.table
    }

    pub fn snapshot_id(&self) -> (id: Option<i64>)
        ensures
            id == self.spec_scan_config()@.snapshot_id,
    {
        self.scan_config.snapshot_id()
    }

    pub fn projection(&self) -> (names: Option<&[String]>)
        ensures
            match names {
                Some(names) => self.spec_scan_config()@.column_names == Some(string_views(names@)),
                None => self.spec_scan_config()@.column_names is None,
            },
    {
        self.scan_config.column_names()
    }

    pub fn predicates(&self) -> (predicates: Option<&Predicate<P>>)
        ensures
            match predicates {
                Some(p) => self.spec_scan_config()@.predicates == Some(*p),
                None => self.spec_scan_config()@.predicates is None,
            },
    {
        self.scan_config.predicates()
    }

    pub fn limit(&self) -> (limit: Option<usize>)
        ensures
            limit == self.spec_limit(),
    {
        self.limit
    }

    pub fn scan_config(&self) -> (config: &IcebergScanConfig<P>)
        ensures
            *config == self.spec_scan_config(),
    {
        &self.scan_config
    }

    pub fn file_task_groups(&self) -> (groups: Option<&[Arc<[FileScanTask<D>]>]>)
        ensures
            match groups {
                Some(groups) => self.spec_file_task_groups() == Some(shared_group_views(groups@)),
                None => self.spec_file_task_groups() is None,
            },
    {
        match &self.file_task_groups {
            Some(groups) => Some(groups.as_slice()),
            None => None,
        }
    }

    /// What the planner is told of a scan with `partition_count` partitions.
    fn compute_properties(schema: ArrowSchemaRef, partition_count: usize) -> (properties: Arc<
        PlanProperties,
    >)
        ensures
            *properties == properties_for(schema, partition_count as nat),
    {
        Arc::new(
            PlanProperties {
                schema,
                partitioning: Partitioning::UnknownPartitioning(partition_count),
                emission_type: EmissionType::Incremental,
                boundedness: Boundedness::Bounded,
            },
        )
    }

    pub fn name(&self) -> (name: &'static str)
        ensures
            name@ == "IcebergTableScan"@,
    {
        "IcebergTableScan"
    }

    pub fn properties(&self) -> (properties: &Arc<PlanProperties>)
        ensures
            **properties == self.spec_properties(),
            **properties == properties_for(
                self.spec_scan_config()@.output_schema,
                partition_count_of(self.spec_file_task_groups()),
            ),
    {
        proof {
            use_type_invariant(self);
        }
        &self.plan_properties
    }

    /// The schema of the batches.
    pub fn schema(&self) -> (schema: &ArrowSchemaRef)
        ensures
            *schema == self.spec_properties().schema,
            *schema == self.spec_scan_config()@.output_schema,
    {
        proof {
            use_type_invariant(self);
        }
        &self.plan_properties.schema
    }

    /// A scan is a leaf: it stays as it is when it is given no children, and fails otherwise.
    pub fn with_new_children<C>(self: Arc<Self>, children: Vec<C>) -> (scan: Result<
        Arc<Self>,
        PlanError,
    >)
        ensures
            match scan {
                Ok(scan) => children@.len() == 0 && scan == self,
                Err(e) => children@.len() > 0 && e@ == PlanErrorView::Internal(leaf_text()),
            },
    {
        if children.len() > 0 {
            return Err(
                PlanError::Internal(
                    String::from_str("IcebergTableScan is a leaf node and cannot have children"),
                ),
            );
        }
        Ok(self)
    }

    /// How to read partition `partition`.
    ///
    /// With tasks planned up front, a partition reads the tasks of its group, one data file at a
    /// time, and a partition without a group is an error. Without them the whole table is read,
    /// whatever the partition. A limit bounds the rows of this one partition; bounding those of
    /// all partitions together is left to the planner.
    pub fn execute(&self, partition: usize) -> (read: Result<TableScanRead<'_, T, P, D>, PlanError>)
        ensures
            read is Ok <==> (self.spec_file_task_groups() is None || partition
                < self.spec_properties().partitioning.spec_partition_count()),
            match read {
                Ok(r) => {
                    &&& *r.table == self.spec_table()
                    &&& *r.scan_config == self.spec_scan_config()
                    &&& match self.spec_file_task_groups() {
                        Some(groups) => {
                            &&& partition < groups.len()
                            &&& r.source matches TaskSource::Planned(tasks) && tasks@
                                == groups[partition as int]
                            &&& r.data_file_concurrency_limit == Some(1usize)
                        },
                        None => {
                            &&& r.source is Lazy
                            &&& r.data_file_concurrency_limit is None
                        },
                    }
                    &&& r.row_limit == (match self.spec_limit() {
                        Some(limit) => Some(RowLimit { remaining: limit }),
                        None => None,
                    })
                    &&& r.storage_stream.spec_metrics().registered_in(
                        self.spec_metrics_set(),
                        partition,
                    )
                    &&& r.storage_stream.spec_metrics().recorded() == StorageRecord::empty()
                    &&& r.storage_stream.spec_previous() == snapshot_of(ScanCounts::zero())
                },
                Err(e) => {
                    &&& self.spec_file_task_groups() matches Some(groups)
                    &&& partition >= groups.len()
                    &&& e@ == PlanErrorView::Internal(
                        missing_partition_text(partition as nat, groups.len()),
                    )
                },
            },
    {
        proof {
            use_type_invariant(self);
        }
        let storage_metrics = DataFusionStorageMetrics::new(&self.metrics, partition);
        let row_limit = match self.limit {
            Some(limit) => Some(RowLimit::new(limit)),
            None => None,
        };
        let (source, data_file_concurrency_limit) = match &self.file_task_groups {
            Some(file_task_groups) => {
                if partition >= file_task_groups.len() {
                    let mut text = String::from_str("IcebergTableScan partition ");
                    push_decimal(&mut text, partition);
                    text.append(" does not exist; scan has ");
                    push_decimal(&mut text, file_task_groups.len());
                    text.append(" partitions");
                    return Err(PlanError::Internal(text));
                }
                let tasks = Arc::clone(&file_task_groups[partition]);
                (TaskSource::Planned(tasks), Some(PLANNED_DATA_FILE_CONCURRENCY))
            },
            None => (TaskSource::Lazy, None),
        };
        Ok(
            TableScanRead {
                table: &self.table,
                scan_config: &self.scan_config,
                source,
                data_file_concurrency_limit,
                row_limit,
                storage_stream: StorageMetricStream::new(storage_metrics),
            },
        )
    }

    /// The timing of a run of `partition` that starts now.
    pub fn scan_metric_stream(&self, partition: usize) -> (stream: ScanMetricStream)
        ensures
            stream@ == ScanProgress::fresh(),
            stream.spec_time_to_first_batch().label() == (MetricLabel {
                metrics: self.spec_metrics_set(),
                name: "time_to_first_batch"@,
                partition,
            }),
            stream.spec_time_to_first_batch().recorded() == Seq::<RecordedTime>::empty(),
            stream.spec_scan_elapsed().label() == (MetricLabel {
                metrics: self.spec_metrics_set(),
                name: "scan_elapsed"@,
                partition,
            }),
            stream.spec_scan_elapsed().recorded() == Seq::<RecordedTime>::empty(),
    {
        let time_to_first_batch = TimeMetric::register(
            &self.metrics,
            "time_to_first_batch",
            partition,
        );
        let scan_elapsed = TimeMetric::register(&self.metrics, "scan_elapsed", partition);
        ScanMetricStream::new(time_to_first_batch, scan_elapsed)
    }

    /// The list that the metrics of this scan are registered in.
    pub fn metrics_set(&self) -> (metrics: &ExecutionPlanMetricsSet)
        ensures
            *metrics == self.spec_metrics_set(),
    {
        &self.metrics
    }

    /// A copy of the metrics of this scan as they stand.
    pub fn metrics(&self) -> (metrics: Option<MetricsSnapshot>)
        ensures
            metrics matches Some(snapshot) && snapshot.taken_from() == self.spec_metrics_set(),
    {
        Some(MetricsSnapshot::take(&self.metrics))
    }

    /// The same scan with metrics of its own.
    pub fn reset_state(&self) -> (scan: Self) where T: Clone
        ensures
            cloned(self.spec_table(), scan.spec_table()),
            scan.spec_scan_config()@ == self.spec_scan_config()@,
            scan.spec_properties() == self.spec_properties(),
            scan.spec_limit() == self.spec_limit(),
            scan.spec_file_task_groups() == self.spec_file_task_groups(),
            scan.spec_metrics_set() != self.spec_metrics_set(),
    {
        proof {
            use_type_invariant(self);
        }
        let file_task_groups = match &self.file_task_groups {
            Some(groups) => {
                let mut copies: Vec<Arc<[FileScanTask<D>]>> = Vec::new();
                for i in 0..groups.len()
                    invariant
                        copies.len() == i,
                        forall|k: int| 0 <= k < i ==> #[trigger] copies@[k] == groups@[k],
                {
                    copies.push(Arc::clone(&groups[i]));
                }
                assert(shared_group_views(copies@) =~= shared_group_views(groups@));
                Some(copies)
            },
            None => None,
        };
        IcebergTableScan {
            table: self.table.clone(),
            scan_config: self.scan_config.clone(),
            plan_properties: Arc::clone(&self.plan_properties),
            limit: self.limit,
            file_task_groups,
            metrics: new_metrics_set(Some(&self.metrics)),
        }
    }

    /// What a plan shows of the scan.
    pub fn fmt_as(&self) -> (text: String)
        requires
            self.spec_file_task_groups() matches Some(groups) ==> all_tasks(groups).len()
                <= usize::MAX,
        ensures
            text@ == display_text(
                self.spec_scan_config()@,
                self.spec_file_task_groups(),
                self.spec_limit(),
            ),
    {
        let mut text = String::from_str("IcebergTableScan projection:[");
        let ghost config = self.spec_scan_config()@;
        let ghost start = text@;
        if let Some(names) = self.projection() {
            let mut parts: Vec<&str> = Vec::new();
            for i in 0..names.len()
                invariant
                    parts.len() == i,
                    forall|k: int| 0 <= k < i ==> (#[trigger] parts@[k])@ == names@[k]@,
            {
                parts.push(names[i].as_str());
            }
            assert(str_views(parts@) =~= string_views(names@));
            text.append(join(&parts, ",").as_str());
        } else {
            assert(text@ =~= start + Seq::<char>::empty());
        }
        text.append("] predicate:[");
        let ghost before = text@;
        if let Some(predicate) = self.predicates() {
            text.append(predicate.text.as_str());
        } else {
            assert(text@ =~= before + Seq::<char>::empty());
        }
        text.append("]");
        let ghost summary = text@;
        if let Some(file_task_groups) = &self.file_task_groups {
            let ghost groups = shared_group_views(file_task_groups@);
            let mut task_count: usize = 0;
            for i in 0..file_task_groups.len()
                invariant
                    groups == shared_group_views(file_task_groups@),
                    all_tasks(groups).len() <= usize::MAX,
                    task_count == all_tasks(groups.take(i as int)).len(),
            {
                proof {
                    assert(groups.take(i + 1).drop_last() =~= groups.take(i as int));
                    lemma_all_tasks_prefix(groups, i + 1);
                }
                task_count = task_count + file_task_groups[i].len();
            }
            assert(groups.take(groups.len() as int) =~= groups);
            text.append(" task_groups:[");
            push_decimal(&mut text, file_task_groups.len());
            text.append("] tasks:[");
            push_decimal(&mut text, task_count);
            text.append("]");
            assert(text@ =~= summary + (" task_groups:["@ + decimal(groups.len()) + "] tasks:["@
                + decimal(all_tasks(groups).len()) + "]"@));
        } else {
            assert(text@ =~= summary + Seq::<char>::empty());
        }
        let ghost with_tasks = text@;
        if let Some(limit) = self.limit {
            text.append(" limit:[");
            push_decimal(&mut text, limit);
            text.append("]");
            assert(text@ =~= with_tasks + (" limit:["@ + decimal(limit as nat) + "]"@));
        } else {
            assert(text@ =~= with_tasks + Seq::<char>::empty());
        }
        text
    }
}

/// Makes every group shareable.
fn share_groups<D>(groups: Vec<Vec<FileScanTask<D>>>) -> (shared: Vec<Arc<[FileScanTask<D>]>>)
    ensures
        shared_group_views(shared@) == group_views(groups@),
{
    let ghost all = groups@;
    let mut shared: Vec<Arc<[FileScanTask<D>]>> = Vec::new();
    for group in it: groups
        invariant
            it.seq() == all,
            shared.len() == it.index(),
            forall|k: int| 0 <= k < it.index() ==> (#[trigger] shared@[k])@ == all[k]@,
    {
        shared.push(shared_slice(group));
    }
    assert(shared_group_views(shared@) =~= group_views(all));
    shared
}

} // verus!
