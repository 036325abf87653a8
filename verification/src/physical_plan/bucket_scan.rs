//! The scan node with one output partition per populated bucket.
use tokio::runtime::Handle;
use vstd::pervasive::unreached;
use vstd::prelude::*;

use crate::metadata::{
    all_tasks, first_predicate_text, lemma_all_tasks_prefix, FileScanTask,
};
use crate::physical_plan::bridge::{read_runtime, runtime_for, ReadRuntime};
use crate::physical_plan::display::{io_tag, io_tag_text, push_task_predicate};
use crate::plan::{
    Boundedness, Column, EmissionType, Partitioning, PlanError, PlanErrorView, PlanProperties,
};
use crate::schema::{names, names_of, ArrowSchemaRef};
use crate::text::{decimal, join, joined, push_decimal};

verus! {

/// A scan node that maps Iceberg buckets to output partitions.
///
/// Each output partition is one group of tasks that share a bucket; partition `i` reads all files
/// of group `i`, one after the other. A group may be empty: its partition has no rows.
///
/// It reports hash partitioning on the bucketed column, so that the planner need not shuffle rows
/// for aggregations and joins on that column.
///
/// With a runtime handle attached, the files are read on that runtime and the batches are sent
/// back through a channel.
#[derive(Debug)]
pub struct IcebergBucketScan<F, D> {
    tasks_by_bucket: Vec<Vec<FileScanTask<D>>>,
    file_io: F,
    plan_properties: PlanProperties,
    io_handle: Option<Handle>,
}

/// How one partition is read.
#[derive(Debug)]
pub enum BucketRead<'a, F, D> {
    /// There is nothing to read: a stream of no batches of this schema.
    Empty { schema: &'a ArrowSchemaRef },
    /// All of `tasks`, in order, through `file_io`.
    Tasks {
        tasks: &'a Vec<FileScanTask<D>>,
        file_io: &'a F,
        schema: &'a ArrowSchemaRef,
        runtime: ReadRuntime<'a>,
    },
}

/// The tasks of each group.
pub open spec fn group_views<D>(groups: Seq<Vec<FileScanTask<D>>>) -> Seq<Seq<FileScanTask<D>>> {
    groups.map_values(|group: Vec<FileScanTask<D>>| group@)
}

/// Hash partitioning on the one column `source_col` into `bucket_count` partitions.
pub open spec fn hashed_on(
    partitioning: Partitioning,
    source_col: Column,
    bucket_count: nat,
) -> bool {
    match partitioning {
        Partitioning::Hash(columns, count) => columns@ == seq![source_col] && count == bucket_count,
        Partitioning::UnknownPartitioning(_) => false,
    }
}

/// The error for a partition that does not exist.
pub open spec fn missing_partition_text(partition: nat, bucket_count: nat) -> Seq<char> {
    "IcebergBucketScan: partition index "@ + decimal(partition) + " out of bounds (bucket count: "@
        + decimal(bucket_count) + ")"@
}

/// What a plan shows of the scan.
pub open spec fn display_text<D>(
    groups: Seq<Seq<FileScanTask<D>>>,
    column_names: Seq<Seq<char>>,
    io_handle: Option<Handle>,
) -> Seq<char> {
    "IcebergBucketScan"@ + io_tag_text(io_handle) + " projection:["@ + joined(column_names, ","@)
        + "] predicate:["@ + first_predicate_text(all_tasks(groups)) + "] buckets:["@
        + decimal(groups.len()) + "] total_files:["@ + decimal(all_tasks(groups).len()) + "]"@
}

impl<F: Clone, D> Clone for IcebergBucketScan<F, D> {
    fn clone(&self) -> (copy: Self)
        ensures
            copy.spec_tasks_by_bucket().len() == self.spec_tasks_by_bucket().len(),
            forall|i: int|
                0 <= i < self.spec_tasks_by_bucket().len() ==> (
                #[trigger] copy.spec_tasks_by_bucket()[i]).len()
                    == self.spec_tasks_by_bucket()[i].len(),
            forall|i: int, j: int|
                0 <= i < self.spec_tasks_by_bucket().len() && 0 <= j
                    < self.spec_tasks_by_bucket()[i].len() ==> (
                #[trigger] copy.spec_tasks_by_bucket()[i][j])@
                    == self.spec_tasks_by_bucket()[i][j]@,
            cloned(self.spec_file_io(), copy.spec_file_io()),
            copy.spec_properties().schema == self.spec_properties().schema,
            copy.spec_source_col() == self.spec_source_col(),
            hashed_on(
                copy.spec_properties().partitioning,
                self.spec_source_col(),
                self.spec_tasks_by_bucket().len(),
            ),
            copy.spec_properties().emission_type == self.spec_properties().emission_type,
            copy.spec_properties().boundedness == self.spec_properties().boundedness,
            copy.spec_io_handle() == self.spec_io_handle(),
    {
        proof {
            use_type_invariant(self);
        }
        let mut tasks_by_bucket: Vec<Vec<FileScanTask<D>>> = Vec::new();
        for i in 0..self.tasks_by_bucket.len()
            invariant
                tasks_by_bucket.len() == i,
                forall|k: int|
                    0 <= k < i ==> (#[trigger] tasks_by_bucket@[k])@.len()
                        == self.tasks_by_bucket@[k]@.len(),
                forall|k: int, j: int|
                    0 <= k < i && 0 <= j < self.tasks_by_bucket@[k]@.len() ==> (
                    #[trigger] tasks_by_bucket@[k]@[j])@ == self.tasks_by_bucket@[k]@[j]@,
        {
            let group = self.tasks_by_bucket[i].clone();
            assert forall|j: int| 0 <= j < self.tasks_by_bucket@[i as int]@.len() implies (
            #[trigger] group@[j])@ == self.tasks_by_bucket@[i as int]@[j]@ by {
                assert(cloned(self.tasks_by_bucket@[i as int]@[j], group@[j]));
            }
            tasks_by_bucket.push(group);
        }
        let source_col = match &self.plan_properties.partitioning {
            Partitioning::Hash(columns, _) => Column {
                name: columns[0].name.clone(),
                index: columns[0].index,
            },
            Partitioning::UnknownPartitioning(_) => unreached(),
        };
        let copy = IcebergBucketScan::new(
            tasks_by_bucket,
            self.file_io.clone(),
            self.plan_properties.schema.clone(),
            source_col,
        );
        match &self.io_handle {
            Some(handle) => copy.with_io_handle(handle.clone()),
            None => copy,
        }
    }
}

impl<F, D> IcebergBucketScan<F, D> {
    /// The groups of tasks, one per partition.
    pub closed spec fn spec_tasks_by_bucket(&self) -> Seq<Seq<FileScanTask<D>>> {
        group_views(self.tasks_by_bucket@)
    }

    /// What the tasks are read through.
    pub closed spec fn spec_file_io(&self) -> F {
        self.file_io
    }

    /// What the planner is told.
    pub closed spec fn spec_properties(&self) -> PlanProperties {
        self.plan_properties
    }

    /// The bucketed column.
    pub closed spec fn spec_source_col(&self) -> Column {
        self.plan_properties.partitioning->Hash_0@[0]
    }

    /// The runtime that was attached, if any.
    pub closed spec fn spec_io_handle(&self) -> Option<Handle> {
        self.io_handle
    }

    /// The rows are hashed on the bucketed column, into as many partitions as there are groups.
    #[verifier::type_invariant]
    spec fn one_partition_per_group(&self) -> bool {
        &&& hashed_on(
            self.plan_properties.partitioning,
            self.spec_source_col(),
            self.tasks_by_bucket@.len(),
        )
        &&& self.plan_properties.emission_type == EmissionType::Incremental
        &&& self.plan_properties.boundedness == Boundedness::Bounded
    }

    pub fn new(
        tasks_by_bucket: Vec<Vec<FileScanTask<D>>>,
        file_io: F,
        schema: ArrowSchemaRef,
        source_col_expr: Column,
    ) -> (scan: Self)
        ensures
            scan.spec_tasks_by_bucket() == group_views(tasks_by_bucket@),
            scan.spec_file_io() == file_io,
            scan.spec_source_col() == source_col_expr,
            scan.spec_properties().schema == schema,
            hashed_on(
                scan.spec_properties().partitioning,
                source_col_expr,
                tasks_by_bucket@.len(),
            ),
            scan.spec_properties().emission_type == EmissionType::Incremental,
            scan.spec_properties().boundedness == Boundedness::Bounded,
            scan.spec_io_handle() is None,
    {
        let bucket_count: usize = tasks_by_bucket.len();
        let mut columns: Vec<Column> = Vec::new();
        columns.push(source_col_expr);
        assert(columns@ =~= seq![source_col_expr]);
        let plan_properties = PlanProperties {
            schema,
            partitioning: Partitioning::Hash(columns, bucket_count),
            emission_type: EmissionType::Incremental,
            boundedness: Boundedness::Bounded,
        };
        IcebergBucketScan { tasks_by_bucket, file_io, plan_properties, io_handle: None }
    }

    /// Attaches a runtime to read the files on.
    pub fn with_io_handle(self, handle: Handle) -> (scan: Self)
        ensures
            scan.spec_io_handle() == Some(handle),
            scan.spec_tasks_by_bucket() == self.spec_tasks_by_bucket(),
            scan.spec_file_io() == self.spec_file_io(),
            scan.spec_source_col() == self.spec_source_col(),
            scan.spec_properties() == self.spec_properties(),
    {
        proof {
            use_type_invariant(&self);
        }
        IcebergBucketScan { io_handle: Some(handle), ..self }
    }

    pub fn tasks_by_bucket(&self) -> (groups: &[Vec<FileScanTask<D>>])
        ensures
            group_views(groups@) == self.spec_tasks_by_bucket(),
    {
        self.tasks_by_bucket.as_slice()
    }

    pub fn file_io(&self) -> (file_io: &F)
        ensures
            *file_io == self.spec_file_io(),
    {
        &self.file_io
    }

    pub fn name(&self) -> (name: &'static str)
        ensures
            name@ == "IcebergBucketScan"@,
    {
        "IcebergBucketScan"
    }

    pub fn properties(&self) -> (properties: &PlanProperties)
        ensures
            *properties == self.spec_properties(),
            hashed_on(
                properties.partitioning,
                self.spec_source_col(),
                self.spec_tasks_by_bucket().len(),
            ),
            properties.emission_type == EmissionType::Incremental,
            properties.boundedness == Boundedness::Bounded,
    {
        proof {
            use_type_invariant(self);
        }
        &self.plan_properties
    }

    /// The schema of the batches.
    pub fn schema(&self) -> (schema: &ArrowSchemaRef)
        ensures
            *schema == self.spec_properties().schema,
    {
        &self.plan_properties.schema
    }

    /// How to read partition `partition`: all tasks of its group, on the attached runtime if there
    /// is one, or nothing at all if the group is empty. It fails for exactly those indices that
    /// are not among the announced partitions.
    pub fn execute(&self, partition: usize) -> (read: Result<BucketRead<'_, F, D>, PlanError>)
        ensures
            read is Ok <==> partition
                < self.spec_properties().partitioning.spec_partition_count(),
            read is Ok <==> partition < self.spec_tasks_by_bucket().len(),
            match read {
                Ok(BucketRead::Empty { schema }) => {
                    &&& self.spec_tasks_by_bucket()[partition as int].len() == 0
                    &&& *schema == self.spec_properties().schema
                },
                Ok(BucketRead::Tasks { tasks, file_io, schema, runtime }) => {
                    &&& tasks@ == self.spec_tasks_by_bucket()[partition as int]
                    &&& tasks@.len() > 0
                    &&& *file_io == self.spec_file_io()
                    &&& *schema == self.spec_properties().schema
                    &&& runtime == runtime_for(self.spec_io_handle())
                },
                Err(e) => e@ == PlanErrorView::Internal(
                    missing_partition_text(partition as nat, self.spec_tasks_by_bucket().len()),
                ),
            },
    {
        proof {
            use_type_invariant(self);
        }
        if partition < self.tasks_by_bucket.len() {
            let tasks = &self.tasks_by_bucket[partition];
            let schema = &self.plan_properties.schema;
            if tasks.len() == 0 {
                Ok(BucketRead::Empty { schema })
            } else {
                Ok(
                    BucketRead::Tasks {
                        tasks,
                        file_io: &self.file_io,
                        schema,
                        runtime: read_runtime(&self.io_handle),
                    },
                )
            }
        } else {
            let mut text = String::from_str("IcebergBucketScan: partition index ");
            push_decimal(&mut text, partition);
            text.append(" out of bounds (bucket count: ");
            push_decimal(&mut text, self.tasks_by_bucket.len());
            text.append(")");
            Err(PlanError::Internal(text))
        }
    }

    /// The number of tasks of all groups together.
    pub fn total_files(&self) -> (total: usize)
        requires
            all_tasks(self.spec_tasks_by_bucket()).len() <= usize::MAX,
        ensures
            total == all_tasks(self.spec_tasks_by_bucket()).len(),
    {
        let ghost groups = self.spec_tasks_by_bucket();
        let mut total: usize = 0;
        for i in 0..self.tasks_by_bucket.len()
            invariant
                groups == self.spec_tasks_by_bucket(),
                groups == group_views(self.tasks_by_bucket@),
                all_tasks(groups).len() <= usize::MAX,
                total == all_tasks(groups.take(i as int)).len(),
        {
            proof {
                assert(groups.take(i + 1).drop_last() =~= groups.take(i as int));
                lemma_all_tasks_prefix(groups, i + 1);
            }
            total = total + self.tasks_by_bucket[i].len();
        }
        assert(groups.take(groups.len() as int) =~= groups);
        total
    }

    /// What a plan shows of the scan.
    pub fn fmt_as(&self) -> (text: String)
        requires
            all_tasks(self.spec_tasks_by_bucket()).len() <= usize::MAX,
        ensures
            text@ == display_text(
                self.spec_tasks_by_bucket(),
                names_of(*self.spec_properties().schema),
                self.spec_io_handle(),
            ),
    {
        let ghost groups = self.spec_tasks_by_bucket();
        let mut text = String::from_str(self.name());
        text.append(io_tag(&self.io_handle));
        text.append(" projection:[");
        let column_names = names(&self.plan_properties.schema);
        text.append(join(&column_names, ",").as_str());
        text.append("] predicate:[");
        let mut first: Option<&FileScanTask<D>> = None;
        for i in 0..self.tasks_by_bucket.len()
            invariant
                groups == group_views(self.tasks_by_bucket@),
                match first {
                    Some(task) => all_tasks(groups.take(i as int)).len() > 0 && *task == all_tasks(
                        groups.take(i as int),
                    )[0],
                    None => all_tasks(groups.take(i as int)).len() == 0,
                },
        {
            assert(groups.take(i + 1).drop_last() =~= groups.take(i as int));
            if first.is_none() && self.tasks_by_bucket[i].len() > 0 {
                first = Some(&self.tasks_by_bucket[i][0]);
            }
        }
        assert(groups.take(groups.len() as int) =~= groups);
        push_task_predicate(&mut text, first);
        text.append("] buckets:[");
        push_decimal(&mut text, self.tasks_by_bucket.len());
        text.append("] total_files:[");
        push_decimal(&mut text, self.total_files());
        text.append("]");
        text
    }
}

} // verus!
