//! The scan node with one output partition per file scan task.
use tokio::runtime::Handle;
use vstd::prelude::*;

use crate::metadata::{first_predicate_text, FileScanTask};
use crate::physical_plan::bridge::{read_runtime, runtime_for, ReadRuntime};
use crate::physical_plan::display::{io_tag, io_tag_text, push_task_predicate};
use crate::plan::{
    properties_for, Boundedness, EmissionType, Partitioning, PlanError, PlanErrorView,
    PlanProperties,
};
use crate::physical_plan::row_limit::RowLimit;
use crate::schema::{names, names_of, ArrowSchemaRef};
use crate::text::{decimal, join, joined, push_decimal, str_views};

verus! {

/// A scan node that reads one [`FileScanTask`] per partition.
///
/// What it displays (projection, predicate) is derived from the output schema and the tasks
/// rather than stored. A limit bounds the rows of each partition on its own; bounding those of all
/// partitions together is left to the planner.
///
/// With a runtime handle attached, the files are read on that runtime and the batches are sent
/// back through a channel, so that network I/O does not compete with CPU-bound work.
#[derive(Debug)]
pub struct IcebergPartitionedScan<F, D> {
    tasks: Vec<FileScanTask<D>>,
    file_io: F,
    plan_properties: PlanProperties,
    limit: Option<usize>,
    io_handle: Option<Handle>,
}

/// How one partition is read.
#[derive(Debug)]
pub struct PartitionRead<'a, F, D> {
    /// The task to read.
    pub task: &'a FileScanTask<D>,
    /// What to read it through.
    pub file_io: &'a F,
    /// The schema of the batches.
    pub schema: &'a ArrowSchemaRef,
    /// Where to read it.
    pub runtime: ReadRuntime<'a>,
    /// The bound on the rows of this partition.
    pub row_limit: Option<RowLimit>,
}

/// Up to this many tasks are listed by their paths.
pub const MAX_LISTED_FILES: usize = 5;

/// The paths of the data files of `tasks`.
pub open spec fn task_paths<D>(tasks: Seq<FileScanTask<D>>) -> Seq<Seq<char>> {
    tasks.map_values(|task: FileScanTask<D>| task.data_file_path@)
}

/// The error for a partition that does not exist.
pub open spec fn missing_partition_text(partition: nat, task_count: nat) -> Seq<char> {
    "IcebergPartitionedScan: partition index "@ + decimal(partition)
        + " is out of bounds (total tasks: "@ + decimal(task_count) + ")"@
}

/// What a plan shows of the scan.
pub open spec fn display_text<D>(
    tasks: Seq<FileScanTask<D>>,
    column_names: Seq<Seq<char>>,
    io_handle: Option<Handle>,
) -> Seq<char> {
    let summary = "IcebergPartitionedScan"@ + io_tag_text(io_handle) + " projection:["@ + joined(
        column_names,
        ","@,
    ) + "] predicate:["@ + first_predicate_text(tasks) + "] file_count:["@ + decimal(
        tasks.len(),
    ) + "]"@;
    if tasks.len() <= MAX_LISTED_FILES {
        summary + " files:["@ + joined(task_paths(tasks), ", "@) + "]"@
    } else {
        summary
    }
}

impl<F: Clone, D> Clone for IcebergPartitionedScan<F, D> {
    fn clone(&self) -> (copy: Self)
        ensures
            copy.spec_tasks().len() == self.spec_tasks().len(),
            forall|i: int|
                0 <= i < self.spec_tasks().len() ==> (#[trigger] copy.spec_tasks()[i])@
                    == self.spec_tasks()[i]@,
            cloned(self.spec_file_io(), copy.spec_file_io()),
            copy.spec_properties() == self.spec_properties(),
            copy.spec_limit() == self.spec_limit(),
            copy.spec_io_handle() == self.spec_io_handle(),
    {
        proof {
            use_type_invariant(self);
        }
        let tasks = self.tasks.clone();
        assert forall|i: int| 0 <= i < self.tasks@.len() implies (#[trigger] tasks@[i])@
            == self.tasks@[i]@ by {
            assert(cloned(self.tasks@[i], tasks@[i]));
        }
        let schema = self.plan_properties.schema.clone();
        let plan_properties = Self::compute_properties(schema, tasks.len());
        IcebergPartitionedScan {
            tasks,
            file_io: self.file_io.clone(),
            plan_properties,
            limit: self.limit,
            io_handle: self.io_handle.clone(),
        }
    }
}

impl<F, D> IcebergPartitionedScan<F, D> {
    /// The tasks, one per partition.
    pub closed spec fn spec_tasks(&self) -> Seq<FileScanTask<D>> {
        self.tasks@
    }

    /// What the tasks are read through.
    pub closed spec fn spec_file_io(&self) -> F {
        self.file_io
    }

    /// What the planner is told.
    pub closed spec fn spec_properties(&self) -> PlanProperties {
        self.plan_properties
    }

    /// The limit on the rows of a partition, if any.
    pub closed spec fn spec_limit(&self) -> Option<usize> {
        self.limit
    }

    /// The runtime that was attached, if any.
    pub closed spec fn spec_io_handle(&self) -> Option<Handle> {
        self.io_handle
    }

    /// There are as many partitions as tasks.
    #[verifier::type_invariant]
    spec fn one_partition_per_task(&self) -> bool {
        self.plan_properties == properties_for(self.plan_properties.schema, self.tasks@.len())
    }

    pub fn new(
        tasks: Vec<FileScanTask<D>>,
        file_io: F,
        schema: ArrowSchemaRef,
        limit: Option<usize>,
    ) -> (scan: Self)
        ensures
            scan.spec_tasks() == tasks@,
            scan.spec_file_io() == file_io,
            scan.spec_properties() == properties_for(schema, tasks@.len()),
            scan.spec_limit() == limit,
            scan.spec_io_handle() is None,
    {
        let n_partitions: usize = tasks.len();
        let plan_properties = Self::compute_properties(schema, n_partitions);
        IcebergPartitionedScan { tasks, file_io, plan_properties, limit, io_handle: None }
    }

    /// Attaches a runtime to read the files on.
    pub fn with_io_handle(self, handle: Handle) -> (scan: Self)
        ensures
            scan.spec_io_handle() == Some(handle),
            scan.spec_tasks() == self.spec_tasks(),
            scan.spec_file_io() == self.spec_file_io(),
            scan.spec_properties() == self.spec_properties(),
            scan.spec_limit() == self.spec_limit(),
    {
        proof {
            use_type_invariant(&self);
        }
        IcebergPartitionedScan { io_handle: Some(handle), ..self }
    }

    pub fn tasks(&self) -> (tasks: &[FileScanTask<D>])
        ensures
            tasks@ == self.spec_tasks(),
    {
        self.tasks.as_slice()
    }

    pub fn file_io(&self) -> (file_io: &F)
        ensures
            *file_io == self.spec_file_io(),
    {
        &self.file_io
    }

    pub fn limit(&self) -> (limit: Option<usize>)
        ensures
            limit == self.spec_limit(),
    {
        self.limit
    }

    fn compute_properties(schema: ArrowSchemaRef, n_partitions: usize) -> (properties:
        PlanProperties)
        ensures
            properties == properties_for(schema, n_partitions as nat),
    {
        PlanProperties {
            schema,
            partitioning: Partitioning::UnknownPartitioning(n_partitions),
            emission_type: EmissionType::Incremental,
            boundedness: Boundedness::Bounded,
        }
    }

    pub fn name(&self) -> (name: &'static str)
        ensures
            name@ == "IcebergPartitionedScan"@,
    {
        "IcebergPartitionedScan"
    }

    pub fn properties(&self) -> (properties: &PlanProperties)
        ensures
            *properties == self.spec_properties(),
            *properties == properties_for(properties.schema, self.spec_tasks().len()),
    {
        proof {
            use_type_invariant(self);
        }
        &self.plan_properties
    }

    /// The schema of the batches.
    pub fn schema(&self) -> (schema: &ArrowSchemaRef)
        ensures
            *schema == self.spec_properties().schema,
    {
        &self.plan_properties.schema
    }

    /// How to read partition `partition`: its one task, on the attached runtime if there is one,
    /// and no more rows of it than the limit, if there is one, allows. It fails for exactly those
    /// indices that are not among the announced partitions.
    pub fn execute(&self, partition: usize) -> (read: Result<PartitionRead<'_, F, D>, PlanError>)
        ensures
            read is Ok <==> partition
                < self.spec_properties().partitioning.spec_partition_count(),
            read is Ok <==> partition < self.spec_tasks().len(),
            match read {
                Ok(r) => {
                    &&& *r.task == self.spec_tasks()[partition as int]
                    &&& *r.file_io == self.spec_file_io()
                    &&& *r.schema == self.spec_properties().schema
                    &&& r.runtime == runtime_for(self.spec_io_handle())
                    &&& r.row_limit == (match self.spec_limit() {
                        Some(limit) => Some(RowLimit { remaining: limit }),
                        None => None,
                    })
                },
                Err(e) => e@ == PlanErrorView::Internal(
                    missing_partition_text(partition as nat, self.spec_tasks().len()),
                ),
            },
    {
        proof {
            use_type_invariant(self);
        }
        if partition < self.tasks.len() {
            Ok(
                PartitionRead {
                    task: &self.tasks[partition],
                    file_io: &self.file_io,
                    schema: &self.plan_properties.schema,
                    runtime: read_runtime(&self.io_handle),
                    row_limit: match self.limit {
                        Some(limit) => Some(RowLimit::new(limit)),
                        None => None,
                    },
                },
            )
        } else {
            let mut text = String::from_str(self.name());
            text.append(": partition index ");
            push_decimal(&mut text, partition);
            text.append(" is out of bounds (total tasks: ");
            push_decimal(&mut text, self.tasks.len());
            text.append(")");
            proof {
                reveal_strlit("IcebergPartitionedScan");
                reveal_strlit(": partition index ");
                reveal_strlit("IcebergPartitionedScan: partition index ");
                assert("IcebergPartitionedScan"@ + ": partition index "@
                    =~= "IcebergPartitionedScan: partition index "@);
            }
            Err(PlanError::Internal(text))
        }
    }

    /// What a plan shows of the scan.
    pub fn fmt_as(&self) -> (text: String)
        ensures
            text@ == display_text(
                self.spec_tasks(),
                names_of(*self.spec_properties().schema),
                self.spec_io_handle(),
            ),
    {
        let mut text = String::from_str(self.name());
        text.append(io_tag(&self.io_handle));
        text.append(" projection:[");
        let column_names = names(&self.plan_properties.schema);
        text.append(join(&column_names, ",").as_str());
        text.append("] predicate:[");
        if self.tasks.len() > 0 {
            push_task_predicate(&mut text, Some(&self.tasks[0]));
        } else {
            push_task_predicate::<D>(&mut text, None);
        }
        text.append("] file_count:[");
        push_decimal(&mut text, self.tasks.len());
        text.append("]");
        if self.tasks.len() <= MAX_LISTED_FILES {
            let mut paths: Vec<&str> = Vec::new();
            for i in 0..self.tasks.len()
                invariant
                    paths.len() == i,
                    forall|k: int|
                        0 <= k < i ==> (#[trigger] paths@[k])@ == self.tasks@[k].data_file_path@,
            {
                paths.push(self.tasks[i].data_file_path());
            }
            assert(str_views(paths@) =~= task_paths(self.tasks@));
            text.append(" files:[");
            text.append(join(&paths, ", ").as_str());
            text.append("]");
        }
        text
    }
}

} // verus!
