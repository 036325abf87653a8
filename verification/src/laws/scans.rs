//! Laws of scan nodes: what they are made of and what the planner is told.
use std::sync::Arc;

use tokio::runtime::Handle;
use vstd::prelude::*;

use crate::metadata::{
    first_predicate_text, FileScanTask, NamespaceIdent, TableIdent,
};
use crate::physical_plan::bridge::{runtime_for, ReadRuntime};
use crate::physical_plan::bucket_scan::{self, group_views, hashed_on};
use crate::physical_plan::display::io_tag_text;
use crate::physical_plan::partitioned_scan::{self, task_paths};
use crate::physical_plan::scan::{
    self, leaf_text, optional_group_views, partition_count_of, shared_group_views,
};
use crate::plan::{
    properties_for, Boundedness, Column, EmissionType, Partitioning, PlanError, PlanErrorView,
};
use crate::schema::ArrowSchemaRef;
use crate::table::bucket::no_bucket_text;
use crate::table::fetch::{ScanError, ScanErrorView};
use crate::table::partitioned::write_text;
use crate::text::decimal;

verus! {

/// A list of groups has the tasks of each group at its place, shared or not.
pub proof fn lemma_group_views<D>(
    groups: Seq<Vec<FileScanTask<D>>>,
    shared: Seq<Arc<[FileScanTask<D>]>>,
    optional: Option<Vec<Arc<[FileScanTask<D>]>>>,
)
    ensures
        group_views(groups).len() == groups.len(),
        forall|g: int| 0 <= g < groups.len() ==> #[trigger] group_views(groups)[g] == groups[g]@,
        shared_group_views(shared).len() == shared.len(),
        forall|g: int|
            0 <= g < shared.len() ==> #[trigger] shared_group_views(shared)[g] == shared[g]@,
        match optional {
            Some(kept) => {
                &&& optional_group_views(optional) matches Some(views)
                &&& views.len() == kept@.len()
                &&& forall|g: int| 0 <= g < kept@.len() ==> #[trigger] views[g] == kept@[g]@
            },
            None => optional_group_views(optional) is None,
        },
{
}

/// A scan with planned groups has one partition per group, and one without has a single one.
pub proof fn lemma_partition_count<D>(
    groups: Seq<Seq<FileScanTask<D>>>,
    group: Seq<FileScanTask<D>>,
)
    ensures
        partition_count_of(None::<Seq<Seq<FileScanTask<D>>>>) == 1,
        partition_count_of(Some(Seq::<Seq<FileScanTask<D>>>::empty())) == 0,
        partition_count_of(Some(groups)) == groups.len(),
        partition_count_of(Some(groups.push(group))) == partition_count_of(Some(groups)) + 1,
{
}

/// The planner is told the schema and the number of partitions as they are, and that the batches
/// come as they are read and come to an end.
pub proof fn lemma_properties(schema: ArrowSchemaRef, n: nat)
    requires
        n <= usize::MAX,
    ensures
        properties_for(schema, n).schema == schema,
        properties_for(schema, n).partitioning.spec_partition_count() == n,
        properties_for(schema, n).partitioning is UnknownPartitioning,
        properties_for(schema, n).emission_type == EmissionType::Incremental,
        properties_for(schema, n).boundedness == Boundedness::Bounded,
{
}

/// Both ways of spreading rows count their partitions, and hash partitioning is on one column.
pub proof fn lemma_partitioning(n: usize, columns: Vec<Column>, column: Column, count: nat)
    ensures
        Partitioning::UnknownPartitioning(n).spec_partition_count() == n,
        Partitioning::Hash(columns, n).spec_partition_count() == n,
        !hashed_on(Partitioning::UnknownPartitioning(n), column, count),
        hashed_on(Partitioning::Hash(columns, n), column, count) <==> columns@.len() == 1
            && columns@[0] == column && n == count,
{
    if columns@.len() == 1 && columns@[0] == column {
        assert(columns@ =~= seq![column]);
    }
}

/// Files are read on the attached runtime, through a channel of the agreed capacity, or on the
/// caller's where none is attached; a plan shows which.
pub proof fn lemma_runtime(handle: Handle)
    ensures
        runtime_for(Some(handle)) matches ReadRuntime::Io { handle: on, channel_capacity } && *on
            == handle && channel_capacity == 32,
        runtime_for(None) is Caller,
        io_tag_text(Some(handle)) == " [io-runtime]"@,
        io_tag_text(None) == Seq::<char>::empty(),
{
}

/// A task says all that it holds, and so does what names a table.
pub proof fn lemma_views<D>(task: FileScanTask<D>, ident: TableIdent, namespace: NamespaceIdent)
    ensures
        task@.data_file_path == task.data_file_path@,
        task@.start == task.start,
        task@.length == task.length,
        match task.predicate {
            Some(predicate) => task@.predicate == Some(predicate.text@),
            None => task@.predicate is None,
        },
        match task.partition {
            Some(tuple) => task@.partition == Some(tuple.fields@),
            None => task@.partition is None,
        },
        task@.details == *task.details,
        namespace@.len() == namespace.levels@.len(),
        forall|i: int|
            0 <= i < namespace.levels@.len() ==> #[trigger] namespace@[i] == namespace.levels@[i]@,
        ident@.0 == ident.namespace@,
        ident@.1 == ident.name@,
{
}

/// An error keeps its kind and its text.
pub proof fn lemma_error_views<E>(text: String, source: E, plan: PlanError)
    ensures
        PlanError::Internal(text)@ == PlanErrorView::Internal(text@),
        PlanError::Plan(text)@ == PlanErrorView::Plan(text@),
        PlanError::FeatureUnsupported(text)@ == PlanErrorView::FeatureUnsupported(text@),
        ScanError::Source(source)@ == ScanErrorView::Source(source),
        ScanError::<E>::Plan(plan)@ == ScanErrorView::<E>::Plan(plan@),
{
}

/// What the errors say: they name the partition that was asked for and how many there are.
pub proof fn lemma_error_texts(partition: nat, count: nat)
    ensures
        scan::missing_partition_text(partition, count) == "IcebergTableScan partition "@ + decimal(
            partition,
        ) + " does not exist; scan has "@ + decimal(count) + " partitions"@,
        partitioned_scan::missing_partition_text(partition, count)
            == "IcebergPartitionedScan: partition index "@ + decimal(partition)
            + " is out of bounds (total tasks: "@ + decimal(count) + ")"@,
        bucket_scan::missing_partition_text(partition, count)
            == "IcebergBucketScan: partition index "@ + decimal(partition)
            + " out of bounds (bucket count: "@ + decimal(count) + ")"@,
        leaf_text() == "IcebergTableScan is a leaf node and cannot have children"@,
        write_text()
            == "IcebergPartitionedTableProvider does not support writes; use IcebergTableProvider instead"@,
        no_bucket_text()
            == "IcebergBucketTableProvider: table has no bucket partition field, or the bucket source column was projected out"@,
{
}

/// The filter of a scan is shown by the text of that of its first task, and nothing is shown where
/// there is no task or it has no filter; paths are shown in the order of the tasks.
pub proof fn lemma_task_texts<D>(tasks: Seq<FileScanTask<D>>)
    ensures
        tasks.len() == 0 ==> first_predicate_text(tasks) == Seq::<char>::empty(),
        tasks.len() > 0 ==> match tasks[0].predicate {
            Some(predicate) => first_predicate_text(tasks) == predicate.text@,
            None => first_predicate_text(tasks) == Seq::<char>::empty(),
        },
        task_paths(tasks).len() == tasks.len(),
        forall|i: int|
            0 <= i < tasks.len() ==> #[trigger] task_paths(tasks)[i] == tasks[i].data_file_path@,
{
}

} // verus!
