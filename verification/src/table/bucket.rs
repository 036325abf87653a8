//! The provider of scans with one partition per populated bucket.
use std::sync::Arc;

use datafusion::arrow::datatypes::Schema;
use tokio::runtime::Handle;
use vstd::prelude::*;

use crate::metadata::{
    FileScanTask, NamespaceIdent, PartitionSpec, Predicate, TableIdent, TableSchema,
};
use crate::physical_plan::bucket_scan::{hashed_on, IcebergBucketScan};
use crate::plan::{
    inexact_pushdown, Boundedness, Column, EmissionType, FilterPushDown, PlanError, PlanErrorView,
};
use crate::schema::ArrowSchemaRef;
use crate::table::bucket_groups::{
    bucket_field, bucket_groups, detect_bucket_field, group_tasks_by_bucket,
};
use crate::table::fetch::{
    fetch_error, fetch_error_view, is_output_schema, output_names, project_schema,
    projection_in_range, select_columns, ColumnSelection, FetchError, FetchRequest, ScanError, ScanErrorView,
};
use crate::text::string_views;

verus! {

/// A table whose scans expose its buckets as partitions, so that the planner need not shuffle
/// rows for aggregations and joins on the bucketed column.
///
/// All files of one bucket are read within a single partition, and the plan reports hash
/// partitioning on the bucketed column. A scan fails if the table has no bucket field or if the
/// bucketed source column was projected out.
#[derive(Debug)]
pub struct IcebergBucketTableProvider {
    table_ident: TableIdent,
    schema: ArrowSchemaRef,
    io_handle: Option<Handle>,
}

/// The file scan tasks of a table, what to read them through, and the metadata that they were
/// planned with.
#[derive(Debug)]
pub struct BucketTableTasks<F, D> {
    pub file_io: F,
    pub tasks: Vec<FileScanTask<D>>,
    pub partition_spec: Arc<PartitionSpec>,
    pub table_schema: Arc<TableSchema>,
}

/// The error for a table that cannot be read by bucket.
pub open spec fn no_bucket_text() -> Seq<char> {
    "IcebergBucketTableProvider: table has no bucket partition field, or the bucket source column was projected out"@
}

impl Clone for IcebergBucketTableProvider {
    fn clone(&self) -> (copy: Self)
        ensures
            copy.spec_table_ident()@ == self.spec_table_ident()@,
            copy.spec_schema() == self.spec_schema(),
            copy.spec_io_handle() == self.spec_io_handle(),
    {
        IcebergBucketTableProvider {
            table_ident: self.table_ident.clone(),
            schema: self.schema.clone(),
            io_handle: self.io_handle.clone(),
        }
    }
}

impl IcebergBucketTableProvider {
    /// The table.
    pub closed spec fn spec_table_ident(&self) -> TableIdent {
        self.table_ident
    }

    /// The schema of the table when the provider was made.
    pub closed spec fn spec_schema(&self) -> ArrowSchemaRef {
        self.schema
    }

    /// The runtime that was attached, if any.
    pub closed spec fn spec_io_handle(&self) -> Option<Handle> {
        self.io_handle
    }

    /// Makes the provider of the table `name` in `namespace`, given what loading its schema has
    /// brought. The schema is kept for planning; the table is loaded anew for every scan.
    pub fn try_new<E>(
        namespace: NamespaceIdent,
        name: String,
        loaded: Result<Schema, E>,
    ) -> (provider: Result<Self, E>)
        ensures
            match loaded {
                Ok(schema) => {
                    &&& provider matches Ok(p)
                    &&& p.spec_table_ident() == (TableIdent { namespace, name })
                    &&& *p.spec_schema() == schema
                    &&& p.spec_io_handle() is None
                },
                Err(e) => provider == Err::<Self, E>(e),
            },
    {
        let table_ident = TableIdent::new(namespace, name);
        match loaded {
            Ok(schema) => Ok(
                IcebergBucketTableProvider { table_ident, schema: Arc::new(schema), io_handle: None },
            ),
            Err(e) => Err(e),
        }
    }

    /// Attaches a runtime: tasks are fetched on it, and every scan reads its files on it.
    pub fn with_io_handle(self, handle: Handle) -> (provider: Self)
        ensures
            provider.spec_io_handle() == Some(handle),
            provider.spec_table_ident() == self.spec_table_ident(),
            provider.spec_schema() == self.spec_schema(),
    {
        IcebergBucketTableProvider { io_handle: Some(handle), ..self }
    }

    pub fn table_ident(&self) -> (ident: &TableIdent)
        ensures
            *ident == self.spec_table_ident(),
    {
        &self.table_ident
    }

    pub fn schema(&self) -> (schema: ArrowSchemaRef)
        ensures
            schema == self.spec_schema(),
    {
        self.schema.clone()
    }

    /// What to fetch for a scan.
    pub fn fetch_request<P>(
        &self,
        projection: Option<&Vec<usize>>,
        predicate: Option<Predicate<P>>,
    ) -> (request: FetchRequest<'_, P>)
        requires
            projection_in_range(self.spec_schema(), projection),
        ensures
            *request.table_ident == self.spec_table_ident(),
            match request.columns {
                ColumnSelection::Named(names) => projection is Some && string_views(names@)
                    == output_names(self.spec_schema(), projection),
                ColumnSelection::All => projection is None,
            },
            request.filter == predicate,
            match request.runtime {
                Some(handle) => self.spec_io_handle() == Some(*handle),
                None => self.spec_io_handle() is None,
            },
    {
        FetchRequest {
            table_ident: &self.table_ident,
            columns: select_columns(&self.schema, projection),
            filter: predicate,
            runtime: self.io_handle.as_ref(),
        }
    }

    /// The scan of what was fetched: the tasks of every populated bucket are a partition of their
    /// own, and rows are hashed on the bucketed column.
    pub fn scan<F, D, E>(
        &self,
        projection: Option<&Vec<usize>>,
        fetched: Result<BucketTableTasks<F, D>, FetchError<E>>,
    ) -> (scan: Result<IcebergBucketScan<F, D>, ScanError<E>>)
        requires
            projection_in_range(self.spec_schema(), projection),
        ensures
            match fetched {
                Ok(fetched) => match bucket_field(
                    *fetched.partition_spec,
                    *fetched.table_schema,
                    output_names(self.spec_schema(), projection),
                ) {
                    Some(info) => {
                        &&& scan matches Ok(scan)
                        &&& scan.spec_tasks_by_bucket() == bucket_groups(
                            fetched.tasks@,
                            info.field_idx,
                            info.bucket_count as nat,
                        )
                        &&& scan.spec_file_io() == fetched.file_io
                        &&& is_output_schema(
                            scan.spec_properties().schema,
                            self.spec_schema(),
                            projection,
                        )
                        &&& scan.spec_source_col().name@ == info.source_col_name
                        &&& scan.spec_source_col().index == info.source_col_idx
                        &&& hashed_on(
                            scan.spec_properties().partitioning,
                            scan.spec_source_col(),
                            scan.spec_tasks_by_bucket().len(),
                        )
                        &&& scan.spec_properties().emission_type == EmissionType::Incremental
                        &&& scan.spec_properties().boundedness == Boundedness::Bounded
                        &&& scan.spec_io_handle() == self.spec_io_handle()
                    },
                    None => scan matches Err(error) && error@ == ScanErrorView::<E>::Plan(
                        PlanErrorView::Plan(no_bucket_text()),
                    ),
                },
                Err(e) => scan matches Err(error) && error@ == fetch_error_view(
                    "IcebergBucketScan"@,
                    e,
                ),
            },
    {
        let fetched = match fetched {
            Ok(fetched) => fetched,
            Err(e) => {
                return Err(fetch_error("IcebergBucketScan", e));
            },
        };
        let output_schema = match project_schema(&self.schema, projection) {
            Ok(output_schema) => output_schema,
            Err(e) => {
                return Err(ScanError::Plan(e));
            },
        };
        let info = match detect_bucket_field(
            &fetched.partition_spec,
            &fetched.table_schema,
            &output_schema,
        ) {
            Some(info) => info,
            None => {
                return Err(
                    ScanError::Plan(
                        PlanError::Plan(
                            String::from_str(
                                "IcebergBucketTableProvider: table has no bucket partition field, or the bucket source column was projected out",
                            ),
                        ),
                    ),
                );
            },
        };
        let source_col = Column::new(info.source_col_name.clone(), info.source_col_idx);
        let tasks_by_bucket = group_tasks_by_bucket(fetched.tasks, &info);
        let scan = IcebergBucketScan::new(
            tasks_by_bucket,
            fetched.file_io,
            output_schema,
            source_col,
        );
        match &self.io_handle {
            Some(handle) => Ok(scan.with_io_handle(handle.clone())),
            None => Ok(scan),
        }
    }

    /// Every filter is a hint to the scan; the planner applies it again.
    pub fn supports_filters_pushdown<X>(&self, filters: &[X]) -> (pushdown: Vec<FilterPushDown>)
        ensures
            pushdown@ == Seq::new(filters@.len(), |i: int| FilterPushDown::Inexact),
    {
        inexact_pushdown(filters.len())
    }
}

} // verus!
