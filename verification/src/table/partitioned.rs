//! The provider of scans with one partition per data file.
use std::sync::Arc;

use datafusion::arrow::datatypes::Schema;
use tokio::runtime::Handle;
use vstd::prelude::*;

use crate::metadata::{FileScanTask, NamespaceIdent, Predicate, TableIdent};
use crate::physical_plan::partitioned_scan::IcebergPartitionedScan;
use crate::plan::{inexact_pushdown, properties_for, FilterPushDown, PlanError, PlanErrorView};
use crate::schema::ArrowSchemaRef;
use crate::table::fetch::{
    fetch_error, fetch_error_view, is_output_schema, output_names, project_schema,
    projection_in_range, select_columns, ColumnSelection, FetchError, FetchRequest, ScanError,
};
use crate::text::string_views;

verus! {

/// A table whose scans read one data file per partition.
#[derive(Debug)]
pub struct IcebergPartitionedTableProvider {
    table_ident: TableIdent,
    schema: ArrowSchemaRef,
    io_handle: Option<Handle>,
}

/// The file scan tasks of a table, and what to read them through.
#[derive(Debug)]
pub struct TableTasks<F, D> {
    pub file_io: F,
    pub tasks: Vec<FileScanTask<D>>,
}

/// The error for a write.
pub open spec fn write_text() -> Seq<char> {
    "IcebergPartitionedTableProvider does not support writes; use IcebergTableProvider instead"@
}

impl Clone for IcebergPartitionedTableProvider {
    fn clone(&self) -> (copy: Self)
        ensures
            copy.spec_table_ident()@ == self.spec_table_ident()@,
            copy.spec_schema() == self.spec_schema(),
            copy.spec_io_handle() == self.spec_io_handle(),
    {
        IcebergPartitionedTableProvider {
            table_ident: self.table_ident.clone(),
            schema: self.schema.clone(),
            io_handle: self.io_handle.clone(),
        }
    }
}

impl IcebergPartitionedTableProvider {
    /// The table.
    pub closed spec fn spec_table_ident(&self) -> TableIdent {
        self.table_ident
    }

    /// The schema of the table when the provider was made.
    pub closed spec fn spec_schema(&self) -> ArrowSchemaRef {
        self.schema
    }

    /// The runtime that was attached, if any.
    pub closed spec fn spec_io_handle(&self) -> Option<Handle> {
        self.io_handle
    }

    /// Makes the provider of the table `name` in `namespace`, given what loading its schema has
    /// brought. The schema is kept for planning; the table is loaded anew for every scan.
    pub fn try_new<E>(
        namespace: NamespaceIdent,
        name: String,
        loaded: Result<Schema, E>,
    ) -> (provider: Result<Self, E>)
        ensures
            match loaded {
                Ok(schema) => {
                    &&& provider matches Ok(p)
                    &&& p.spec_table_ident() == (TableIdent { namespace, name })
                    &&& *p.spec_schema() == schema
                    &&& p.spec_io_handle() is None
                },
                Err(e) => provider == Err::<Self, E>(e),
            },
    {
        let table_ident = TableIdent::new(namespace, name);
        match loaded {
            Ok(schema) => Ok(
                IcebergPartitionedTableProvider {
                    table_ident,
                    schema: Arc::new(schema),
                    io_handle: None,
                },
            ),
            Err(e) => Err(e),
        }
    }

    /// Attaches a runtime: tasks are fetched on it, and every scan reads its files on it.
    pub fn with_io_handle(self, handle: Handle) -> (provider: Self)
        ensures
            provider.spec_io_handle() == Some(handle),
            provider.spec_table_ident() == self.spec_table_ident(),
            provider.spec_schema() == self.spec_schema(),
    {
        IcebergPartitionedTableProvider { io_handle: Some(handle), ..self }
    }

    pub fn table_ident(&self) -> (ident: &TableIdent)
        ensures
            *ident == self.spec_table_ident(),
    {
        &self.table_ident
    }

    pub fn schema(&self) -> (schema: ArrowSchemaRef)
        ensures
            schema == self.spec_schema(),
    {
        self.schema.clone()
    }

    /// What to fetch for a scan.
    pub fn fetch_request<P>(
        &self,
        projection: Option<&Vec<usize>>,
        predicate: Option<Predicate<P>>,
    ) -> (request: FetchRequest<'_, P>)
        requires
            projection_in_range(self.spec_schema(), projection),
        ensures
            *request.table_ident == self.spec_table_ident(),
            match request.columns {
                ColumnSelection::Named(names) => projection is Some && string_views(names@)
                    == output_names(self.spec_schema(), projection),
                ColumnSelection::All => projection is None,
            },
            request.filter == predicate,
            match request.runtime {
                Some(handle) => self.spec_io_handle() == Some(*handle),
                None => self.spec_io_handle() is None,
            },
    {
        FetchRequest {
            table_ident: &self.table_ident,
            columns: select_columns(&self.schema, projection),
            filter: predicate,
            runtime: self.io_handle.as_ref(),
        }
    }

    /// The scan of what was fetched: every file is a partition of its own, in the order in which
    /// the files were planned, and there is no partition where there is no file. A limit bounds the
    /// rows of each partition.
    pub fn scan<F, D, E>(
        &self,
        projection: Option<&Vec<usize>>,
        limit: Option<usize>,
        fetched: Result<TableTasks<F, D>, FetchError<E>>,
    ) -> (scan: Result<IcebergPartitionedScan<F, D>, ScanError<E>>)
        requires
            projection_in_range(self.spec_schema(), projection),
        ensures
            match fetched {
                Ok(fetched) => {
                    &&& scan matches Ok(scan)
                    &&& scan.spec_tasks() == fetched.tasks@
                    &&& scan.spec_file_io() == fetched.file_io
                    &&& is_output_schema(
                            scan.spec_properties().schema,
                            self.spec_schema(),
                            projection,
                        )
                    &&& scan.spec_properties() == properties_for(
                        scan.spec_properties().schema,
                        fetched.tasks@.len(),
                    )
                    &&& scan.spec_limit() == limit
                    &&& scan.spec_io_handle() == self.spec_io_handle()
                },
                Err(e) => scan matches Err(error) && error@ == fetch_error_view(
                    "IcebergPartitionedScan"@,
                    e,
                ),
            },
    {
        let fetched = match fetched {
            Ok(fetched) => fetched,
            Err(e) => {
                return Err(fetch_error("IcebergPartitionedScan", e));
            },
        };
        let output_schema = match project_schema(&self.schema, projection) {
            Ok(output_schema) => output_schema,
            Err(e) => {
                return Err(ScanError::Plan(e));
            },
        };
        let scan = IcebergPartitionedScan::new(
            fetched.tasks,
            fetched.file_io,
            output_schema,
            limit,
        );
        match &self.io_handle {
            Some(handle) => Ok(scan.with_io_handle(handle.clone())),
            None => Ok(scan),
        }
    }

    /// Every filter is a hint to the scan; the planner applies it again.
    pub fn supports_filters_pushdown<X>(&self, filters: &[X]) -> (pushdown: Vec<FilterPushDown>)
        ensures
            pushdown@ == Seq::new(filters@.len(), |i: int| FilterPushDown::Inexact),
    {
        inexact_pushdown(filters.len())
    }

    /// Writes are not supported.
    pub fn insert_into<P>(&self) -> (plan: Result<P, PlanError>)
        ensures
            plan matches Err(e) && e@ == PlanErrorView::FeatureUnsupported(write_text()),
    {
        Err(
            PlanError::FeatureUnsupported(
                String::from_str(
                    "IcebergPartitionedTableProvider does not support writes; use IcebergTableProvider instead",
                ),
            ),
        )
    }
}

} // verus!
