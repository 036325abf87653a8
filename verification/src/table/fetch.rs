//! What the providers ask a catalog for, and what can come back.
use std::sync::Arc;

use tokio::runtime::Handle;
use vstd::prelude::*;

use crate::metadata::{Predicate, TableIdent};
use crate::outside::{project, schema_columns, schema_metadata};
use crate::plan::{PlanError, PlanErrorView};
use crate::schema::{
    first_missing, indices_in_range, names_at, names_of, pick, projection_error_text,
    ArrowSchemaRef,
};
use crate::text::string_views;

verus! {

/// The columns to read.
#[derive(Debug)]
pub enum ColumnSelection {
    /// These columns, in this order.
    Named(Vec<String>),
    /// All columns.
    All,
}

/// A request for the file scan tasks of a table: load the table, select the columns, apply the
/// filter if there is one, and plan the files.
#[derive(Debug)]
pub struct FetchRequest<'a, P> {
    pub table_ident: &'a TableIdent,
    pub columns: ColumnSelection,
    pub filter: Option<Predicate<P>>,
    /// The runtime to do this on; `None` is the one that asks.
    pub runtime: Option<&'a Handle>,
}

/// Why no tasks came back.
#[derive(Debug)]
pub enum FetchError<E> {
    /// The catalog or the planning of the files failed.
    Source(E),
    /// The task on the other runtime ended without a result, with this message.
    TaskPanicked(String),
}

/// Why a table could not be scanned.
#[derive(Debug)]
pub enum ScanError<E> {
    /// The catalog or the planning of the files failed.
    Source(E),
    /// The scan could not be planned.
    Plan(PlanError),
}

/// What a [`ScanError`] says.
pub enum ScanErrorView<E> {
    Source(E),
    Plan(PlanErrorView),
}

impl<E> View for ScanError<E> {
    type V = ScanErrorView<E>;

    open spec fn view(&self) -> ScanErrorView<E> {
        match *self {
            ScanError::Source(e) => ScanErrorView::Source(e),
            ScanError::Plan(e) => ScanErrorView::Plan(e@),
        }
    }
}

/// Every index of a projection is a column of the schema.
pub open spec fn projection_in_range(
    schema: ArrowSchemaRef,
    projection: Option<&Vec<usize>>,
) -> bool {
    match projection {
        Some(indices) => indices_in_range(indices@, schema_columns(*schema).len()),
        None => true,
    }
}

/// The names of the columns that a scan of `schema` with `projection` yields.
pub open spec fn output_names(schema: ArrowSchemaRef, projection: Option<&Vec<usize>>) -> Seq<
    Seq<char>,
> {
    match projection {
        Some(indices) => pick(names_of(*schema), indices@),
        None => names_of(*schema),
    }
}

/// `output` is the schema that a scan of `schema` with `projection` yields: the same one without a
/// projection, else its columns at the indices, whole, with the metadata of the schema.
pub open spec fn is_output_schema(
    output: ArrowSchemaRef,
    schema: ArrowSchemaRef,
    projection: Option<&Vec<usize>>,
) -> bool {
    match projection {
        Some(indices) => {
            &&& schema_columns(*output) == pick(schema_columns(*schema), indices@)
            &&& schema_metadata(*output) == schema_metadata(*schema)
        },
        None => output == schema,
    }
}

/// What the error says that a failed fetch becomes, in a scan called `scan_name`.
pub open spec fn fetch_error_view<E>(scan_name: Seq<char>, error: FetchError<E>) -> ScanErrorView<
    E,
> {
    match error {
        FetchError::Source(e) => ScanErrorView::Source(e),
        FetchError::TaskPanicked(message) => ScanErrorView::Plan(
            PlanErrorView::Internal(scan_name + ": IO task panicked: "@ + message@),
        ),
    }
}

/// The columns that `projection` selects: those at its indices, or all.
pub fn select_columns(schema: &ArrowSchemaRef, projection: Option<&Vec<usize>>) -> (columns:
    ColumnSelection)
    requires
        projection_in_range(*schema, projection),
    ensures
        match columns {
            ColumnSelection::Named(names) => projection is Some && string_views(names@)
                == output_names(*schema, projection),
            ColumnSelection::All => projection is None,
        },
{
    match projection {
        Some(indices) => ColumnSelection::Named(names_at(schema, indices)),
        None => ColumnSelection::All,
    }
}

/// The schema of the columns that `projection` selects.
pub fn project_schema(schema: &ArrowSchemaRef, projection: Option<&Vec<usize>>) -> (output: Result<
    ArrowSchemaRef,
    PlanError,
>)
    ensures
        output is Ok <==> projection_in_range(*schema, projection),
        match output {
            Ok(output) => {
                &&& is_output_schema(output, *schema, projection)
                &&& names_of(*output) == output_names(*schema, projection)
            },
            Err(e) => {
                &&& projection matches Some(indices)
                &&& first_missing(indices@, schema_columns(**schema).len()) matches Some(i)
                &&& e@ == PlanErrorView::Internal(
                    "schema projection failed: "@ + projection_error_text(
                        indices@[i] as nat,
                        schema_columns(**schema).len(),
                    ),
                )
            },
        },
{
    match projection {
        Some(indices) => match project(schema, indices.as_slice()) {
            Ok(projected) => {
                assert(indices_in_range(indices@, schema_columns(**schema).len()));
                assert(names_of(projected) =~= pick(names_of(**schema), indices@));
                Ok(Arc::new(projected))
            },
            Err(error) => {
                let mut text = String::from_str("schema projection failed: ");
                text.append(error.as_str());
                Err(PlanError::Internal(text))
            },
        },
        None => Ok(schema.clone()),
    }
}

/// The error that a failed fetch becomes, in a scan called `scan_name`.
pub fn fetch_error<E>(scan_name: &str, error: FetchError<E>) -> (scan_error: ScanError<E>)
    ensures
        scan_error@ == fetch_error_view(scan_name@, error),
{
    match error {
        FetchError::Source(e) => ScanError::Source(e),
        FetchError::TaskPanicked(message) => {
            let mut text = String::from_str(scan_name);
            text.append(": IO task panicked: ");
            text.append(message.as_str());
            ScanError::Plan(PlanError::Internal(text))
        },
    }
}

} // verus!
