//! Laws of projections.
use datafusion::arrow::datatypes::Schema;
use vstd::prelude::*;

use crate::laws::texts::lemma_first_index;
use crate::outside::{schema_columns, schema_metadata};
use crate::plan::PlanErrorView;
use crate::schema::{
    first_missing, indices_in_range, is_missing, is_named, name_index, names_of, pick,
    projection_error_text, ArrowSchemaRef,
};
use crate::table::fetch::{
    fetch_error_view, is_output_schema, output_names, projection_in_range, FetchError,
    ScanErrorView,
};
use crate::text::decimal;

verus! {

/// A projection yields one column per index, and column `i` of the output is the column of the
/// table at index `i` of the projection, whole; the names that are asked for are theirs. Without
/// a projection the output is the schema of the table.
pub proof fn lemma_projection_selects_the_columns(
    schema: ArrowSchemaRef,
    output: ArrowSchemaRef,
    projection: Option<&Vec<usize>>,
)
    ensures
        match projection {
            Some(indices) => {
                let columns = schema_columns(*schema);
                let asked = output_names(schema, projection);
                &&& projection_in_range(schema, projection) <==> forall|i: int|
                    0 <= i < indices@.len() ==> #[trigger] indices@[i] < columns.len()
                &&& asked.len() == indices@.len()
                &&& forall|i: int|
                    0 <= i < indices@.len() && indices@[i] < columns.len() ==> #[trigger] asked[i]
                        == columns[indices@[i] as int].0
                &&& is_output_schema(output, schema, projection) <==> {
                    &&& schema_columns(*output).len() == indices@.len()
                    &&& forall|i: int|
                        0 <= i < indices@.len() ==> #[trigger] schema_columns(*output)[i]
                            == columns[indices@[i] as int]
                    &&& schema_metadata(*output) == schema_metadata(*schema)
                }
            },
            None => {
                &&& projection_in_range(schema, projection)
                &&& output_names(schema, projection).len() == schema_columns(*schema).len()
                &&& forall|i: int|
                    0 <= i < schema_columns(*schema).len() ==> #[trigger] output_names(
                        schema,
                        projection,
                    )[i] == schema_columns(*schema)[i].0
                &&& is_output_schema(output, schema, projection) <==> output == schema
            },
        },
{
    if let Some(indices) = projection {
        assert((schema_columns(*output).len() == indices@.len() && forall|i: int|
            0 <= i < indices@.len() ==> #[trigger] schema_columns(*output)[i] == schema_columns(
                *schema,
            )[indices@[i] as int]) ==> schema_columns(*output) =~= pick(
            schema_columns(*schema),
            indices@,
        ));
    }
}

/// The names of a schema are those of its columns; an index fails that is no position of a column,
/// the first such one; a name is found at the first column that has it.
pub proof fn lemma_schema_lookups(
    schema: Schema,
    indices: Seq<usize>,
    count: nat,
    names: Seq<Seq<char>>,
    name: Seq<char>,
    i: int,
)
    ensures
        names_of(schema).len() == schema_columns(schema).len(),
        forall|k: int|
            0 <= k < schema_columns(schema).len() ==> #[trigger] names_of(schema)[k]
                == schema_columns(schema)[k].0,
        indices_in_range(indices, count) <==> forall|k: int|
            0 <= k < indices.len() ==> #[trigger] indices[k] < count,
        first_missing(indices, count) == Some(i) <==> (0 <= i < indices.len() && indices[i] >= count
            && forall|k: int| 0 <= k < i ==> #[trigger] indices[k] < count),
        name_index(names, name) == Some(i) <==> (0 <= i < names.len() && names[i] == name
            && forall|k: int| 0 <= k < i ==> #[trigger] names[k] != name),
        name_index(names, name) is None <==> !names.contains(name),
{
    lemma_first_index(indices, is_missing(count), i);
    lemma_first_index(names, is_named(name), i);
    if names.contains(name) {
        let k = choose|k: int| 0 <= k < names.len() && names[k] == name;
        assert(is_named(name)(names[k]));
    }
}

/// The errors of a projection and of a fetch say what went wrong, and an error of the source is
/// handed on as it is.
pub proof fn lemma_fetch_errors<E>(
    scan_name: Seq<char>,
    error: FetchError<E>,
    index: nat,
    count: nat,
)
    ensures
        match error {
            FetchError::Source(e) => fetch_error_view(scan_name, error) == ScanErrorView::Source(e),
            FetchError::TaskPanicked(message) => fetch_error_view(scan_name, error)
                == ScanErrorView::<E>::Plan(
                PlanErrorView::Internal(scan_name + ": IO task panicked: "@ + message@),
            ),
        },
        projection_error_text(index, count) == "Schema error: project index "@ + decimal(index)
            + " out of bounds, max field "@ + decimal(count),
{
}

} // verus!
