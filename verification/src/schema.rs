//! Output schemas: the columns of the record batches that a scan yields.
use std::sync::Arc;

use datafusion::arrow::datatypes::Schema;
use vstd::prelude::*;

use crate::outside::{column_count, column_name, schema_columns};
use crate::search::first_index;
use crate::text::{decimal, str_views, string_views};

verus! {

/// A shared Arrow schema.
pub type ArrowSchemaRef = Arc<Schema>;

/// The column names of a schema.
pub open spec fn names_of(schema: Schema) -> Seq<Seq<char>> {
    schema_columns(schema).map_values(|column: (Seq<char>, Seq<u8>)| column.0)
}

/// `columns` at `indices`, in the order of `indices`.
pub open spec fn pick<A>(columns: Seq<A>, indices: Seq<usize>) -> Seq<A> {
    Seq::new(indices.len(), |i: int| columns[indices[i] as int])
}

/// Every index is that of one of `column_count` columns.
pub open spec fn indices_in_range(indices: Seq<usize>, column_count: nat) -> bool {
    forall|i: int| 0 <= i < indices.len() ==> #[trigger] indices[i] < column_count
}

/// Being the index of none of `column_count` columns.
pub open spec fn is_missing(column_count: nat) -> spec_fn(usize) -> bool {
    |index: usize| index >= column_count
}

/// The position of the first index that is that of none of `column_count` columns.
pub open spec fn first_missing(indices: Seq<usize>, column_count: nat) -> Option<int> {
    first_index(indices, is_missing(column_count))
}

/// Being the name `name`.
pub open spec fn is_named(name: Seq<char>) -> spec_fn(Seq<char>) -> bool {
    |n: Seq<char>| n == name
}

/// The position of the first column called `name`.
pub open spec fn name_index(names: Seq<Seq<char>>, name: Seq<char>) -> Option<int> {
    first_index(names, is_named(name))
}

/// What the error says for an index that is not that of a column.
pub open spec fn projection_error_text(index: nat, column_count: nat) -> Seq<char> {
    "Schema error: project index "@ + decimal(index) + " out of bounds, max field "@ + decimal(
        column_count,
    )
}

/// The column names of a schema, in order.
pub fn names(schema: &Schema) -> (names: Vec<&str>)
    ensures
        str_views(names@) == names_of(*schema),
{
    let mut names: Vec<&str> = Vec::new();
    let count: usize = column_count(schema);
    for i in 0..count
        invariant
            count == schema_columns(*schema).len(),
            names.len() == i,
            forall|k: int| 0 <= k < i ==> (#[trigger] names@[k])@ == names_of(*schema)[k],
    {
        names.push(column_name(schema, i));
    }
    assert(str_views(names@) =~= names_of(*schema));
    names
}

/// The names of the columns at `indices`.
pub fn names_at(schema: &Schema, indices: &Vec<usize>) -> (names: Vec<String>)
    requires
        indices_in_range(indices@, schema_columns(*schema).len()),
    ensures
        string_views(names@) == pick(names_of(*schema), indices@),
{
    let mut names: Vec<String> = Vec::new();
    for i in 0..indices.len()
        invariant
            indices_in_range(indices@, schema_columns(*schema).len()),
            names.len() == i,
            forall|k: int|
                0 <= k < i ==> (#[trigger] names@[k])@ == names_of(*schema)[indices@[k] as int],
    {
        names.push(String::from_str(column_name(schema, indices[i])));
    }
    assert(string_views(names@) =~= pick(names_of(*schema), indices@));
    names
}

} // verus!
