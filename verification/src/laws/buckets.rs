//! Laws of finding the bucketed column and of grouping files by bucket.
use vstd::prelude::*;

use crate::laws::texts::lemma_first_index;
use crate::metadata::{
    all_tasks, column_name, FileScanTask, Literal, NestedField, PartitionField, PartitionSpec,
    PrimitiveLiteral, Struct, TableSchema, Transform,
};
use crate::schema::{is_named, name_index};
use crate::table::bucket_groups::{
    bucket_field, bucket_groups, bucket_tasks, bucket_value, first_bucket_field, has_bucket,
    in_bucket, lemma_bucket_tasks_contains, lemma_groups_are_buckets,
    lemma_groups_keep_all_tasks, lemma_one_group_per_task, lemma_populated_buckets,
    populated_buckets,
};

verus! {

/// A file whose partition tuple has the integer `v` at the position of the bucket field, with `v`
/// among the buckets, is in exactly one group, and that is the group of the files with `v` there,
/// whatever stands at the other positions.
pub proof fn lemma_file_is_in_the_group_of_its_bucket<D>(
    tasks: Seq<FileScanTask<D>>,
    k: int,
    tuple: Struct,
    field_idx: int,
    v: i32,
    bucket_count: nat,
)
    requires
        0 <= k < tasks.len(),
        tasks[k].partition == Some(tuple),
        0 <= field_idx < tuple.fields@.len(),
        tuple.fields@[field_idx] == Some(Literal::Primitive(PrimitiveLiteral::Int(v))),
        0 <= v < bucket_count,
    ensures
        ({
            let groups = bucket_groups(tasks, field_idx, bucket_count);
            exists|g: int|
                #![trigger groups[g]]
                {
                    &&& 0 <= g < groups.len()
                    &&& groups[g].contains(tasks[k])
                    &&& forall|h: int|
                        0 <= h < groups.len() && (#[trigger] groups[h]).contains(tasks[k]) ==> h
                            == g
                    &&& forall|task: FileScanTask<D>| #[trigger]
                        groups[g].contains(task) <==> tasks.contains(task) && (
                        task.partition matches Some(t) && field_idx < t.fields@.len()
                            && t.fields@[field_idx] == Some(
                            Literal::Primitive(PrimitiveLiteral::Int(v)),
                        ))
                }
        }),
{
    let task = tasks[k];
    assert(tasks.contains(task));
    assert(in_bucket(task, field_idx, v as int));
    lemma_one_group_per_task(tasks, field_idx, bucket_count, task);
    lemma_groups_are_buckets(tasks, field_idx, bucket_count);
    let groups = bucket_groups(tasks, field_idx, bucket_count);
    let buckets = populated_buckets(tasks, field_idx, bucket_count);
    let g = choose|g: int|
        #![trigger groups[g]]
        {
            &&& 0 <= g < groups.len()
            &&& groups[g].contains(task)
            &&& forall|h: int|
                0 <= h < groups.len() && (#[trigger] groups[h]).contains(task) ==> h == g
        };
    assert(groups[g].contains(task));
    assert(in_bucket(task, field_idx, buckets[g]));
    assert(buckets[g] == v);
}

/// The bucket of a file is the integer at the position of the bucket field in its partition tuple,
/// whatever it is; a file has none without a tuple, with too short a one, or with a null or a
/// value of another type there.
pub proof fn lemma_bucket_of_a_file<D>(task: FileScanTask<D>, field_idx: int, v: i32)
    ensures
        bucket_value(task, field_idx) == Some(v) <==> (task.partition matches Some(t) && 0
            <= field_idx < t.fields@.len() && t.fields@[field_idx] == Some(
            Literal::Primitive(PrimitiveLiteral::Int(v)),
        )),
{
}

/// A group holds the files with one integer at the position of the bucket field, in the order in
/// which they were planned, and at least one. The integers are buckets and ascend from group to
/// group, and every bucket that some file has is among them.
pub proof fn lemma_groups_are_the_files_of_ascending_buckets<D>(
    tasks: Seq<FileScanTask<D>>,
    field_idx: int,
    bucket_count: nat,
)
    requires
        0 <= field_idx,
    ensures
        ({
            let groups = bucket_groups(tasks, field_idx, bucket_count);
            exists|values: Seq<i32>|
                {
                    &&& #[trigger] values.len() == groups.len()
                    &&& forall|g: int|
                        0 <= g < groups.len() ==> 0 <= #[trigger] values[g] < bucket_count
                            && groups[g].len() > 0 && groups[g] == tasks.filter(
                            |task: FileScanTask<D>|
                                task.partition matches Some(t) && field_idx < t.fields@.len()
                                    && t.fields@[field_idx] == Some(
                                    Literal::Primitive(PrimitiveLiteral::Int(values[g])),
                                ),
                        )
                    &&& forall|g: int, h: int|
                        0 <= g < h < groups.len() ==> values[g] < values[h]
                }
        }),
{
    let groups = bucket_groups(tasks, field_idx, bucket_count);
    let buckets = populated_buckets(tasks, field_idx, bucket_count);
    lemma_populated_buckets(tasks, field_idx, bucket_count);
    let values = Seq::new(buckets.len(), |g: int| buckets[g] as i32);
    assert forall|g: int| 0 <= g < groups.len() implies 0 <= #[trigger] values[g] < bucket_count
        && groups[g].len() > 0 && groups[g] == tasks.filter(
        |task: FileScanTask<D>|
            task.partition matches Some(t) && field_idx < t.fields@.len() && t.fields@[field_idx]
                == Some(Literal::Primitive(PrimitiveLiteral::Int(values[g]))),
    ) by {
        assert(0 <= buckets[g] < bucket_count);
        assert(groups[g] == bucket_tasks(tasks, field_idx, buckets[g]));
        lemma_bucket_is_i32(tasks, field_idx, buckets[g]);
        lemma_filter_agrees(
            tasks,
            |task: FileScanTask<D>| in_bucket(task, field_idx, buckets[g]),
            |task: FileScanTask<D>|
                task.partition matches Some(t) && field_idx < t.fields@.len()
                    && t.fields@[field_idx] == Some(
                    Literal::Primitive(PrimitiveLiteral::Int(values[g])),
                ),
        );
    }
    assert forall|g: int, h: int| 0 <= g < h < groups.len() implies values[g] < values[h] by {
        lemma_bucket_is_i32(tasks, field_idx, buckets[g]);
        lemma_bucket_is_i32(tasks, field_idx, buckets[h]);
    }
    assert(values.len() == groups.len());
}

proof fn lemma_bucket_is_i32<D>(tasks: Seq<FileScanTask<D>>, field_idx: int, bucket: int)
    requires
        bucket_tasks(tasks, field_idx, bucket).len() > 0,
    ensures
        i32::MIN <= bucket <= i32::MAX,
{
    let first = bucket_tasks(tasks, field_idx, bucket)[0];
    assert(bucket_tasks(tasks, field_idx, bucket).contains(first));
    lemma_bucket_tasks_contains(tasks, field_idx, bucket, first);
}

/// The groups together hold every planned file whose bucket is in range, as often as it was
/// planned, and no other file.
pub proof fn lemma_groups_hold_every_file_once<D>(
    tasks: Seq<FileScanTask<D>>,
    field_idx: int,
    bucket_count: nat,
)
    requires
        0 <= field_idx,
    ensures
        bucket_groups(tasks, field_idx, bucket_count).flatten().to_multiset() == tasks.filter(
            |task: FileScanTask<D>|
                task.partition matches Some(t) && field_idx < t.fields@.len() && (
                t.fields@[field_idx] matches Some(Literal::Primitive(PrimitiveLiteral::Int(v)))
                    && 0 <= v < bucket_count),
        ).to_multiset(),
{
    lemma_groups_keep_all_tasks(tasks, field_idx, bucket_count);
    lemma_all_tasks_is_flatten(bucket_groups(tasks, field_idx, bucket_count));
    lemma_filter_agrees(
        tasks,
        |task: FileScanTask<D>| has_bucket(task, field_idx, bucket_count as int),
        |task: FileScanTask<D>|
            task.partition matches Some(t) && field_idx < t.fields@.len() && (
            t.fields@[field_idx] matches Some(Literal::Primitive(PrimitiveLiteral::Int(v)))
                && 0 <= v < bucket_count),
    );
}

/// All tasks of groups are the groups, one after the other.
pub proof fn lemma_all_tasks_is_flatten<D>(groups: Seq<Seq<FileScanTask<D>>>)
    ensures
        all_tasks(groups) == groups.flatten(),
    decreases groups.len(),
{
    if groups.len() > 0 {
        lemma_all_tasks_is_flatten(groups.drop_last());
        assert(groups =~= groups.drop_last().push(groups.last()));
        groups.drop_last().lemma_flatten_push(groups.last());
    }
}

proof fn lemma_filter_agrees<A>(s: Seq<A>, p: spec_fn(A) -> bool, q: spec_fn(A) -> bool)
    requires
        forall|a: A| #[trigger] p(a) == q(a),
    ensures
        s.filter(p) == s.filter(q),
    decreases s.len(),
{
    reveal(Seq::filter);
    if s.len() > 0 {
        lemma_filter_agrees(s.drop_last(), p, q);
        assert(p(s.last()) == q(s.last()));
    }
}

/// Field `f` is the first bucket field of the partition spec, and `c` the first column of the
/// table with the id that it is made from.
pub open spec fn first_bucket_source(
    fields: Seq<PartitionField>,
    columns: Seq<NestedField>,
    f: int,
    c: int,
) -> bool {
    &&& 0 <= f < fields.len()
    &&& fields[f].transform is Bucket
    &&& forall|j: int| 0 <= j < f ==> !((#[trigger] fields[j]).transform is Bucket)
    &&& 0 <= c < columns.len()
    &&& columns[c].id == fields[f].source_id
    &&& forall|j: int| 0 <= j < c ==> (#[trigger] columns[j]).id != fields[f].source_id
}

/// Where the partition spec has a bucket field, the table a column with the id that the first one
/// is made from, and the output a column of that name, the bucketed column is found: it is the
/// first output column of that name, and the number of buckets is that of the field.
pub proof fn lemma_bucketed_column_is_found(
    partition_spec: PartitionSpec,
    table_schema: TableSchema,
    output_names: Seq<Seq<char>>,
    f: int,
    c: int,
)
    requires
        first_bucket_source(partition_spec.fields@, table_schema.fields@, f, c),
        output_names.contains(table_schema.fields@[c].name@),
    ensures
        ({
            let name = table_schema.fields@[c].name@;
            &&& bucket_field(partition_spec, table_schema, output_names) matches Some(info)
            &&& info.field_idx == f
            &&& partition_spec.fields@[f].transform == Transform::Bucket(info.bucket_count)
            &&& info.source_col_name == name
            &&& 0 <= info.source_col_idx < output_names.len()
            &&& output_names[info.source_col_idx] == name
            &&& forall|j: int| 0 <= j < info.source_col_idx ==> #[trigger] output_names[j] != name
        }),
{
    lemma_first_bucket_source(partition_spec, table_schema, f, c);
    let name = table_schema.fields@[c].name@;
    let k = choose|k: int| 0 <= k < output_names.len() && output_names[k] == name;
    assert(is_named(name)(output_names[k]));
    lemma_first_index(output_names, is_named(name), 0);
    let o = name_index(output_names, name)->0;
    lemma_first_index(output_names, is_named(name), o);
    assert forall|j: int| 0 <= j < o implies #[trigger] output_names[j] != name by {
        assert(!is_named(name)(output_names[j]));
    }
}

/// No bucketed column is found where the partition spec has no bucket field, where the table has
/// no column with the id that the first one is made from, or where the output has none of its
/// name.
pub proof fn lemma_bucketed_column_is_missing(
    partition_spec: PartitionSpec,
    table_schema: TableSchema,
    output_names: Seq<Seq<char>>,
    f: int,
    c: int,
)
    ensures
        (forall|j: int|
            0 <= j < partition_spec.fields@.len() ==> !((
            #[trigger] partition_spec.fields@[j]).transform is Bucket)) ==> bucket_field(
            partition_spec,
            table_schema,
            output_names,
        ) is None,
        0 <= f < partition_spec.fields@.len() && partition_spec.fields@[f].transform is Bucket && (
        forall|j: int|
            0 <= j < f ==> !((#[trigger] partition_spec.fields@[j]).transform is Bucket)) && (
        forall|j: int|
            0 <= j < table_schema.fields@.len() ==> (#[trigger] table_schema.fields@[j]).id
                != partition_spec.fields@[f].source_id) ==> bucket_field(
            partition_spec,
            table_schema,
            output_names,
        ) is None,
        first_bucket_source(partition_spec.fields@, table_schema.fields@, f, c)
            && !output_names.contains(table_schema.fields@[c].name@) ==> bucket_field(
            partition_spec,
            table_schema,
            output_names,
        ) is None,
{
    let fields = partition_spec.fields@;
    lemma_first_index(fields, |field: PartitionField| field.transform is Bucket, f);
    if 0 <= f < fields.len() {
        lemma_first_index(
            table_schema.fields@,
            |column: NestedField| column.id == fields[f].source_id,
            c,
        );
        lemma_column_name(table_schema.fields@, fields[f].source_id, c);
    }
    if first_bucket_source(fields, table_schema.fields@, f, c) {
        lemma_first_bucket_source(partition_spec, table_schema, f, c);
        let name = table_schema.fields@[c].name@;
        lemma_first_index(output_names, is_named(name), 0);
        if !output_names.contains(name) {
            assert forall|k: int| 0 <= k < output_names.len() implies !is_named(name)(
                #[trigger] output_names[k],
            ) by {
                assert(output_names.contains(output_names[k]));
            }
        }
    }
}

/// The name that belongs to an id is that of the first column with the id.
pub proof fn lemma_column_name(columns: Seq<NestedField>, id: i32, c: int)
    ensures
        0 <= c < columns.len() && columns[c].id == id && (forall|j: int|
            0 <= j < c ==> (#[trigger] columns[j]).id != id) ==> column_name(columns, id) == Some(
            columns[c].name@,
        ),
        column_name(columns, id) is None <==> forall|j: int|
            0 <= j < columns.len() ==> (#[trigger] columns[j]).id != id,
{
    lemma_first_index(columns, |field: NestedField| field.id == id, c);
}

proof fn lemma_first_bucket_source(
    partition_spec: PartitionSpec,
    table_schema: TableSchema,
    f: int,
    c: int,
)
    requires
        first_bucket_source(partition_spec.fields@, table_schema.fields@, f, c),
    ensures
        first_bucket_field(partition_spec.fields@) == Some(f),
        column_name(table_schema.fields@, partition_spec.fields@[f].source_id) == Some(
            table_schema.fields@[c].name@,
        ),
{
    lemma_first_index(
        partition_spec.fields@,
        |field: PartitionField| field.transform is Bucket,
        f,
    );
    lemma_column_name(table_schema.fields@, partition_spec.fields@[f].source_id, c);
}

} // verus!
