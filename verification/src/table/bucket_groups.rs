//! Finding the bucketed column of a table, and grouping file tasks by bucket.
use datafusion::arrow::datatypes::Schema;
use vstd::multiset::Multiset;
use vstd::prelude::*;

use crate::metadata::{
    all_tasks, column_name, FileScanTask, Literal, PartitionField, PartitionSpec, PrimitiveLiteral,
    TableSchema, Transform,
};
use crate::physical_plan::bucket_scan::group_views;
use crate::outside::index_of;
use crate::schema::{is_named, name_index, names_of};
use crate::search::{first_index, is_first, lemma_first_index_none, lemma_first_index_unique};

verus! {

/// The bucket field that a table is grouped by.
#[derive(Debug, Clone)]
pub struct BucketFieldInfo {
    /// Index of the bucket field within the partition spec.
    pub field_idx: usize,
    /// Name of the source column in the output schema.
    pub source_col_name: String,
    /// Index of the source column in the output schema.
    pub source_col_idx: usize,
    /// Number of buckets.
    pub bucket_count: u32,
}

/// What a [`BucketFieldInfo`] says.
pub struct BucketFieldView {
    pub field_idx: int,
    pub source_col_name: Seq<char>,
    pub source_col_idx: int,
    pub bucket_count: u32,
}

impl View for BucketFieldInfo {
    type V = BucketFieldView;

    open spec fn view(&self) -> BucketFieldView {
        BucketFieldView {
            field_idx: self.field_idx as int,
            source_col_name: self.source_col_name@,
            source_col_idx: self.source_col_idx as int,
            bucket_count: self.bucket_count,
        }
    }
}

/// The position of the first bucket field of a partition spec.
pub open spec fn first_bucket_field(fields: Seq<PartitionField>) -> Option<int> {
    first_index(fields, |field: PartitionField| field.transform is Bucket)
}

/// The first bucket field of the partition spec, with its source column in the output schema:
/// `None` if there is no bucket field, or if its source column is not in the table schema or was
/// projected out of the output.
pub open spec fn bucket_field(
    partition_spec: PartitionSpec,
    table_schema: TableSchema,
    output_names: Seq<Seq<char>>,
) -> Option<BucketFieldView> {
    match first_bucket_field(partition_spec.fields@) {
        None => None,
        Some(field_idx) => {
            let field = partition_spec.fields@[field_idx];
            match column_name(table_schema.fields@, field.source_id) {
                None => None,
                Some(name) => match name_index(output_names, name) {
                    None => None,
                    Some(col_idx) => Some(
                        BucketFieldView {
                            field_idx,
                            source_col_name: name,
                            source_col_idx: col_idx,
                            bucket_count: field.transform->Bucket_0,
                        },
                    ),
                },
            }
        },
    }
}

/// The bucket that a task belongs to: the integer at position `field_idx` of its partition tuple.
pub open spec fn bucket_value<D>(task: FileScanTask<D>, field_idx: int) -> Option<i32> {
    match task.partition {
        Some(partition) => if 0 <= field_idx < partition.fields@.len() {
            match partition.fields@[field_idx] {
                Some(Literal::Primitive(PrimitiveLiteral::Int(v))) => Some(v),
                _ => None,
            }
        } else {
            None
        },
        None => None,
    }
}

/// The task belongs to bucket `bucket`.
pub open spec fn in_bucket<D>(task: FileScanTask<D>, field_idx: int, bucket: int) -> bool {
    bucket_value(task, field_idx) matches Some(v) && v == bucket
}

/// The task belongs to one of the buckets `0..bucket_count`.
pub open spec fn has_bucket<D>(task: FileScanTask<D>, field_idx: int, bucket_count: int) -> bool {
    bucket_value(task, field_idx) matches Some(v) && 0 <= v < bucket_count
}

/// The tasks of bucket `bucket`, in the order in which they were planned.
pub open spec fn bucket_tasks<D>(tasks: Seq<FileScanTask<D>>, field_idx: int, bucket: int) -> Seq<
    FileScanTask<D>,
> {
    tasks.filter(|task: FileScanTask<D>| in_bucket(task, field_idx, bucket))
}

/// The buckets among `0..bucket_count` that have tasks, in ascending order.
pub open spec fn populated_buckets<D>(
    tasks: Seq<FileScanTask<D>>,
    field_idx: int,
    bucket_count: nat,
) -> Seq<int>
    decreases bucket_count,
{
    if bucket_count == 0 {
        seq![]
    } else {
        let bucket = bucket_count - 1;
        let lower = populated_buckets(tasks, field_idx, bucket as nat);
        if bucket_tasks(tasks, field_idx, bucket).len() == 0 {
            lower
        } else {
            lower.push(bucket)
        }
    }
}

/// The tasks of each populated bucket, by ascending bucket.
pub open spec fn bucket_groups<D>(
    tasks: Seq<FileScanTask<D>>,
    field_idx: int,
    bucket_count: nat,
) -> Seq<Seq<FileScanTask<D>>> {
    populated_buckets(tasks, field_idx, bucket_count).map_values(
        |bucket: int| bucket_tasks(tasks, field_idx, bucket),
    )
}

/// Finds the first bucket field in the partition spec and resolves its source column in the
/// output schema.
///
/// Returns `None` if no bucket field exists or if the source column was projected out. A later
/// bucket field never stands in for the first one.
pub fn detect_bucket_field(
    partition_spec: &PartitionSpec,
    table_schema: &TableSchema,
    output_schema: &Schema,
) -> (info: Option<BucketFieldInfo>)
    ensures
        match bucket_field(*partition_spec, *table_schema, names_of(*output_schema)) {
            Some(view) => info is Some && info->0@ == view,
            None => info is None,
        },
{
    let ghost p = |field: PartitionField| field.transform is Bucket;
    for field_idx in 0..partition_spec.fields.len()
        invariant
            p == (|field: PartitionField| field.transform is Bucket),
            forall|j: int| 0 <= j < field_idx ==> !p(#[trigger] partition_spec.fields@[j]),
    {
        let field = &partition_spec.fields[field_idx];
        if let Transform::Bucket(bucket_count) = field.transform {
            proof {
                assert(p(partition_spec.fields@[field_idx as int]));
                lemma_first_index_unique(partition_spec.fields@, p, field_idx as int);
            }
            let source = match table_schema.field_by_id(field.source_id) {
                Some(source) => source,
                None => {
                    return None;
                },
            };
            return match index_of(output_schema, source.name.as_str()) {
                Some(source_col_idx) => Some(
                    BucketFieldInfo {
                        field_idx,
                        source_col_name: source.name.clone(),
                        source_col_idx,
                        bucket_count,
                    },
                ),
                None => None,
            };
        }
    }
    proof {
        lemma_first_index_none(partition_spec.fields@, p);
    }
    None
}

/// Extracts the integer bucket value stored in the partition tuple of a task at `field_idx`.
pub fn extract_bucket_value<D>(task: &FileScanTask<D>, field_idx: usize) -> (value: Option<i32>)
    ensures
        value == bucket_value(*task, field_idx as int),
{
    match &task.partition {
        Some(partition) => if field_idx < partition.fields.len() {
            match &partition.fields[field_idx] {
                Some(Literal::Primitive(PrimitiveLiteral::Int(v))) => Some(*v),
                _ => None,
            }
        } else {
            None
        },
        None => None,
    }
}

/// Groups tasks by their bucket value, retaining only non-empty groups.
///
/// The groups come by ascending bucket, each with its tasks in the given order. Tasks whose
/// partition value is absent or out of range are silently ignored.
pub fn group_tasks_by_bucket<D>(tasks: Vec<FileScanTask<D>>, info: &BucketFieldInfo) -> (populated: Vec<
    Vec<FileScanTask<D>>,
>)
    ensures
        group_views(populated@) == bucket_groups(
            tasks@,
            info.field_idx as int,
            info.bucket_count as nat,
        ),
{
    let bucket_count: usize = info.bucket_count as usize;
    let ghost all = tasks@;
    let ghost field_idx = info.field_idx as int;
    let mut groups: Vec<Vec<FileScanTask<D>>> = Vec::new();
    for i in 0..bucket_count
        invariant
            groups.len() == i,
            forall|b: int| 0 <= b < i ==> (#[trigger] groups@[b])@ == Seq::<FileScanTask<D>>::empty(),
    {
        groups.push(Vec::new());
    }
    proof {
        assert forall|b: int| 0 <= b < bucket_count implies (#[trigger] groups@[b])@
            == bucket_tasks(all.take(0), field_idx, b) by {
            reveal(Seq::filter);
        }
    }
    for task in it: tasks
        invariant
            it.seq() == all,
            field_idx == info.field_idx,
            bucket_count == info.bucket_count,
            groups.len() == bucket_count,
            forall|b: int|
                0 <= b < bucket_count ==> (#[trigger] groups@[b])@ == bucket_tasks(
                    all.take(it.index()),
                    field_idx,
                    b,
                ),
    {
        let ghost before = groups@;
        let ghost seen = all.take(it.index());
        proof {
            assert(all.take(it.index() + 1) =~= seen.push(task));
            assert forall|b: int| bucket_tasks(seen.push(task), field_idx, b) == (if in_bucket(
                task,
                field_idx,
                b,
            ) {
                bucket_tasks(seen, field_idx, b).push(task)
            } else {
                bucket_tasks(seen, field_idx, b)
            }) by {
                lemma_bucket_tasks_push(seen, field_idx, b, task);
            }
        }
        if let Some(bucket) = extract_bucket_value(&task, info.field_idx) {
            if bucket >= 0 && (bucket as u32) < info.bucket_count {
                groups[bucket as usize].push(task);
                assert(groups@[bucket as int]@ == before[bucket as int]@.push(task));
                assert(forall|b: int|
                    0 <= b < bucket_count && b != bucket ==> #[trigger] groups@[b] == before[b]);
            }
        }
    }
    assert(all.take(all.len() as int) =~= all);
    let ghost slots = groups@;
    let mut populated: Vec<Vec<FileScanTask<D>>> = Vec::new();
    for group in it: groups
        invariant
            it.seq() == slots,
            slots.len() == bucket_count,
            forall|b: int|
                0 <= b < bucket_count ==> (#[trigger] slots[b])@ == bucket_tasks(all, field_idx, b),
            group_views(populated@) == bucket_groups(all, field_idx, it.index() as nat),
    {
        let ghost b = it.index();
        let ghost before = populated@;
        assert(group@ == bucket_tasks(all, field_idx, b));
        if group.len() > 0 {
            populated.push(group);
            assert(group_views(populated@) =~= group_views(before).push(group@));
        }
        assert(group_views(populated@) =~= bucket_groups(all, field_idx, (b + 1) as nat));
    }
    populated
}

proof fn lemma_bucket_tasks_push<D>(
    tasks: Seq<FileScanTask<D>>,
    field_idx: int,
    bucket: int,
    task: FileScanTask<D>,
)
    ensures
        bucket_tasks(tasks.push(task), field_idx, bucket) == (if in_bucket(task, field_idx, bucket) {
            bucket_tasks(tasks, field_idx, bucket).push(task)
        } else {
            bucket_tasks(tasks, field_idx, bucket)
        }),
{
    reveal(Seq::filter);
    assert(tasks.push(task).drop_last() =~= tasks);
}

/// The bucket field that was found is the first bucket field of the partition spec, its bucket
/// count is that of the field, and its source column stands in the output under its name.
pub proof fn lemma_bucket_field_is_resolved(
    partition_spec: PartitionSpec,
    table_schema: TableSchema,
    output_names: Seq<Seq<char>>,
)
    ensures
        bucket_field(partition_spec, table_schema, output_names) matches Some(info) ==> {
            let fields = partition_spec.fields@;
            &&& 0 <= info.field_idx < fields.len()
            &&& fields[info.field_idx].transform == Transform::Bucket(info.bucket_count)
            &&& forall|j: int|
                0 <= j < info.field_idx ==> !((#[trigger] fields[j]).transform is Bucket)
            &&& column_name(table_schema.fields@, fields[info.field_idx].source_id) == Some(
                info.source_col_name,
            )
            &&& 0 <= info.source_col_idx < output_names.len()
            &&& output_names[info.source_col_idx] == info.source_col_name
        },
{
    let p = |field: PartitionField| field.transform is Bucket;
    if let Some(info) = bucket_field(partition_spec, table_schema, output_names) {
        assert(is_first(partition_spec.fields@, p, info.field_idx));
        assert(is_first(output_names, is_named(info.source_col_name), info.source_col_idx));
        assert forall|j: int| 0 <= j < info.field_idx implies !((
        #[trigger] partition_spec.fields@[j]).transform is Bucket) by {
            assert(!p(partition_spec.fields@[j]));
        }
    }
}

/// A table without a bucket field cannot be grouped, nor can one whose bucketed column was
/// projected out.
pub proof fn lemma_no_bucket_field(
    partition_spec: PartitionSpec,
    table_schema: TableSchema,
    output_names: Seq<Seq<char>>,
)
    ensures
        (forall|i: int|
            0 <= i < partition_spec.fields@.len() ==> !((
            #[trigger] partition_spec.fields@[i]).transform is Bucket)) ==> bucket_field(
            partition_spec,
            table_schema,
            output_names,
        ) is None,
        forall|name: Seq<char>|
            #![trigger output_names.contains(name)]
            first_bucket_field(partition_spec.fields@) is Some && column_name(
                table_schema.fields@,
                partition_spec.fields@[first_bucket_field(partition_spec.fields@)->0].source_id,
            ) == Some(name) && !output_names.contains(name) ==> bucket_field(
                partition_spec,
                table_schema,
                output_names,
            ) is None,
{
    lemma_first_index_none(
        partition_spec.fields@,
        |field: PartitionField| field.transform is Bucket,
    );
    assert forall|name: Seq<char>|
        #![trigger output_names.contains(name)]
        !output_names.contains(name) implies name_index(output_names, name) is None by {
        lemma_first_index_none(output_names, is_named(name));
    }
}

/// The populated buckets ascend, are in range and are all of those that have tasks.
pub proof fn lemma_populated_buckets<D>(tasks: Seq<FileScanTask<D>>, field_idx: int, bucket_count: nat)
    ensures
        ({
            let buckets = populated_buckets(tasks, field_idx, bucket_count);
            &&& buckets.len() <= bucket_count
            &&& forall|i: int|
                0 <= i < buckets.len() ==> 0 <= #[trigger] buckets[i] < bucket_count
                    && bucket_tasks(tasks, field_idx, buckets[i]).len() > 0
            &&& forall|i: int, j: int| 0 <= i < j < buckets.len() ==> buckets[i] < buckets[j]
            &&& forall|b: int|
                0 <= b < bucket_count && #[trigger] bucket_tasks(tasks, field_idx, b).len() > 0
                    ==> buckets.contains(b)
        }),
    decreases bucket_count,
{
    if bucket_count > 0 {
        let bucket = bucket_count - 1;
        lemma_populated_buckets(tasks, field_idx, bucket as nat);
        let lower = populated_buckets(tasks, field_idx, bucket as nat);
        let buckets = populated_buckets(tasks, field_idx, bucket_count);
        assert forall|b: int|
            0 <= b < bucket_count && #[trigger] bucket_tasks(
                tasks,
                field_idx,
                b,
            ).len() > 0 implies buckets.contains(b) by {
            if b < bucket {
                assert(lower.contains(b));
                let i = choose|i: int| 0 <= i < lower.len() && lower[i] == b;
                assert(buckets[i] == b);
            } else {
                assert(buckets[buckets.len() - 1] == b);
            }
        }
    }
}

/// A task is among the tasks of a bucket exactly when it was planned and belongs to that bucket.
pub proof fn lemma_bucket_tasks_contains<D>(
    tasks: Seq<FileScanTask<D>>,
    field_idx: int,
    bucket: int,
    task: FileScanTask<D>,
)
    ensures
        bucket_tasks(tasks, field_idx, bucket).contains(task) <==> tasks.contains(task)
            && in_bucket(task, field_idx, bucket),
    decreases tasks.len(),
{
    reveal(Seq::filter);
    if tasks.len() > 0 {
        let init = tasks.drop_last();
        lemma_bucket_tasks_contains(init, field_idx, bucket, task);
        lemma_bucket_tasks_push(init, field_idx, bucket, tasks.last());
        assert(tasks =~= init.push(tasks.last()));
        lemma_push_contains(init, tasks.last(), task);
        lemma_push_contains(bucket_tasks(init, field_idx, bucket), tasks.last(), task);
    }
}

proof fn lemma_push_contains<A>(s: Seq<A>, a: A, x: A)
    ensures
        s.push(a).contains(x) <==> s.contains(x) || x == a,
{
    if s.contains(x) {
        let i = choose|i: int| 0 <= i < s.len() && s[i] == x;
        assert(s.push(a)[i] == x);
    }
    if x == a {
        assert(s.push(a)[s.len() as int] == x);
    }
}

/// Only populated buckets become groups, at most as many as there are buckets. The tasks of a
/// group share their bucket, and no two groups have the same one.
pub proof fn lemma_groups_are_buckets<D>(tasks: Seq<FileScanTask<D>>, field_idx: int, bucket_count: nat)
    ensures
        ({
            let groups = bucket_groups(tasks, field_idx, bucket_count);
            let buckets = populated_buckets(tasks, field_idx, bucket_count);
            &&& groups.len() == buckets.len()
            &&& groups.len() <= bucket_count
            &&& forall|i: int| 0 <= i < groups.len() ==> (#[trigger] groups[i]).len() > 0
            &&& forall|i: int, task: FileScanTask<D>|
                0 <= i < groups.len() ==> (#[trigger] groups[i].contains(task) <==> tasks.contains(
                    task,
                ) && in_bucket(task, field_idx, buckets[i]))
            &&& forall|i: int, j: int| 0 <= i < j < buckets.len() ==> buckets[i] < buckets[j]
        }),
{
    lemma_populated_buckets(tasks, field_idx, bucket_count);
    let groups = bucket_groups(tasks, field_idx, bucket_count);
    let buckets = populated_buckets(tasks, field_idx, bucket_count);
    assert forall|i: int, task: FileScanTask<D>| 0 <= i < groups.len() implies (
    #[trigger] groups[i].contains(task) <==> tasks.contains(task) && in_bucket(
        task,
        field_idx,
        buckets[i],
    )) by {
        lemma_bucket_tasks_contains(tasks, field_idx, buckets[i], task);
    }
    assert forall|i: int| 0 <= i < groups.len() implies (#[trigger] groups[i]).len() > 0 by {
        assert(bucket_tasks(tasks, field_idx, buckets[i]).len() > 0);
    }
}

/// Every task with a bucket in range is in exactly one group, and tasks of one bucket are in the
/// same one: rows that agree in the bucketed column are read by the same partition.
pub proof fn lemma_one_group_per_task<D>(
    tasks: Seq<FileScanTask<D>>,
    field_idx: int,
    bucket_count: nat,
    task: FileScanTask<D>,
)
    requires
        tasks.contains(task),
        has_bucket(task, field_idx, bucket_count as int),
    ensures
        ({
            let groups = bucket_groups(tasks, field_idx, bucket_count);
            exists|i: int|
                #![trigger groups[i]]
                {
                    &&& 0 <= i < groups.len()
                    &&& groups[i].contains(task)
                    &&& forall|j: int|
                        0 <= j < groups.len() && (#[trigger] groups[j]).contains(task) ==> j == i
                    &&& forall|other: FileScanTask<D>|
                        tasks.contains(other) && bucket_value(other, field_idx) == bucket_value(
                            task,
                            field_idx,
                        ) ==> #[trigger] groups[i].contains(other)
                }
        }),
{
    let bucket = bucket_value(task, field_idx)->0 as int;
    let groups = bucket_groups(tasks, field_idx, bucket_count);
    let buckets = populated_buckets(tasks, field_idx, bucket_count);
    lemma_populated_buckets(tasks, field_idx, bucket_count);
    lemma_groups_are_buckets(tasks, field_idx, bucket_count);
    lemma_bucket_tasks_contains(tasks, field_idx, bucket, task);
    assert(bucket_tasks(tasks, field_idx, bucket).len() > 0);
    let i = choose|i: int| 0 <= i < buckets.len() && buckets[i] == bucket;
    assert(groups[i].contains(task));
    assert forall|j: int| 0 <= j < groups.len() && (#[trigger] groups[j]).contains(
        task,
    ) implies j == i by {
        assert(buckets[j] == bucket);
        if i < j {
            assert(buckets[i] < buckets[j]);
        }
        if j < i {
            assert(buckets[j] < buckets[i]);
        }
    }
}

/// The groups hold every task with a bucket in range as often as it was planned, and nothing
/// else: no file is read twice, and none that belongs to a bucket is left out.
pub proof fn lemma_groups_keep_all_tasks<D>(
    tasks: Seq<FileScanTask<D>>,
    field_idx: int,
    bucket_count: nat,
)
    ensures
        all_tasks(bucket_groups(tasks, field_idx, bucket_count)).to_multiset() == tasks.filter(
            |task: FileScanTask<D>| has_bucket(task, field_idx, bucket_count as int),
        ).to_multiset(),
    decreases bucket_count,
{
    broadcast use vstd::seq_lib::group_to_multiset_ensures;

    let groups = bucket_groups(tasks, field_idx, bucket_count);
    if bucket_count == 0 {
        lemma_filter_none(tasks, |task: FileScanTask<D>| has_bucket(task, field_idx, 0));
        assert(groups =~= seq![]);
    } else {
        let bucket = bucket_count - 1;
        let lower = bucket_groups(tasks, field_idx, bucket as nat);
        let last = bucket_tasks(tasks, field_idx, bucket);
        lemma_groups_keep_all_tasks(tasks, field_idx, bucket as nat);
        if last.len() == 0 {
            assert(groups =~= lower);
            assert(last.to_multiset() =~= Multiset::empty());
        } else {
            assert(groups =~= lower.push(last));
            assert(lower.push(last).drop_last() =~= lower);
            vstd::seq_lib::lemma_multiset_commutative(all_tasks(lower), last);
        }
        assert(all_tasks(groups).to_multiset() =~= all_tasks(lower).to_multiset().add(
            last.to_multiset(),
        ));
        lemma_filter_split(tasks, field_idx, bucket);
    }
}

proof fn lemma_filter_none<D>(tasks: Seq<FileScanTask<D>>, p: spec_fn(FileScanTask<D>) -> bool)
    requires
        forall|task: FileScanTask<D>| !(#[trigger] p(task)),
    ensures
        tasks.filter(p) == Seq::<FileScanTask<D>>::empty(),
    decreases tasks.len(),
{
    reveal(Seq::filter);
    if tasks.len() > 0 {
        lemma_filter_none(tasks.drop_last(), p);
    }
}

proof fn lemma_filter_split<D>(tasks: Seq<FileScanTask<D>>, field_idx: int, bucket: int)
    requires
        0 <= bucket,
    ensures
        tasks.filter(
            |task: FileScanTask<D>| has_bucket(task, field_idx, bucket + 1),
        ).to_multiset() == tasks.filter(
            |task: FileScanTask<D>| has_bucket(task, field_idx, bucket),
        ).to_multiset().add(bucket_tasks(tasks, field_idx, bucket).to_multiset()),
    decreases tasks.len(),
{
    broadcast use vstd::seq_lib::group_to_multiset_ensures;

    reveal(Seq::filter);
    let upto = |task: FileScanTask<D>| has_bucket(task, field_idx, bucket + 1);
    let below = |task: FileScanTask<D>| has_bucket(task, field_idx, bucket);
    if tasks.len() == 0 {
        assert(tasks.filter(upto).to_multiset() =~= tasks.filter(below).to_multiset().add(
            bucket_tasks(tasks, field_idx, bucket).to_multiset(),
        ));
    } else {
        lemma_filter_split(tasks.drop_last(), field_idx, bucket);
        assert(tasks.filter(upto).to_multiset() =~= tasks.filter(below).to_multiset().add(
            bucket_tasks(tasks, field_idx, bucket).to_multiset(),
        ));
    }
}

} // verus!
