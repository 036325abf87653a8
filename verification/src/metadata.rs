//! Table metadata, as far as scan planning reads it.
use std::sync::Arc;

use vstd::prelude::*;

use crate::search::{first_index, lemma_first_index_none, lemma_first_index_unique};
use crate::text::string_views;

verus! {

/// The name of a namespace, level by level.
#[derive(Debug)]
pub struct NamespaceIdent {
    pub levels: Vec<String>,
}

/// The levels of the name.
impl View for NamespaceIdent {
    type V = Seq<Seq<char>>;

    open spec fn view(&self) -> Seq<Seq<char>> {
        string_views(self.levels@)
    }
}

impl Clone for NamespaceIdent {
    fn clone(&self) -> (copy: Self)
        ensures
            copy@ == self@,
    {
        let levels = self.levels.clone();
        assert(string_views(levels@) =~= string_views(self.levels@));
        NamespaceIdent { levels }
    }
}

/// The name of a table in a catalog.
#[derive(Debug)]
pub struct TableIdent {
    pub namespace: NamespaceIdent,
    pub name: String,
}

/// The levels of the namespace, and the name in it.
impl View for TableIdent {
    type V = (Seq<Seq<char>>, Seq<char>);

    open spec fn view(&self) -> (Seq<Seq<char>>, Seq<char>) {
        (self.namespace@, self.name@)
    }
}

impl Clone for TableIdent {
    fn clone(&self) -> (copy: Self)
        ensures
            copy@ == self@,
    {
        TableIdent { namespace: self.namespace.clone(), name: self.name.clone() }
    }
}

impl TableIdent {
    pub fn new(namespace: NamespaceIdent, name: String) -> (ident: Self)
        ensures
            ident.namespace == namespace,
            ident.name == name,
    {
        TableIdent { namespace, name }
    }
}

/// A filter that was pushed down to the scan. Planning only shows the text that it displays as;
/// the filter itself, of type `P`, is handed to the table unread.
#[derive(Debug)]
pub struct Predicate<P> {
    pub text: String,
    pub filter: Arc<P>,
}

impl<P> Clone for Predicate<P> {
    fn clone(&self) -> (copy: Self)
        ensures
            copy == *self,
    {
        Predicate { text: self.text.clone(), filter: self.filter.clone() }
    }
}

/// The filter of a file scan task, by the text that it displays as. The filter itself is among
/// the details of the task.
#[derive(Debug, Clone)]
pub struct BoundPredicate {
    pub text: String,
}

/// How a partition value is made from a source column.
#[derive(Debug, Clone, Copy)]
pub enum Transform {
    Identity,
    /// Hash the value into this many buckets.
    Bucket(u32),
    /// Cut the value off at this width.
    Truncate(u32),
    Year,
    Month,
    Day,
    Hour,
    Void,
    Unknown,
}

/// One field of a partition spec.
#[derive(Debug, Clone, Copy)]
pub struct PartitionField {
    /// The id of the column that the partition value is made from.
    pub source_id: i32,
    pub transform: Transform,
}

/// How a table is partitioned.
#[derive(Debug, Clone)]
pub struct PartitionSpec {
    pub fields: Vec<PartitionField>,
}

/// A column of a table, nested ones among them.
#[derive(Debug, Clone)]
pub struct NestedField {
    pub id: i32,
    pub name: String,
}

/// The columns of a table, by their ids.
#[derive(Debug, Clone)]
pub struct TableSchema {
    pub fields: Vec<NestedField>,
}

/// The name of the column with the id `id`.
pub open spec fn column_name(fields: Seq<NestedField>, id: i32) -> Option<Seq<char>> {
    match first_index(fields, |field: NestedField| field.id == id) {
        Some(i) => Some(fields[i].name@),
        None => None,
    }
}

impl TableSchema {
    /// The column with the id `id`.
    pub fn field_by_id(&self, id: i32) -> (found: Option<&NestedField>)
        ensures
            match first_index(self.fields@, |field: NestedField| field.id == id) {
                Some(i) => found == Some(&self.fields@[i]),
                None => found is None,
            },
    {
        let ghost p = |field: NestedField| field.id == id;
        for i in 0..self.fields.len()
            invariant
                p == (|field: NestedField| field.id == id),
                forall|j: int| 0 <= j < i ==> !p(#[trigger] self.fields@[j]),
        {
            if self.fields[i].id == id {
                proof {
                    lemma_first_index_unique(self.fields@, p, i as int);
                }
                return Some(&self.fields[i]);
            }
        }
        proof {
            lemma_first_index_none(self.fields@, p);
        }
        None
    }
}

/// A primitive value in a partition tuple.
#[derive(Debug, Clone, Copy)]
pub enum PrimitiveLiteral {
    Boolean(bool),
    Int(i32),
    Long(i64),
    /// A primitive value of another type, which scan planning does not look into.
    Other,
}

/// A value in a partition tuple.
#[derive(Debug, Clone, Copy)]
pub enum Literal {
    Primitive(PrimitiveLiteral),
    /// A struct, list or map.
    Nested,
}

/// A partition tuple: one value, or null, per field of the partition spec.
#[derive(Debug, Clone)]
pub struct Struct {
    pub fields: Vec<Option<Literal>>,
}

/// A data file, or a byte range of one, that a scan has to read.
#[derive(Debug)]
pub struct FileScanTask<D> {
    pub data_file_path: String,
    /// The first byte to read.
    pub start: u64,
    /// The number of bytes to read.
    pub length: u64,
    /// The filter to apply to the rows.
    pub predicate: Option<BoundPredicate>,
    /// The partition that the file belongs to.
    pub partition: Option<Struct>,
    /// What else the reader needs and planning does not look into: the delete files, the schema,
    /// the ids of the columns to read, the filter itself.
    pub details: Arc<D>,
}

/// What a [`FileScanTask`] says.
pub struct FileScanTaskView<D> {
    pub data_file_path: Seq<char>,
    pub start: u64,
    pub length: u64,
    pub predicate: Option<Seq<char>>,
    pub partition: Option<Seq<Option<Literal>>>,
    pub details: D,
}

impl<D> View for FileScanTask<D> {
    type V = FileScanTaskView<D>;

    open spec fn view(&self) -> FileScanTaskView<D> {
        FileScanTaskView {
            data_file_path: self.data_file_path@,
            start: self.start,
            length: self.length,
            predicate: match self.predicate {
                Some(predicate) => Some(predicate.text@),
                None => None,
            },
            partition: match self.partition {
                Some(partition) => Some(partition.fields@),
                None => None,
            },
            details: *self.details,
        }
    }
}

impl<D> Clone for FileScanTask<D> {
    fn clone(&self) -> (copy: Self)
        ensures
            copy@ == self@,
    {
        let predicate = match &self.predicate {
            Some(predicate) => Some(BoundPredicate { text: predicate.text.clone() }),
            None => None,
        };
        let partition = match &self.partition {
            Some(partition) => {
                let fields = partition.fields.clone();
                assert(fields@ =~= partition.fields@);
                Some(Struct { fields })
            },
            None => None,
        };
        FileScanTask {
            data_file_path: self.data_file_path.clone(),
            start: self.start,
            length: self.length,
            predicate,
            partition,
            details: self.details.clone(),
        }
    }
}

impl<D> FileScanTask<D> {
    pub fn data_file_path(&self) -> (path: &str)
        ensures
            path@ == self.data_file_path@,
    {
        self.data_file_path.as_str()
    }

    pub fn predicate(&self) -> (predicate: Option<&BoundPredicate>)
        ensures
            match self.predicate {
                Some(p) => predicate == Some(&p),
                None => predicate is None,
            },
    {
        self.predicate.as_ref()
    }
}

/// All tasks of `groups`, one group after the other.
pub open spec fn all_tasks<D>(groups: Seq<Seq<FileScanTask<D>>>) -> Seq<FileScanTask<D>>
    decreases groups.len(),
{
    if groups.len() == 0 {
        seq![]
    } else {
        all_tasks(groups.drop_last()) + groups.last()
    }
}

/// What a plan shows of the filter of a scan: the text of that of its first task, since all tasks
/// of a scan share it, or nothing.
pub open spec fn first_predicate_text<D>(tasks: Seq<FileScanTask<D>>) -> Seq<char> {
    if tasks.len() == 0 {
        seq![]
    } else {
        match tasks[0].predicate {
            Some(predicate) => predicate.text@,
            None => seq![],
        }
    }
}

/// A longer list of groups has at least the tasks of a shorter one.
pub proof fn lemma_all_tasks_prefix<D>(groups: Seq<Seq<FileScanTask<D>>>, n: int)
    requires
        0 <= n <= groups.len(),
    ensures
        all_tasks(groups.take(n)).len() <= all_tasks(groups).len(),
        all_tasks(groups.take(n)) == all_tasks(groups).take(
            all_tasks(groups.take(n)).len() as int,
        ),
    decreases groups.len(),
{
    if n == groups.len() {
        assert(groups.take(n) =~= groups);
        assert(all_tasks(groups).take(all_tasks(groups).len() as int) =~= all_tasks(groups));
    } else {
        assert(groups.drop_last().take(n) =~= groups.take(n));
        lemma_all_tasks_prefix(groups.drop_last(), n);
        assert(all_tasks(groups.take(n)) =~= all_tasks(groups).take(
            all_tasks(groups.take(n)).len() as int,
        ));
    }
}

} // verus!
