//! What a table scan is asked for.
use vstd::prelude::*;

use crate::metadata::Predicate;
use crate::schema::ArrowSchemaRef;
use crate::text::string_views;

verus! {

/// Snapshot, projection, output schema and pushed predicates of a scan, with filters of type `P`.
#[derive(Debug)]
pub struct IcebergScanConfig<P> {
    snapshot_id: Option<i64>,
    column_names: Option<Vec<String>>,
    predicates: Option<Predicate<P>>,
    output_schema: ArrowSchemaRef,
}

/// What an [`IcebergScanConfig`] says.
pub struct ScanConfigView<P> {
    /// The snapshot to read, or the current one.
    pub snapshot_id: Option<i64>,
    /// The columns to read, or all.
    pub column_names: Option<Seq<Seq<char>>>,
    /// The filter to apply, or none.
    pub predicates: Option<Predicate<P>>,
    /// The schema of the batches.
    pub output_schema: ArrowSchemaRef,
}

impl<P> View for IcebergScanConfig<P> {
    type V = ScanConfigView<P>;

    closed spec fn view(&self) -> ScanConfigView<P> {
        ScanConfigView {
            snapshot_id: self.snapshot_id,
            column_names: match self.column_names {
                Some(names) => Some(string_views(names@)),
                None => None,
            },
            predicates: self.predicates,
            output_schema: self.output_schema,
        }
    }
}

impl<P> Clone for IcebergScanConfig<P> {
    fn clone(&self) -> (copy: Self)
        ensures
            copy@ == self@,
    {
        let column_names = match &self.column_names {
            Some(names) => {
                let copies = names.clone();
                assert(string_views(copies@) =~= string_views(names@));
                Some(copies)
            },
            None => None,
        };
        let predicates = match &self.predicates {
            Some(predicate) => Some(predicate.clone()),
            None => None,
        };
        IcebergScanConfig {
            snapshot_id: self.snapshot_id,
            column_names,
            predicates,
            output_schema: self.output_schema.clone(),
        }
    }
}

impl<P> IcebergScanConfig<P> {
    pub fn new(
        snapshot_id: Option<i64>,
        column_names: Option<Vec<String>>,
        predicates: Option<Predicate<P>>,
        output_schema: ArrowSchemaRef,
    ) -> (config: Self)
        ensures
            config@ == (ScanConfigView {
                snapshot_id,
                column_names: match column_names {
                    Some(names) => Some(string_views(names@)),
                    None => None,
                },
                predicates,
                output_schema,
            }),
    {
        IcebergScanConfig { snapshot_id, column_names, predicates, output_schema }
    }

    pub fn snapshot_id(&self) -> (id: Option<i64>)
        ensures
            id == self@.snapshot_id,
    {
        self.snapshot_id
    }

    pub fn column_names(&self) -> (names: Option<&[String]>)
        ensures
            match names {
                Some(names) => self@.column_names == Some(string_views(names@)),
                None => self@.column_names is None,
            },
    {
        match &self.column_names {
            Some(names) => Some(names.as_slice()),
            None => None,
        }
    }

    pub fn predicates(&self) -> (predicates: Option<&Predicate<P>>)
        ensures
            match predicates {
                Some(p) => self@.predicates == Some(*p),
                None => self@.predicates is None,
            },
    {
        self.predicates.as_ref()
    }

    pub fn output_schema(&self) -> (schema: ArrowSchemaRef)
        ensures
            schema == self@.output_schema,
    {
        self.output_schema.clone()
    }
}

} // verus!
