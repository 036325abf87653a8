# iceberg_scan

Scan planning and scan accounting for Iceberg tables that are read through DataFusion, verified
with Verus.

- `src/` is the library. It holds the three scan nodes (one partition per group of tasks, per data
  file or per bucket), the providers that make them from planned file tasks, the row limit, the
  bridge that forwards batches from one runtime to another, and the counters and metrics of a
  running scan. Every function has a contract; laws that relate several functions are public proof
  functions named `lemma_...`.
- `src/outside.rs` is all that is taken on trust: the types of DataFusion, Arrow, Tokio and std
  that pass through the library, and what their functions are relied on to do.
- `app/` puts the library behind DataFusion's `ExecutionPlan` and `TableProvider`. Catalogs, tables
  and storage come in through the traits of `app/source.rs`.
- `tests/` runs the library on concrete values.

Counters of a scan live in one `ScanMetrics` value. Whoever reads files and whoever reports on the
scan share it behind a lock.

What planning does not look into (the table, the file I/O, the filter itself, the delete files and
whatever else a reader needs of a task) is carried through the library as type parameters.
