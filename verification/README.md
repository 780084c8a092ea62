# delta_funnel

Session layer for lazy query-load workflows: Delta tables are registered as sources, SQL text
becomes lazy derived tables, and selected tables are previewed, dry-run or written to SQL Server.

- `src/` is the verified library. It decides everything that can be decided on plain values:
  names and registrations, lineage, which shared aliases are cached while several outputs are
  written, which route an output takes, how previews, streams and workflows proceed and what is
  reported of them. Calls into the query engine and the runtime stand behind small functions
  whose contracts are stated and not proved.
- `tests/` exercises the library together with the real query engine.
- `app/` is the ordinary Rust around it: asynchronous planning, row streams, Delta loading
  with the `delta-arrow-reader` crate, writers and blocking entry points.
  `app/delta.rs` alone calls the reader, which is not among the crates of `Cargo.toml`: a host
  that builds `app/` adds it.
