# postgres

The PostgreSQL data-protection library of the Warden tool: backup managers,
the backup catalog, retention and PITR planning, schedules, cluster
configuration, high-availability orchestration (switchover, failover, clone)
and chaos-testing scenarios, verified with Verus.

Layout:

- `src/` — the verified library. Its functions carry contracts over spec
  functions; the laws of the library are public proof functions. Calls into chrono, uuid, regex, anyhow and a few std functions
  stand behind small trusted wrappers (`timestamps`, `ids`, `sys`, `text`,
  `error_codes`, `cli::commands::retention`), each documented with what it
  claims.
- `tests/` — tests of the library on concrete values.
- `app/` — what cannot be verified: reading and writing files, running
  processes, the terminal, randomness, and serialising the library's values
  with serde. The drivers of the backup, retention, PITR, reconstruction
  and status commands are not here: they rest on the storage crate, the
  retention engine, the PITR planner and the PostgreSQL manager, which this
  project does not include. The library holds the decisions between their
  steps.
