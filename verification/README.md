# nodeget

The NodeGet server's logic as a verified Verus library, with the program
around it.

- `src/` — the library, verified by Verus; the calls into the `uuid`, `cron` and
  `chrono` crates stand behind three trusted wrappers whose contracts state
  what those crates do:
  - `uuid_cache` — the two-way monitoring UUID ↔ id cache with soft deletion;
    `get_or_insert` and `soft_delete` are step functions driven by the
    caller's database answers.
  - `dynamic_avg`, `avg_sql` — validation, time bucketing and the PostgreSQL
    statement of the averaged dynamic-monitoring query.
  - `crontab_schedule`, `crontab_dispatch`, `crontab_result_query` — when a
    job is due, what a dispatch records, how a result query is planned.
  - `task_sessions`, `task_create`, `token_delete`, `rpc` — task routing to
    agents, the steps of task creation and token deletion, and the replies
    of the RPC endpoints.
  - `kv_settings` — millisecond settings read from key-value records.
  - `server_args`, `migrations`, `text`, `error` — command line, migration
    statements, decimal/UUID text, error kinds.
- `tests/` — tests of the library on concrete values.
- `app/` — the program: database access, RPC registration, the scheduler
  loop and other I/O, calling the library for every decision.
