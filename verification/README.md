# task_scheduler

An HTTP task scheduler. Clients submit tasks with a priority; a background
loop takes them out most urgent first (lowest priority number, then greatest
id), processes them, and records whether each one completed or failed.

## Layout

- `src/` — the library, verified with Verus:
  - `task.rs`: tasks, their order of service, statuses and errors;
  - `queue.rs`: the waiting queue and the law of which task it serves first;
  - `storage.rs`: the in-memory record of statuses, status queries by id
    text, and the database row form of a status;
  - `ids.rs`: task ids (UUIDs as `u128`), their text, and the calls into the
    `uuid` crate;
  - `scheduler.rs`: submission with a capacity, polling, finishing, and the
    laws that tie a submission or a finish to later status queries;
  - `api.rs`, `config.rs`, `mandelbrot.rs`: URLs and responses of the HTTP
    interface, settings, and the integer part of the Mandelbrot rendering.
- `app/` — the service around it: axum routes, the tokio processing loop,
  PostgreSQL persistence, image rendering and SOL transfers.
- `tests/` — tests of the library.
