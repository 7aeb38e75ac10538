# oneclaw_runtime

Lifecycle types and provider logic for containerized agent runtimes on three
backends: local Docker, Google Kubernetes Engine, and Cloud Run.

## Layout

- `src/` — the library, proved with Verus.
  - `types.rs`, `spec.rs`, `handle.rs`: presets, statuses, errors, the runtime
    spec and its builder, runtime handles, log and exec records.
  - `string_map.rs`: an insertion-ordered text map (environment variables and
    handle metadata) with its read-after-write law.
  - `ids.rs`, `time.rs`, `text.rs`: UUID text, instants, decimal numerals,
    line splitting and other text operations.
  - `providers/`: for each backend, what it decides around its I/O — the image
    allowlist and the hardened container plan (Docker), deployment names,
    limits and replica status (GKE), service names (Cloud Run), and the handles,
    log entries and exec results built from what the backend reports.
- `app/` — the async `RuntimeProvider` trait and the clients that talk to the
  Docker engine and the Kubernetes API, plus serde/thiserror forms of the types.
- `tests/` — tests of the library on concrete values.
